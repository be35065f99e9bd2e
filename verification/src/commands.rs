//! What an operator can do: the palette, the composer and the confirmation.

use vstd::prelude::*;
use vstd::view::View as _;

use crate::backend::supports_method;
use crate::protocol::{
    ControlLease, PlatformAction, PlatformMethod, ResourceCoordinate, ResourceKind, ResourceRecord,
};
use crate::state::{coordinate_key, key_of, CockpitModel, CockpitState, ConnectionState};

verus! {

/// An optional value by its view.
pub open spec fn viewed<T: vstd::view::View>(value: Option<T>) -> Option<T::V> {
    match value {
        Some(inner) => Some(inner@),
        None => None,
    }
}

/// A command that the palette can offer.
#[derive(Clone, Copy, Debug, PartialEq, Eq, Structural)]
pub enum AvailableCommand {
    Attach,
    Detach,
    ClaimControl,
    ReleaseControl,
    StartRun,
    StopRun,
    GrantApproval,
    DenyApproval,
    SubmitRequest,
    FollowUp,
    Steer,
    CycleLayout,
    Refresh,
}

impl AvailableCommand {
    /// The words under which the command is offered.
    pub open spec fn words(self) -> Seq<char> {
        match self {
            AvailableCommand::Attach => "Attach selected session as observer"@,
            AvailableCommand::Detach => "Detach focused observer pane"@,
            AvailableCommand::ClaimControl => "Claim exclusive short control lease"@,
            AvailableCommand::ReleaseControl => "Release focused control lease"@,
            AvailableCommand::StartRun => "Start selected ready run"@,
            AvailableCommand::StopRun => "Cancel selected active run"@,
            AvailableCommand::GrantApproval => "Grant selected approval revision"@,
            AvailableCommand::DenyApproval => "Deny selected approval revision"@,
            AvailableCommand::SubmitRequest => "Compose new durable request"@,
            AvailableCommand::FollowUp => "Compose follow-up for selected session"@,
            AvailableCommand::Steer => "Compose steering for focused control lease"@,
            AvailableCommand::CycleLayout => "Cycle pane layout"@,
            AvailableCommand::Refresh => "Reconcile from authoritative snapshot"@,
        }
    }

    /// The words under which the command is offered.
    pub fn label(self) -> (label: &'static str)
        ensures
            label@ == self.words(),
    {
        match self {
            AvailableCommand::Attach => "Attach selected session as observer",
            AvailableCommand::Detach => "Detach focused observer pane",
            AvailableCommand::ClaimControl => "Claim exclusive short control lease",
            AvailableCommand::ReleaseControl => "Release focused control lease",
            AvailableCommand::StartRun => "Start selected ready run",
            AvailableCommand::StopRun => "Cancel selected active run",
            AvailableCommand::GrantApproval => "Grant selected approval revision",
            AvailableCommand::DenyApproval => "Deny selected approval revision",
            AvailableCommand::SubmitRequest => "Compose new durable request",
            AvailableCommand::FollowUp => "Compose follow-up for selected session",
            AvailableCommand::Steer => "Compose steering for focused control lease",
            AvailableCommand::CycleLayout => "Cycle pane layout",
            AvailableCommand::Refresh => "Reconcile from authoritative snapshot",
        }
    }
}

/// An open palette.
#[derive(Clone, Debug)]
pub struct PaletteState {
    pub commands: Vec<AvailableCommand>,
    pub selected: usize,
}

/// An open palette, over sequences.
#[verifier::ext_equal]
pub struct PaletteModel {
    pub commands: Seq<AvailableCommand>,
    pub selected: nat,
}

impl vstd::view::View for PaletteState {
    type V = PaletteModel;

    open spec fn view(&self) -> PaletteModel {
        PaletteModel { commands: self.commands@, selected: self.selected as nat }
    }
}

/// Whether a list holds an action.
pub fn lists_action(actions: &Vec<PlatformAction>, action: PlatformAction) -> (found: bool)
    ensures
        found == actions@.contains(action),
{
    let mut at: usize = 0;
    while at < actions.len()
        invariant
            at <= actions@.len(),
            forall|i: int| 0 <= i < at ==> actions@[i] != action,
        decreases actions@.len() - at,
    {
        if actions[at] == action {
            return true;
        }
        at += 1;
    }
    false
}

/// One command, where a condition holds.
pub open spec fn offered_if(condition: bool, command: AvailableCommand) -> Seq<AvailableCommand> {
    if condition {
        seq![command]
    } else {
        Seq::empty()
    }
}

impl CockpitModel {
    /// Whether the authority supports a method.
    pub open spec fn supports(self, method: PlatformMethod) -> bool {
        self.overview.methods.contains(method.name())
    }

    /// Whether the authority takes an action: its registry holds it, and it executes actions at
    /// all.
    pub open spec fn takes(self, action: PlatformAction) -> bool {
        self.supports(PlatformMethod::Execute) && self.overview.actions.contains(action)
    }

    /// Whether the focused pane holds a control lease.
    pub open spec fn holds_control(self) -> bool {
        self.has_focus() && self.focus().control is Some
    }

    /// The commands on the selected record, where it is current.
    pub open spec fn selection_offers(self, kind: ResourceKind) -> Seq<AvailableCommand> {
        match kind {
            ResourceKind::Session => offered_if(
                self.supports(PlatformMethod::Attach),
                AvailableCommand::Attach,
            ) + offered_if(
                self.supports(PlatformMethod::ClaimControl),
                AvailableCommand::ClaimControl,
            ) + offered_if(self.takes(PlatformAction::FollowUp), AvailableCommand::FollowUp),
            ResourceKind::Run => offered_if(
                self.takes(PlatformAction::StartRun),
                AvailableCommand::StartRun,
            ) + offered_if(self.takes(PlatformAction::StopRun), AvailableCommand::StopRun),
            ResourceKind::Approval => offered_if(
                self.takes(PlatformAction::DecideApproval),
                AvailableCommand::GrantApproval,
            ) + offered_if(
                self.takes(PlatformAction::DecideApproval),
                AvailableCommand::DenyApproval,
            ),
            ResourceKind::Node => offered_if(
                self.takes(PlatformAction::SubmitRequest),
                AvailableCommand::SubmitRequest,
            ),
            _ => Seq::empty(),
        }
    }

    /// The commands on the attached panes.
    pub open spec fn pane_offers(self) -> Seq<AvailableCommand> {
        if self.panes.len() == 0 {
            Seq::empty()
        } else {
            offered_if(self.supports(PlatformMethod::Detach), AvailableCommand::Detach)
                + offered_if(
                self.supports(PlatformMethod::ReleaseControl) && self.holds_control(),
                AvailableCommand::ReleaseControl,
            ) + offered_if(
                self.takes(PlatformAction::Steer) && self.holds_control(),
                AvailableCommand::Steer,
            ) + seq![AvailableCommand::CycleLayout]
        }
    }

    /// Everything the palette offers: a target that is not current allows nothing but a refresh.
    pub open spec fn offers(self) -> Seq<AvailableCommand> {
        match self.selected() {
            Some(record) => if record.freshness.fresh() {
                seq![AvailableCommand::Refresh] + self.selection_offers(record.resource.kind)
                    + self.pane_offers()
            } else {
                seq![AvailableCommand::Refresh]
            },
            None => seq![AvailableCommand::Refresh] + self.pane_offers(),
        }
    }
}

fn push_if(commands: &mut Vec<AvailableCommand>, condition: bool, command: AvailableCommand)
    ensures
        final(commands)@ == old(commands)@ + offered_if(condition, command),
{
    if condition {
        commands.push(command);
    }
}

fn takes(state: &CockpitState, action: PlatformAction) -> (taken: bool)
    ensures
        taken == state@.takes(action),
{
    supports_method(&state.overview.capabilities.methods, &PlatformMethod::Execute)
        && lists_action(&state.overview.actions, action)
}

fn supports(state: &CockpitState, method: PlatformMethod) -> (supported: bool)
    ensures
        supported == state@.supports(method),
{
    supports_method(&state.overview.capabilities.methods, &method)
}

/// The lease that the focused pane holds.
pub fn focused_lease(state: &CockpitState) -> (lease: Option<&ControlLease>)
    ensures
        match lease {
            Some(lease) => state@.holds_control() && state@.focus().control == Some(*lease),
            None => !state@.holds_control(),
        },
{
    if state.focused_pane < state.panes.len() {
        proof {
            assert(state@.focus() == state.panes@[state.focused_pane as int]@);
        }
        state.panes[state.focused_pane].control.as_ref()
    } else {
        None
    }
}

fn push_selection_commands(
    commands: &mut Vec<AvailableCommand>,
    state: &CockpitState,
    kind: &ResourceKind,
)
    ensures
        final(commands)@ == old(commands)@ + state@.selection_offers(*kind),
{
    let ghost before = commands@;
    match kind {
        ResourceKind::Session => {
            push_if(commands, supports(state, PlatformMethod::Attach), AvailableCommand::Attach);
            push_if(
                commands,
                supports(state, PlatformMethod::ClaimControl),
                AvailableCommand::ClaimControl,
            );
            push_if(commands, takes(state, PlatformAction::FollowUp), AvailableCommand::FollowUp);
        },
        ResourceKind::Run => {
            push_if(commands, takes(state, PlatformAction::StartRun), AvailableCommand::StartRun);
            push_if(commands, takes(state, PlatformAction::StopRun), AvailableCommand::StopRun);
        },
        ResourceKind::Approval => {
            let decides = takes(state, PlatformAction::DecideApproval);
            push_if(commands, decides, AvailableCommand::GrantApproval);
            push_if(commands, decides, AvailableCommand::DenyApproval);
        },
        ResourceKind::Node => {
            push_if(
                commands,
                takes(state, PlatformAction::SubmitRequest),
                AvailableCommand::SubmitRequest,
            );
        },
        _ => {},
    }
    proof {
        assert(commands@ =~= before + state@.selection_offers(*kind));
    }
}

fn push_pane_commands(commands: &mut Vec<AvailableCommand>, state: &CockpitState)
    ensures
        final(commands)@ == old(commands)@ + state@.pane_offers(),
{
    let ghost before = commands@;
    if state.panes.len() > 0 {
        let controls = focused_lease(state).is_some();
        push_if(commands, supports(state, PlatformMethod::Detach), AvailableCommand::Detach);
        push_if(
            commands,
            supports(state, PlatformMethod::ReleaseControl) && controls,
            AvailableCommand::ReleaseControl,
        );
        push_if(
            commands,
            takes(state, PlatformAction::Steer) && controls,
            AvailableCommand::Steer,
        );
        commands.push(AvailableCommand::CycleLayout);
    }
    proof {
        assert(commands@ =~= before + state@.pane_offers());
    }
}

/// Everything the palette offers for the selection and the focused pane.
pub fn available_commands(state: &CockpitState) -> (commands: Vec<AvailableCommand>)
    ensures
        commands@ == state@.offers(),
{
    let mut commands: Vec<AvailableCommand> = Vec::new();
    commands.push(AvailableCommand::Refresh);
    proof {
        assert(commands@ =~= seq![AvailableCommand::Refresh]);
    }
    if let Some(record) = state.selected_resource() {
        if !record.freshness.is_fresh() {
            return commands;
        }
        push_selection_commands(&mut commands, state, &record.resource.kind);
    }
    push_pane_commands(&mut commands, state);
    commands
}

/// A mutation that waits for an explicit confirmation.
#[derive(Clone, Debug, PartialEq, Eq)]
pub struct PendingAction {
    pub action: PlatformAction,
    pub target: ResourceCoordinate,
    pub expected_revision: u64,
    pub parameter: Option<String>,
    pub idempotency_key: String,
    pub title: &'static str,
    pub consequence: &'static str,
    pub target_label: String,
}

/// A mutation that waits for an explicit confirmation, over character sequences.
#[verifier::ext_equal]
pub struct PendingModel {
    pub action: PlatformAction,
    pub target: ResourceCoordinate,
    pub expected_revision: u64,
    pub parameter: Option<Seq<char>>,
    pub idempotency_key: Seq<char>,
    pub title: Seq<char>,
    pub consequence: Seq<char>,
    pub target_label: Seq<char>,
}

impl vstd::view::View for PendingAction {
    type V = PendingModel;

    open spec fn view(&self) -> PendingModel {
        PendingModel {
            action: self.action,
            target: self.target,
            expected_revision: self.expected_revision,
            parameter: viewed(self.parameter),
            idempotency_key: self.idempotency_key@,
            title: self.title@,
            consequence: self.consequence@,
            target_label: self.target_label@,
        }
    }
}

/// What the operator sees of a mutation before it is confirmed.
#[derive(Clone, Copy, Debug)]
pub struct ConfirmationView<'a> {
    pub title: &'a str,
    pub target: &'a str,
    pub revision: u64,
    pub consequence: &'a str,
}

/// What the operator sees of an open palette.
#[derive(Clone, Copy, Debug)]
pub struct PaletteView<'a> {
    pub commands: &'a [&'a str],
    pub selected: usize,
}

/// What the operator sees of an open composer.
#[derive(Clone, Copy, Debug)]
pub struct ComposerView<'a> {
    pub operation: &'a str,
    pub target: &'a str,
    pub text: &'a str,
}

/// The action behind a command that needs a confirmation, its parameter, its title and its
/// consequence, where the command fits the target.
pub open spec fn confirmable(command: AvailableCommand, kind: ResourceKind) -> Option<
    (PlatformAction, Option<Seq<char>>, Seq<char>, Seq<char>),
> {
    if command is StartRun && kind is Run {
        Some(
            (
                PlatformAction::StartRun,
                None,
                "Start run"@,
                "The exact ready run is admitted once; retries reconcile by idempotency key."@,
            ),
        )
    } else if command is StopRun && kind is Run {
        Some(
            (
                PlatformAction::StopRun,
                None,
                "Cancel run"@,
                "Cancellation targets the exact run; terminal state is reconciled separately."@,
            ),
        )
    } else if command is GrantApproval && kind is Approval {
        Some(
            (
                PlatformAction::DecideApproval,
                Some("grant"@),
                "Grant approval"@,
                "Only this approval revision is granted; provider permission remains separate."@,
            ),
        )
    } else if command is DenyApproval && kind is Approval {
        Some(
            (
                PlatformAction::DecideApproval,
                Some("deny"@),
                "Deny approval"@,
                "Only this approval revision is denied and the decision is durably audited."@,
            ),
        )
    } else {
        None
    }
}

/// The mutation that a command on a target asks to confirm.
pub open spec fn pending_for(
    command: AvailableCommand,
    target: ResourceRecord,
    key: Option<Seq<char>>,
) -> Option<PendingModel> {
    match (confirmable(command, target.resource.kind), key) {
        (Some((action, parameter, title, consequence)), Some(idempotency_key)) => Some(
            PendingModel {
                action,
                target: target.resource,
                expected_revision: target.freshness.revision,
                parameter,
                idempotency_key,
                title,
                consequence,
                target_label: key_of(target.resource@),
            },
        ),
        _ => None,
    }
}

/// The action behind a command that needs a confirmation.
pub fn confirmable_action(command: AvailableCommand, kind: &ResourceKind) -> (action: Option<
    PlatformAction,
>)
    ensures
        match confirmable(command, *kind) {
            Some((known, _, _, _)) => action == Some(known),
            None => action is None,
        },
{
    match (command, kind) {
        (AvailableCommand::StartRun, ResourceKind::Run) => Some(PlatformAction::StartRun),
        (AvailableCommand::StopRun, ResourceKind::Run) => Some(PlatformAction::StopRun),
        (AvailableCommand::GrantApproval, ResourceKind::Approval) => Some(
            PlatformAction::DecideApproval,
        ),
        (AvailableCommand::DenyApproval, ResourceKind::Approval) => Some(
            PlatformAction::DecideApproval,
        ),
        _ => None,
    }
}

impl PendingAction {
    /// The mutation that a command on a target asks to confirm. There is none where the command
    /// does not fit the target, or where no identity could be given to the interaction.
    pub fn for_command(
        command: AvailableCommand,
        target: ResourceRecord,
        key: Option<String>,
    ) -> (pending: Option<Self>)
        ensures
            viewed(pending) == pending_for(command, target, viewed(key)),
    {
        let (action, parameter, title, consequence) = match (command, &target.resource.kind) {
            (AvailableCommand::StartRun, ResourceKind::Run) => (
                PlatformAction::StartRun,
                None,
                "Start run",
                "The exact ready run is admitted once; retries reconcile by idempotency key.",
            ),
            (AvailableCommand::StopRun, ResourceKind::Run) => (
                PlatformAction::StopRun,
                None,
                "Cancel run",
                "Cancellation targets the exact run; terminal state is reconciled separately.",
            ),
            (AvailableCommand::GrantApproval, ResourceKind::Approval) => (
                PlatformAction::DecideApproval,
                Some("grant".to_owned()),
                "Grant approval",
                "Only this approval revision is granted; provider permission remains separate.",
            ),
            (AvailableCommand::DenyApproval, ResourceKind::Approval) => (
                PlatformAction::DecideApproval,
                Some("deny".to_owned()),
                "Deny approval",
                "Only this approval revision is denied and the decision is durably audited.",
            ),
            _ => {
                return None;
            },
        };
        let target_label = coordinate_key(&target.resource);
        match key {
            Some(idempotency_key) => Some(
                PendingAction {
                    action,
                    expected_revision: target.freshness.revision,
                    target: target.resource,
                    parameter,
                    idempotency_key,
                    title,
                    consequence,
                    target_label,
                },
            ),
            None => None,
        }
    }

    /// What the operator sees of the mutation before it is confirmed.
    pub fn confirmation_view(&self) -> (view: ConfirmationView<'_>)
        ensures
            view.title@ == self@.title,
            view.target@ == self@.target_label,
            view.revision == self@.expected_revision,
            view.consequence@ == self@.consequence,
    {
        ConfirmationView {
            title: self.title,
            target: self.target_label.as_str(),
            revision: self.expected_revision,
            consequence: self.consequence,
        }
    }
}

/// A text that is being composed against one revision of one target.
#[derive(Clone, Debug, PartialEq, Eq)]
pub struct RequestComposer {
    pub action: PlatformAction,
    pub target: ResourceCoordinate,
    pub expected_revision: u64,
    pub target_label: String,
    pub text: String,
}

/// A text that is being composed, over character sequences.
#[verifier::ext_equal]
pub struct ComposerModel {
    pub action: PlatformAction,
    pub target: ResourceCoordinate,
    pub expected_revision: u64,
    pub target_label: Seq<char>,
    pub text: Seq<char>,
}

impl vstd::view::View for RequestComposer {
    type V = ComposerModel;

    open spec fn view(&self) -> ComposerModel {
        ComposerModel {
            action: self.action,
            target: self.target,
            expected_revision: self.expected_revision,
            target_label: self.target_label@,
            text: self.text@,
        }
    }
}

/// The title and the consequence of an action that carries a composed text.
pub open spec fn composable(action: PlatformAction) -> Option<(Seq<char>, Seq<char>)> {
    match action {
        PlatformAction::SubmitRequest => Some(
            (
                "Submit durable request"@,
                "The text enters node intake once and is reconciled by idempotency key."@,
            ),
        ),
        PlatformAction::FollowUp => Some(
            (
                "Submit session follow-up"@,
                "The text is durably queued against this exact provider session revision."@,
            ),
        ),
        PlatformAction::Steer => Some(
            (
                "Steer active turn"@,
                "The text reaches the active turn once, under this exact control lease revision."@,
            ),
        ),
        _ => None,
    }
}

impl ComposerModel {
    /// The mutation that the composed text asks to confirm.
    pub open spec fn pending(self, accepted: bool, key: Option<Seq<char>>) -> Option<
        PendingModel,
    > {
        match (composable(self.action), key) {
            (Some((title, consequence)), Some(idempotency_key)) => if accepted {
                Some(
                    PendingModel {
                        action: self.action,
                        target: self.target,
                        expected_revision: self.expected_revision,
                        parameter: Some(self.text),
                        idempotency_key,
                        title,
                        consequence,
                        target_label: self.target_label,
                    },
                )
            } else {
                None
            },
            _ => None,
        }
    }
}

impl RequestComposer {
    /// What the operator sees of the composer.
    pub fn composer_view(&self) -> (view: ComposerView<'_>)
        ensures
            view.operation@ == self@.action.name(),
            view.target@ == self@.target_label,
            view.text@ == self@.text,
    {
        ComposerView {
            operation: self.action.as_str(),
            target: self.target_label.as_str(),
            text: self.text.as_str(),
        }
    }

    /// The mutation that the composed text asks to confirm. There is none where the platform
    /// does not accept the text, where the action carries no text, or where no identity could be
    /// given to the interaction.
    pub fn into_pending(self, accepted: bool, key: Option<String>) -> (pending: Option<
        PendingAction,
    >)
        ensures
            viewed(pending) == self@.pending(accepted, viewed(key)),
    {
        if !accepted {
            return None;
        }
        let (title, consequence) = match self.action {
            PlatformAction::SubmitRequest => (
                "Submit durable request",
                "The text enters node intake once and is reconciled by idempotency key.",
            ),
            PlatformAction::FollowUp => (
                "Submit session follow-up",
                "The text is durably queued against this exact provider session revision.",
            ),
            PlatformAction::Steer => (
                "Steer active turn",
                "The text reaches the active turn once, under this exact control lease revision.",
            ),
            _ => {
                return None;
            },
        };
        match key {
            Some(idempotency_key) => Some(
                PendingAction {
                    action: self.action,
                    target: self.target,
                    expected_revision: self.expected_revision,
                    parameter: Some(self.text),
                    idempotency_key,
                    title,
                    consequence,
                    target_label: self.target_label,
                },
            ),
            None => None,
        }
    }
}

/// The identity of a control lease as a target.
pub open spec fn lease_target(lease: ControlLease) -> ResourceCoordinate {
    ResourceCoordinate {
        authority: lease.session.authority,
        kind: ResourceKind::ControlLease,
        id: lease.id,
    }
}

/// The identity of a control lease as a target.
pub fn lease_coordinate(lease: &ControlLease) -> (target: ResourceCoordinate)
    ensures
        target == lease_target(*lease),
{
    ResourceCoordinate {
        authority: lease.session.authority.clone(),
        kind: ResourceKind::ControlLease,
        id: lease.id.clone(),
    }
}

impl CockpitModel {
    /// The composer that a command opens, or the words that say why it opens none.
    ///
    /// Steering is composed against the lease that the focused pane holds; every other text
    /// against the selected record.
    pub open spec fn composed(self, command: AvailableCommand) -> Result<
        ComposerModel,
        Seq<char>,
    > {
        if self.connection != ConnectionState::Live {
            Err("composition disabled while snapshot is stale"@)
        } else if command is Steer {
            if !self.holds_control() {
                Err("focused pane holds no control lease"@)
            } else if !self.overview.actions.contains(PlatformAction::Steer) {
                Err("server does not advertise this composition action"@)
            } else {
                let lease = self.focus().control->0;
                Ok(
                    ComposerModel {
                        action: PlatformAction::Steer,
                        target: lease_target(lease),
                        expected_revision: lease.revision,
                        target_label: key_of(lease_target(lease)@),
                        text: Seq::empty(),
                    },
                )
            }
        } else {
            match self.selected() {
                None => Err("select an exact target before composing"@),
                Some(target) => if !target.freshness.fresh() {
                    Err("selected target is not fresh; composition disabled"@)
                } else if command is SubmitRequest && target.resource.kind is Node
                    && self.overview.actions.contains(PlatformAction::SubmitRequest) {
                    Ok(composer_on(PlatformAction::SubmitRequest, target))
                } else if command is FollowUp && target.resource.kind is Session
                    && self.overview.actions.contains(PlatformAction::FollowUp) {
                    Ok(composer_on(PlatformAction::FollowUp, target))
                } else {
                    Err("server does not advertise this composition action"@)
                },
            }
        }
    }

    /// The command that composes a text for the selected record.
    pub open spec fn composing_command(self) -> Option<AvailableCommand> {
        match self.selected() {
            Some(record) => match record.resource.kind {
                ResourceKind::Session => Some(AvailableCommand::FollowUp),
                ResourceKind::Node => Some(AvailableCommand::SubmitRequest),
                _ => None,
            },
            None => None,
        }
    }

    /// The composer for the selected record, or the words that say why there is none.
    pub open spec fn composed_for_selection(self) -> Result<ComposerModel, Seq<char>> {
        match self.composing_command() {
            Some(command) => self.composed(command),
            None => Err("select a node or session before composing"@),
        }
    }
}

/// An empty composer for an action on a record.
pub open spec fn composer_on(action: PlatformAction, target: ResourceRecord) -> ComposerModel {
    ComposerModel {
        action,
        target: target.resource,
        expected_revision: target.freshness.revision,
        target_label: key_of(target.resource@),
        text: Seq::empty(),
    }
}

/// Whether a composer was opened as described, or the state says why not and an open composer
/// stays as it is.
pub open spec fn opens(
    result: Result<ComposerModel, Seq<char>>,
    before: CockpitModel,
    composer_before: Option<RequestComposer>,
    after: CockpitModel,
    composer_after: Option<RequestComposer>,
) -> bool {
    match result {
        Ok(composer) => after == before && viewed(composer_after) == Some(composer),
        Err(words) => after == before.saying(words) && composer_after == composer_before,
    }
}

/// Opens a composer for the selected record: a follow-up to a session, a request to a node.
pub fn open_composer_for_selection(
    state: &mut CockpitState,
    composer: &mut Option<RequestComposer>,
)
    ensures
        opens(
            old(state)@.composed_for_selection(),
            old(state)@,
            *old(composer),
            final(state)@,
            *final(composer),
        ),
{
    let command = match state.selected_resource() {
        Some(record) => match record.resource.kind {
            ResourceKind::Session => Some(AvailableCommand::FollowUp),
            ResourceKind::Node => Some(AvailableCommand::SubmitRequest),
            _ => None,
        },
        None => None,
    };
    match command {
        Some(command) => open_composer(command, state, composer),
        None => {
            state.status = "select a node or session before composing".to_owned();
        },
    }
}

/// Opens a composer for a command.
pub fn open_composer(
    command: AvailableCommand,
    state: &mut CockpitState,
    composer: &mut Option<RequestComposer>,
)
    ensures
        opens(
            old(state)@.composed(command),
            old(state)@,
            *old(composer),
            final(state)@,
            *final(composer),
        ),
{
    if !state.connection.mutations_allowed() {
        state.status = "composition disabled while snapshot is stale".to_owned();
        return;
    }
    let (action, target, expected_revision) = if matches!(command, AvailableCommand::Steer) {
        match focused_lease(state) {
            None => {
                state.status = "focused pane holds no control lease".to_owned();
                return;
            },
            Some(lease) => {
                if !lists_action(&state.overview.actions, PlatformAction::Steer) {
                    state.status = "server does not advertise this composition action".to_owned();
                    return;
                }
                (PlatformAction::Steer, lease_coordinate(lease), lease.revision)
            },
        }
    } else {
        match state.selected_resource() {
            None => {
                state.status = "select an exact target before composing".to_owned();
                return;
            },
            Some(record) => {
                if !record.freshness.is_fresh() {
                    state.status = "selected target is not fresh; composition disabled".to_owned();
                    return;
                }
                let action = match (command, &record.resource.kind) {
                    (AvailableCommand::SubmitRequest, ResourceKind::Node) => if lists_action(
                        &state.overview.actions,
                        PlatformAction::SubmitRequest,
                    ) {
                        Some(PlatformAction::SubmitRequest)
                    } else {
                        None
                    },
                    (AvailableCommand::FollowUp, ResourceKind::Session) => if lists_action(
                        &state.overview.actions,
                        PlatformAction::FollowUp,
                    ) {
                        Some(PlatformAction::FollowUp)
                    } else {
                        None
                    },
                    _ => None,
                };
                match action {
                    Some(action) => (action, record.resource.clone(), record.freshness.revision),
                    None => {
                        state.status =
                        "server does not advertise this composition action".to_owned();
                        return;
                    },
                }
            },
        }
    };
    let target_label = coordinate_key(&target);
    *composer = Some(
        RequestComposer { action, target, expected_revision, target_label, text: String::new() },
    );
}

} // verus!
