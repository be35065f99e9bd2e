//! Interactions with the serving authority, as steps.
//!
//! A step says what to do next: name the interaction, or send a request. What came of it is
//! handed to the function that resumes the interaction. Nothing here waits.

use vstd::prelude::*;
use vstd::view::View as _;

use crate::backend::{
    attach, attach_result, claim_control, claim_control_result, detach, detach_result, receipt,
    receipt_result, release_control, release_control_result, BackendError, Reply,
};
use crate::commands::{
    confirmable, confirmable_action, lease_coordinate, lease_target, open_composer, opens,
    pending_for, viewed, AvailableCommand, PendingAction, PendingModel, RequestComposer,
};
use crate::protocol::{
    ControlLease, CoordinateModel, ExecuteRequest, PlatformAction, PlatformRequest,
    ResourceCoordinate, ResourceRecord, SessionRecord,
};
use crate::state::{
    find_record, find_session, record_position, session_position, CockpitModel, CockpitState,
    ConnectionState, PaneModel,
};

verus! {

/// What an interaction is named after.
#[derive(Clone, Copy, Debug, PartialEq, Eq, Structural)]
pub enum Interaction {
    Claim,
    Release,
    ExitRelease,
    Act(PlatformAction),
}

impl Interaction {
    /// The word for the interaction in its idempotency key.
    pub open spec fn word(self) -> Seq<char> {
        match self {
            Interaction::Claim => "claim"@,
            Interaction::Release => "release"@,
            Interaction::ExitRelease => "exit-release"@,
            Interaction::Act(action) => action.name(),
        }
    }

    /// The word for the interaction in its idempotency key.
    pub fn operation(self) -> (operation: &'static str)
        ensures
            operation@ == self.word(),
    {
        match self {
            Interaction::Claim => "claim",
            Interaction::Release => "release",
            Interaction::ExitRelease => "exit-release",
            Interaction::Act(action) => action.as_str(),
        }
    }
}

/// What a named interaction goes on with.
#[derive(Clone, Debug, PartialEq, Eq)]
pub enum Named {
    DetachRelease { lease: ControlLease, session: ResourceCoordinate },
    Claim { session: SessionRecord },
    Release { lease: ControlLease },
    Confirm { command: AvailableCommand, target: ResourceRecord },
}

/// What an answered request goes on with.
#[derive(Clone, Debug, PartialEq, Eq)]
pub enum Sent {
    Attach { session: SessionRecord },
    DetachRelease { lease: ControlLease, session: ResourceCoordinate },
    Detach { session: ResourceCoordinate },
    Claim { session: SessionRecord },
    Release { lease: ControlLease },
    Execute { key: String },
    Receipt { key: String },
}

/// What an interaction comes to next.
#[derive(Clone, Debug, PartialEq, Eq)]
pub enum Step {
    Done,
    Name { interaction: Interaction, then: Named },
    Send { request: PlatformRequest, then: Sent },
}

/// The request that releases a lease.
pub open spec fn releasing(lease: ControlLease, key: String) -> PlatformRequest {
    PlatformRequest::ReleaseControl {
        session: lease.session,
        client: lease.client,
        lease: lease.id,
        idempotency_key: key,
    }
}

/// The request that releases a lease.
pub fn release_request(lease: &ControlLease, key: String) -> (request: PlatformRequest)
    ensures
        request == releasing(*lease, key),
{
    PlatformRequest::ReleaseControl {
        session: lease.session.clone(),
        client: lease.client.clone(),
        lease: lease.id.clone(),
        idempotency_key: key,
    }
}

impl CockpitModel {
    /// The state with the focused pane's lease replaced.
    pub open spec fn with_control(self, control: Option<ControlLease>) -> CockpitModel {
        if self.has_focus() {
            self.with_focus(PaneModel { control, ..self.focus() })
        } else {
            self
        }
    }

    /// How an attach begins.
    pub open spec fn attach_begun(self, client: String) -> (CockpitModel, Step) {
        if self.connection != ConnectionState::Live {
            (self.saying("attach disabled while snapshot is stale"@), Step::Done)
        } else {
            match self.chosen_session() {
                None => (self.saying("select an attachable session first"@), Step::Done),
                Some(session) => if !session.attachable {
                    (
                        self.saying("selected session is read-only and not attachable"@),
                        Step::Done,
                    )
                } else {
                    (
                        self,
                        Step::Send {
                            request: PlatformRequest::Attach {
                                session: session.session.resource,
                                client,
                            },
                            then: Sent::Attach { session },
                        },
                    )
                },
            }
        }
    }

    /// How a detach begins: a lease is released first.
    pub open spec fn detach_begun(self, client: String) -> (CockpitModel, Step) {
        if !self.has_focus() {
            (self.saying("no attached pane to detach"@), Step::Done)
        } else {
            let session = self.focus().record.session.resource;
            match self.focus().control {
                Some(lease) => (
                    self,
                    Step::Name {
                        interaction: Interaction::Release,
                        then: Named::DetachRelease { lease, session },
                    },
                ),
                None => (
                    self,
                    Step::Send {
                        request: PlatformRequest::Detach { session, client },
                        then: Sent::Detach { session },
                    },
                ),
            }
        }
    }

    /// The session whose control is claimed next: the focused pane's, or else the selected one.
    pub open spec fn claimable(self) -> Option<SessionRecord> {
        if self.has_focus() {
            Some(self.focus().record)
        } else {
            self.chosen_session()
        }
    }

    /// How a claim of control begins.
    pub open spec fn claim_begun(self) -> (CockpitModel, Step) {
        if self.connection != ConnectionState::Live {
            (self.saying("control disabled while snapshot is stale"@), Step::Done)
        } else {
            match self.claimable() {
                None => (
                    self.saying("select or attach a controllable session first"@),
                    Step::Done,
                ),
                Some(session) => if !session.controllable {
                    (
                        self.saying("server marks the selected session non-controllable"@),
                        Step::Done,
                    )
                } else {
                    (
                        self,
                        Step::Name {
                            interaction: Interaction::Claim,
                            then: Named::Claim { session },
                        },
                    )
                },
            }
        }
    }

    /// How a release of control begins: the pane gives its lease up.
    pub open spec fn release_begun(self) -> (CockpitModel, Step) {
        if !self.has_focus() {
            (self.saying("no focused session pane"@), Step::Done)
        } else {
            match self.focus().control {
                None => (self.saying("focused pane holds no control lease"@), Step::Done),
                Some(lease) => (
                    self.with_control(None),
                    Step::Name {
                        interaction: Interaction::Release,
                        then: Named::Release { lease },
                    },
                ),
            }
        }
    }

    /// How a mutation that needs a confirmation begins.
    pub open spec fn confirmation_begun(self, command: AvailableCommand) -> (CockpitModel, Step) {
        if self.connection != ConnectionState::Live {
            (self.saying("mutation disabled while snapshot is stale"@), Step::Done)
        } else {
            match self.selected() {
                None => (self.saying("select an exact target first"@), Step::Done),
                Some(target) => match confirmable(command, target.resource.kind) {
                    Some((action, _, _, _)) => (
                        self,
                        Step::Name {
                            interaction: Interaction::Act(action),
                            then: Named::Confirm { command, target },
                        },
                    ),
                    None => (self, Step::Done),
                },
            }
        }
    }

    /// How a command begins.
    pub open spec fn commanded(self, command: AvailableCommand, client: String) -> (
        CockpitModel,
        Step,
    ) {
        match command {
            AvailableCommand::Attach => self.attach_begun(client),
            AvailableCommand::Detach => self.detach_begun(client),
            AvailableCommand::ClaimControl => self.claim_begun(),
            AvailableCommand::ReleaseControl => self.release_begun(),
            AvailableCommand::StartRun | AvailableCommand::StopRun
            | AvailableCommand::GrantApproval
            | AvailableCommand::DenyApproval => self.confirmation_begun(command),
            AvailableCommand::SubmitRequest | AvailableCommand::FollowUp
            | AvailableCommand::Steer => match self.composed(command) {
                Ok(_) => (self, Step::Done),
                Err(words) => (self.saying(words), Step::Done),
            },
            AvailableCommand::CycleLayout => (
                CockpitModel { pane_layout: self.pane_layout.successor(), ..self },
                Step::Done,
            ),
            AvailableCommand::Refresh => (
                CockpitModel { connection: ConnectionState::Reconnecting, ..self }.saying(
                    "authoritative resync requested"@,
                ),
                Step::Done,
            ),
        }
    }

    /// Whether a command withdraws an open confirmation: it does not fit the selected target.
    pub open spec fn withdraws(self, command: AvailableCommand) -> bool {
        &&& command is StartRun || command is StopRun || command is GrantApproval
            || command is DenyApproval
        &&& self.connection == ConnectionState::Live
        &&& self.selected() is Some
        &&& confirmable(command, self.selected()->0.resource.kind) is None
    }

    /// How an interaction goes on once it is named, or could not be.
    pub open spec fn named(self, then: Named, key: Option<String>, client: String) -> (
        CockpitModel,
        Step,
    ) {
        match (then, key) {
            (Named::DetachRelease { lease, session }, Some(key)) => (
                self,
                Step::Send {
                    request: releasing(lease, key),
                    then: Sent::DetachRelease { lease, session },
                },
            ),
            (Named::DetachRelease { .. }, None) => (
                self.saying("could not construct control release identity"@),
                Step::Done,
            ),
            (Named::Claim { session }, Some(key)) => (
                self,
                Step::Send {
                    request: PlatformRequest::ClaimControl {
                        session: session.session.resource,
                        client,
                        idempotency_key: key,
                    },
                    then: Sent::Claim { session },
                },
            ),
            (Named::Claim { .. }, None) => (
                self.saying("could not construct control claim identity"@),
                Step::Done,
            ),
            (Named::Release { lease }, Some(key)) => (
                self,
                Step::Send { request: releasing(lease, key), then: Sent::Release { lease } },
            ),
            (Named::Release { lease }, None) => (
                self.with_control(Some(lease)).saying(
                    "could not construct control release identity"@,
                ),
                Step::Done,
            ),
            (Named::Confirm { .. }, _) => (self, Step::Done),
        }
    }

    /// The first pane that shows a session.
    pub open spec fn pane_on(self, session: CoordinateModel) -> Option<int> {
        if exists|index: int| first_pane_on(self.panes, session, index) {
            Some(choose|index: int| first_pane_on(self.panes, session, index))
        } else {
            None
        }
    }

    /// The state once a lease was granted: the pane that shows the session holds it.
    pub open spec fn controlling(self, session: CoordinateModel, lease: ControlLease) -> CockpitModel {
        match self.pane_on(session) {
            Some(index) => CockpitModel {
                panes: self.panes.update(
                    index,
                    PaneModel { control: Some(lease), ..self.panes[index] },
                ),
                ..self
            },
            None => self,
        }
    }

    /// How an interaction goes on once its request is answered.
    pub open spec fn answered(self, then: Sent, reply: Reply, client: String) -> (
        CockpitModel,
        Step,
    ) {
        match then {
            Sent::Attach { session } => match attach_result(reply) {
                Ok(attachment) => (
                    self.attached(session, attachment).saying(
                        "attached to "@ + session.session.resource.id@ + " as observer"@,
                    ),
                    Step::Done,
                ),
                Err(error) => (self.saying("attach refused: "@ + error.words()), Step::Done),
            },
            Sent::DetachRelease { lease, session } => match release_control_result(reply, lease) {
                Ok(()) => (
                    self,
                    Step::Send {
                        request: PlatformRequest::Detach { session, client },
                        then: Sent::Detach { session },
                    },
                ),
                Err(error) => (
                    self.saying(
                        "control release refused; observer retained: "@ + error.words(),
                    ),
                    Step::Done,
                ),
            },
            Sent::Detach { session } => match detach_result(reply, session, client@) {
                Ok(()) => (
                    self.focus_removed().saying(
                        "detached observer from "@ + session.id@ + "; runner unchanged"@,
                    ),
                    Step::Done,
                ),
                Err(error) => (
                    self.saying("detach refused; observer pane retained: "@ + error.words()),
                    Step::Done,
                ),
            },
            Sent::Claim { session } => match claim_control_result(reply) {
                Ok(lease) => (
                    self.controlling(session.session.resource@, lease).saying(
                        "exclusive control lease claimed"@,
                    ),
                    Step::Done,
                ),
                Err(error) => (
                    self.saying("control refused or held elsewhere: "@ + error.words()),
                    Step::Done,
                ),
            },
            Sent::Release { lease } => match release_control_result(reply, lease) {
                Ok(()) => (
                    self.saying("control lease released; observer retained"@),
                    Step::Done,
                ),
                Err(error) => (
                    self.with_control(Some(lease)).saying(
                        "control release refused: "@ + error.words(),
                    ),
                    Step::Done,
                ),
            },
            Sent::Execute { key } => match receipt_result(reply) {
                Ok(receipt) => (self.receiving(receipt), Step::Done),
                Err(error) => if error is Refused {
                    (
                        self.saying("mutation refused without effect: "@ + error.words()),
                        Step::Done,
                    )
                } else {
                    (
                        self,
                        Step::Send {
                            request: PlatformRequest::GetReceipt { idempotency_key: key },
                            then: Sent::Receipt { key },
                        },
                    )
                },
            },
            Sent::Receipt { key } => match receipt_result(reply) {
                Ok(receipt) => (self.receiving(receipt), Step::Done),
                Err(_) => (
                    CockpitModel {
                        connection: ConnectionState::Stale,
                        ..self.awaiting(key@)
                    }.saying(
                        "submission outcome unknown; controls disabled until receipt reconciliation"@,
                    ),
                    Step::Done,
                ),
            },
        }
    }

    /// Whether a pane holds the lease with the given identity at the given revision.
    pub open spec fn holds_lease(self, target: CoordinateModel, revision: u64) -> bool {
        exists|i: int|
            0 <= i < self.panes.len() && holds(#[trigger] self.panes[i], target, revision)
    }

    /// The revision at which the state shows a resource.
    pub open spec fn shown_revision(self, target: CoordinateModel) -> Option<u64> {
        match find_record(self.overview.resources, target) {
            Some(index) => Some(self.overview.resources[index].freshness.revision),
            None => match find_session(self.overview.sessions, target) {
                Some(index) => Some(self.overview.sessions[index].session.freshness.revision),
                None => None,
            },
        }
    }

    /// Whether a mutation still stands against the revision that it was confirmed for: steering
    /// against a lease that is held, every other mutation against the shown revision.
    pub open spec fn still_stands(self, pending: PendingModel) -> bool {
        if pending.action is Steer {
            self.holds_lease(pending.target@, pending.expected_revision)
        } else {
            self.shown_revision(pending.target@) == Some(pending.expected_revision)
        }
    }

    /// How a confirmed mutation begins.
    pub open spec fn confirmed(self, pending: PendingAction) -> (CockpitModel, Step) {
        if self.connection != ConnectionState::Live {
            (
                self.saying("confirmation invalidated because the client is stale"@),
                Step::Done,
            )
        } else if !self.still_stands(pending@) {
            (
                self.saying("confirmation invalidated by a target revision change"@),
                Step::Done,
            )
        } else {
            (
                self,
                Step::Send {
                    request: PlatformRequest::Execute(
                        ExecuteRequest {
                            action: pending.action,
                            target: pending.target,
                            idempotency_key: pending.idempotency_key,
                            expected_revision: Some(pending.expected_revision),
                            parameter: pending.parameter,
                        },
                    ),
                    then: Sent::Execute { key: pending.idempotency_key },
                },
            )
        }
    }
}

/// Whether `index` is the first place in `panes` that shows the given session.
pub open spec fn first_pane_on(panes: Seq<PaneModel>, session: CoordinateModel, index: int) -> bool {
    &&& 0 <= index < panes.len()
    &&& panes[index].record.session.resource@ == session
    &&& forall|before: int|
        0 <= before < index ==> (#[trigger] panes[before]).record.session.resource@ != session
}

/// Whether a pane holds the lease with the given identity at the given revision.
pub open spec fn holds(pane: PaneModel, target: CoordinateModel, revision: u64) -> bool {
    &&& pane.control is Some
    &&& lease_target(pane.control->0)@ == target
    &&& pane.control->0.revision == revision
}

fn set_control(state: &mut CockpitState, control: Option<ControlLease>)
    ensures
        final(state)@ == old(state)@.with_control(control),
{
    if state.focused_pane < state.panes.len() {
        state.panes[state.focused_pane].control = control;
    }
}

fn begin_attach(client: &String, state: &mut CockpitState) -> (step: Step)
    ensures
        (final(state)@, step) == old(state)@.attach_begun(*client),
{
    if !state.connection.mutations_allowed() {
        state.status = "attach disabled while snapshot is stale".to_owned();
        return Step::Done;
    }
    let session = match state.selected_session() {
        Some(session) => session.clone(),
        None => {
            state.status = "select an attachable session first".to_owned();
            return Step::Done;
        },
    };
    if !session.attachable {
        state.status = "selected session is read-only and not attachable".to_owned();
        return Step::Done;
    }
    Step::Send {
        request: PlatformRequest::Attach {
            session: session.session.resource.clone(),
            client: client.clone(),
        },
        then: Sent::Attach { session },
    }
}

fn begin_detach(client: &String, state: &mut CockpitState) -> (step: Step)
    ensures
        (final(state)@, step) == old(state)@.detach_begun(*client),
{
    if state.focused_pane >= state.panes.len() {
        state.status = "no attached pane to detach".to_owned();
        return Step::Done;
    }
    let pane = &state.panes[state.focused_pane];
    let session = pane.record.session.resource.clone();
    match &pane.control {
        Some(lease) => Step::Name {
            interaction: Interaction::Release,
            then: Named::DetachRelease { lease: lease.clone(), session },
        },
        None => Step::Send {
            request: PlatformRequest::Detach { session: session.clone(), client: client.clone() },
            then: Sent::Detach { session },
        },
    }
}

fn begin_claim(state: &mut CockpitState) -> (step: Step)
    ensures
        (final(state)@, step) == old(state)@.claim_begun(),
{
    if !state.connection.mutations_allowed() {
        state.status = "control disabled while snapshot is stale".to_owned();
        return Step::Done;
    }
    let target = if state.focused_pane < state.panes.len() {
        Some(state.panes[state.focused_pane].record.clone())
    } else {
        match state.selected_session() {
            Some(session) => Some(session.clone()),
            None => None,
        }
    };
    let session = match target {
        Some(session) => session,
        None => {
            state.status = "select or attach a controllable session first".to_owned();
            return Step::Done;
        },
    };
    if !session.controllable {
        state.status = "server marks the selected session non-controllable".to_owned();
        return Step::Done;
    }
    Step::Name { interaction: Interaction::Claim, then: Named::Claim { session } }
}

fn begin_release(state: &mut CockpitState) -> (step: Step)
    ensures
        (final(state)@, step) == old(state)@.release_begun(),
{
    if state.focused_pane >= state.panes.len() {
        state.status = "no focused session pane".to_owned();
        return Step::Done;
    }
    let lease = match &state.panes[state.focused_pane].control {
        Some(lease) => lease.clone(),
        None => {
            state.status = "focused pane holds no control lease".to_owned();
            return Step::Done;
        },
    };
    set_control(state, None);
    Step::Name { interaction: Interaction::Release, then: Named::Release { lease } }
}

fn begin_confirmation(
    command: AvailableCommand,
    state: &mut CockpitState,
    confirmation: &mut Option<PendingAction>,
) -> (step: Step)
    requires
        command is StartRun || command is StopRun || command is GrantApproval
            || command is DenyApproval,
    ensures
        (final(state)@, step) == old(state)@.confirmation_begun(command),
        *final(confirmation) == if old(state)@.withdraws(command) {
            None
        } else {
            *old(confirmation)
        },
{
    if !state.connection.mutations_allowed() {
        state.status = "mutation disabled while snapshot is stale".to_owned();
        return Step::Done;
    }
    let target = match state.selected_resource() {
        Some(target) => target.clone(),
        None => {
            state.status = "select an exact target first".to_owned();
            return Step::Done;
        },
    };
    match confirmable_action(command, &target.resource.kind) {
        Some(action) => Step::Name {
            interaction: Interaction::Act(action),
            then: Named::Confirm { command, target },
        },
        None => {
            *confirmation = None;
            Step::Done
        },
    }
}

/// Begins a command. A command that composes opens a composer; a command that needs a
/// confirmation and does not fit the target withdraws an open one; nothing else touches either.
pub fn apply_command(
    command: AvailableCommand,
    client: &String,
    state: &mut CockpitState,
    confirmation: &mut Option<PendingAction>,
    composer: &mut Option<RequestComposer>,
) -> (step: Step)
    ensures
        (final(state)@, step) == old(state)@.commanded(command, *client),
        *final(confirmation) == if old(state)@.withdraws(command) {
            None
        } else {
            *old(confirmation)
        },
        if command is SubmitRequest || command is FollowUp || command is Steer {
            opens(
                old(state)@.composed(command),
                old(state)@,
                *old(composer),
                final(state)@,
                *final(composer),
            )
        } else {
            *final(composer) == *old(composer)
        },
{
    match command {
        AvailableCommand::Attach => begin_attach(client, state),
        AvailableCommand::Detach => begin_detach(client, state),
        AvailableCommand::ClaimControl => begin_claim(state),
        AvailableCommand::ReleaseControl => begin_release(state),
        AvailableCommand::StartRun | AvailableCommand::StopRun | AvailableCommand::GrantApproval
        | AvailableCommand::DenyApproval => begin_confirmation(command, state, confirmation),
        AvailableCommand::SubmitRequest | AvailableCommand::FollowUp | AvailableCommand::Steer => {
            open_composer(command, state, composer);
            Step::Done
        },
        AvailableCommand::CycleLayout => {
            state.pane_layout = state.pane_layout.next();
            Step::Done
        },
        AvailableCommand::Refresh => {
            state.connection = ConnectionState::Reconnecting;
            state.status = "authoritative resync requested".to_owned();
            Step::Done
        },
    }
}

/// Goes on with an interaction once it is named, or could not be.
pub fn resume_named(
    then: Named,
    key: Option<String>,
    client: &String,
    state: &mut CockpitState,
    confirmation: &mut Option<PendingAction>,
) -> (step: Step)
    ensures
        (final(state)@, step) == old(state)@.named(then, key, *client),
        match then {
            Named::Confirm { command, target } => viewed(*final(confirmation)) == pending_for(
                command,
                target,
                viewed(key),
            ),
            _ => *final(confirmation) == *old(confirmation),
        },
{
    match then {
        Named::DetachRelease { lease, session } => match key {
            Some(key) => Step::Send {
                request: release_request(&lease, key),
                then: Sent::DetachRelease { lease, session },
            },
            None => {
                state.status = "could not construct control release identity".to_owned();
                Step::Done
            },
        },
        Named::Claim { session } => match key {
            Some(key) => Step::Send {
                request: PlatformRequest::ClaimControl {
                    session: session.session.resource.clone(),
                    client: client.clone(),
                    idempotency_key: key,
                },
                then: Sent::Claim { session },
            },
            None => {
                state.status = "could not construct control claim identity".to_owned();
                Step::Done
            },
        },
        Named::Release { lease } => match key {
            Some(key) => Step::Send {
                request: release_request(&lease, key),
                then: Sent::Release { lease },
            },
            None => {
                set_control(state, Some(lease));
                state.status = "could not construct control release identity".to_owned();
                Step::Done
            },
        },
        Named::Confirm { command, target } => {
            *confirmation = PendingAction::for_command(command, target, key);
            Step::Done
        },
    }
}

fn refusal(prefix: &str, error: &BackendError) -> (words: String)
    ensures
        words@ == prefix@ + error.words(),
{
    let mut words = prefix.to_owned();
    words.append(error.message().as_str());
    words
}

/// Takes over the answer to an attach request.
fn finish_attach(session: SessionRecord, reply: Reply, state: &mut CockpitState)
    ensures
        forall|client: String|
            (final(state)@, Step::Done) == #[trigger] old(state)@.answered(
                Sent::Attach { session },
                reply,
                client,
            ),
{
    match attach(reply) {
        Ok(attachment) => {
            let mut status = "attached to ".to_owned();
            status.append(session.session.resource.id.as_str());
            status.append(" as observer");
            state.attach(session, attachment);
            state.status = status;
        },
        Err(error) => {
            state.status = refusal("attach refused: ", &error);
        },
    }
}

/// Takes over the answer to a detach request.
fn finish_detach(
    session: ResourceCoordinate,
    reply: Reply,
    client: &String,
    state: &mut CockpitState,
)
    ensures
        (final(state)@, Step::Done) == old(state)@.answered(
            Sent::Detach { session },
            reply,
            *client,
        ),
{
    match detach(reply, &session, client) {
        Ok(()) => {
            state.remove_focused_pane();
            let mut status = "detached observer from ".to_owned();
            status.append(session.id.as_str());
            status.append("; runner unchanged");
            state.status = status;
        },
        Err(error) => {
            state.status = refusal("detach refused; observer pane retained: ", &error);
        },
    }
}

/// The first pane that shows a session.
fn pane_showing(state: &CockpitState, session: &ResourceCoordinate) -> (position: Option<usize>)
    ensures
        match position {
            Some(index) => state@.pane_on(session@) == Some(index as int) && index
                < state.panes@.len(),
            None => state@.pane_on(session@) is None,
        },
{
    let ghost panes = state@.panes;
    let mut at: usize = 0;
    while at < state.panes.len()
        invariant
            at <= state.panes@.len(),
            panes == state@.panes,
            forall|i: int|
                0 <= i < at ==> (#[trigger] panes[i]).record.session.resource@ != session@,
        decreases state.panes@.len() - at,
    {
        proof {
            assert(panes[at as int] == state.panes@[at as int]@);
        }
        if state.panes[at].record.session.resource.is_same(session) {
            proof {
                assert(first_pane_on(panes, session@, at as int));
                let found = choose|index: int| first_pane_on(panes, session@, index);
                if found < at {
                    assert(panes[found].record.session.resource@ != session@);
                }
                if at < found {
                    assert(panes[at as int].record.session.resource@ != session@);
                }
            }
            return Some(at);
        }
        at += 1;
    }
    None
}

/// Takes over the answer to a claim of control.
fn finish_claim(session: SessionRecord, reply: Reply, state: &mut CockpitState)
    ensures
        forall|client: String|
            (final(state)@, Step::Done) == #[trigger] old(state)@.answered(
                Sent::Claim { session },
                reply,
                client,
            ),
{
    match claim_control(reply) {
        Ok(lease) => {
            if let Some(index) = pane_showing(state, &session.session.resource) {
                state.panes[index].control = Some(lease);
            }
            state.status = "exclusive control lease claimed".to_owned();
        },
        Err(error) => {
            state.status = refusal("control refused or held elsewhere: ", &error);
        },
    }
}

/// Takes over the answer to a release of control: a refused release gives the lease back to the
/// pane.
fn finish_release(lease: ControlLease, reply: Reply, state: &mut CockpitState)
    ensures
        forall|client: String|
            (final(state)@, Step::Done) == #[trigger] old(state)@.answered(
                Sent::Release { lease },
                reply,
                client,
            ),
{
    match release_control(reply, &lease) {
        Ok(()) => {
            state.status = "control lease released; observer retained".to_owned();
        },
        Err(error) => {
            set_control(state, Some(lease));
            state.status = refusal("control release refused: ", &error);
        },
    }
}

/// Goes on with an interaction once its request is answered.
///
/// A mutation that was neither answered nor refused may have taken effect. Its receipt is looked
/// for by its key; where that is not found either, the receipt is awaited and the state is stale.
pub fn resume_sent(then: Sent, reply: Reply, client: &String, state: &mut CockpitState) -> (step:
    Step)
    ensures
        (final(state)@, step) == old(state)@.answered(then, reply, *client),
{
    match then {
        Sent::Attach { session } => {
            finish_attach(session, reply, state);
            Step::Done
        },
        Sent::DetachRelease { lease, session } => match release_control(reply, &lease) {
            Ok(()) => Step::Send {
                request: PlatformRequest::Detach {
                    session: session.clone(),
                    client: client.clone(),
                },
                then: Sent::Detach { session },
            },
            Err(error) => {
                state.status = refusal("control release refused; observer retained: ", &error);
                Step::Done
            },
        },
        Sent::Detach { session } => {
            finish_detach(session, reply, client, state);
            Step::Done
        },
        Sent::Claim { session } => {
            finish_claim(session, reply, state);
            Step::Done
        },
        Sent::Release { lease } => {
            finish_release(lease, reply, state);
            Step::Done
        },
        Sent::Execute { key } => match receipt(reply) {
            Ok(receipt) => {
                state.push_receipt(receipt);
                Step::Done
            },
            Err(error) => {
                if let BackendError::Refused { .. } = &error {
                    state.status = refusal("mutation refused without effect: ", &error);
                    return Step::Done;
                }
                Step::Send {
                    request: PlatformRequest::GetReceipt { idempotency_key: key.clone() },
                    then: Sent::Receipt { key },
                }
            },
        },
        Sent::Receipt { key } => match receipt(reply) {
            Ok(receipt) => {
                state.push_receipt(receipt);
                Step::Done
            },
            Err(_) => {
                state.track_pending_receipt(key);
                state.connection = ConnectionState::Stale;
                state.status =
                "submission outcome unknown; controls disabled until receipt reconciliation".to_owned();
                Step::Done
            },
        },
    }
}

fn lease_is_held(state: &CockpitState, target: &ResourceCoordinate, revision: u64) -> (held: bool)
    ensures
        held == state@.holds_lease(target@, revision),
{
    let ghost panes = state@.panes;
    let mut at: usize = 0;
    while at < state.panes.len()
        invariant
            at <= state.panes@.len(),
            panes == state@.panes,
            forall|i: int| 0 <= i < at ==> !holds(#[trigger] panes[i], target@, revision),
        decreases state.panes@.len() - at,
    {
        proof {
            assert(panes[at as int] == state.panes@[at as int]@);
        }
        if let Some(lease) = &state.panes[at].control {
            if lease_coordinate(lease).is_same(target) && lease.revision == revision {
                proof {
                    assert(holds(panes[at as int], target@, revision));
                }
                return true;
            }
        }
        at += 1;
    }
    false
}

fn current_revision(state: &CockpitState, target: &ResourceCoordinate) -> (revision: Option<u64>)
    ensures
        revision == state@.shown_revision(target@),
{
    match record_position(&state.overview.resources, target) {
        Some(index) => Some(state.overview.resources[index].freshness.revision),
        None => match session_position(&state.overview.sessions, target) {
            Some(index) => Some(state.overview.sessions[index].session.freshness.revision),
            None => None,
        },
    }
}

/// Begins a confirmed mutation. It is sent only on a live connection and only while its target
/// stands at the revision that was confirmed.
pub fn execute_confirmed(pending: PendingAction, state: &mut CockpitState) -> (step: Step)
    ensures
        (final(state)@, step) == old(state)@.confirmed(pending),
{
    if !state.connection.mutations_allowed() {
        state.status = "confirmation invalidated because the client is stale".to_owned();
        return Step::Done;
    }
    let stands = if matches!(pending.action, PlatformAction::Steer) {
        lease_is_held(state, &pending.target, pending.expected_revision)
    } else {
        match current_revision(state, &pending.target) {
            Some(revision) => revision == pending.expected_revision,
            None => false,
        }
    };
    if !stands {
        state.status = "confirmation invalidated by a target revision change".to_owned();
        return Step::Done;
    }
    let key = pending.idempotency_key.clone();
    Step::Send {
        request: PlatformRequest::Execute(
            ExecuteRequest {
                action: pending.action,
                target: pending.target,
                idempotency_key: pending.idempotency_key,
                expected_revision: Some(pending.expected_revision),
                parameter: pending.parameter,
            },
        ),
        then: Sent::Execute { key },
    }
}

/// Ends a confirmed mutation whose typed request could not be formed.
pub fn refuse_locally(state: &mut CockpitState)
    ensures
        final(state)@ == old(state)@.saying("typed mutation failed local validation"@),
{
    state.status = "typed mutation failed local validation".to_owned();
}

} // verus!
