//! What holds of every interaction.

use vstd::prelude::*;
use vstd::view::View as _;

use crate::backend::{
    attach_result, receipt_result, release_control_result, OverviewModel, Reply,
};
use crate::commands::{lease_target, pending_for, AvailableCommand, PendingAction};
use crate::interaction::{first_pane_on, holds, Named, Sent, Step};
use crate::keys::{ConsoleModel, Decision, Key, KeyPress};
use crate::protocol::{
    ActionReceipt, ControlLease, CoordinateModel, ExecuteRequest, PlatformAction, PlatformRequest,
    ResourceRecord, Subscription,
};
use crate::reconcile::refreshing_reconciles_every_receipt;
use crate::schedule::{RefreshReason, Schedule};
use crate::state::{key_of, opened, CockpitModel, ConnectionState, View};
use crate::state_laws::{
    attaching_keeps_soundness, moving_focus_keeps_soundness, removing_keeps_soundness,
    reordering_keeps_soundness, replaying_keeps_receipts, waiting_is_kept, waiting_keeps_soundness,
};

verus! {

/// The requests that only observe a session or hold its lease. None of them starts, stops or
/// otherwise mutates what a provider runs.
pub open spec fn observes(request: PlatformRequest) -> bool {
    request is Attach || request is Detach || request is ClaimControl || request is ReleaseControl
        || request is GetReceipt
}

/// Whether a step sends nothing that mutates what a provider runs.
pub open spec fn step_observes(step: Step) -> bool {
    match step {
        Step::Send { request, .. } => observes(request),
        _ => true,
    }
}

/// No command, no name and no answer leads to a mutation: attaching, detaching, claiming and
/// releasing control only observe. A mutation is sent on an explicit confirmation only.
pub proof fn commands_only_observe(
    state: CockpitModel,
    command: AvailableCommand,
    then_named: Named,
    then_sent: Sent,
    key: Option<String>,
    reply: Reply,
    client: String,
)
    ensures
        step_observes(state.commanded(command, client).1),
        step_observes(state.named(then_named, key, client).1),
        step_observes(state.answered(then_sent, reply, client).1),
{
}

/// A confirmation comes from one key only: `y`, while the mutation is shown and nothing lies over
/// it. What is confirmed is the mutation that was shown.
pub proof fn only_an_explicit_key_confirms(console: ConsoleModel, press: KeyPress)
    ensures
        console.pressed(press).1 is Confirmed <==> {
            &&& console.composer is None
            &&& console.confirmation is Some
            &&& press.key == Key::Char('y') || press.key == Key::Char('Y')
        },
        console.pressed(press).1 is Confirmed ==> console.pressed(press).1 == Decision::Confirmed(
            console.confirmation->0,
        ),
{
}

/// A mutation is sent exactly where the connection is live and its target stands at the revision
/// that was confirmed. It names that target, that revision and the key it was given.
pub proof fn mutations_carry_what_was_confirmed(state: CockpitModel, pending: PendingAction)
    ensures
        state.confirmed(pending).1 is Send <==> state.connection == ConnectionState::Live
            && state.still_stands(pending@),
        state.confirmed(pending).1 is Send ==> state.confirmed(pending) == (
            state,
            Step::Send {
                request: PlatformRequest::Execute(
                    ExecuteRequest {
                        action: pending.action,
                        target: pending.target,
                        idempotency_key: pending.idempotency_key,
                        expected_revision: Some(pending.expected_revision),
                        parameter: pending.parameter,
                    },
                ),
                then: Sent::Execute { key: pending.idempotency_key },
            },
        ),
        state.confirmed(pending).1 !is Send ==> state.confirmed(pending).1 == Step::Done,
{
}

/// While the connection is not live, nothing can be attached, claimed, composed, started or
/// decided: such a command changes the status line and sends nothing, and a confirmation sends
/// nothing either.
pub proof fn read_only_client_sends_nothing(
    state: CockpitModel,
    command: AvailableCommand,
    client: String,
    pending: PendingAction,
)
    requires
        state.connection != ConnectionState::Live,
        command !is Detach,
        command !is ReleaseControl,
        command !is CycleLayout,
        command !is Refresh,
    ensures
        state.commanded(command, client).1 == Step::Done,
        exists|words: Seq<char>|
            #[trigger] state.saying(words) == state.commanded(command, client).0,
        state.composed(command) is Err,
        state.confirmed(pending).1 == Step::Done,
{
    let after = state.commanded(command, client).0;
    assert(state.saying(after.status) == after);
}

/// The action behind a command that mutates.
pub open spec fn action_behind(command: AvailableCommand) -> Option<PlatformAction> {
    match command {
        AvailableCommand::StartRun => Some(PlatformAction::StartRun),
        AvailableCommand::StopRun => Some(PlatformAction::StopRun),
        AvailableCommand::GrantApproval | AvailableCommand::DenyApproval => Some(
            PlatformAction::DecideApproval,
        ),
        AvailableCommand::SubmitRequest => Some(PlatformAction::SubmitRequest),
        AvailableCommand::FollowUp => Some(PlatformAction::FollowUp),
        AvailableCommand::Steer => Some(PlatformAction::Steer),
        _ => None,
    }
}

/// The palette offers a mutation only where the authority's registry holds its action and the
/// authority executes actions: generic support never enables an inferred mutation.
pub proof fn palette_offers_registered_actions_only(state: CockpitModel, command: AvailableCommand)
    requires
        state.offers().contains(command),
        action_behind(command) is Some,
    ensures
        state.takes(action_behind(command)->0),
{
    let place = choose|place: int|
        0 <= place < state.offers().len() && state.offers()[place] == command;
    offers_are_covered(state, place);
}

proof fn offers_are_covered(state: CockpitModel, place: int)
    requires
        0 <= place < state.offers().len(),
    ensures
        action_behind(state.offers()[place]) is Some ==> state.takes(
            action_behind(state.offers()[place])->0,
        ),
        state.offers()[place] is Steer ==> state.holds_control(),
{
    let refresh = seq![AvailableCommand::Refresh];
    pane_offers_are_covered(state);
    match state.selected() {
        Some(record) => {
            selection_offers_are_covered(state, record);
            let selection = state.selection_offers(record.resource.kind);
            if record.freshness.fresh() && place > 0 {
                if place < 1 + selection.len() {
                    assert(state.offers()[place] == selection[place - 1]);
                } else {
                    assert(state.offers()[place] == state.pane_offers()[place - 1
                        - selection.len()]);
                }
            }
        },
        None => {
            if place > 0 {
                assert(state.offers()[place] == state.pane_offers()[place - 1]);
            }
        },
    }
}

proof fn selection_offers_are_covered(state: CockpitModel, record: ResourceRecord)
    ensures
        forall|i: int|
            0 <= i < state.selection_offers(record.resource.kind).len() ==> {
                let command = #[trigger] state.selection_offers(record.resource.kind)[i];
                &&& action_behind(command) is Some ==> state.takes(action_behind(command)->0)
                &&& command !is Steer
            },
{
}

proof fn pane_offers_are_covered(state: CockpitModel)
    ensures
        forall|i: int|
            0 <= i < state.pane_offers().len() ==> {
                let command = #[trigger] state.pane_offers()[i];
                &&& action_behind(command) is Some ==> state.takes(action_behind(command)->0)
                &&& command is Steer ==> state.holds_control()
            },
{
}

/// Steering is offered only while the focused pane holds a control lease.
pub proof fn steering_needs_a_focused_lease(state: CockpitModel)
    ensures
        state.offers().contains(AvailableCommand::Steer) ==> state.holds_control(),
        state.composed(AvailableCommand::Steer) is Ok ==> state.holds_control(),
        state.composed(AvailableCommand::Steer) is Ok ==> {
            let lease = state.focus().control->0;
            let composer = state.composed(AvailableCommand::Steer)->Ok_0;
            &&& composer.action == PlatformAction::Steer
            &&& composer.target == lease_target(lease)
            &&& composer.expected_revision == lease.revision
        },
{
    if state.offers().contains(AvailableCommand::Steer) {
        let place = choose|place: int|
            0 <= place < state.offers().len() && state.offers()[place] == AvailableCommand::Steer;
        offers_are_covered(state, place);
    }
}

/// A steering confirmation does not outlive its lease: once no pane holds the lease at the
/// confirmed revision, nothing is sent and the state says so.
pub proof fn lease_loss_invalidates_steering(state: CockpitModel, pending: PendingAction)
    requires
        pending.action == PlatformAction::Steer,
        forall|i: int|
            0 <= i < state.panes.len() ==> !holds(
                #[trigger] state.panes[i],
                pending.target@,
                pending.expected_revision,
            ),
    ensures
        state.confirmed(pending).1 == Step::Done,
{
}

/// Steering begins in the palette only: no key begins it, and what is composed for the selection
/// never steers.
pub proof fn steering_comes_from_the_palette_only(console: ConsoleModel, press: KeyPress)
    ensures
        console.pressed(press).1 == Decision::Command(AvailableCommand::Steer) ==> {
            &&& console.palette is Some
            &&& console.palette->0.commands.contains(AvailableCommand::Steer)
        },
        console.state.composed_for_selection() is Ok
            ==> console.state.composed_for_selection()->Ok_0.action != PlatformAction::Steer,
{
}

/// Controls come back by reconciliation only: no key, command, name, answer or confirmation makes
/// a connection live that was not.
pub proof fn only_reconciliation_enables_controls(
    console: ConsoleModel,
    press: KeyPress,
    command: AvailableCommand,
    then_named: Named,
    then_sent: Sent,
    key: Option<String>,
    reply: Reply,
    client: String,
    pending: PendingAction,
)
    requires
        console.state.connection != ConnectionState::Live,
    ensures
        console.pressed(press).0.state.connection != ConnectionState::Live,
        console.state.commanded(command, client).0.connection != ConnectionState::Live,
        console.state.named(then_named, key, client).0.connection != ConnectionState::Live,
        console.state.answered(then_sent, reply, client).0.connection != ConnectionState::Live,
        console.state.confirmed(pending).0.connection != ConnectionState::Live,
{
}

impl CockpitModel {
    /// Whether no receipt is awaited while mutations are allowed.
    pub open spec fn settled(self) -> bool {
        self.connection == ConnectionState::Live ==> self.pending_receipts.len() == 0
    }
}

/// Mutations are never allowed while the outcome of one is unknown. A cockpit opens settled; no
/// key, command, name, answer or confirmation changes that, nor do the events that are asked for
/// on a live connection, nor a refresh that fails. One that succeeds leaves no receipt awaited.
pub proof fn unknown_outcomes_keep_mutations_disabled(
    overview: OverviewModel,
    console: ConsoleModel,
    press: KeyPress,
    command: AvailableCommand,
    then_named: Named,
    then_sent: Sent,
    key: Option<String>,
    reply: Reply,
    client: String,
    pending: PendingAction,
    schedule: Schedule,
    now: u64,
    subscription: Subscription,
    reason: RefreshReason,
    receipts: Seq<ActionReceipt>,
)
    requires
        console.state.settled(),
    ensures
        opened(overview).settled(),
        console.pressed(press).0.state.settled(),
        console.state.commanded(command, client).0.settled(),
        console.state.named(then_named, key, client).0.settled(),
        console.state.answered(then_sent, reply, client).0.settled(),
        console.state.confirmed(pending).0.settled(),
        schedule.events_due(console.state.connection, now) ==> console.state.subscribed(
            subscription,
        ).settled(),
        console.state.refresh_ended(reason, false).settled(),
        console.state.reconciled(console.state.pending_receipts, receipts).replaced(
            overview,
            console.state.connection != ConnectionState::Live,
        ).settled(),
{
    let state = console.state;
    keys_keep_it_settled(console, press);
    interactions_keep_it_settled(
        state,
        command,
        then_named,
        then_sent,
        key,
        reply,
        client,
        pending,
    );
    replaying_keeps_receipts(
        state,
        subscription.events@,
        state.resource_cursor.sequence,
        false,
    );
    refreshing_reconciles_every_receipt(
        state,
        receipts,
        overview,
        state.connection != ConnectionState::Live,
    );
}

proof fn keys_keep_it_settled(console: ConsoleModel, press: KeyPress)
    requires
        console.state.settled(),
    ensures
        console.pressed(press).0.state.settled(),
{
    if console.composer is None && console.confirmation is None && console.palette is None
        && !console.state.show_help {
        match press.key {
            Key::Char(character) => {
                typing_keeps_it_settled(console, character);
            },
            _ => {},
        }
    }
}

proof fn typing_keeps_it_settled(console: ConsoleModel, character: char)
    requires
        console.state.settled(),
    ensures
        console.typed(character).0.state.settled(),
{
}

proof fn interactions_keep_it_settled(
    state: CockpitModel,
    command: AvailableCommand,
    then_named: Named,
    then_sent: Sent,
    key: Option<String>,
    reply: Reply,
    client: String,
    pending: PendingAction,
)
    requires
        state.settled(),
    ensures
        state.commanded(command, client).0.settled(),
        state.named(then_named, key, client).0.settled(),
        state.answered(then_sent, reply, client).0.settled(),
        state.confirmed(pending).0.settled(),
{
}

/// Focus never authorizes anything: moving it changes no lease, no connection and no record.
pub proof fn focus_authorizes_nothing(state: CockpitModel, delta: int, pane: int)
    requires
        0 <= pane < state.panes.len(),
    ensures
        state.focus_moved(delta).panes.len() == state.panes.len(),
        state.focus_moved(delta).panes[pane].control == state.panes[pane].control,
        state.focus_moved(delta).connection == state.connection,
        state.focus_moved(delta).overview == state.overview,
        state.focus_moved(delta).pending_receipts == state.pending_receipts,
{
}

/// A target that is not current allows nothing but a refresh, and a refresh is always offered.
pub proof fn stale_target_allows_refresh_only(state: CockpitModel)
    ensures
        state.offers().len() > 0,
        state.offers()[0] == AvailableCommand::Refresh,
        state.selected() is Some && !state.selected()->0.freshness.fresh() ==> state.offers()
            == seq![AvailableCommand::Refresh],
{
}

/// Every mutation shows its exact target before it is confirmed: the label is the target's
/// authority, kind and identity.
pub proof fn confirmations_show_the_exact_target(
    state: CockpitModel,
    command: AvailableCommand,
    target: ResourceRecord,
    accepted: bool,
    key: Option<Seq<char>>,
)
    ensures
        pending_for(command, target, key) is Some ==> {
            let pending = pending_for(command, target, key)->0;
            pending.target_label == key_of(pending.target@) && pending.target == target.resource
                && pending.expected_revision == target.freshness.revision
        },
        state.composed(command) is Ok && state.composed(command)->Ok_0.pending(
            accepted,
            key,
        ) is Some ==> {
            let pending = state.composed(command)->Ok_0.pending(accepted, key)->0;
            pending.target_label == key_of(pending.target@)
        },
{
}

/// A submission whose outcome stays unknown, since neither it nor its receipt was answered, is
/// awaited by its key, and mutations are disabled.
pub proof fn unknown_submission_disables_mutations(
    state: CockpitModel,
    key: String,
    reply: Reply,
    receipt_reply: Reply,
    client: String,
)
    requires
        receipt_result(reply) is Err,
        receipt_result(reply)->Err_0 !is Refused,
        receipt_result(receipt_reply) is Err,
    ensures
        state.answered(Sent::Execute { key }, reply, client) == (
            state,
            Step::Send {
                request: PlatformRequest::GetReceipt { idempotency_key: key },
                then: Sent::Receipt { key },
            },
        ),
        state.answered(Sent::Receipt { key }, receipt_reply, client).0.connection
            == ConnectionState::Stale,
        state.answered(
            Sent::Receipt { key },
            receipt_reply,
            client,
        ).0.pending_receipts.contains(key@),
{
    waiting_is_kept(state, key@);
}

/// A mutation that the authority refuses, or whose receipt arrives, leaves the connection as it
/// was and awaits nothing.
pub proof fn answered_submission_awaits_nothing(
    state: CockpitModel,
    key: String,
    reply: Reply,
    client: String,
)
    requires
        receipt_result(reply) is Ok || receipt_result(reply)->Err_0 is Refused,
    ensures
        state.answered(Sent::Execute { key }, reply, client).1 == Step::Done,
        state.answered(Sent::Execute { key }, reply, client).0.connection == state.connection,
        state.answered(Sent::Execute { key }, reply, client).0.pending_receipts
            == state.pending_receipts,
{
}

/// A refused release gives the lease back: the panes are as they were before it began.
pub proof fn refused_release_restores_control(
    state: CockpitModel,
    key: String,
    reply: Reply,
    client: String,
)
    requires
        state.holds_control(),
        release_control_result(reply, state.focus().control->0) is Err,
    ensures
        ({
            let lease = state.focus().control->0;
            let begun = state.release_begun().0;
            &&& begun.named(Named::Release { lease }, None, client).0.panes == state.panes
            &&& begun.answered(Sent::Release { lease }, reply, client).0.panes == state.panes
        }),
{
    let lease = state.focus().control->0;
    let begun = state.release_begun().0;
    assert(begun.with_control(Some(lease)).panes =~= state.panes);
}

/// What an answer changes keeps a sound state sound.
pub proof fn interactions_keep_soundness(
    state: CockpitModel,
    command: AvailableCommand,
    then_named: Named,
    then_sent: Sent,
    key: Option<String>,
    reply: Reply,
    client: String,
    pending: PendingAction,
)
    requires
        state.sound(),
    ensures
        state.commanded(command, client).0.sound(),
        state.named(then_named, key, client).0.sound(),
        state.answered(then_sent, reply, client).0.sound(),
        state.confirmed(pending).0.sound(),
{
    with_control_keeps_soundness(state, None);
    match then_named {
        Named::Release { lease } => {
            with_control_keeps_soundness(state, Some(lease));
        },
        _ => {},
    }
    match then_sent {
        Sent::Attach { session } => {
            if attach_result(reply) is Ok {
                attaching_keeps_soundness(state, session, attach_result(reply)->Ok_0);
            }
        },
        Sent::Claim { session } => {
            if crate::backend::claim_control_result(reply) is Ok {
                controlling_keeps_soundness(
                    state,
                    session.session.resource@,
                    crate::backend::claim_control_result(reply)->Ok_0,
                );
            }
        },
        Sent::Release { lease } => {
            with_control_keeps_soundness(state, Some(lease));
        },
        Sent::Detach { .. } => {
            removing_keeps_soundness(state);
        },
        Sent::Receipt { key } => {
            waiting_keeps_soundness(state, key@);
        },
        _ => {},
    }
}

/// A key keeps a sound state sound, so the focus always stands where keys need it.
pub proof fn keys_keep_soundness(console: ConsoleModel, press: KeyPress)
    requires
        console.state.sound(),
    ensures
        console.pressed(press).0.state.sound(),
{
    let state = console.state;
    if console.composer is Some {
        same_holdings_are_sound(state, console.pressed_composing(press).0.state);
    } else if console.confirmation is Some {
        same_holdings_are_sound(state, console.pressed_confirming(press).0.state);
    } else if console.palette is Some {
        same_holdings_are_sound(state, console.pressed_choosing(press).0.state);
    } else if state.show_help {
        same_holdings_are_sound(state, console.pressed_reading(press).0.state);
    } else {
        match press.key {
            Key::Char(character) => {
                typing_keeps_soundness(console, character);
            },
            Key::Up => {
                same_holdings_are_sound(state, state.moved_selection(-1));
            },
            Key::Down => {
                same_holdings_are_sound(state, state.moved_selection(1));
            },
            Key::Tab => {
                moving_focus_keeps_soundness(state, 1);
            },
            Key::BackTab => {
                moving_focus_keeps_soundness(state, -1);
            },
            Key::Left => {
                reordering_keeps_soundness(state, -1);
            },
            Key::Right => {
                reordering_keeps_soundness(state, 1);
            },
            _ => {},
        }
    }
}

proof fn typing_keeps_soundness(console: ConsoleModel, character: char)
    requires
        console.state.sound(),
    ensures
        console.typed(character).0.state.sound(),
{
    let state = console.state;
    if character == 'P' || character == ']' {
        moving_focus_keeps_soundness(state, 1);
    } else if character == '[' {
        moving_focus_keeps_soundness(state, -1);
    } else if '1' <= character <= '7' {
        same_holdings_are_sound(
            state,
            state.viewing(View::all()[character as int - '1' as int]),
        );
    } else {
        same_holdings_are_sound(state, console.typed(character).0.state);
    }
}

proof fn same_holdings_are_sound(before: CockpitModel, after: CockpitModel)
    requires
        before.sound(),
        after.panes == before.panes,
        after.focused_pane == before.focused_pane,
        after.receipts == before.receipts,
        after.pending_receipts == before.pending_receipts,
    ensures
        after.sound(),
{
}

/// The selection of an open palette stays on one of its commands.
pub proof fn palette_selection_stays_in_range(console: ConsoleModel, press: KeyPress)
    requires
        console.palette is Some ==> console.palette->0.selected
            < console.palette->0.commands.len(),
    ensures
        console.pressed(press).0.palette is Some ==> console.pressed(press).0.palette->0.selected
            < console.pressed(press).0.palette->0.commands.len(),
{
    stale_target_allows_refresh_only(console.state);
}

/// Only `q` leaves, and only while nothing lies over the cockpit.
pub proof fn only_q_leaves(console: ConsoleModel, press: KeyPress)
    ensures
        console.pressed(press).1 is Quit <==> {
            &&& console.composer is None
            &&& console.confirmation is None
            &&& console.palette is None
            &&& !console.state.show_help
            &&& press.key == Key::Char('q')
        },
{
}

proof fn with_control_keeps_soundness(state: CockpitModel, control: Option<ControlLease>)
    requires
        state.sound(),
    ensures
        state.with_control(control).sound(),
{
    let after = state.with_control(control);
    assert forall|i: int, j: int| 0 <= i < j < after.panes.len() implies (
    #[trigger] after.panes[i]).key() != (#[trigger] after.panes[j]).key() by {
        assert(state.panes[i].key() != state.panes[j].key());
    }
}

proof fn controlling_keeps_soundness(
    state: CockpitModel,
    session: CoordinateModel,
    lease: ControlLease,
)
    requires
        state.sound(),
    ensures
        state.controlling(session, lease).sound(),
{
    let after = state.controlling(session, lease);
    if exists|index: int| first_pane_on(state.panes, session, index) {
        let index = choose|index: int| first_pane_on(state.panes, session, index);
        assert(first_pane_on(state.panes, session, index));
        assert forall|i: int, j: int| 0 <= i < j < after.panes.len() implies (
        #[trigger] after.panes[i]).key() != (#[trigger] after.panes[j]).key() by {
            assert(state.panes[i].key() != state.panes[j].key());
        }
    }
}

} // verus!
