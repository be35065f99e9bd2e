//! The words in which the cockpit speaks, on the wire and to its operator.

use vstd::prelude::*;
use vstd::view::View as _;

use crate::backend::{
    attach_result, claim_control_result, detach_result, receipt_result, release_control_result,
    BackendError, OverviewModel, Reply,
};
use crate::commands::{pending_for, AvailableCommand, ComposerModel};
use crate::framing::FrameError;
use crate::interaction::{Interaction, Named, Sent};
use crate::keys::{ConsoleModel, Key, KeyPress};
use crate::protocol::{
    Attachment, AuthorityModel, KindModel, PlatformAction, PlatformMethod, ResourceRecord,
    SessionRecord, Subscription,
};
use crate::reconcile::{complaint_of, Departure};
use crate::render::help_overlay;
use crate::screen_laws::{can_be_read, reads};
use crate::state::{opened, CockpitModel, ConnectionState, PaneLayout, View};
use crate::text::contains_text;

verus! {

/// Every view has its own word.
pub proof fn views_have_their_words()
    ensures
        View::Overview.word() == "overview"@,
        View::Runs.word() == "runs"@,
        View::Sessions.word() == "sessions"@,
        View::Approvals.word() == "approvals"@,
        View::Models.word() == "models"@,
        View::Failures.word() == "failures"@,
        View::Receipts.word() == "receipts"@,
{
}

/// Every layout has its own word.
pub proof fn layouts_have_their_words()
    ensures
        PaneLayout::Grid.word() == "grid"@,
        PaneLayout::Rows.word() == "rows"@,
        PaneLayout::Columns.word() == "columns"@,
        PaneLayout::Tabs.word() == "tabs"@,
        PaneLayout::Focused.word() == "focused"@,
{
}

/// Every state of the connection has its own words.
pub proof fn connections_have_their_words()
    ensures
        ConnectionState::Live.words() == "LIVE"@,
        ConnectionState::Stale.words() == "STALE / READ-ONLY"@,
        ConnectionState::Reconnecting.words() == "RECONNECTING / READ-ONLY"@,
        ConnectionState::UpgradeRequired.words() == "UPGRADE REQUIRED / READ-ONLY"@,
{
}

/// Authorities and kinds have their names on the wire, and one that is not known has the name
/// that it came with.
pub proof fn resources_have_their_names(other: Seq<char>)
    ensures
        AuthorityModel::Automonique.name() == "automonique"@,
        AuthorityModel::Provider.name() == "provider"@,
        AuthorityModel::Other(other).name() == other,
        KindModel::Node.name() == "node"@,
        KindModel::Run.name() == "run"@,
        KindModel::Session.name() == "session"@,
        KindModel::Approval.name() == "approval"@,
        KindModel::Model.name() == "model"@,
        KindModel::Receipt.name() == "receipt"@,
        KindModel::Client.name() == "client"@,
        KindModel::ControlLease.name() == "control_lease"@,
        KindModel::Other(other).name() == other,
{
}

/// Methods and actions have their names on the wire.
pub proof fn requests_have_their_names(other: String)
    ensures
        PlatformMethod::Capabilities.name() == "capabilities"@,
        PlatformMethod::Snapshot.name() == "snapshot"@,
        PlatformMethod::ListSessions.name() == "list_sessions"@,
        PlatformMethod::Attach.name() == "attach"@,
        PlatformMethod::Detach.name() == "detach"@,
        PlatformMethod::ClaimControl.name() == "claim_control"@,
        PlatformMethod::ReleaseControl.name() == "release_control"@,
        PlatformMethod::Subscribe.name() == "subscribe"@,
        PlatformMethod::Execute.name() == "execute"@,
        PlatformMethod::GetReceipt.name() == "get_receipt"@,
        PlatformMethod::Other(other).name() == other@,
        PlatformAction::SubmitRequest.name() == "submit_request"@,
        PlatformAction::FollowUp.name() == "follow_up"@,
        PlatformAction::Steer.name() == "steer"@,
        PlatformAction::StartRun.name() == "start_run"@,
        PlatformAction::StopRun.name() == "stop_run"@,
        PlatformAction::DecideApproval.name() == "decide_approval"@,
{
}

/// Claims and releases are named in their keys by their own words, actions by their names.
pub proof fn interactions_have_their_words(action: PlatformAction)
    ensures
        Interaction::Claim.word() == "claim"@,
        Interaction::Release.word() == "release"@,
        Interaction::ExitRelease.word() == "exit-release"@,
        Interaction::Act(action).word() == action.name(),
{
}

/// Every command of the palette has its own words.
pub proof fn commands_have_their_words()
    ensures
        AvailableCommand::Attach.words() == "Attach selected session as observer"@,
        AvailableCommand::Detach.words() == "Detach focused observer pane"@,
        AvailableCommand::ClaimControl.words() == "Claim exclusive short control lease"@,
        AvailableCommand::ReleaseControl.words() == "Release focused control lease"@,
        AvailableCommand::StartRun.words() == "Start selected ready run"@,
        AvailableCommand::StopRun.words() == "Cancel selected active run"@,
        AvailableCommand::GrantApproval.words() == "Grant selected approval revision"@,
        AvailableCommand::DenyApproval.words() == "Deny selected approval revision"@,
        AvailableCommand::SubmitRequest.words() == "Compose new durable request"@,
        AvailableCommand::FollowUp.words() == "Compose follow-up for selected session"@,
        AvailableCommand::Steer.words() == "Compose steering for focused control lease"@,
        AvailableCommand::CycleLayout.words() == "Cycle pane layout"@,
        AvailableCommand::Refresh.words() == "Reconcile from authoritative snapshot"@,
{
}

/// Every failure has its own words, and a refusal gives the outcome and the explanation that came
/// with it.
pub proof fn failures_have_their_words(error: BackendError)
    ensures
        error is Unavailable ==> error.words() == "operator backend unavailable"@,
        error is Protocol ==> error.words() == "operator backend protocol refused"@,
        error is ExhaustedFake ==> error.words() == "fake operator backend exhausted"@,
        error matches BackendError::Refused { outcome, explanation } ==> error.words()
            == "operator action "@ + outcome@ + ": "@ + explanation@,
{
}

/// What is asked to be confirmed names itself and says what comes of it.
pub proof fn confirmations_have_their_words(
    command: AvailableCommand,
    target: ResourceRecord,
    key: Option<Seq<char>>,
)
    ensures
        pending_for(command, target, key) matches Some(pending) ==> {
            &&& command is StartRun ==> pending.title == "Start run"@ && pending.consequence
                == "The exact ready run is admitted once; retries reconcile by idempotency key."@
            &&& command is StopRun ==> pending.title == "Cancel run"@ && pending.consequence
                == "Cancellation targets the exact run; terminal state is reconciled separately."@
            &&& command is GrantApproval ==> pending.title == "Grant approval"@
                && pending.consequence
                == "Only this approval revision is granted; provider permission remains separate."@
            &&& command is DenyApproval ==> pending.title == "Deny approval"@
                && pending.consequence
                == "Only this approval revision is denied and the decision is durably audited."@
        },
{
}

/// What was composed names itself and says what comes of it.
pub proof fn compositions_have_their_words(
    composer: ComposerModel,
    accepted: bool,
    key: Option<Seq<char>>,
)
    ensures
        composer.pending(accepted, key) matches Some(pending) ==> {
            &&& composer.action is SubmitRequest ==> pending.title == "Submit durable request"@
                && pending.consequence
                == "The text enters node intake once and is reconciled by idempotency key."@
            &&& composer.action is FollowUp ==> pending.title == "Submit session follow-up"@
                && pending.consequence
                == "The text is durably queued against this exact provider session revision."@
            &&& composer.action is Steer ==> pending.title == "Steer active turn"@
                && pending.consequence
                == "The text reaches the active turn once, under this exact control lease revision."@
        },
{
}

/// A cockpit opens connected, with its panes in a grid, nothing on top and nothing awaited, and
/// follows the events from where the overview stands.
pub proof fn opening_says_so(overview: OverviewModel)
    ensures
        opened(overview).status == "connected"@,
        opened(overview).connection == ConnectionState::Live,
        opened(overview).pane_layout == PaneLayout::Grid,
        opened(overview).resource_cursor == overview.cursor,
        opened(overview).overview == overview,
        opened(overview).receipts.len() == 0,
        opened(overview).pending_receipts.len() == 0,
        opened(overview).panes.len() == 0,
        !opened(overview).show_help,
        !opened(overview).high_contrast,
{
}

/// Taking over an overview, losing events and reaching the limit of panes is said, and so is
/// whether a pane has its pin.
pub proof fn changes_are_said(
    state: CockpitModel,
    overview: OverviewModel,
    reconnected: bool,
    subscription: Subscription,
    record: SessionRecord,
    attachment: Attachment,
)
    ensures
        state.replaced(overview, reconnected).status == "reconciled with authoritative snapshot"@,
        state.replayed(subscription.events@, state.resource_cursor.sequence, false).gap
            ==> state.subscribed(subscription).status
            == "event gap detected; requesting fresh snapshot"@,
        ({
            let replay = state.replayed(
                subscription.events@,
                state.resource_cursor.sequence,
                false,
            );
            !replay.gap && subscription.cursor.sequence < replay.reached ==> state.subscribed(
                subscription,
            ).status == "subscription cursor moved backwards"@
        }),
        state.panes.len() >= 12 && (forall|i: int|
            0 <= i < state.panes.len() ==> (#[trigger] state.panes[i]).key()
                != crate::state::key_of(record.session.resource@)) ==> state.attached(
            record,
            attachment,
        ).status == "pane limit reached (12)"@,
        state.focused_pane >= state.panes.len() ==> state.pin_toggled().status
            == "no focused session pane"@,
        state.focused_pane < state.panes.len() && state.panes[state.focused_pane as int].pinned
            ==> state.pin_toggled().status == "focused pane unpinned"@,
        state.focused_pane < state.panes.len() && !state.panes[state.focused_pane as int].pinned
            ==> state.pin_toggled().status == "focused pane pinned in saved workspace"@,
{
}

/// A command that cannot begin says why.
pub proof fn refused_commands_say_why(state: CockpitModel, client: String)
    ensures
        ({
            let attached = state.attach_begun(client).0.status;
            let live = state.connection == ConnectionState::Live;
            &&& !live ==> attached == "attach disabled while snapshot is stale"@
            &&& live && state.chosen_session() is None ==> attached
                == "select an attachable session first"@
            &&& live && (state.chosen_session() matches Some(session) && !session.attachable)
                ==> attached == "selected session is read-only and not attachable"@
        }),
        state.focused_pane >= state.panes.len() ==> state.detach_begun(client).0.status
            == "no attached pane to detach"@,
        ({
            let claimed = state.claim_begun().0.status;
            let live = state.connection == ConnectionState::Live;
            let focused = state.focused_pane < state.panes.len();
            &&& !live ==> claimed == "control disabled while snapshot is stale"@
            &&& live && !focused && state.chosen_session() is None ==> claimed
                == "select or attach a controllable session first"@
            &&& live && focused && !state.panes[state.focused_pane as int].record.controllable
                ==> claimed == "server marks the selected session non-controllable"@
            &&& live && !focused && (state.chosen_session() matches Some(session)
                && !session.controllable) ==> claimed
                == "server marks the selected session non-controllable"@
        }),
        state.focused_pane >= state.panes.len() ==> state.release_begun().0.status
            == "no focused session pane"@,
        state.focused_pane < state.panes.len()
            && state.panes[state.focused_pane as int].control is None
            ==> state.release_begun().0.status == "focused pane holds no control lease"@,
{
}

/// A mutation that cannot be confirmed says why.
pub proof fn refused_confirmations_say_why(
    state: CockpitModel,
    command: AvailableCommand,
    client: String,
)
    requires
        command is StartRun || command is StopRun || command is GrantApproval
            || command is DenyApproval,
    ensures
        state.connection != ConnectionState::Live ==> state.commanded(command, client).0.status
            == "mutation disabled while snapshot is stale"@,
        state.connection == ConnectionState::Live && state.selected() is None ==> state.commanded(
            command,
            client,
        ).0.status == "select an exact target first"@,
        state.commanded(command, client).1 is Name ==> state.commanded(command, client).0 == state,
{
}

/// A composer that cannot be opened says why: what is tested first is said first.
pub proof fn refused_compositions_say_why(state: CockpitModel, command: AvailableCommand)
    requires
        command is SubmitRequest || command is FollowUp || command is Steer,
    ensures
        ({
            let live = state.connection == ConnectionState::Live;
            let steers = command is Steer;
            let leased = state.focused_pane < state.panes.len()
                && state.panes[state.focused_pane as int].control is Some;
            &&& !live ==> state.composed(command) == Err::<ComposerModel, Seq<char>>(
                "composition disabled while snapshot is stale"@,
            )
            &&& live && steers && !leased ==> state.composed(command) == Err::<
                ComposerModel,
                Seq<char>,
            >("focused pane holds no control lease"@)
            &&& live && steers && leased && !state.overview.actions.contains(
                PlatformAction::Steer,
            ) ==> state.composed(command) == Err::<ComposerModel, Seq<char>>(
                "server does not advertise this composition action"@,
            )
            &&& live && !steers && state.selected() is None ==> state.composed(command) == Err::<
                ComposerModel,
                Seq<char>,
            >("select an exact target before composing"@)
            &&& live && !steers && (state.selected() matches Some(record)
                && record.freshness.state@ != "fresh"@) ==> state.composed(command) == Err::<
                ComposerModel,
                Seq<char>,
            >("selected target is not fresh; composition disabled"@)
            &&& state.composed(command) is Err && live && !steers && (
            state.selected() matches Some(record) && record.freshness.state@ == "fresh"@)
                ==> state.composed(command) == Err::<ComposerModel, Seq<char>>(
                "server does not advertise this composition action"@,
            )
        }),
        (state.selected() matches Some(record) ==> !(record.resource.kind is Session)
            && !(record.resource.kind is Node)) ==> state.composed_for_selection() == Err::<
            ComposerModel,
            Seq<char>,
        >("select a node or session before composing"@),
{
}

/// A resync is said to be asked for.
pub proof fn resyncs_are_said(state: CockpitModel, client: String, console: ConsoleModel)
    ensures
        state.commanded(AvailableCommand::Refresh, client).0.status
            == "authoritative resync requested"@,
        console.typed('r').0.state.status == "manual authoritative resync requested"@,
        state.resumed().status == "terminal resumed; authoritative resync required"@,
{
}

/// Where no key could be given to an interaction, it says which one it could not name.
pub proof fn unnamed_interactions_say_so(state: CockpitModel, then: Named, client: String)
    ensures
        ({
            let (after, step) = state.named(then, None, client);
            &&& step is Done
            &&& then is Claim ==> after.status == "could not construct control claim identity"@
            &&& then is Release || then is DetachRelease ==> after.status
                == "could not construct control release identity"@
        }),
{
}

/// A confirmed mutation that is not sent says why.
pub proof fn invalid_confirmations_say_why(
    state: CockpitModel,
    pending: crate::commands::PendingAction,
)
    ensures
        ({
            let (after, step) = state.confirmed(pending);
            &&& state.connection != ConnectionState::Live ==> step is Done && after.status
                == "confirmation invalidated because the client is stale"@
            &&& state.connection == ConnectionState::Live && step is Done ==> after.status
                == "confirmation invalidated by a target revision change"@
        }),
{
}

/// Every answer is told: what was done, or what was refused and in which words.
pub proof fn answers_are_told(state: CockpitModel, then: Sent, reply: Reply, client: String)
    ensures
        ({
            let said = state.answered(then, reply, client).0.status;
            match then {
                Sent::Attach { session } => match attach_result(reply) {
                    Ok(_) => said == "attached to "@ + session.session.resource.id@
                        + " as observer"@,
                    Err(error) => said == "attach refused: "@ + error.words(),
                },
                Sent::DetachRelease { lease, .. } => match release_control_result(reply, lease) {
                    Ok(()) => said == state.status,
                    Err(error) => said == "control release refused; observer retained: "@
                        + error.words(),
                },
                Sent::Detach { session } => match detach_result(reply, session, client@) {
                    Ok(()) => said == "detached observer from "@ + session.id@
                        + "; runner unchanged"@,
                    Err(error) => said == "detach refused; observer pane retained: "@
                        + error.words(),
                },
                Sent::Claim { .. } => match claim_control_result(reply) {
                    Ok(_) => said == "exclusive control lease claimed"@,
                    Err(error) => said == "control refused or held elsewhere: "@ + error.words(),
                },
                Sent::Release { lease } => match release_control_result(reply, lease) {
                    Ok(()) => said == "control lease released; observer retained"@,
                    Err(error) => said == "control release refused: "@ + error.words(),
                },
                Sent::Execute { .. } => match receipt_result(reply) {
                    Ok(receipt) => said == receipt.action.name() + " "@ + receipt.outcome@
                        + " for "@ + receipt.target.id@,
                    Err(error) => error is Refused ==> said == "mutation refused without effect: "@
                        + error.words(),
                },
                Sent::Receipt { .. } => match receipt_result(reply) {
                    Ok(receipt) => said == receipt.action.name() + " "@ + receipt.outcome@
                        + " for "@ + receipt.target.id@,
                    Err(_) => said
                        == "submission outcome unknown; controls disabled until receipt reconciliation"@,
                },
            }
        }),
{
}

/// What a key or the platform turns down is said.
pub proof fn cancellations_are_said(console: ConsoleModel, press: KeyPress, text: Seq<char>)
    ensures
        console.composer is Some && press.key == Key::Esc ==> console.pressed(press).0.state.status
            == "composition cancelled before submission"@,
        console.composer is None && console.confirmation is Some && (press.key == Key::Esc
            || press.key == Key::Char('n') || press.key == Key::Char('N')) ==> console.pressed(
            press,
        ).0.state.status == "mutation cancelled before submission"@,
        console.texted(text, false).state.status == "request text reached the platform bound"@,
        console.asking(None).state.status == "request text is required"@,
{
}

/// What fails on leaving is told behind the name of the program.
pub proof fn complaints_have_their_words(
    departure: Departure,
    request: crate::protocol::PlatformRequest,
    reply: Reply,
    client: String,
)
    requires
        complaint_of(departure, request, reply, client) is Some,
        reply is Err,
    ensures
        request is ReleaseControl ==> complaint_of(departure, request, reply, client)->0
            == "jcode platform: control release during exit failed: "@ + reply->Err_0.words(),
        request is Detach ==> complaint_of(departure, request, reply, client)->0
            == "jcode platform: observer detach during exit failed: "@ + reply->Err_0.words(),
{
}

/// A frame that is too long is called so.
pub proof fn long_frames_are_told(error: FrameError)
    ensures
        error.words() == "frame exceeds the size limit"@,
{
}

/// The help tells every key and what it does, and that a client that is not live is read-only.
pub proof fn help_tells_the_keys(area: crate::layout::Rect)
    ensures
        ({
            let help = help_overlay(area);
            &&& help.area == area && help.clears
            &&& can_be_read(
                help,
                "1–7 switch authoritative views; arrows select by durable identity"@,
            )
            &&& can_be_read(help, "a attach as observer; d detach without affecting the runner"@)
            &&& can_be_read(help, "c claim an exclusive short control lease; x release it"@)
            &&& can_be_read(help, "i composes an explicit new request or session follow-up"@)
            &&& can_be_read(
                help,
                "[ / ] focus panes; Shift+Left/Right reorder; P pins; l changes layout"@,
            )
            &&& can_be_read(
                help,
                "p opens capability-driven actions; Enter previews; y executes; n cancels"@,
            )
            &&& can_be_read(help, "r forces snapshot reconciliation; h toggles high contrast"@)
            &&& can_be_read(
                help,
                "A stale or disconnected client is read-only. Focus never authorizes mutation."@,
            )
            &&& can_be_read(
                help,
                "Closing this client detaches observers and releases its control leases."@,
            )
            &&& can_be_read(help, "Press ? or Esc to close help."@)
        }),
{
    let lines = help_overlay(area).lines;
    assert forall|i: int| 0 <= i < lines.len() && lines[i] is Text implies contains_text(
        reads(#[trigger] lines[i]),
        lines[i]->text,
    ) by {
        let text = lines[i]->text;
        assert(text.subrange(0, text.len() as int) =~= text);
        assert(crate::text::stands_at(text, text, 0));
    }
    assert(lines[2] is Text && lines[3] is Text && lines[4] is Text && lines[5] is Text);
    assert(lines[6] is Text && lines[7] is Text && lines[8] is Text && lines[10] is Text);
    assert(lines[11] is Text && lines[13] is Text);
}

/// Where the cockpit cannot start, it says what it lacks.
pub proof fn unusable_starts_say_why(
    input: bool,
    output: bool,
    mode: crate::startup::StartMode,
    choice: crate::startup::SocketChoice,
)
    ensures
        crate::startup::starts(false, input, output, mode) && !(input && output) ==> (
        mode matches crate::startup::StartMode::Unusable(words) && words@
            == "platform cockpit needs a terminal; use --json for a one-shot snapshot"@),
        crate::startup::chooses(None, false, false, choice) ==> (
        choice matches crate::startup::SocketChoice::Missing(words) && words@
            == "no runtime directory; pass --socket or set AUTOMONIQUE_PLATFORM_SOCKET"@),
{
}

/// A connection that is lost, a refresh that fails and an authority that speaks another protocol
/// are told, and so is a receipt that stays unknown.
pub proof fn lost_connections_are_told(
    schedule: crate::schedule::Schedule,
    state: CockpitModel,
    error: BackendError,
    now: u64,
    overview: OverviewModel,
    then: crate::reconcile::ReconciliationModel,
    after: CockpitModel,
    step: crate::reconcile::RefreshStep,
)
    ensures
        schedule.after_events(state, Err(error), now).1.status
            == "platform disconnected; retaining read-only snapshot"@,
        state.refresh_ended(crate::schedule::RefreshReason::Interval, false).status
            == "snapshot refresh failed; retaining read-only state"@,
        state.refresh_ended(crate::schedule::RefreshReason::Reconnect, false).status
            == state.status,
        overview.protocol != "automonique.platform"@ && crate::reconcile::refresh_begins(
            state,
            overview,
            after,
            step,
        ) ==> after.status == "server protocol is incompatible; mutation controls disabled"@,
        crate::reconcile::receipt_taken(state, then, Err(error), after, step) ==> after.status
            == "unknown receipt; controls remain disabled"@,
{
}

/// A workspace that is not read, kept or restored is told by a word of its own.
pub proof fn workspaces_are_told_by_words(
    report: crate::workspace::FileReport,
    user: u32,
    length: u64,
    state: CockpitModel,
    saved: crate::workspace::SavedWorkspace,
    client: String,
    after: CockpitModel,
    step: crate::workspace::RestoreStep,
)
    ensures
        report is Unreadable ==> crate::workspace::readable(report, user) == Err::<
            bool,
            Seq<char>,
        >("workspace_unreadable"@),
        length > 65536 ==> crate::workspace::kept_length(length) == Err::<(), Seq<char>>(
            "workspace_too_large"@,
        ),
        crate::workspace::restoration_begins(state, saved, client, after, step) ==> {
            &&& saved.version != 1 || saved.panes@.len() > 12 ==> (
            step matches crate::workspace::RestoreStep::Failed(word) && word@
                == "workspace_version_or_size_invalid"@)
            &&& saved.version == 1 && saved.panes@.len() <= 12 && (forall|layout: PaneLayout|
                #[trigger] layout.word() != saved.layout@) ==> (
            step matches crate::workspace::RestoreStep::Failed(word) && word@
                == "workspace_layout_invalid"@)
        },
        state.panes.len() > 0 ==> state.restoration_ended().status
            == "saved observer panes restored without control authority"@,
        state.panes.len() == 0 ==> state.restoration_ended().status == state.status,
{
}

} // verus!
