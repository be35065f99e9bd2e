//! What the palette offers, and what a composed or confirmed mutation holds.

use vstd::prelude::*;
use vstd::view::View as _;

use crate::commands::{offered_if, pending_for, AvailableCommand, ComposerModel};
use crate::protocol::{ControlLease, PlatformAction, ResourceKind, ResourceRecord};
use crate::state::{key_of, CockpitModel, ConnectionState};

verus! {

/// Whether an authority takes an action: it executes actions and has published this one.
pub open spec fn published(state: CockpitModel, action: PlatformAction) -> bool {
    state.overview.methods.contains("execute"@) && state.overview.actions.contains(action)
}

/// Whether the pane that the focus stands on holds a lease.
pub open spec fn focused_pane_is_leased(state: CockpitModel) -> bool {
    state.focused_pane < state.panes.len()
        && state.panes[state.focused_pane as int].control is Some
}

/// On a record that is current, the palette holds every command that the authority supports for
/// its kind: a session is attached, claimed and followed up, a run is started and stopped, an
/// approval is granted and denied, and a node takes a request.
pub proof fn palette_offers_everything_for_the_selection(
    state: CockpitModel,
    record: ResourceRecord,
)
    requires
        state.selected() == Some(record),
        record.freshness.state@ == "fresh"@,
    ensures
        record.resource.kind is Session && state.overview.methods.contains("attach"@)
            ==> state.offers().contains(AvailableCommand::Attach),
        record.resource.kind is Session && state.overview.methods.contains("claim_control"@)
            ==> state.offers().contains(AvailableCommand::ClaimControl),
        record.resource.kind is Session && published(state, PlatformAction::FollowUp)
            ==> state.offers().contains(AvailableCommand::FollowUp),
        record.resource.kind is Run && published(state, PlatformAction::StartRun)
            ==> state.offers().contains(AvailableCommand::StartRun),
        record.resource.kind is Run && published(state, PlatformAction::StopRun)
            ==> state.offers().contains(AvailableCommand::StopRun),
        record.resource.kind is Approval && published(state, PlatformAction::DecideApproval)
            ==> state.offers().contains(AvailableCommand::GrantApproval),
        record.resource.kind is Approval && published(state, PlatformAction::DecideApproval)
            ==> state.offers().contains(AvailableCommand::DenyApproval),
        record.resource.kind is Node && published(state, PlatformAction::SubmitRequest)
            ==> state.offers().contains(AvailableCommand::SubmitRequest),
{
    let selection = state.selection_offers(record.resource.kind);
    let offers = state.offers();
    assert(offers == seq![AvailableCommand::Refresh] + selection + state.pane_offers());
    selection_holds(state, record.resource.kind);
    part_is_kept(
        seq![AvailableCommand::Refresh],
        selection,
        state.pane_offers(),
    );
}

proof fn part_is_kept(
    first: Seq<AvailableCommand>,
    second: Seq<AvailableCommand>,
    third: Seq<AvailableCommand>,
)
    ensures
        forall|command: AvailableCommand| #[trigger]
            (first + second + third).contains(command) <==> first.contains(command)
                || second.contains(command) || third.contains(command),
{
    let whole = first + second + third;
    assert forall|command: AvailableCommand| #[trigger] whole.contains(command) <==> first.contains(
        command,
    ) || second.contains(command) || third.contains(command) by {
        if first.contains(command) {
            let i = choose|i: int| 0 <= i < first.len() && first[i] == command;
            assert(whole[i] == command);
        }
        if second.contains(command) {
            let i = choose|i: int| 0 <= i < second.len() && second[i] == command;
            assert(whole[first.len() + i] == command);
        }
        if third.contains(command) {
            let i = choose|i: int| 0 <= i < third.len() && third[i] == command;
            assert(whole[first.len() + second.len() + i] == command);
        }
        if whole.contains(command) {
            let i = choose|i: int| 0 <= i < whole.len() && whole[i] == command;
            if i < first.len() {
                assert(first[i] == command);
            } else if i < first.len() + second.len() {
                assert(second[i - first.len()] == command);
            } else {
                assert(third[i - first.len() - second.len()] == command);
            }
        }
    }
}

proof fn one_is_offered(condition: bool, command: AvailableCommand)
    ensures
        forall|other: AvailableCommand| #[trigger]
            offered_if(condition, command).contains(other) <==> condition && other == command,
{
    let offered = offered_if(condition, command);
    if condition {
        assert(offered[0] == command);
    }
}

proof fn selection_holds(state: CockpitModel, kind: ResourceKind)
    ensures
        forall|command: AvailableCommand| #[trigger]
            state.selection_offers(kind).contains(command) <==> match command {
                AvailableCommand::Attach => kind is Session && state.overview.methods.contains(
                    "attach"@,
                ),
                AvailableCommand::ClaimControl => kind is Session
                    && state.overview.methods.contains("claim_control"@),
                AvailableCommand::FollowUp => kind is Session && published(
                    state,
                    PlatformAction::FollowUp,
                ),
                AvailableCommand::StartRun => kind is Run && published(
                    state,
                    PlatformAction::StartRun,
                ),
                AvailableCommand::StopRun => kind is Run && published(
                    state,
                    PlatformAction::StopRun,
                ),
                AvailableCommand::GrantApproval | AvailableCommand::DenyApproval => kind
                    is Approval && published(state, PlatformAction::DecideApproval),
                AvailableCommand::SubmitRequest => kind is Node && published(
                    state,
                    PlatformAction::SubmitRequest,
                ),
                _ => false,
            },
{
    let attach = state.overview.methods.contains("attach"@);
    let claim = state.overview.methods.contains("claim_control"@);
    let follow = published(state, PlatformAction::FollowUp);
    let start = published(state, PlatformAction::StartRun);
    let stop = published(state, PlatformAction::StopRun);
    let decide = published(state, PlatformAction::DecideApproval);
    let submit = published(state, PlatformAction::SubmitRequest);
    one_is_offered(attach, AvailableCommand::Attach);
    one_is_offered(claim, AvailableCommand::ClaimControl);
    one_is_offered(follow, AvailableCommand::FollowUp);
    one_is_offered(start, AvailableCommand::StartRun);
    one_is_offered(stop, AvailableCommand::StopRun);
    one_is_offered(decide, AvailableCommand::GrantApproval);
    one_is_offered(decide, AvailableCommand::DenyApproval);
    one_is_offered(submit, AvailableCommand::SubmitRequest);
    let none = Seq::<AvailableCommand>::empty();
    match kind {
        ResourceKind::Session => {
            part_is_kept(
                offered_if(attach, AvailableCommand::Attach),
                offered_if(claim, AvailableCommand::ClaimControl),
                offered_if(follow, AvailableCommand::FollowUp),
            );
        },
        ResourceKind::Run => {
            let first = offered_if(start, AvailableCommand::StartRun);
            let second = offered_if(stop, AvailableCommand::StopRun);
            part_is_kept(first, second, none);
            assert(first + second + none =~= first + second);
        },
        ResourceKind::Approval => {
            let first = offered_if(decide, AvailableCommand::GrantApproval);
            let second = offered_if(decide, AvailableCommand::DenyApproval);
            part_is_kept(first, second, none);
            assert(first + second + none =~= first + second);
        },
        _ => {},
    }
}

proof fn panes_hold(state: CockpitModel)
    ensures
        forall|command: AvailableCommand| #[trigger]
            state.pane_offers().contains(command) <==> state.panes.len() > 0 && match command {
                AvailableCommand::Detach => state.overview.methods.contains("detach"@),
                AvailableCommand::ReleaseControl => state.overview.methods.contains(
                    "release_control"@,
                ) && focused_pane_is_leased(state),
                AvailableCommand::Steer => published(state, PlatformAction::Steer)
                    && focused_pane_is_leased(state),
                AvailableCommand::CycleLayout => true,
                _ => false,
            },
{
    if state.panes.len() > 0 {
        let leased = focused_pane_is_leased(state);
        let detach = offered_if(
            state.overview.methods.contains("detach"@),
            AvailableCommand::Detach,
        );
        let release = offered_if(
            state.overview.methods.contains("release_control"@) && leased,
            AvailableCommand::ReleaseControl,
        );
        let steer = offered_if(
            published(state, PlatformAction::Steer) && leased,
            AvailableCommand::Steer,
        );
        let cycle = seq![AvailableCommand::CycleLayout];
        one_is_offered(
            state.overview.methods.contains("detach"@),
            AvailableCommand::Detach,
        );
        one_is_offered(
            state.overview.methods.contains("release_control"@) && leased,
            AvailableCommand::ReleaseControl,
        );
        one_is_offered(
            published(state, PlatformAction::Steer) && leased,
            AvailableCommand::Steer,
        );
        assert(cycle[0] == AvailableCommand::CycleLayout);
        part_is_kept(detach, release, steer);
        part_is_kept(detach + release + steer, cycle, Seq::empty());
        assert(detach + release + steer + cycle + Seq::empty() =~= state.pane_offers());
    }
}

/// The palette holds nothing else: each command is there only for a record of its kind, only
/// where the authority supports it, and a record that is not current has none of them.
pub proof fn palette_offers_nothing_else(state: CockpitModel, command: AvailableCommand)
    requires
        state.offers().contains(command),
        command != AvailableCommand::Refresh,
    ensures
        ({
            let panes = state.panes.len() > 0;
            let leased = focused_pane_is_leased(state);
            &&& state.selected() matches Some(record) ==> record.freshness.state@ == "fresh"@
            &&& match command {
                AvailableCommand::Attach => state.selected()->0.resource.kind is Session
                    && state.overview.methods.contains("attach"@),
                AvailableCommand::ClaimControl => state.selected()->0.resource.kind is Session
                    && state.overview.methods.contains("claim_control"@),
                AvailableCommand::FollowUp => state.selected()->0.resource.kind is Session
                    && published(state, PlatformAction::FollowUp),
                AvailableCommand::StartRun => state.selected()->0.resource.kind is Run
                    && published(state, PlatformAction::StartRun),
                AvailableCommand::StopRun => state.selected()->0.resource.kind is Run
                    && published(state, PlatformAction::StopRun),
                AvailableCommand::GrantApproval
                | AvailableCommand::DenyApproval => state.selected()->0.resource.kind is Approval
                    && published(state, PlatformAction::DecideApproval),
                AvailableCommand::SubmitRequest => state.selected()->0.resource.kind is Node
                    && published(state, PlatformAction::SubmitRequest),
                AvailableCommand::Detach => panes && state.overview.methods.contains("detach"@),
                AvailableCommand::ReleaseControl => leased && state.overview.methods.contains(
                    "release_control"@,
                ),
                AvailableCommand::Steer => leased && published(state, PlatformAction::Steer),
                AvailableCommand::CycleLayout => panes,
                AvailableCommand::Refresh => true,
            }
        }),
{
    let refresh = seq![AvailableCommand::Refresh];
    assert(forall|i: int| 0 <= i < refresh.len() ==> refresh[i] == AvailableCommand::Refresh);
    panes_hold(state);
    match state.selected() {
        Some(record) => {
            selection_holds(state, record.resource.kind);
            part_is_kept(
                refresh,
                state.selection_offers(record.resource.kind),
                state.pane_offers(),
            );
        },
        None => {
            part_is_kept(refresh, state.pane_offers(), Seq::empty());
            assert(refresh + state.pane_offers() + Seq::empty() =~= state.offers());
        },
    }
}

/// With panes open the palette holds every command on them that the authority supports, where the
/// selected record is current or nothing is selected: detaching, releasing and steering under the
/// focused lease, and the next layout.
pub proof fn palette_offers_everything_for_the_panes(state: CockpitModel)
    requires
        state.panes.len() > 0,
        match state.selected() {
            Some(record) => record.freshness.state@ == "fresh"@,
            None => true,
        },
    ensures
        state.overview.methods.contains("detach"@) ==> state.offers().contains(
            AvailableCommand::Detach,
        ),
        state.overview.methods.contains("release_control"@) && focused_pane_is_leased(state)
            ==> state.offers().contains(AvailableCommand::ReleaseControl),
        published(state, PlatformAction::Steer) && focused_pane_is_leased(state)
            ==> state.offers().contains(AvailableCommand::Steer),
        state.offers().contains(AvailableCommand::CycleLayout),
{
    let refresh = seq![AvailableCommand::Refresh];
    panes_hold(state);
    match state.selected() {
        Some(record) => {
            part_is_kept(
                refresh,
                state.selection_offers(record.resource.kind),
                state.pane_offers(),
            );
        },
        None => {
            part_is_kept(refresh, state.pane_offers(), Seq::empty());
            assert(refresh + state.pane_offers() + Seq::empty() =~= state.offers());
        },
    }
}

/// What is asked to confirm on a run is its start or its stop, as the command says, and carries
/// no parameter; on an approval it is the decision, which is to grant or to deny as the command
/// says. It names the record that it is asked on at the revision that is shown, and bears the key
/// that it was given.
pub proof fn confirmation_is_what_the_command_says(target: ResourceRecord, key: Seq<char>)
    ensures
        ({
            let start = pending_for(AvailableCommand::StartRun, target, Some(key));
            let stop = pending_for(AvailableCommand::StopRun, target, Some(key));
            let grant = pending_for(AvailableCommand::GrantApproval, target, Some(key));
            let deny = pending_for(AvailableCommand::DenyApproval, target, Some(key));
            &&& start is Some <==> target.resource.kind is Run
            &&& stop is Some <==> target.resource.kind is Run
            &&& grant is Some <==> target.resource.kind is Approval
            &&& deny is Some <==> target.resource.kind is Approval
            &&& start matches Some(pending) ==> pending.action == PlatformAction::StartRun
                && pending.parameter is None
            &&& stop matches Some(pending) ==> pending.action == PlatformAction::StopRun
                && pending.parameter is None
            &&& grant matches Some(pending) ==> pending.action == PlatformAction::DecideApproval
                && pending.parameter == Some("grant"@)
            &&& deny matches Some(pending) ==> pending.action == PlatformAction::DecideApproval
                && pending.parameter == Some("deny"@)
        }),
        forall|command: AvailableCommand| #[trigger]
            pending_for(command, target, Some(key)) matches Some(pending) ==> {
                &&& pending.target == target.resource
                &&& pending.expected_revision == target.freshness.revision
                &&& pending.idempotency_key == key
            },
        forall|command: AvailableCommand| #[trigger] pending_for(command, target, None) is None,
{
}

/// The words of a confirmation tell the four commands apart.
pub proof fn confirmations_read_differently(
    key: Seq<char>,
    run: ResourceRecord,
    approval: ResourceRecord,
)
    requires
        run.resource.kind is Run,
        approval.resource.kind is Approval,
    ensures
        ({
            let start = pending_for(AvailableCommand::StartRun, run, Some(key))->0;
            let stop = pending_for(AvailableCommand::StopRun, run, Some(key))->0;
            let grant = pending_for(AvailableCommand::GrantApproval, approval, Some(key))->0;
            let deny = pending_for(AvailableCommand::DenyApproval, approval, Some(key))->0;
            &&& start.title[0] == 'S' && stop.title[0] == 'C'
            &&& grant.title[0] == 'G' && deny.title[0] == 'D'
            &&& grant.consequence.subrange(31, 38) == "granted"@
            &&& deny.consequence.subrange(31, 37) == "denied"@
            &&& stop.consequence.subrange(0, 12) == "Cancellation"@
        }),
{
    reveal_strlit("Start run");
    reveal_strlit("Cancel run");
    reveal_strlit("Grant approval");
    reveal_strlit("Deny approval");
    reveal_strlit("Only this approval revision is granted; provider permission remains separate.");
    reveal_strlit("Only this approval revision is denied and the decision is durably audited.");
    reveal_strlit("The exact ready run is admitted once; retries reconcile by idempotency key.");
    reveal_strlit("Cancellation targets the exact run; terminal state is reconciled separately.");
    reveal_strlit("granted");
    reveal_strlit("denied");
    reveal_strlit("Cancellation");
    let grant = pending_for(AvailableCommand::GrantApproval, approval, Some(key))->0;
    let deny = pending_for(AvailableCommand::DenyApproval, approval, Some(key))->0;
    let stop = pending_for(AvailableCommand::StopRun, run, Some(key))->0;
    assert(grant.consequence.subrange(31, 38) =~= "granted"@);
    assert(deny.consequence.subrange(31, 37) =~= "denied"@);
    assert(stop.consequence.subrange(0, 12) =~= "Cancellation"@);
}

/// A text for the selection is composed on a live connection against a record that is current: a
/// follow-up against a session and a request against a node, where the authority has published
/// the action. It begins empty, and names the selected record at the revision that is shown.
pub proof fn composing_needs_a_current_target(state: CockpitModel, target: ResourceRecord)
    requires
        state.selected() == Some(target),
    ensures
        ({
            let follow = state.composed(AvailableCommand::FollowUp);
            let submit = state.composed(AvailableCommand::SubmitRequest);
            let open = state.connection == ConnectionState::Live && target.freshness.state@
                == "fresh"@;
            &&& follow is Ok <==> open && target.resource.kind is Session
                && state.overview.actions.contains(PlatformAction::FollowUp)
            &&& submit is Ok <==> open && target.resource.kind is Node
                && state.overview.actions.contains(PlatformAction::SubmitRequest)
            &&& follow matches Ok(composer) ==> composer.action == PlatformAction::FollowUp
                && composer.target == target.resource && composer.expected_revision
                == target.freshness.revision && composer.text.len() == 0
                && composer.target_label == key_of(target.resource@)
            &&& submit matches Ok(composer) ==> composer.action == PlatformAction::SubmitRequest
                && composer.target == target.resource && composer.expected_revision
                == target.freshness.revision && composer.text.len() == 0
                && composer.target_label == key_of(target.resource@)
            &&& target.resource.kind is Session ==> state.composed_for_selection() == follow
            &&& target.resource.kind is Node ==> state.composed_for_selection() == submit
            &&& !(target.resource.kind is Session) && !(target.resource.kind is Node)
                ==> state.composed_for_selection() is Err
        }),
{
}

/// Steering is composed on a live connection against the lease that the focused pane holds, at
/// the lease's own revision, whatever is selected.
pub proof fn steering_targets_the_focused_lease(state: CockpitModel)
    ensures
        ({
            let steer = state.composed(AvailableCommand::Steer);
            &&& steer is Ok <==> state.connection == ConnectionState::Live
                && focused_pane_is_leased(state) && state.overview.actions.contains(
                PlatformAction::Steer,
            )
            &&& steer matches Ok(composer) ==> {
                let lease = state.panes[state.focused_pane as int].control->0;
                &&& composer.action == PlatformAction::Steer
                &&& composer.target.id == lease.id
                &&& composer.target.kind is ControlLease
                &&& composer.target.authority == lease.session.authority
                &&& composer.expected_revision == lease.revision
                &&& composer.text.len() == 0
                &&& composer.target_label == key_of(composer.target@)
            }
        }),
{
}

/// A composed text is asked to confirm as it was composed: the same action, the same target at the
/// same revision, the text as its parameter, under the key that it was given. A text that the
/// platform does not accept, or that could be given no key, is not.
pub proof fn composed_text_is_carried(composer: ComposerModel, accepted: bool, key: Option<Seq<char>>)
    ensures
        composer.pending(accepted, key) is Some <==> accepted && key is Some && (
        composer.action == PlatformAction::FollowUp || composer.action
            == PlatformAction::SubmitRequest || composer.action == PlatformAction::Steer),
        composer.pending(accepted, key) matches Some(pending) ==> {
            &&& pending.action == composer.action
            &&& pending.target == composer.target
            &&& pending.expected_revision == composer.expected_revision
            &&& pending.parameter == Some(composer.text)
            &&& Some(pending.idempotency_key) == key
            &&& pending.target_label == composer.target_label
        },
{
}

/// A composer that opens takes the place of the one before it and changes nothing else; where none
/// opens, one that was open stays with its text, and only the status changes.
pub proof fn refused_composers_leave_the_open_one(
    result: Result<ComposerModel, Seq<char>>,
    before: CockpitModel,
    open: Option<crate::commands::RequestComposer>,
    after: CockpitModel,
    shown: Option<crate::commands::RequestComposer>,
)
    requires
        crate::commands::opens(result, before, open, after, shown),
    ensures
        result is Err ==> shown == open && after.status == result->Err_0,
        result is Ok ==> after == before && shown is Some && shown->0@ == result->Ok_0,
        after.panes == before.panes,
        after.overview == before.overview,
        after.connection == before.connection,
        after.selected_index == before.selected_index,
{
}

} // verus!
