//! What commands, answers and confirmations do, said of the panes, the records and the requests.

use vstd::prelude::*;
use vstd::view::View as _;

use crate::backend::{
    attach_result, claim_control_result, detach_result, receipt_result, release_control_result,
    Reply,
};
use crate::commands::{AvailableCommand, PendingAction};
use crate::interaction::{first_pane_on, holds, releasing, Interaction, Named, Sent, Step};
use crate::pane_laws::{closed_session_is_gone, first_listed_session_is_found};
use crate::protocol::{
    ControlLease, PlatformAction, PlatformRequest, ResourceCoordinate, ResourceRecord,
    SessionRecord,
};
use crate::state::{
    find_session, first_session, key_of, lists_key, visible_records_are_listed, CockpitModel,
    ConnectionState,
};
use crate::stream_laws::{first_listed_record_is_found, unlisted_record_is_not_found};

verus! {

/// Attaching asks for the selected session in this client's name, on a live connection and where
/// the session can be attached; otherwise nothing is asked.
pub proof fn attaching_asks_for_the_selected_session(
    state: CockpitModel,
    client: String,
    session: SessionRecord,
)
    requires
        state.chosen_session() == Some(session),
    ensures
        ({
            let (after, step) = state.commanded(AvailableCommand::Attach, client);
            &&& state.connection == ConnectionState::Live && session.attachable ==> step == (
            Step::Send {
                request: PlatformRequest::Attach { session: session.session.resource, client },
                then: Sent::Attach { session },
            }) && after == state
            &&& state.connection != ConnectionState::Live || !session.attachable ==> step
                == Step::Done
            &&& after.panes == state.panes
            &&& after.focused_pane == state.focused_pane
        }),
{
}

/// A session that was attached has a pane with the answered attachment and without control, which
/// is focused, where no pane showed it and there is room; a refusal opens nothing.
pub proof fn attached_session_is_shown(
    state: CockpitModel,
    session: SessionRecord,
    reply: Reply,
    client: String,
)
    requires
        state.panes.len() < 12,
        forall|i: int|
            0 <= i < state.panes.len() ==> (#[trigger] state.panes[i]).key() != key_of(
                session.session.resource@,
            ),
    ensures
        ({
            let (after, step) = state.answered(Sent::Attach { session }, reply, client);
            &&& step == Step::Done
            &&& attach_result(reply) matches Ok(attachment) ==> {
                &&& after.panes.len() == state.panes.len() + 1
                &&& after.panes.last().record == session
                &&& after.panes.last().attachment == attachment
                &&& after.panes.last().control is None
                &&& after.focused_pane == state.panes.len()
            }
            &&& attach_result(reply) is Err ==> after.panes == state.panes && after.focused_pane
                == state.focused_pane
            &&& after.connection == state.connection
            &&& after.overview == state.overview
        }),
{
    if attach_result(reply) is Ok {
        crate::pane_laws::attaching_opens_a_pane(state, session, attach_result(reply)->Ok_0);
    }
}

/// Where a pane is focused, a claim of control names that pane's session, whatever is selected;
/// where none is, it names the selected session. It is begun on a live connection for a session
/// that can be controlled, and not otherwise.
pub proof fn claim_names_the_focused_session(state: CockpitModel, client: String)
    ensures
        ({
            let (after, step) = state.commanded(AvailableCommand::ClaimControl, client);
            let focused = state.panes[state.focused_pane as int].record;
            &&& state.focused_pane < state.panes.len() && state.connection == ConnectionState::Live
                && focused.controllable ==> step == (Step::Name {
                interaction: Interaction::Claim,
                then: Named::Claim { session: focused },
            }) && after == state
            &&& state.focused_pane < state.panes.len() && !focused.controllable ==> step
                == Step::Done
            &&& state.focused_pane >= state.panes.len() && state.connection
                == ConnectionState::Live ==> match state.chosen_session() {
                Some(session) => if session.controllable {
                    step == (Step::Name {
                        interaction: Interaction::Claim,
                        then: Named::Claim { session },
                    })
                } else {
                    step == Step::Done
                },
                None => step == Step::Done,
            }
            &&& state.connection != ConnectionState::Live ==> step == Step::Done
            &&& after.panes == state.panes
        }),
{
}

/// A named claim asks for the session in this client's name under the given key.
pub proof fn claim_asks_for_its_session(
    state: CockpitModel,
    session: SessionRecord,
    key: String,
    client: String,
)
    ensures
        ({
            let (after, step) = state.named(Named::Claim { session }, Some(key), client);
            &&& after == state
            &&& step == (Step::Send {
                request: PlatformRequest::ClaimControl {
                    session: session.session.resource,
                    client,
                    idempotency_key: key,
                },
                then: Sent::Claim { session },
            })
        }),
        state.named(Named::Claim { session }, None, client).1 == Step::Done,
        state.named(Named::Claim { session }, None, client).0.panes == state.panes,
{
}

/// A granted lease goes to the first pane that shows the claimed session, and to no other; so a
/// claim that began with a pane focused puts the lease into that pane, provided that no session
/// is attached twice. A refused claim changes no pane.
pub proof fn granted_lease_goes_to_its_pane(
    state: CockpitModel,
    session: SessionRecord,
    reply: Reply,
    client: String,
    shown: int,
    pane: int,
)
    requires
        0 <= shown < state.panes.len(),
        state.panes[shown].record.session.resource@ == session.session.resource@,
        forall|i: int|
            0 <= i < shown ==> (#[trigger] state.panes[i]).record.session.resource@
                != session.session.resource@,
        0 <= pane < state.panes.len(),
    ensures
        ({
            let (after, step) = state.answered(Sent::Claim { session }, reply, client);
            &&& step == Step::Done
            &&& after.panes.len() == state.panes.len()
            &&& claim_control_result(reply) matches Ok(lease) ==> after.panes[shown].control
                == Some(lease)
            &&& pane != shown ==> after.panes[pane] == state.panes[pane]
            &&& claim_control_result(reply) is Err ==> after.panes == state.panes
            &&& after.panes[pane].record == state.panes[pane].record
            &&& after.panes[pane].timeline == state.panes[pane].timeline
            &&& after.focused_pane == state.focused_pane
            &&& after.connection == state.connection
        }),
{
    let resource = session.session.resource@;
    assert(first_pane_on(state.panes, resource, shown));
    let found = choose|index: int| first_pane_on(state.panes, resource, index);
    if found < shown {
        assert(state.panes[found].record.session.resource@ != resource);
    }
    if shown < found {
        assert(state.panes[shown].record.session.resource@ != resource);
    }
}

/// A release gives up the lease of the focused pane at once and asks the authority for it; without
/// a lease nothing is asked.
pub proof fn release_gives_up_the_focused_lease(state: CockpitModel, client: String, pane: int)
    requires
        0 <= pane < state.panes.len(),
    ensures
        ({
            let (after, step) = state.commanded(AvailableCommand::ReleaseControl, client);
            let focused = state.focused_pane as int;
            &&& state.focused_pane < state.panes.len() ==> match state.panes[focused].control {
                Some(lease) => {
                    &&& step == (Step::Name {
                        interaction: Interaction::Release,
                        then: Named::Release { lease },
                    })
                    &&& after.panes[focused].control is None
                    &&& after.status == state.status
                },
                None => step == Step::Done && after.panes == state.panes,
            }
            &&& state.focused_pane >= state.panes.len() ==> step == Step::Done && after.panes
                == state.panes
            &&& pane != state.focused_pane ==> after.panes[pane] == state.panes[pane]
            &&& after.panes.len() == state.panes.len()
            &&& after.panes[pane].record == state.panes[pane].record
            &&& after.panes[pane].timeline == state.panes[pane].timeline
        }),
{
}

/// The request that releases a lease names the lease, its session and the client that holds it.
pub proof fn release_names_its_lease(
    state: CockpitModel,
    lease: ControlLease,
    session: ResourceCoordinate,
    key: String,
    client: String,
)
    ensures
        ({
            let asked = PlatformRequest::ReleaseControl {
                session: lease.session,
                client: lease.client,
                lease: lease.id,
                idempotency_key: key,
            };
            &&& state.named(Named::Release { lease }, Some(key), client) == (
                state,
                Step::Send { request: asked, then: Sent::Release { lease } },
            )
            &&& state.named(Named::DetachRelease { lease, session }, Some(key), client) == (
                state,
                Step::Send { request: asked, then: Sent::DetachRelease { lease, session } },
            )
            &&& state.named(
                Named::DetachRelease { lease, session },
                None,
                client,
            ).1 == Step::Done
            &&& releasing(lease, key) == asked
        }),
{
}

/// A release that was acknowledged leaves the focused pane without control; one that was not, or
/// could not be named, gives the lease back to it.
pub proof fn answered_release_settles_the_focused_pane(
    state: CockpitModel,
    lease: ControlLease,
    reply: Reply,
    client: String,
)
    requires
        state.focused_pane < state.panes.len(),
        state.panes[state.focused_pane as int].control is None,
    ensures
        ({
            let focused = state.focused_pane as int;
            let (after, step) = state.answered(Sent::Release { lease }, reply, client);
            let unnamed = state.named(Named::Release { lease }, None, client);
            &&& step == Step::Done
            &&& release_control_result(reply, lease) is Ok ==> after.panes[focused].control is None
            &&& release_control_result(reply, lease) is Err ==> after.panes[focused].control
                == Some(lease)
            &&& unnamed.0.panes[focused].control == Some(lease)
            &&& unnamed.1 == Step::Done
            &&& after.panes.len() == state.panes.len()
        }),
{
}

/// Detaching asks for the session of the focused pane in this client's name; a lease that the pane
/// holds is released first.
pub proof fn detaching_asks_for_the_focused_session(state: CockpitModel, client: String)
    requires
        state.focused_pane < state.panes.len(),
    ensures
        ({
            let pane = state.panes[state.focused_pane as int];
            let (after, step) = state.commanded(AvailableCommand::Detach, client);
            &&& after == state
            &&& match pane.control {
                None => step == (Step::Send {
                    request: PlatformRequest::Detach {
                        session: pane.record.session.resource,
                        client,
                    },
                    then: Sent::Detach { session: pane.record.session.resource },
                }),
                Some(lease) => step == (Step::Name {
                    interaction: Interaction::Release,
                    then: Named::DetachRelease { lease, session: pane.record.session.resource },
                }),
            }
        }),
{
}

/// Once the lease is released the session is detached; where the release is refused nothing more
/// is asked and the pane stays.
pub proof fn detaching_goes_on_after_the_release(
    state: CockpitModel,
    lease: ControlLease,
    session: ResourceCoordinate,
    reply: Reply,
    client: String,
)
    ensures
        ({
            let (after, step) = state.answered(
                Sent::DetachRelease { lease, session },
                reply,
                client,
            );
            &&& release_control_result(reply, lease) is Ok ==> step == (Step::Send {
                request: PlatformRequest::Detach { session, client },
                then: Sent::Detach { session },
            })
            &&& release_control_result(reply, lease) is Err ==> step == Step::Done
            &&& after.panes == state.panes
        }),
{
}

/// After a detach that was acknowledged no pane shows the session that the focused pane showed,
/// provided that no session was attached twice, and every other pane stays; after one that was
/// not, all panes stay.
pub proof fn detached_session_is_gone(
    state: CockpitModel,
    reply: Reply,
    client: String,
    other: int,
)
    requires
        state.focused_pane < state.panes.len(),
        forall|i: int, j: int|
            0 <= i < j < state.panes.len() ==> (#[trigger] state.panes[i]).record.session.resource@
                != (#[trigger] state.panes[j]).record.session.resource@,
        0 <= other < state.panes.len(),
        other != state.focused_pane,
    ensures
        ({
            let session = state.panes[state.focused_pane as int].record.session.resource;
            let (after, step) = state.answered(Sent::Detach { session }, reply, client);
            &&& step == Step::Done
            &&& detach_result(reply, session, client@) is Ok ==> {
                &&& after.panes.len() + 1 == state.panes.len()
                &&& forall|i: int|
                    0 <= i < after.panes.len() ==> (
                    #[trigger] after.panes[i]).record.session.resource@ != session@
                &&& after.panes.contains(state.panes[other])
            }
            &&& detach_result(reply, session, client@) is Err ==> after.panes == state.panes
        }),
{
    closed_session_is_gone(state, other);
}

/// Whether a record is the first one of its resource among the resources with the sessions behind
/// them: the one that the cockpit shows.
pub open spec fn is_first_shown(state: CockpitModel, record: ResourceRecord) -> bool {
    ||| exists|place: int|
        {
            &&& 0 <= place < state.overview.resources.len()
            &&& #[trigger] state.overview.resources[place] == record
            &&& forall|i: int|
                0 <= i < place ==> (#[trigger] state.overview.resources[i]).resource@
                    != record.resource@
        }
    ||| {
        &&& forall|i: int|
            0 <= i < state.overview.resources.len() ==> (
            #[trigger] state.overview.resources[i]).resource@ != record.resource@
        &&& exists|place: int|
            {
                &&& 0 <= place < state.overview.sessions.len()
                &&& (#[trigger] state.overview.sessions[place]).session == record
                &&& forall|i: int|
                    0 <= i < place ==> (
                    #[trigger] state.overview.sessions[i]).session.resource@ != record.resource@
            }
    }
}

/// A confirmed mutation other than steering is sent exactly where the connection is live and the
/// record that the cockpit shows of its target stands at the confirmed revision.
pub proof fn mutation_is_sent_at_the_shown_revision(
    state: CockpitModel,
    pending: PendingAction,
    record: ResourceRecord,
)
    requires
        pending.action != PlatformAction::Steer,
        record.resource@ == pending.target@,
        is_first_shown(state, record),
    ensures
        state.confirmed(pending).1 is Send <==> state.connection == ConnectionState::Live
            && record.freshness.revision == pending.expected_revision,
        state.confirmed(pending).1 is Send || state.confirmed(pending).1 == Step::Done,
{
    shown_revision_is_the_records(state, record);
}

/// A mutation on a resource that is not shown at all is never sent.
pub proof fn unknown_target_is_never_sent(state: CockpitModel, pending: PendingAction)
    requires
        pending.action != PlatformAction::Steer,
        forall|i: int|
            0 <= i < state.overview.resources.len() ==> (
            #[trigger] state.overview.resources[i]).resource@ != pending.target@,
        forall|i: int|
            0 <= i < state.overview.sessions.len() ==> (
            #[trigger] state.overview.sessions[i]).session.resource@ != pending.target@,
    ensures
        state.confirmed(pending).1 == Step::Done,
{
    unlisted_record_is_not_found(state.overview.resources, pending.target@);
    assert(find_session(state.overview.sessions, pending.target@) is None) by {
        assert forall|index: int| !first_session(
            state.overview.sessions,
            pending.target@,
            index,
        ) by {
            if 0 <= index < state.overview.sessions.len() {
                assert(state.overview.sessions[index].session.resource@ != pending.target@);
            }
        }
    }
}

proof fn shown_revision_is_the_records(state: CockpitModel, record: ResourceRecord)
    requires
        is_first_shown(state, record),
    ensures
        state.shown_revision(record.resource@) == Some(record.freshness.revision),
{
    let resources = state.overview.resources;
    let sessions = state.overview.sessions;
    if exists|place: int|
        {
            &&& 0 <= place < resources.len()
            &&& #[trigger] resources[place] == record
            &&& forall|i: int|
                0 <= i < place ==> (#[trigger] resources[i]).resource@ != record.resource@
        } {
        let place = choose|place: int|
            {
                &&& 0 <= place < resources.len()
                &&& #[trigger] resources[place] == record
                &&& forall|i: int|
                    0 <= i < place ==> (#[trigger] resources[i]).resource@ != record.resource@
            };
        first_listed_record_is_found(resources, record.resource@, place);
    } else {
        unlisted_record_is_not_found(resources, record.resource@);
        let place = choose|place: int|
            {
                &&& 0 <= place < sessions.len()
                &&& (#[trigger] sessions[place]).session == record
                &&& forall|i: int|
                    0 <= i < place ==> (#[trigger] sessions[i]).session.resource@
                        != record.resource@
            };
        first_listed_session_is_found(sessions, record.resource@, place);
    }
}

/// The selected record is the first one of its resource.
pub proof fn selected_record_is_the_first(state: CockpitModel, record: ResourceRecord)
    requires
        state.selected() == Some(record),
    ensures
        is_first_shown(state, record),
{
    let records = state.records();
    let index = state.selected_index as int;
    visible_record_is_first(records, state.view, index);
    let place = choose|place: int|
        0 <= place < records.len() && #[trigger] records[place] == record && !lists_key(
            records.take(place),
            key_of(record.resource@),
        );
    visible_records_are_listed(records, state.view, index);
    assert forall|i: int| 0 <= i < place implies (#[trigger] records[i]).resource@
        != record.resource@ by {
        if records[i].resource@ == record.resource@ {
            same_coordinates_register_alike(records[i], record);
            assert(records.take(place)[i] == records[i]);
            assert(lists_key(records.take(place), key_of(record.resource@)));
        }
    }
    let resources = state.overview.resources;
    if place < resources.len() {
        assert(resources[place] == record);
        assert forall|i: int| 0 <= i < place implies (#[trigger] resources[i]).resource@
            != record.resource@ by {
            assert(records[i] == resources[i]);
        }
    } else {
        assert forall|i: int| 0 <= i < resources.len() implies (
        #[trigger] resources[i]).resource@ != record.resource@ by {
            assert(records[i] == resources[i]);
        }
        let at = place - resources.len();
        assert(state.overview.sessions[at].session == record);
        assert forall|i: int| 0 <= i < at implies (
        #[trigger] state.overview.sessions[i]).session.resource@ != record.resource@ by {
            assert(records[resources.len() + i] == state.overview.sessions[i].session);
        }
    }
}

proof fn same_coordinates_register_alike(left: ResourceRecord, right: ResourceRecord)
    requires
        left.resource@ == right.resource@,
    ensures
        crate::backend::registers_action(left) == crate::backend::registers_action(right),
{
    assert(left.resource.authority@ == right.resource.authority@);
    assert(left.resource.kind@ == right.resource.kind@);
    assert(left.resource.id@ == right.resource.id@);
}

proof fn visible_record_is_first(
    records: Seq<ResourceRecord>,
    view: crate::state::View,
    index: int,
)
    requires
        0 <= index < crate::state::visible(records, view).len(),
    ensures
        exists|place: int|
            0 <= place < records.len() && #[trigger] records[place] == crate::state::visible(
                records,
                view,
            )[index] && !lists_key(
                records.take(place),
                key_of(crate::state::visible(records, view)[index].resource@),
            ),
    decreases records.len(),
{
    let before = records.drop_last();
    let earlier = crate::state::visible(before, view);
    let shown = crate::state::visible(records, view)[index];
    if index < earlier.len() {
        visible_record_is_first(before, view, index);
        let place = choose|place: int|
            0 <= place < before.len() && #[trigger] before[place] == shown && !lists_key(
                before.take(place),
                key_of(shown.resource@),
            );
        assert(before.take(place) =~= records.take(place));
        assert(records[place] == shown);
    } else {
        let place = records.len() - 1;
        assert(records.take(place) =~= before);
        assert(records[place] == shown);
    }
}

/// What is asked for on the selected record at the revision that is shown, and is confirmed in the
/// same state on a live connection, is sent: it names the record, its revision, the action, the
/// parameter and the key that were confirmed.
pub proof fn what_is_confirmed_on_the_selection_is_sent(
    state: CockpitModel,
    pending: PendingAction,
    record: ResourceRecord,
)
    requires
        state.connection == ConnectionState::Live,
        state.selected() == Some(record),
        pending.action != PlatformAction::Steer,
        pending.target@ == record.resource@,
        pending.expected_revision == record.freshness.revision,
    ensures
        state.confirmed(pending).1 matches Step::Send {
            request: PlatformRequest::Execute(request),
            then: Sent::Execute { key },
        } && {
            &&& request.action == pending.action
            &&& request.target == pending.target
            &&& request.expected_revision == Some(pending.expected_revision)
            &&& request.parameter == pending.parameter
            &&& request.idempotency_key == pending.idempotency_key
            &&& key == pending.idempotency_key
        },
        state.confirmed(pending).0 == state,
{
    selected_record_is_the_first(state, record);
    mutation_is_sent_at_the_shown_revision(state, pending, record);
}

/// Confirmed steering is sent exactly where the connection is live and some pane holds the lease
/// that it was composed against, at the revision that was confirmed.
pub proof fn steering_is_sent_under_its_lease(
    state: CockpitModel,
    pending: PendingAction,
    pane: int,
)
    requires
        pending.action == PlatformAction::Steer,
    ensures
        state.connection == ConnectionState::Live && 0 <= pane < state.panes.len() && (
        state.panes[pane].control matches Some(lease) && lease.id@ == pending.target.id@
            && pending.target.kind@ == crate::protocol::ResourceKind::ControlLease@
            && lease.session.authority@ == pending.target.authority@ && lease.revision
            == pending.expected_revision) ==> state.confirmed(pending).1 is Send,
        state.confirmed(pending).1 is Send ==> state.connection == ConnectionState::Live && exists|
            i: int,
        |
            0 <= i < state.panes.len() && ((#[trigger] state.panes[i]).control matches Some(lease)
                && lease.id@ == pending.target.id@ && lease.revision
                == pending.expected_revision),
{
    if state.connection == ConnectionState::Live && 0 <= pane < state.panes.len() && (
    state.panes[pane].control matches Some(lease) && lease.id@ == pending.target.id@
        && pending.target.kind@ == crate::protocol::ResourceKind::ControlLease@
        && lease.session.authority@ == pending.target.authority@ && lease.revision
        == pending.expected_revision) {
        assert(holds(state.panes[pane], pending.target@, pending.expected_revision));
    }
    if state.confirmed(pending).1 is Send {
        let i = choose|i: int|
            0 <= i < state.panes.len() && holds(
                #[trigger] state.panes[i],
                pending.target@,
                pending.expected_revision,
            );
        assert(state.panes[i].control is Some);
    }
}

/// A receipt that answers a mutation is kept and nothing is awaited; a refusal keeps everything;
/// anything else asks for the receipt by the mutation's key, and a receipt that is then found is
/// kept too.
pub proof fn mutation_is_answered(state: CockpitModel, key: String, reply: Reply, client: String)
    ensures
        ({
            let (sent, step) = state.answered(Sent::Execute { key }, reply, client);
            let (asked, end) = state.answered(Sent::Receipt { key }, reply, client);
            &&& end == Step::Done
            &&& receipt_result(reply) matches Ok(receipt) ==> {
                &&& step == Step::Done
                &&& sent.receipts.len() > 0 && sent.receipts.last() == receipt
                &&& asked.receipts.len() > 0 && asked.receipts.last() == receipt
                &&& sent.connection == state.connection && asked.connection == state.connection
                &&& sent.pending_receipts == state.pending_receipts
                &&& asked.pending_receipts == state.pending_receipts
            }
            &&& receipt_result(reply) matches Err(error) ==> {
                &&& error is Refused ==> step == Step::Done && sent.connection
                    == state.connection
                &&& !(error is Refused) ==> step == (Step::Send {
                    request: PlatformRequest::GetReceipt { idempotency_key: key },
                    then: Sent::Receipt { key },
                })
                &&& sent.receipts == state.receipts && asked.receipts == state.receipts
                &&& sent.pending_receipts == state.pending_receipts
                &&& asked.connection == ConnectionState::Stale
            }
            &&& sent.panes == state.panes && asked.panes == state.panes
        }),
{
}

/// A receipt is kept behind those that are kept already, of which the oldest leaves once there are
/// 64; what is said names the action, its outcome and its target.
pub proof fn receipts_are_kept_in_order(
    state: CockpitModel,
    receipt: crate::protocol::ActionReceipt,
)
    requires
        state.receipts.len() <= 64,
    ensures
        ({
            let after = state.receiving(receipt);
            &&& after.receipts.last() == receipt
            &&& state.receipts.len() < 64 ==> after.receipts.drop_last() == state.receipts
            &&& state.receipts.len() == 64 ==> after.receipts.drop_last()
                == state.receipts.drop_first()
            &&& after.panes == state.panes
            &&& after.pending_receipts == state.pending_receipts
            &&& after.connection == state.connection
            &&& crate::text::has_prefix(after.status, receipt.action.name())
            &&& crate::text::contains_text(after.status, receipt.outcome@)
            &&& crate::text::contains_text(after.status, receipt.target.id@)
        }),
{
    let after = state.receiving(receipt);
    if state.receipts.len() < 64 {
        assert(after.receipts.drop_last() =~= state.receipts);
    } else {
        assert(after.receipts.drop_last() =~= state.receipts.drop_first());
    }
    let name = receipt.action.name();
    let outcome = receipt.outcome@;
    let id = receipt.target.id@;
    assert(after.status.take(name.len() as int) =~= name);
    let at = name.len() + " "@.len();
    assert(after.status.subrange(at as int, (at + outcome.len()) as int) =~= outcome);
    assert(crate::text::stands_at(after.status, outcome, at as int));
    let place = at + outcome.len() + " for "@.len();
    assert(after.status.subrange(place as int, (place + id.len()) as int) =~= id);
    assert(crate::text::stands_at(after.status, id, place as int));
}

/// A receipt that is awaited comes behind those that are awaited already, of which the oldest
/// leaves once there are 64; one that is awaited already is not awaited twice.
pub proof fn awaited_receipts_are_kept_in_order(state: CockpitModel, key: Seq<char>)
    requires
        state.pending_receipts.len() <= 64,
    ensures
        ({
            let after = state.awaiting(key);
            &&& state.pending_receipts.contains(key) ==> after == state
            &&& !state.pending_receipts.contains(key) ==> {
                &&& after.pending_receipts.last() == key
                &&& state.pending_receipts.len() < 64 ==> after.pending_receipts.drop_last()
                    == state.pending_receipts
                &&& state.pending_receipts.len() == 64 ==> after.pending_receipts.drop_last()
                    == state.pending_receipts.drop_first()
            }
            &&& after.panes == state.panes
            &&& after.connection == state.connection
        }),
{
    let after = state.awaiting(key);
    if !state.pending_receipts.contains(key) {
        if state.pending_receipts.len() < 64 {
            assert(after.pending_receipts.drop_last() =~= state.pending_receipts);
        } else {
            assert(after.pending_receipts.drop_last() =~= state.pending_receipts.drop_first());
        }
    }
}

/// A mutation that needs a confirmation is begun on the selected record, on a live connection and
/// for a record of the command's kind; it is named after its action.
pub proof fn confirmation_begins_on_the_selection(
    state: CockpitModel,
    client: String,
    target: ResourceRecord,
)
    requires
        state.selected() == Some(target),
    ensures
        ({
            let live = state.connection == ConnectionState::Live;
            let run = live && target.resource.kind is Run;
            let approval = live && target.resource.kind is Approval;
            let begins = |command: AvailableCommand, action: PlatformAction|
                state.commanded(command, client).1 == (Step::Name {
                    interaction: Interaction::Act(action),
                    then: Named::Confirm { command, target },
                });
            let ends = |command: AvailableCommand|
                state.commanded(command, client).1 == Step::Done;
            &&& if run {
                begins(AvailableCommand::StartRun, PlatformAction::StartRun) && begins(
                    AvailableCommand::StopRun,
                    PlatformAction::StopRun,
                )
            } else {
                ends(AvailableCommand::StartRun) && ends(AvailableCommand::StopRun)
            }
            &&& if approval {
                begins(AvailableCommand::GrantApproval, PlatformAction::DecideApproval) && begins(
                    AvailableCommand::DenyApproval,
                    PlatformAction::DecideApproval,
                )
            } else {
                ends(AvailableCommand::GrantApproval) && ends(AvailableCommand::DenyApproval)
            }
        }),
{
}

/// A refresh is asked for by making the state reconnect; the next layout is another one, and
/// neither sends anything.
pub proof fn refresh_and_layout_send_nothing(state: CockpitModel, client: String)
    ensures
        ({
            let (refreshed, first) = state.commanded(AvailableCommand::Refresh, client);
            let (cycled, second) = state.commanded(AvailableCommand::CycleLayout, client);
            &&& first == Step::Done && second == Step::Done
            &&& refreshed.connection == ConnectionState::Reconnecting
            &&& refreshed.panes == state.panes && refreshed.overview == state.overview
            &&& cycled.pane_layout != state.pane_layout
            &&& cycled.panes == state.panes && cycled.connection == state.connection
            &&& cycled.status == state.status
        }),
{
}

/// A command that cannot be carried out says so, and leaves the panes, the records and the
/// connection as they are.
pub proof fn refused_commands_change_the_status_only(
    state: CockpitModel,
    command: AvailableCommand,
    client: String,
)
    requires
        command != AvailableCommand::Refresh,
        command != AvailableCommand::ReleaseControl,
        command != AvailableCommand::CycleLayout,
    ensures
        ({
            let after = state.commanded(command, client).0;
            &&& after.panes == state.panes
            &&& after.focused_pane == state.focused_pane
            &&& after.connection == state.connection
            &&& after.overview == state.overview
            &&& after.selected_key == state.selected_key
            &&& after.view == state.view
            &&& after.receipts == state.receipts
            &&& after.pending_receipts == state.pending_receipts
            &&& after.pane_layout == state.pane_layout
        }),
{
}

} // verus!
