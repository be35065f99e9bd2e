//! What the operations on panes do, said of the panes themselves.

use vstd::prelude::*;
use vstd::view::View as _;

use crate::backend::OverviewModel;
use crate::protocol::{Attachment, CoordinateModel, ResourceRecord, SessionRecord};
use crate::state::{
    find_pane, find_session, first_pane, first_session, CockpitModel, ConnectionState, PaneModel,
};

verus! {

/// An event on the session that a pane shows comes last in the pane's timeline.
pub proof fn event_on_a_session_reaches_its_pane(
    state: CockpitModel,
    record: ResourceRecord,
    pane: int,
)
    requires
        0 <= pane < state.panes.len(),
        record.resource@ == state.panes[pane].record.session.resource@,
    ensures
        state.notified(record).panes[pane].timeline.len() > 0,
        state.notified(record).panes[pane].timeline.last() == record,
{
}

/// An event on the run of the session that a pane shows comes last in the pane's timeline.
pub proof fn event_on_a_run_reaches_its_pane(
    state: CockpitModel,
    record: ResourceRecord,
    run: CoordinateModel,
    pane: int,
)
    requires
        0 <= pane < state.panes.len(),
        state.panes[pane].record.run is Some,
        state.panes[pane].record.run->0@ == run,
        record.resource@ == run,
    ensures
        state.notified(record).panes[pane].timeline.len() > 0,
        state.notified(record).panes[pane].timeline.last() == record,
{
}

/// An event on any other resource leaves a pane as it is.
pub proof fn event_on_another_resource_leaves_a_pane(
    state: CockpitModel,
    record: ResourceRecord,
    pane: int,
)
    requires
        0 <= pane < state.panes.len(),
        record.resource@ != state.panes[pane].record.session.resource@,
        match state.panes[pane].record.run {
            Some(run) => run@ != record.resource@,
            None => true,
        },
    ensures
        state.notified(record).panes[pane] == state.panes[pane],
{
}

/// An event on a session adds one to what its pane has unread, unless the pane is focused; what
/// the pane kept before stays, but for the oldest record once there are 256.
pub proof fn event_adds_one_record(state: CockpitModel, record: ResourceRecord, pane: int)
    requires
        0 <= pane < state.panes.len(),
        state.panes[pane].timeline.len() <= 256,
        record.resource@ == state.panes[pane].record.session.resource@,
    ensures
        ({
            let before = state.panes[pane];
            let after = state.notified(record).panes[pane];
            &&& before.timeline.len() < 256 ==> after.timeline.drop_last() == before.timeline
            &&& before.timeline.len() == 256 ==> after.timeline.drop_last()
                == before.timeline.drop_first()
            &&& after.timeline.len() <= 256
            &&& state.focused_pane == pane ==> after.unread == before.unread
            &&& state.focused_pane != pane && before.unread < usize::MAX ==> after.unread
                == before.unread + 1
            &&& after.unread >= before.unread
            &&& after.record == before.record
            &&& after.attachment == before.attachment
            &&& after.control == before.control
            &&& after.pinned == before.pinned
        }),
{
    let before = state.panes[pane];
    let after = state.notified(record).panes[pane];
    if before.timeline.len() < 256 {
        assert(after.timeline.drop_last() =~= before.timeline);
    } else {
        assert(after.timeline.drop_last() =~= before.timeline.drop_first());
    }
}

/// An event moves no pane and changes neither the focus nor the selection, the view, the layout,
/// the connection or what is awaited.
pub proof fn event_changes_records_only(state: CockpitModel, record: ResourceRecord)
    ensures
        ({
            let after = state.notified(record);
            &&& after.panes.len() == state.panes.len()
            &&& after.focused_pane == state.focused_pane
            &&& after.view == state.view
            &&& after.connection == state.connection
            &&& after.pane_layout == state.pane_layout
            &&& after.receipts == state.receipts
            &&& after.pending_receipts == state.pending_receipts
            &&& after.selected_key == state.selected_key
            &&& after.overview.sessions == state.overview.sessions
            &&& after.overview.actions == state.overview.actions
            &&& after.overview.methods == state.overview.methods
        }),
{
}

/// Closing the focused pane closes the pane that the focus stands on: the panes before it stay
/// where they are, the panes behind it move up by one, and there is one fewer.
pub proof fn closing_removes_the_focused_pane(state: CockpitModel)
    requires
        state.focused_pane < state.panes.len(),
    ensures
        ({
            let after = state.focus_removed();
            &&& after.panes.len() + 1 == state.panes.len()
            &&& forall|i: int| 0 <= i < state.focused_pane ==> #[trigger] after.panes[i]
                == state.panes[i]
            &&& forall|i: int|
                state.focused_pane <= i < after.panes.len() ==> #[trigger] after.panes[i]
                    == state.panes[i + 1]
        }),
{
}

/// Once the focused pane is closed no pane shows its session, provided that no session was
/// attached twice, and every other session is still shown.
pub proof fn closed_session_is_gone(state: CockpitModel, other: int)
    requires
        state.focused_pane < state.panes.len(),
        forall|i: int, j: int|
            0 <= i < j < state.panes.len() ==> (#[trigger] state.panes[i]).record.session.resource@
                != (#[trigger] state.panes[j]).record.session.resource@,
        0 <= other < state.panes.len(),
        other != state.focused_pane,
    ensures
        forall|i: int|
            0 <= i < state.focus_removed().panes.len() ==> (
            #[trigger] state.focus_removed().panes[i]).record.session.resource@
                != state.panes[state.focused_pane as int].record.session.resource@,
        state.focus_removed().panes.contains(state.panes[other]),
{
    let after = state.focus_removed();
    let focused = state.focused_pane as int;
    assert forall|i: int| 0 <= i < after.panes.len() implies (
    #[trigger] after.panes[i]).record.session.resource@
        != state.panes[focused].record.session.resource@ by {
        if i < focused {
            assert(after.panes[i] == state.panes[i]);
            assert(state.panes[i].record.session.resource@
                != state.panes[focused].record.session.resource@);
        } else {
            assert(after.panes[i] == state.panes[i + 1]);
            assert(state.panes[focused].record.session.resource@ != state.panes[i
                + 1].record.session.resource@);
        }
    }
    if other < focused {
        assert(after.panes[other] == state.panes[other]);
    } else {
        assert(after.panes[other - 1] == state.panes[other]);
    }
}

/// Once the focused pane is closed the focus stands where it stood, or on the last pane where
/// that was the last place.
pub proof fn closing_keeps_the_place_of_the_focus(state: CockpitModel)
    requires
        state.focused_pane < state.panes.len(),
    ensures
        state.focused_pane + 1 < state.panes.len() ==> state.focus_removed().focused_pane
            == state.focused_pane,
        state.focused_pane + 1 == state.panes.len() && state.panes.len() > 1
            ==> state.focus_removed().focused_pane + 1 == state.focused_pane,
        state.panes.len() == 1 ==> state.focus_removed().focused_pane == 0,
        state.focus_removed().overview == state.overview,
        state.focus_removed().connection == state.connection,
        state.focus_removed().receipts == state.receipts,
        state.focus_removed().pending_receipts == state.pending_receipts,
{
}

/// Attaching a session that no pane shows opens a pane on it, behind the others and focused. The
/// pane controls nothing, has seen nothing and is not pinned.
pub proof fn attaching_opens_a_pane(
    state: CockpitModel,
    record: SessionRecord,
    attachment: Attachment,
)
    requires
        state.panes.len() < 12,
        forall|i: int|
            0 <= i < state.panes.len() ==> (#[trigger] state.panes[i]).key()
                != crate::state::key_of(record.session.resource@),
    ensures
        ({
            let after = state.attached(record, attachment);
            &&& after.panes.len() == state.panes.len() + 1
            &&& forall|i: int| 0 <= i < state.panes.len() ==> #[trigger] after.panes[i]
                == state.panes[i]
            &&& after.focused_pane == state.panes.len()
            &&& after.panes.last().record == record
            &&& after.panes.last().attachment == attachment
            &&& after.panes.last().control is None
            &&& after.panes.last().timeline.len() == 0
            &&& after.panes.last().unread == 0
            &&& !after.panes.last().pinned
            &&& after.status == state.status
            &&& after.connection == state.connection
            &&& after.overview == state.overview
        }),
{
    let key = crate::state::key_of(record.session.resource@);
    assert(find_pane(state.panes, key) is None) by {
        assert forall|index: int| !first_pane(state.panes, key, index) by {
            if 0 <= index < state.panes.len() {
                assert(state.panes[index].key() != key);
            }
        }
    }
}

/// Attaching a session that a pane shows already opens nothing: that pane is focused, and no pane
/// changes.
pub proof fn attaching_again_focuses(
    state: CockpitModel,
    record: SessionRecord,
    attachment: Attachment,
    pane: int,
)
    requires
        0 <= pane < state.panes.len(),
        state.panes[pane].record.session.resource@ == record.session.resource@,
        forall|i: int|
            0 <= i < pane ==> (#[trigger] state.panes[i]).key() != crate::state::key_of(
                record.session.resource@,
            ),
    ensures
        state.attached(record, attachment).focused_pane == pane,
        state.attached(record, attachment).panes == state.panes,
        state.attached(record, attachment).status == state.status,
{
    let key = crate::state::key_of(record.session.resource@);
    assert(first_pane(state.panes, key, pane));
    let found = choose|index: int| first_pane(state.panes, key, index);
    if found < pane {
        assert(state.panes[found].key() != key);
    }
    if pane < found {
        assert(state.panes[pane].key() != key);
    }
}

/// There are never more than twelve panes: one more session is not attached, and the panes and
/// the focus stay.
pub proof fn attaching_is_bounded(
    state: CockpitModel,
    record: SessionRecord,
    attachment: Attachment,
)
    requires
        state.panes.len() == 12,
        forall|i: int|
            0 <= i < state.panes.len() ==> (#[trigger] state.panes[i]).key()
                != crate::state::key_of(record.session.resource@),
    ensures
        state.attached(record, attachment).panes == state.panes,
        state.attached(record, attachment).focused_pane == state.focused_pane,
{
    let key = crate::state::key_of(record.session.resource@);
    assert(find_pane(state.panes, key) is None) by {
        assert forall|index: int| !first_pane(state.panes, key, index) by {
            if 0 <= index < state.panes.len() {
                assert(state.panes[index].key() != key);
            }
        }
    }
}

/// The focus moves to the next or the previous pane and stops at the ends; what the pane that it
/// comes to had unread counts as read, and nothing else changes.
pub proof fn focus_moves_by_one(state: CockpitModel, pane: int)
    requires
        state.focused_pane < state.panes.len(),
        0 <= pane < state.panes.len(),
    ensures
        state.focused_pane + 1 < state.panes.len() ==> state.focus_moved(1).focused_pane
            == state.focused_pane + 1,
        state.focused_pane + 1 == state.panes.len() ==> state.focus_moved(1).focused_pane
            == state.focused_pane,
        state.focused_pane > 0 ==> state.focus_moved(-1).focused_pane + 1 == state.focused_pane,
        state.focused_pane == 0 ==> state.focus_moved(-1).focused_pane == 0,
        state.focus_moved(1).panes.len() == state.panes.len(),
        state.focus_moved(-1).panes.len() == state.panes.len(),
        pane == state.focus_moved(1).focused_pane ==> state.focus_moved(1).panes[pane].unread == 0,
        pane == state.focus_moved(-1).focused_pane ==> state.focus_moved(-1).panes[pane].unread
            == 0,
        pane != state.focus_moved(1).focused_pane ==> state.focus_moved(1).panes[pane]
            == state.panes[pane],
        pane != state.focus_moved(-1).focused_pane ==> state.focus_moved(-1).panes[pane]
            == state.panes[pane],
        state.focus_moved(1).panes[pane].timeline == state.panes[pane].timeline,
        state.focus_moved(1).panes[pane].record == state.panes[pane].record,
        state.focus_moved(1).panes[pane].pinned == state.panes[pane].pinned,
        state.focus_moved(1).panes[pane].control == state.panes[pane].control,
        state.focus_moved(-1).panes[pane].timeline == state.panes[pane].timeline,
        state.focus_moved(-1).panes[pane].record == state.panes[pane].record,
        state.focus_moved(-1).panes[pane].pinned == state.panes[pane].pinned,
        state.focus_moved(-1).panes[pane].control == state.panes[pane].control,
        state.focus_moved(1).view == state.view,
        state.focus_moved(-1).view == state.view,
{
}

/// Reordering swaps the focused pane with its neighbour and keeps it focused; at the ends it does
/// nothing.
pub proof fn reordering_swaps_neighbours(state: CockpitModel, pane: int)
    requires
        state.focused_pane < state.panes.len(),
        0 <= pane < state.panes.len(),
    ensures
        state.focused_pane + 1 < state.panes.len() ==> {
            let after = state.focus_reordered(1);
            &&& after.focused_pane == state.focused_pane + 1
            &&& after.panes[(state.focused_pane + 1) as int] == state.panes[state.focused_pane as int]
            &&& after.panes[state.focused_pane as int] == state.panes[(state.focused_pane + 1) as int]
            &&& pane != state.focused_pane && pane != state.focused_pane + 1 ==> after.panes[pane]
                == state.panes[pane]
        },
        state.focused_pane > 0 ==> {
            let after = state.focus_reordered(-1);
            &&& after.focused_pane == state.focused_pane - 1
            &&& after.panes[state.focused_pane - 1] == state.panes[state.focused_pane as int]
            &&& after.panes[state.focused_pane as int] == state.panes[state.focused_pane - 1]
            &&& pane != state.focused_pane && pane != state.focused_pane - 1 ==> after.panes[pane]
                == state.panes[pane]
        },
        state.focused_pane + 1 == state.panes.len() ==> state.focus_reordered(1).panes
            == state.panes,
        state.focused_pane == 0 ==> state.focus_reordered(-1).panes == state.panes,
        state.focus_reordered(1).panes.len() == state.panes.len(),
        state.focus_reordered(-1).panes.len() == state.panes.len(),
{
    assert(state.focused_pane + 1 == state.panes.len() ==> state.focus_reordered(1).panes
        =~= state.panes);
    assert(state.focused_pane == 0 ==> state.focus_reordered(-1).panes =~= state.panes);
}

/// Pinning turns the pin of the focused pane over, and of no other.
pub proof fn pinning_turns_the_focused_pin(state: CockpitModel, pane: int)
    requires
        state.focused_pane < state.panes.len(),
        0 <= pane < state.panes.len(),
    ensures
        state.pin_toggled().panes.len() == state.panes.len(),
        state.pin_toggled().panes[state.focused_pane as int].pinned
            != state.panes[state.focused_pane as int].pinned,
        pane != state.focused_pane ==> state.pin_toggled().panes[pane] == state.panes[pane],
        state.pin_toggled().panes[pane].record == state.panes[pane].record,
        state.pin_toggled().panes[pane].timeline == state.panes[pane].timeline,
        state.pin_toggled().panes[pane].unread == state.panes[pane].unread,
        state.pin_toggled().focused_pane == state.focused_pane,
{
}

/// A newer overview is shown as it is, from its own cursor on, on a live connection. A pane takes
/// over the first session that it lists under the pane's identity, and keeps its record where it
/// lists none; what the observer has kept stays.
pub proof fn newer_overview_is_taken_over(
    state: CockpitModel,
    overview: OverviewModel,
    reconnected: bool,
    pane: int,
    listed: int,
)
    requires
        0 <= pane < state.panes.len(),
        0 <= listed < overview.sessions.len(),
        overview.sessions[listed].session.resource@ == state.panes[pane].record.session.resource@,
        forall|i: int|
            0 <= i < listed ==> (#[trigger] overview.sessions[i]).session.resource@
                != state.panes[pane].record.session.resource@,
    ensures
        ({
            let after = state.replaced(overview, reconnected);
            &&& after.overview == overview
            &&& after.resource_cursor == overview.cursor
            &&& after.connection == ConnectionState::Live
            &&& after.panes.len() == state.panes.len()
            &&& after.panes[pane].record == overview.sessions[listed]
            &&& after.panes[pane].attachment == state.panes[pane].attachment
            &&& after.panes[pane].timeline == state.panes[pane].timeline
            &&& after.panes[pane].unread == state.panes[pane].unread
            &&& after.panes[pane].pinned == state.panes[pane].pinned
            &&& after.focused_pane == state.focused_pane
            &&& after.view == state.view
            &&& after.receipts == state.receipts
            &&& after.pending_receipts == state.pending_receipts
        }),
{
    first_listed_session_is_found(
        overview.sessions,
        state.panes[pane].record.session.resource@,
        listed,
    );
}

/// A pane whose session a newer overview does not list keeps the record that it had.
pub proof fn unlisted_session_stays(
    state: CockpitModel,
    overview: OverviewModel,
    reconnected: bool,
    pane: int,
)
    requires
        0 <= pane < state.panes.len(),
        forall|i: int|
            0 <= i < overview.sessions.len() ==> (
            #[trigger] overview.sessions[i]).session.resource@
                != state.panes[pane].record.session.resource@,
    ensures
        state.replaced(overview, reconnected).panes[pane].record == state.panes[pane].record,
        state.replaced(overview, reconnected).panes[pane].timeline == state.panes[pane].timeline,
        state.replaced(overview, reconnected).overview == overview,
        state.replaced(overview, reconnected).resource_cursor == overview.cursor,
        state.replaced(overview, reconnected).connection == ConnectionState::Live,
{
    let resource = state.panes[pane].record.session.resource@;
    assert(find_session(overview.sessions, resource) is None) by {
        assert forall|index: int| !first_session(overview.sessions, resource, index) by {
            if 0 <= index < overview.sessions.len() {
                assert(overview.sessions[index].session.resource@ != resource);
            }
        }
    }
}

/// The first session under an identity is the one that is found.
pub proof fn first_listed_session_is_found(
    sessions: Seq<SessionRecord>,
    resource: CoordinateModel,
    listed: int,
)
    requires
        0 <= listed < sessions.len(),
        sessions[listed].session.resource@ == resource,
        forall|i: int|
            0 <= i < listed ==> (#[trigger] sessions[i]).session.resource@ != resource,
    ensures
        find_session(sessions, resource) == Some(listed),
{
    assert(first_session(sessions, resource, listed));
    let found = choose|index: int| first_session(sessions, resource, index);
    if found < listed {
        assert(sessions[found].session.resource@ != resource);
    }
    if listed < found {
        assert(sessions[listed].session.resource@ != resource);
    }
}

/// Leases that have run out are dropped and nothing else changes; a lease runs until the moment
/// it names and not a moment longer.
pub proof fn only_leases_expire(state: CockpitModel, now_ms: i64, pane: int)
    requires
        0 <= pane < state.panes.len(),
    ensures
        ({
            let before = state.panes[pane];
            let after = state.expired(now_ms).panes[pane];
            &&& before.control is None ==> after == before
            &&& before.control matches Some(lease) ==> {
                &&& lease.expires_at > now_ms ==> after == before
                &&& lease.expires_at <= now_ms ==> after.control is None
            }
            &&& after.record == before.record
            &&& after.timeline == before.timeline
            &&& after.pinned == before.pinned
            &&& after.unread == before.unread
        }),
        state.expired(now_ms).panes.len() == state.panes.len(),
        state.expired(now_ms).connection == state.connection,
        state.expired(now_ms).overview == state.overview,
        state.expired(now_ms).focused_pane == state.focused_pane,
{
}

/// Attaching tells whether it opened a pane: it did exactly where there is one more.
pub proof fn opening_is_told(state: CockpitModel, record: SessionRecord, attachment: Attachment)
    ensures
        state.opens_pane(record) <==> state.attached(record, attachment).panes.len()
            == state.panes.len() + 1,
        !state.opens_pane(record) <==> state.attached(record, attachment).panes == state.panes,
        state.opens_pane(record) <==> state.panes.len() < 12 && forall|i: int|
            0 <= i < state.panes.len() ==> crate::state::key_of(
                (#[trigger] state.panes[i]).record.session.resource@,
            ) != crate::state::key_of(record.session.resource@),
{
    let key = crate::state::key_of(record.session.resource@);
    if exists|i: int| 0 <= i < state.panes.len() && (#[trigger] state.panes[i]).key() == key {
        let at = choose|i: int|
            0 <= i < state.panes.len() && (#[trigger] state.panes[i]).key() == key;
        first_pane_exists(state.panes, key, at);
    }
}

proof fn first_pane_exists(panes: Seq<PaneModel>, key: Seq<char>, at: int)
    requires
        0 <= at < panes.len(),
        panes[at].key() == key,
    ensures
        exists|index: int| crate::state::first_pane(panes, key, index),
    decreases at,
{
    if exists|before: int| 0 <= before < at && (#[trigger] panes[before]).key() == key {
        let before = choose|before: int| 0 <= before < at && (#[trigger] panes[before]).key() == key;
        first_pane_exists(panes, key, before);
    } else {
        assert(crate::state::first_pane(panes, key, at));
    }
}

} // verus!
