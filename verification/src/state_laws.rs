//! What holds of every cockpit state.

use vstd::prelude::*;
use vstd::view::View as _;

use crate::backend::OverviewModel;
use crate::protocol::{
    ActionReceipt, Attachment, CoordinateModel, PlatformEvent, ResourceRecord, SessionRecord,
    Subscription,
};
use crate::state::{
    distinct_panes, find_pane, first_pane, first_session, key_of, opened, pushed_within,
    stands_under, without, visible_keys_are_distinct, ApplyEvents, CockpitModel, ConnectionState,
    PaneModel, Replay, View, MAX_PENDING_RECEIPTS, MAX_TIMELINE_EVENTS,
};

verus! {

/// A cockpit opens in a sound state.
pub proof fn opening_is_sound(overview: OverviewModel)
    ensures
        opened(overview).sound(),
{
}

/// Every operation keeps a sound state sound.
pub proof fn operations_keep_soundness(
    state: CockpitModel,
    overview: OverviewModel,
    reconnected: bool,
    now_ms: i64,
    key: Seq<char>,
    view: View,
    delta: int,
    record: SessionRecord,
    attachment: Attachment,
    receipt: ActionReceipt,
    subscription: Subscription,
)
    requires
        state.sound(),
    ensures
        state.replaced(overview, reconnected).sound(),
        state.expired(now_ms).sound(),
        state.awaiting(key).sound(),
        state.resolved(key).sound(),
        state.viewing(view).sound(),
        state.moved_selection(delta).sound(),
        state.pin_toggled().sound(),
        state.attached(record, attachment).sound(),
        state.focus_removed().sound(),
        state.focus_moved(delta).sound(),
        state.focus_reordered(delta).sound(),
        state.receiving(receipt).sound(),
        state.subscribed(subscription).sound(),
{
    refreshing_keeps_keys(state.panes, overview.sessions, reconnected);
    assert(state.replaced(overview, reconnected).sound());
    expiring_keeps_keys(state.panes, now_ms);
    assert(state.expired(now_ms).sound());
    waiting_keeps_soundness(state, key);
    resolving_removes(state.pending_receipts, key);
    assert(state.resolved(key).sound());
    attaching_keeps_soundness(state, record, attachment);
    removing_keeps_soundness(state);
    moving_focus_keeps_soundness(state, delta);
    reordering_keeps_soundness(state, delta);
    replaying_keeps_soundness(
        state,
        subscription.events@,
        state.resource_cursor.sequence,
        false,
    );
}

proof fn refreshing_keeps_keys(
    panes: Seq<PaneModel>,
    sessions: Seq<SessionRecord>,
    reconnected: bool,
)
    requires
        distinct_panes(panes),
    ensures
        distinct_panes(
            panes.map_values(|pane: PaneModel| pane.refreshed(sessions, reconnected)),
        ),
{
    let after = panes.map_values(|pane: PaneModel| pane.refreshed(sessions, reconnected));
    assert forall|i: int| 0 <= i < panes.len() implies #[trigger] after[i].key()
        == panes[i].key() by {
        refreshing_keeps_identity(panes[i], sessions, reconnected);
    }
    assert forall|i: int, j: int| 0 <= i < j < after.len() implies (#[trigger] after[i]).key() != (
    #[trigger] after[j]).key() by {
        assert(panes[i].key() != panes[j].key());
        assert(after[i].key() == panes[i].key() && after[j].key() == panes[j].key());
    }
}

/// A newer overview never changes which session a pane shows.
pub proof fn refreshing_keeps_identity(
    pane: PaneModel,
    sessions: Seq<SessionRecord>,
    reconnected: bool,
)
    ensures
        pane.refreshed(sessions, reconnected).record.session.resource@
            == pane.record.session.resource@,
        pane.refreshed(sessions, reconnected).key() == pane.key(),
{
    let resource = pane.record.session.resource@;
    if exists|index: int| first_session(sessions, resource, index) {
        let index = choose|index: int| first_session(sessions, resource, index);
        assert(first_session(sessions, resource, index));
    }
}

proof fn expiring_keeps_keys(panes: Seq<PaneModel>, now_ms: i64)
    requires
        distinct_panes(panes),
    ensures
        distinct_panes(panes.map_values(|pane: PaneModel| pane.expired(now_ms))),
{
    let after = panes.map_values(|pane: PaneModel| pane.expired(now_ms));
    assert forall|i: int, j: int| 0 <= i < j < after.len() implies (#[trigger] after[i]).key() != (
    #[trigger] after[j]).key() by {
        assert(panes[i].key() != panes[j].key());
    }
}

/// Waiting for a receipt keeps a sound state sound.
pub proof fn waiting_keeps_soundness(state: CockpitModel, key: Seq<char>)
    requires
        state.sound(),
    ensures
        state.awaiting(key).sound(),
{
    if !state.pending_receipts.contains(key) {
        waiting_is_bounded(state.pending_receipts, key);
    }
}

proof fn waiting_is_bounded(pending: Seq<Seq<char>>, key: Seq<char>)
    requires
        pending.no_duplicates(),
        pending.len() <= MAX_PENDING_RECEIPTS,
        !pending.contains(key),
    ensures
        pushed_within(pending, key, MAX_PENDING_RECEIPTS as nat).no_duplicates(),
        pushed_within(pending, key, MAX_PENDING_RECEIPTS as nat).len() <= MAX_PENDING_RECEIPTS,
{
    let after = pushed_within(pending, key, MAX_PENDING_RECEIPTS as nat);
    assert forall|i: int, j: int| 0 <= i < after.len() && 0 <= j < after.len() && i != j implies after[i]
        != after[j] by {
        let shift: int = if pending.len() == MAX_PENDING_RECEIPTS {
            1
        } else {
            0
        };
        if i < after.len() - 1 {
            assert(after[i] == pending[i + shift]);
        }
        if j < after.len() - 1 {
            assert(after[j] == pending[j + shift]);
        }
    }
}

/// Resolving a receipt removes it from those that are awaited, and no other.
pub proof fn resolving_removes(pending: Seq<Seq<char>>, key: Seq<char>)
    requires
        pending.no_duplicates(),
    ensures
        ({
            let rest = without(pending, key);
            &&& !rest.contains(key)
            &&& forall|other: Seq<char>|
                other != key ==> (#[trigger] rest.contains(other) <==> pending.contains(other))
            &&& rest.no_duplicates()
            &&& rest.len() <= pending.len()
        }),
    decreases pending.len(),
{
    reveal(Seq::filter);
    let rest = without(pending, key);
    if pending.len() > 0 {
        let before = pending.drop_last();
        let last = pending.last();
        assert forall|i: int, j: int| 0 <= i < before.len() && 0 <= j < before.len() && i != j implies before[i]
            != before[j] by {
            assert(pending[i] != pending[j]);
        }
        resolving_removes(before, key);
        let earlier = without(before, key);
        assert forall|other: Seq<char>| #[trigger] pending.contains(other) <==> (before.contains(
            other,
        ) || other == last) by {
            if pending.contains(other) {
                let i = choose|i: int| 0 <= i < pending.len() && pending[i] == other;
                if i < before.len() {
                    assert(before[i] == other);
                }
            }
            if before.contains(other) {
                let i = choose|i: int| 0 <= i < before.len() && before[i] == other;
                assert(pending[i] == other);
            }
            assert(pending[pending.len() - 1] == last);
        }
        assert(!before.contains(last)) by {
            if before.contains(last) {
                let i = choose|i: int| 0 <= i < before.len() && before[i] == last;
                assert(pending[i] == pending[pending.len() - 1]);
            }
        }
        if last != key {
            assert(rest == earlier.push(last));
            assert forall|other: Seq<char>| #[trigger] rest.contains(other) <==> (earlier.contains(
                other,
            ) || other == last) by {
                if rest.contains(other) {
                    let i = choose|i: int| 0 <= i < rest.len() && rest[i] == other;
                    if i < earlier.len() {
                        assert(earlier[i] == other);
                    }
                }
                if earlier.contains(other) {
                    let i = choose|i: int| 0 <= i < earlier.len() && earlier[i] == other;
                    assert(rest[i] == other);
                }
                assert(rest[rest.len() - 1] == last);
            }
            assert(!earlier.contains(last));
            assert forall|i: int, j: int| 0 <= i < rest.len() && 0 <= j < rest.len() && i != j implies rest[i]
                != rest[j] by {
                if i < earlier.len() && j < earlier.len() {
                    assert(earlier[i] != earlier[j]);
                } else if i < earlier.len() {
                    assert(earlier.contains(earlier[i]));
                } else {
                    assert(earlier.contains(earlier[j]));
                }
            }
        } else {
            assert(rest == earlier);
        }
    }
}

/// A receipt that is awaited stays awaited until it is resolved or more receipts are awaited
/// than are kept.
pub proof fn waiting_is_kept(state: CockpitModel, key: Seq<char>)
    ensures
        state.awaiting(key).pending_receipts.contains(key),
        state.awaiting(key).awaiting(key) == state.awaiting(key),
{
    let after = state.awaiting(key).pending_receipts;
    if !state.pending_receipts.contains(key) {
        assert(after[after.len() - 1] == key);
    }
}

/// Attaching keeps a sound state sound.
pub proof fn attaching_keeps_soundness(
    state: CockpitModel,
    record: SessionRecord,
    attachment: Attachment,
)
    requires
        state.sound(),
    ensures
        state.attached(record, attachment).sound(),
{
    let key = key_of(record.session.resource@);
    let after = state.attached(record, attachment);
    match find_pane(state.panes, key) {
        Some(index) => {
            assert(first_pane(state.panes, key, index));
        },
        None => {
            unattached_key_is_new(state.panes, key);
            if state.panes.len() < crate::state::MAX_PANES {
                assert forall|i: int, j: int| 0 <= i < j < after.panes.len() implies (
                #[trigger] after.panes[i]).key() != (#[trigger] after.panes[j]).key() by {
                    assert(state.panes[i].key() != key);
                    if j < state.panes.len() {
                        assert(state.panes[i].key() != state.panes[j].key());
                    }
                }
            }
        },
    }
}

proof fn unattached_key_is_new(panes: Seq<PaneModel>, key: Seq<char>)
    requires
        find_pane(panes, key) is None,
    ensures
        forall|i: int| 0 <= i < panes.len() ==> (#[trigger] panes[i]).key() != key,
{
    assert forall|i: int| 0 <= i < panes.len() implies (#[trigger] panes[i]).key() != key by {
        if panes[i].key() == key {
            first_pane_exists(panes, key, i);
        }
    }
}

proof fn first_pane_exists(panes: Seq<PaneModel>, key: Seq<char>, index: int)
    requires
        0 <= index < panes.len(),
        panes[index].key() == key,
    ensures
        exists|first: int| first_pane(panes, key, first),
    decreases index,
{
    if exists|before: int| 0 <= before < index && (#[trigger] panes[before]).key() == key {
        let before = choose|before: int|
            0 <= before < index && (#[trigger] panes[before]).key() == key;
        first_pane_exists(panes, key, before);
    } else {
        assert(first_pane(panes, key, index));
    }
}

/// Closing the focused pane keeps a sound state sound.
pub proof fn removing_keeps_soundness(state: CockpitModel)
    requires
        state.sound(),
    ensures
        state.focus_removed().sound(),
{
    if state.panes.len() > 0 {
        let at = state.removable();
        let rest = state.panes.remove(at);
        assert forall|i: int, j: int| 0 <= i < j < rest.len() implies (#[trigger] rest[i]).key()
            != (#[trigger] rest[j]).key() by {
            let left = if i < at {
                i
            } else {
                i + 1
            };
            let right = if j < at {
                j
            } else {
                j + 1
            };
            assert(state.panes[left].key() != state.panes[right].key());
        }
        assert forall|i: int| 0 <= i < rest.len() implies (#[trigger] rest[i]).timeline.len()
            <= MAX_TIMELINE_EVENTS by {
            let before = if i < at {
                i
            } else {
                i + 1
            };
            assert(rest[i] == state.panes[before]);
        }
    }
}

/// Moving the focus and pinning keep a sound state sound.
pub proof fn moving_focus_keeps_soundness(state: CockpitModel, delta: int)
    requires
        state.sound(),
    ensures
        state.focus_moved(delta).sound(),
        state.pin_toggled().sound(),
{
    let moved = state.focus_moved(delta);
    assert forall|i: int, j: int| 0 <= i < j < moved.panes.len() implies (
    #[trigger] moved.panes[i]).key() != (#[trigger] moved.panes[j]).key() by {
        assert(state.panes[i].key() != state.panes[j].key());
    }
    let pinned = state.pin_toggled();
    assert forall|i: int, j: int| 0 <= i < j < pinned.panes.len() implies (
    #[trigger] pinned.panes[i]).key() != (#[trigger] pinned.panes[j]).key() by {
        assert(state.panes[i].key() != state.panes[j].key());
    }
}

/// Reordering keeps a sound state sound.
pub proof fn reordering_keeps_soundness(state: CockpitModel, delta: int)
    requires
        state.sound(),
    ensures
        state.focus_reordered(delta).sound(),
{
    let after = state.focus_reordered(delta);
    if state.panes.len() >= 2 {
        let from = state.focused_pane as int;
        let to = after.focused_pane as int;
        let source = |i: int|
            if i == from {
                to
            } else if i == to {
                from
            } else {
                i
            };
        assert forall|i: int| 0 <= i < after.panes.len() implies #[trigger] after.panes[i]
            == state.panes[source(i)] by {}
        assert forall|i: int, j: int| 0 <= i < j < after.panes.len() implies (
        #[trigger] after.panes[i]).key() != (#[trigger] after.panes[j]).key() by {
            let left = source(i);
            let right = source(j);
            if left < right {
                assert(state.panes[left].key() != state.panes[right].key());
            } else {
                assert(state.panes[right].key() != state.panes[left].key());
            }
        }
    }
}

proof fn replaying_keeps_soundness(
    state: CockpitModel,
    events: Seq<PlatformEvent>,
    reached: u64,
    applied: bool,
)
    requires
        state.sound(),
    ensures
        state.replayed(events, reached, applied).state.sound(),
    decreases events.len(),
{
    if events.len() > 0 {
        let event = events[0];
        let rest = events.skip(1);
        if event.cursor.sequence <= reached {
            replaying_keeps_soundness(state, rest, reached, applied);
        } else if event.cursor.sequence == reached + 1 {
            notifying_keeps_soundness(state, event.resource);
            replaying_keeps_soundness(
                state.notified(event.resource),
                rest,
                event.cursor.sequence,
                true,
            );
        }
    }
}

proof fn notifying_keeps_soundness(state: CockpitModel, record: ResourceRecord)
    requires
        state.sound(),
    ensures
        state.notified(record).sound(),
{
    let after = state.notified(record);
    assert forall|i: int, j: int| 0 <= i < j < after.panes.len() implies (
    #[trigger] after.panes[i]).key() != (#[trigger] after.panes[j]).key() by {
        assert(state.panes[i].key() != state.panes[j].key());
    }
    assert forall|i: int| 0 <= i < after.panes.len() implies (#[trigger] after.panes[i]).timeline.len()
        <= MAX_TIMELINE_EVENTS by {
        assert(state.panes[i].timeline.len() <= MAX_TIMELINE_EVENTS);
    }
}

/// Stabilizing twice is stabilizing once.
pub proof fn stabilizing_is_idempotent(state: CockpitModel)
    ensures
        state.stabilized().stabilized() == state.stabilized(),
{
    let shown = state.shown();
    let once = state.stabilized();
    if shown.len() > 0 {
        let key = once.selected_key->0;
        assert(stands_under(shown, key, once.selected_index as int));
        let chosen = choose|index: int| stands_under(shown, key, index);
        visible_keys_are_distinct(
            state.records(),
            state.view,
            chosen,
            once.selected_index as int,
        );
    }
}

/// After every operation that stabilizes the selection, the selected record is the one that
/// holds the selected key, and nothing is selected only where nothing is shown.
pub proof fn stabilized_selection_is_shown(state: CockpitModel)
    ensures
        match state.stabilized().selected() {
            Some(record) => state.stabilized().selected_key == Some(key_of(record.resource@)),
            None => state.stabilized().selected_key is None && state.shown().len() == 0,
        },
{
    let shown = state.shown();
    if shown.len() > 0 && state.selected_key is Some && exists|index: int|
        stands_under(shown, state.selected_key->0, index) {
        let index = choose|index: int| stands_under(shown, state.selected_key->0, index);
        assert(stands_under(shown, state.selected_key->0, index));
    }
}

/// The selection survives a newer overview by durable identity: where the overview still shows
/// the selected resource, at whatever place, it stays selected.
pub proof fn selection_survives_reordering(
    state: CockpitModel,
    overview: OverviewModel,
    reconnected: bool,
    place: int,
)
    requires
        state.selected_key is Some,
        stands_under(
            state.replaced(overview, reconnected).shown(),
            state.selected_key->0,
            place,
        ),
    ensures
        state.replaced(overview, reconnected).selected_key == state.selected_key,
        state.replaced(overview, reconnected).selected() == Some(
            state.replaced(overview, reconnected).shown()[place],
        ),
{
    let after = state.replaced(overview, reconnected);
    let shown = after.shown();
    let key = state.selected_key->0;
    let chosen = choose|index: int| stands_under(shown, key, index);
    assert(stands_under(shown, key, chosen));
    visible_keys_are_distinct(after.records(), after.view, chosen, place);
}

/// A reconnect drops every control lease; an ordinary refresh keeps each.
pub proof fn reconnect_drops_control_and_refresh_keeps_it(
    state: CockpitModel,
    overview: OverviewModel,
    pane: int,
)
    requires
        0 <= pane < state.panes.len(),
    ensures
        state.replaced(overview, true).panes[pane].control is None,
        state.replaced(overview, false).panes[pane].control == state.panes[pane].control,
        state.replaced(overview, true).panes.len() == state.panes.len(),
        state.replaced(overview, false).panes.len() == state.panes.len(),
{
}

/// Once leases have expired, a pane holds a lease only if it held that lease before and the
/// lease has time left.
pub proof fn expired_control_is_dropped(state: CockpitModel, now_ms: i64, pane: int)
    requires
        0 <= pane < state.panes.len(),
    ensures
        match state.expired(now_ms).panes[pane].control {
            Some(lease) => state.panes[pane].control == Some(lease) && lease.expires_at > now_ms,
            None => state.panes[pane].control is Some ==> state.panes[pane].control->0.expires_at
                <= now_ms,
        },
{
}

/// Pinning changes no pane's control, and pinning twice leaves every pane as it was.
pub proof fn pinning_never_changes_control(state: CockpitModel)
    ensures
        state.pin_toggled().panes.len() == state.panes.len(),
        forall|pane: int|
            0 <= pane < state.panes.len() ==> (#[trigger] state.pin_toggled().panes[pane]).control
                == state.panes[pane].control,
        state.pin_toggled().pin_toggled().panes == state.panes,
{
    let twice = state.pin_toggled().pin_toggled().panes;
    assert(twice =~= state.panes);
}

/// Reordering keeps every pane, keeps the focus on the pane that moved, and is undone by moving
/// back, unless the pane stood at the edge.
pub proof fn reordering_keeps_panes(state: CockpitModel, delta: int)
    requires
        state.has_focus(),
    ensures
        state.focus_reordered(delta).panes.to_multiset() == state.panes.to_multiset(),
        state.focus_reordered(delta).focus() == state.focus(),
        0 <= state.focused_pane + delta < state.panes.len() ==> state.focus_reordered(
            delta,
        ).focus_reordered(-delta) == state,
{
    let after = state.focus_reordered(delta);
    if state.panes.len() >= 2 {
        let from = state.focused_pane as int;
        let to = after.focused_pane as int;
        broadcast use vstd::seq_lib::group_to_multiset_ensures;

        let middle = state.panes.update(from, state.panes[to]);
        assert(after.panes == middle.update(to, state.panes[from]));
        vstd::seq_lib::to_multiset_update(state.panes, from, state.panes[to]);
        vstd::seq_lib::to_multiset_update(middle, to, state.panes[from]);
        assert(after.panes.to_multiset() =~= state.panes.to_multiset());
        if 0 <= state.focused_pane + delta < state.panes.len() {
            let back = after.focus_reordered(-delta);
            assert(to == from + delta);
            assert(back.focused_pane == from);
            assert(back.panes =~= state.panes);
        }
    }
}

/// An event on a resource changes only the panes that follow it, and adds nothing unread to the
/// focused pane.
pub proof fn panes_are_buffered_independently(
    state: CockpitModel,
    record: ResourceRecord,
    pane: int,
)
    requires
        0 <= pane < state.panes.len(),
    ensures
        !state.panes[pane].follows(record.resource@) ==> state.notified(record).panes[pane]
            == state.panes[pane],
        state.panes[pane].follows(record.resource@) ==> state.notified(
            record,
        ).panes[pane].timeline.last() == record,
        pane == state.focused_pane ==> state.notified(record).panes[pane].unread
            == state.panes[pane].unread,
        state.notified(record).panes[pane].control == state.panes[pane].control,
{
}

/// Events whose sequence numbers are all reflected already change neither the resources nor the
/// panes, and are reported as duplicates.
pub proof fn duplicate_events_change_nothing(state: CockpitModel, subscription: Subscription)
    requires
        forall|i: int|
            0 <= i < subscription.events@.len() ==> (
            #[trigger] subscription.events@[i]).cursor.sequence <= state.resource_cursor.sequence,
        state.resource_cursor.sequence <= subscription.cursor.sequence,
    ensures
        state.subscription_outcome(subscription) == ApplyEvents::DuplicateOnly,
        state.subscribed(subscription).overview == state.overview,
        state.subscribed(subscription).panes == state.panes,
        state.subscribed(subscription).receipts == state.receipts,
        state.subscribed(subscription).pending_receipts == state.pending_receipts,
{
    duplicates_are_passed_over(
        state,
        subscription.events@,
        state.resource_cursor.sequence,
        false,
    );
}

proof fn duplicates_are_passed_over(
    state: CockpitModel,
    events: Seq<PlatformEvent>,
    reached: u64,
    applied: bool,
)
    requires
        forall|i: int|
            0 <= i < events.len() ==> (#[trigger] events[i]).cursor.sequence <= reached,
    ensures
        state.replayed(events, reached, applied) == (Replay {
            state,
            reached,
            applied,
            gap: false,
        }),
    decreases events.len(),
{
    if events.len() > 0 {
        duplicates_are_passed_over(state, events.skip(1), reached, applied);
    }
}

/// Events are idempotent: an answer that was applied and comes again is a duplicate and leaves
/// the state as it is.
pub proof fn events_are_idempotent(state: CockpitModel, subscription: Subscription)
    requires
        !state.falls_behind(subscription),
    ensures
        state.subscribed(subscription).subscribed(subscription) == state.subscribed(
            subscription,
        ),
        state.subscribed(subscription).subscription_outcome(subscription)
            == ApplyEvents::DuplicateOnly,
{
    let after = state.subscribed(subscription);
    let events = subscription.events@;
    let replay = state.replayed(events, state.resource_cursor.sequence, false);
    replay_reaches_every_event(state, events, state.resource_cursor.sequence, false);
    duplicates_are_passed_over(after, events, subscription.cursor.sequence, false);
    stabilizing_is_idempotent(
        CockpitModel {
            resource_cursor: subscription.cursor,
            connection: ConnectionState::Live,
            ..replay.state
        },
    );
}

proof fn replay_reaches_every_event(
    state: CockpitModel,
    events: Seq<PlatformEvent>,
    reached: u64,
    applied: bool,
)
    requires
        !state.replayed(events, reached, applied).gap,
    ensures
        reached <= state.replayed(events, reached, applied).reached,
        forall|i: int|
            0 <= i < events.len() ==> (#[trigger] events[i]).cursor.sequence <= state.replayed(
                events,
                reached,
                applied,
            ).reached,
    decreases events.len(),
{
    if events.len() > 0 {
        let event = events[0];
        let rest = events.skip(1);
        if event.cursor.sequence <= reached {
            replay_reaches_every_event(state, rest, reached, applied);
        } else {
            replay_reaches_every_event(
                state.notified(event.resource),
                rest,
                event.cursor.sequence,
                true,
            );
        }
        assert forall|i: int| 0 <= i < events.len() implies (#[trigger] events[i]).cursor.sequence
            <= state.replayed(events, reached, applied).reached by {
            if i > 0 {
                assert(rest[i - 1] == events[i]);
            }
        }
    }
}

/// A gap, or a cursor that moved backwards, forces a resync: mutations are disabled and the
/// cursor stays, so that the missing events are asked for again.
pub proof fn falling_behind_forces_resync(state: CockpitModel, subscription: Subscription)
    requires
        state.falls_behind(subscription),
    ensures
        state.subscription_outcome(subscription) == ApplyEvents::ResyncRequired,
        state.subscribed(subscription).connection == ConnectionState::Stale,
        state.subscribed(subscription).resource_cursor == state.resource_cursor,
{
    replaying_keeps_cursor(
        state,
        subscription.events@,
        state.resource_cursor.sequence,
        false,
    );
}

/// Events never settle nor add an awaited receipt.
pub proof fn replaying_keeps_receipts(
    state: CockpitModel,
    events: Seq<PlatformEvent>,
    reached: u64,
    applied: bool,
)
    ensures
        state.replayed(events, reached, applied).state.pending_receipts == state.pending_receipts,
        state.replayed(events, reached, applied).state.receipts == state.receipts,
    decreases events.len(),
{
    if events.len() > 0 {
        let event = events[0];
        let rest = events.skip(1);
        replaying_keeps_receipts(state, rest, reached, applied);
        replaying_keeps_receipts(
            state.notified(event.resource),
            rest,
            event.cursor.sequence,
            true,
        );
    }
}

proof fn replaying_keeps_cursor(
    state: CockpitModel,
    events: Seq<PlatformEvent>,
    reached: u64,
    applied: bool,
)
    ensures
        state.replayed(events, reached, applied).state.resource_cursor == state.resource_cursor,
    decreases events.len(),
{
    if events.len() > 0 {
        let event = events[0];
        let rest = events.skip(1);
        if event.cursor.sequence <= reached {
            replaying_keeps_cursor(state, rest, reached, applied);
        } else if event.cursor.sequence == reached + 1 {
            replaying_keeps_cursor(
                state.notified(event.resource),
                rest,
                event.cursor.sequence,
                true,
            );
        }
    }
}

/// No event behind a gap is applied: the batch amounts to the events before the gap.
pub proof fn nothing_behind_a_gap_is_applied(
    state: CockpitModel,
    events: Seq<PlatformEvent>,
    reached: u64,
    applied: bool,
    gap: int,
)
    requires
        0 <= gap < events.len(),
        !state.replayed(events.take(gap), reached, applied).gap,
        events[gap].cursor.sequence > state.replayed(events.take(gap), reached, applied).reached
            + 1,
    ensures
        state.replayed(events, reached, applied) == (Replay {
            gap: true,
            ..state.replayed(events.take(gap), reached, applied)
        }),
    decreases gap,
{
    if gap > 0 {
        let event = events[0];
        let rest = events.skip(1);
        assert(events.take(gap)[0] == event);
        assert(events.take(gap).skip(1) =~= rest.take(gap - 1));
        assert(rest[gap - 1] == events[gap]);
        if event.cursor.sequence <= reached {
            nothing_behind_a_gap_is_applied(state, rest, reached, applied, gap - 1);
        } else {
            nothing_behind_a_gap_is_applied(
                state.notified(event.resource),
                rest,
                event.cursor.sequence,
                true,
                gap - 1,
            );
        }
    } else {
        assert(events.take(0).len() == 0);
    }
}

/// A record of a resource never gives way to an older revision.
pub proof fn revisions_never_go_back(state: CockpitModel, record: ResourceRecord, place: int)
    requires
        0 <= place < state.overview.resources.len(),
    ensures
        state.notified(record).overview.resources[place].resource@
            == state.overview.resources[place].resource@,
        state.notified(record).overview.resources[place].freshness.revision
            >= state.overview.resources[place].freshness.revision,
{
    let resources = state.overview.resources;
    if exists|index: int| crate::state::first_record(resources, record.resource@, index) {
        let index = choose|index: int|
            crate::state::first_record(resources, record.resource@, index);
        assert(crate::state::first_record(resources, record.resource@, index));
    }
}

/// Whether a text holds no slash.
pub open spec fn slash_free(text: Seq<char>) -> bool {
    !text.contains('/')
}

/// Keys are faithful: two resources with one key have the same identity, where the names of
/// their authorities and kinds hold no slash.
pub proof fn keys_are_faithful(left: CoordinateModel, right: CoordinateModel)
    requires
        key_of(left) == key_of(right),
        slash_free(left.authority.name()),
        slash_free(right.authority.name()),
        slash_free(left.kind.name()),
        slash_free(right.kind.name()),
    ensures
        left.authority.name() == right.authority.name(),
        left.kind.name() == right.kind.name(),
        left.id == right.id,
{
    reveal_strlit("/");
    let left_rest = left.kind.name() + "/"@ + left.id;
    let right_rest = right.kind.name() + "/"@ + right.id;
    assert(key_of(left) =~= left.authority.name() + "/"@ + left_rest);
    assert(key_of(right) =~= right.authority.name() + "/"@ + right_rest);
    first_slash_splits(left.authority.name(), right.authority.name(), left_rest, right_rest);
    first_slash_splits(left.kind.name(), right.kind.name(), left.id, right.id);
}

proof fn first_slash_splits(
    left: Seq<char>,
    right: Seq<char>,
    left_rest: Seq<char>,
    right_rest: Seq<char>,
)
    requires
        slash_free(left),
        slash_free(right),
        left + "/"@ + left_rest == right + "/"@ + right_rest,
    ensures
        left == right,
        left_rest == right_rest,
{
    reveal_strlit("/");
    let whole = left + "/"@ + left_rest;
    let other = right + "/"@ + right_rest;
    if left.len() < right.len() {
        assert(whole[left.len() as int] == '/');
        assert(right.contains(other[left.len() as int]));
    }
    if right.len() < left.len() {
        assert(other[right.len() as int] == '/');
        assert(left.contains(whole[right.len() as int]));
    }
    assert forall|i: int| 0 <= i < left.len() implies left[i] == right[i] by {
        assert(whole[i] == left[i] && other[i] == right[i]);
    }
    assert(left =~= right);
    assert(left_rest =~= whole.skip((left.len() + 1) as int));
    assert(right_rest =~= other.skip((right.len() + 1) as int));
}

} // verus!
