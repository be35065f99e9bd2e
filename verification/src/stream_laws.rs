//! What an answer to a subscription does, said of its events.

use vstd::prelude::*;
use vstd::view::View as _;

use crate::protocol::{CoordinateModel, PlatformEvent, ResourceRecord, Subscription};
use crate::state::{
    find_record, first_record, with_record, ApplyEvents, CockpitModel, ConnectionState,
};

verus! {

/// An event that directly follows what is known is applied: the state goes on live from the
/// answer's cursor, and every pane on the event's session or run has the event last.
pub proof fn following_event_is_applied(
    state: CockpitModel,
    subscription: Subscription,
    pane: int,
)
    requires
        subscription.events@.len() == 1,
        subscription.events@[0].cursor.sequence == state.resource_cursor.sequence + 1,
        subscription.cursor.sequence >= subscription.events@[0].cursor.sequence,
        0 <= pane < state.panes.len(),
    ensures
        ({
            let record = subscription.events@[0].resource;
            let after = state.subscribed(subscription);
            &&& state.subscription_outcome(subscription) == ApplyEvents::Applied
            &&& after.connection == ConnectionState::Live
            &&& after.resource_cursor == subscription.cursor
            &&& after.panes.len() == state.panes.len()
            &&& record.resource@ == state.panes[pane].record.session.resource@
                ==> after.panes[pane].timeline.last() == record
            &&& state.panes[pane].record.run is Some && record.resource@
                == state.panes[pane].record.run->0@ ==> after.panes[pane].timeline.last() == record
            &&& record.resource@ != state.panes[pane].record.session.resource@ && (
            state.panes[pane].record.run is None || record.resource@
                != state.panes[pane].record.run->0@) ==> after.panes[pane] == state.panes[pane]
            &&& exists|i: int|
                0 <= i < after.overview.resources.len() && (
                #[trigger] after.overview.resources[i]).resource@ == record.resource@
        }),
{
    let event = subscription.events@[0];
    let after = state.subscribed(subscription);
    let rest = subscription.events@.skip(1);
    assert(rest.len() == 0);
    reveal_with_fuel(CockpitModel::replayed, 3);
    let replay = state.replayed(subscription.events@, state.resource_cursor.sequence, false);
    assert(replay.state == state.notified(event.resource));
    assert(after.overview == replay.state.overview);
    event_record_is_listed(state.overview.resources, event.resource);
    let i = choose|i: int|
        0 <= i < with_record(state.overview.resources, event.resource).len() && (
        #[trigger] with_record(state.overview.resources, event.resource)[i]).resource@
            == event.resource.resource@;
    assert(after.overview.resources[i].resource@ == event.resource.resource@);
}

/// An event that leaves a gap is not applied: the state is read-only, and its records, its panes
/// and its cursor stay.
pub proof fn gap_stops_the_stream(state: CockpitModel, subscription: Subscription)
    requires
        subscription.events@.len() > 0,
        subscription.events@[0].cursor.sequence > state.resource_cursor.sequence + 1,
    ensures
        state.subscription_outcome(subscription) == ApplyEvents::ResyncRequired,
        state.subscribed(subscription).connection == ConnectionState::Stale,
        state.subscribed(subscription).overview == state.overview,
        state.subscribed(subscription).panes == state.panes,
        state.subscribed(subscription).resource_cursor == state.resource_cursor,
{
}

/// An answer without events brings nothing but its cursor, which must not stand behind what is
/// known.
pub proof fn empty_answer_moves_the_cursor(state: CockpitModel, subscription: Subscription)
    requires
        subscription.events@.len() == 0,
    ensures
        state.subscribed(subscription).overview == state.overview,
        state.subscribed(subscription).panes == state.panes,
        subscription.cursor.sequence >= state.resource_cursor.sequence ==> {
            &&& state.subscription_outcome(subscription) == ApplyEvents::DuplicateOnly
            &&& state.subscribed(subscription).resource_cursor == subscription.cursor
            &&& state.subscribed(subscription).connection == ConnectionState::Live
        },
        subscription.cursor.sequence < state.resource_cursor.sequence ==> {
            &&& state.subscription_outcome(subscription) == ApplyEvents::ResyncRequired
            &&& state.subscribed(subscription).resource_cursor == state.resource_cursor
            &&& state.subscribed(subscription).connection == ConnectionState::Stale
        },
{
}

/// Whether events follow one another directly from a sequence number on.
pub open spec fn follow_directly(events: Seq<PlatformEvent>, reached: u64) -> bool {
    forall|i: int|
        0 <= i < events.len() ==> (#[trigger] events[i]).cursor.sequence == reached + 1 + i
}

/// The records of the events on a session or on its run, in order.
pub open spec fn records_on(
    events: Seq<PlatformEvent>,
    session: CoordinateModel,
    run: Option<CoordinateModel>,
) -> Seq<ResourceRecord>
    decreases events.len(),
{
    if events.len() == 0 {
        Seq::empty()
    } else {
        let record = events[0].resource;
        let rest = records_on(events.skip(1), session, run);
        if record.resource@ == session || Some(record.resource@) == run {
            seq![record] + rest
        } else {
            rest
        }
    }
}

/// Events that follow one another are all applied, in order: a pane keeps exactly those on its
/// session and its run behind what it had, as long as it has room, and what it has unread grows
/// by as many where it is not focused.
pub proof fn events_reach_panes_in_order(
    state: CockpitModel,
    events: Seq<PlatformEvent>,
    reached: u64,
    applied: bool,
    pane: int,
)
    requires
        follow_directly(events, reached),
        0 <= pane < state.panes.len(),
        state.panes[pane].timeline.len() + events.len() <= 256,
        state.panes[pane].unread + events.len() <= usize::MAX,
    ensures
        ({
            let replay = state.replayed(events, reached, applied);
            let before = state.panes[pane];
            let after = replay.state.panes[pane];
            let run = match before.record.run {
                Some(run) => Some(run@),
                None => None,
            };
            let gained = records_on(events, before.record.session.resource@, run);
            &&& !replay.gap
            &&& replay.reached == reached + events.len()
            &&& replay.applied == (applied || events.len() > 0)
            &&& replay.state.panes.len() == state.panes.len()
            &&& after.timeline == before.timeline + gained
            &&& after.unread == before.unread + if state.focused_pane == pane {
                0
            } else {
                gained.len()
            }
        }),
    decreases events.len(),
{
    let before = state.panes[pane];
    let run = match before.record.run {
        Some(run) => Some(run@),
        None => None,
    };
    if events.len() > 0 {
        let event = events[0];
        let rest = events.skip(1);
        let next = state.notified(event.resource);
        assert(event.cursor.sequence == reached + 1);
        assert forall|i: int| 0 <= i < rest.len() implies (
        #[trigger] rest[i]).cursor.sequence == event.cursor.sequence + 1 + i by {
            assert(events[i + 1].cursor.sequence == reached + 1 + (i + 1));
        }
        events_reach_panes_in_order(next, rest, event.cursor.sequence, true, pane);
        let gained = records_on(rest, before.record.session.resource@, run);
        let all = records_on(events, before.record.session.resource@, run);
        let after = state.replayed(events, reached, applied).state.panes[pane];
        assert(next.panes[pane].timeline + gained =~= before.timeline + all);
    } else {
        assert(before.timeline + records_on(events, before.record.session.resource@, run)
            =~= before.timeline);
    }
}

/// A batch of events amounts to its parts, one after the other.
pub proof fn batches_are_applied_in_order(
    state: CockpitModel,
    first: Seq<PlatformEvent>,
    second: Seq<PlatformEvent>,
    reached: u64,
    applied: bool,
)
    requires
        !state.replayed(first, reached, applied).gap,
    ensures
        ({
            let half = state.replayed(first, reached, applied);
            state.replayed(first + second, reached, applied) == half.state.replayed(
                second,
                half.reached,
                half.applied,
            )
        }),
    decreases first.len(),
{
    if first.len() == 0 {
        assert(first + second =~= second);
    } else {
        let event = first[0];
        let rest = first.skip(1);
        assert((first + second).skip(1) =~= rest + second);
        assert((first + second)[0] == event);
        if event.cursor.sequence <= reached {
            batches_are_applied_in_order(state, rest, second, reached, applied);
        } else {
            batches_are_applied_in_order(
                state.notified(event.resource),
                rest,
                second,
                event.cursor.sequence,
                true,
            );
        }
    }
}

/// An answer whose events were all passed over is a duplicate, and one of which any was applied is
/// not.
pub proof fn outcome_tells_what_was_applied(
    state: CockpitModel,
    subscription: Subscription,
)
    requires
        follow_directly(subscription.events@, state.resource_cursor.sequence),
        subscription.events@.len() > 0,
        subscription.cursor.sequence >= state.resource_cursor.sequence
            + subscription.events@.len(),
    ensures
        state.subscription_outcome(subscription) == ApplyEvents::Applied,
        state.subscribed(subscription).connection == ConnectionState::Live,
        state.subscribed(subscription).resource_cursor == subscription.cursor,
{
    following_events_leave_no_gap(
        state,
        subscription.events@,
        state.resource_cursor.sequence,
        false,
    );
}

proof fn following_events_leave_no_gap(
    state: CockpitModel,
    events: Seq<PlatformEvent>,
    reached: u64,
    applied: bool,
)
    requires
        follow_directly(events, reached),
    ensures
        !state.replayed(events, reached, applied).gap,
        state.replayed(events, reached, applied).reached == reached + events.len(),
        state.replayed(events, reached, applied).applied == (applied || events.len() > 0),
    decreases events.len(),
{
    if events.len() > 0 {
        let event = events[0];
        let rest = events.skip(1);
        assert(event.cursor.sequence == reached + 1);
        assert forall|i: int| 0 <= i < rest.len() implies (
        #[trigger] rest[i]).cursor.sequence == event.cursor.sequence + 1 + i by {
            assert(events[i + 1].cursor.sequence == reached + 1 + (i + 1));
        }
        following_events_leave_no_gap(
            state.notified(event.resource),
            rest,
            event.cursor.sequence,
            true,
        );
    }
}

/// A record of a resource that is listed already takes the place of the first one where it is not
/// older, and changes nothing where it is.
pub proof fn newer_record_takes_its_place(state: CockpitModel, record: ResourceRecord, place: int)
    requires
        0 <= place < state.overview.resources.len(),
        state.overview.resources[place].resource@ == record.resource@,
        forall|i: int|
            0 <= i < place ==> (#[trigger] state.overview.resources[i]).resource@
                != record.resource@,
    ensures
        ({
            let before = state.overview.resources;
            let after = state.notified(record).overview.resources;
            &&& after.len() == before.len()
            &&& record.freshness.revision >= before[place].freshness.revision ==> after[place]
                == record
            &&& record.freshness.revision < before[place].freshness.revision ==> after[place]
                == before[place]
            &&& forall|i: int|
                0 <= i < before.len() && i != place ==> #[trigger] after[i] == before[i]
        }),
{
    first_listed_record_is_found(state.overview.resources, record.resource@, place);
}

/// The first record under an identity is the one that is found.
pub proof fn first_listed_record_is_found(
    records: Seq<ResourceRecord>,
    resource: CoordinateModel,
    place: int,
)
    requires
        0 <= place < records.len(),
        records[place].resource@ == resource,
        forall|i: int| 0 <= i < place ==> (#[trigger] records[i]).resource@ != resource,
    ensures
        find_record(records, resource) == Some(place),
{
    assert(first_record(records, resource, place));
    let found = choose|index: int| first_record(records, resource, index);
    if found < place {
        assert(records[found].resource@ != resource);
    }
    if place < found {
        assert(records[place].resource@ != resource);
    }
}

/// A record of a resource that is not listed yet comes last.
pub proof fn new_resource_comes_last(state: CockpitModel, record: ResourceRecord)
    requires
        forall|i: int|
            0 <= i < state.overview.resources.len() ==> (
            #[trigger] state.overview.resources[i]).resource@ != record.resource@,
    ensures
        state.notified(record).overview.resources == state.overview.resources.push(record),
{
    unlisted_record_is_not_found(state.overview.resources, record.resource@);
}

/// A resource that no record names is not found.
pub proof fn unlisted_record_is_not_found(
    records: Seq<ResourceRecord>,
    resource: CoordinateModel,
)
    requires
        forall|i: int| 0 <= i < records.len() ==> (#[trigger] records[i]).resource@ != resource,
    ensures
        find_record(records, resource) is None,
{
    assert forall|index: int| !first_record(records, resource, index) by {
        if 0 <= index < records.len() {
            assert(records[index].resource@ != resource);
        }
    }
}

proof fn event_record_is_listed(resources: Seq<ResourceRecord>, record: ResourceRecord)
    ensures
        exists|i: int|
            0 <= i < with_record(resources, record).len() && (
            #[trigger] with_record(resources, record)[i]).resource@ == record.resource@,
{
    let after = with_record(resources, record);
    match find_record(resources, record.resource@) {
        Some(index) => {
            assert(first_record(resources, record.resource@, index));
            assert(after[index].resource@ == record.resource@);
        },
        None => {
            assert(after[resources.len() as int].resource@ == record.resource@);
        },
    }
}

} // verus!
