//! When the cockpit asks the authority, and what it says where no answer comes.
//!
//! Times are milliseconds of a clock that never goes back.

use vstd::prelude::*;
use vstd::view::View as _;

use crate::backend::BackendError;
use crate::protocol::Subscription;
use crate::state::{ApplyEvents, CockpitModel, CockpitState, ConnectionState};

verus! {

pub const REFRESH_INTERVAL: u64 = 2000;

pub const SUBSCRIBE_INTERVAL: u64 = 250;

pub const MIN_RECONNECT_BACKOFF: u64 = 250;

pub const MAX_RECONNECT_BACKOFF: u64 = 5000;

/// When the authority was asked last, and when it is asked again after a failure.
#[derive(Clone, Copy, Debug, PartialEq, Eq, Structural)]
pub struct Schedule {
    pub last_refresh: u64,
    pub last_subscribe: u64,
    pub retry_at: u64,
    pub backoff: u64,
}

/// Why the authority is asked for an overview.
#[derive(Clone, Copy, Debug, PartialEq, Eq, Structural)]
pub enum RefreshReason {
    /// The connection is not live.
    Reconnect,
    /// The overview has grown old.
    Interval,
}

/// The wait before the next attempt, after an attempt that failed.
pub open spec fn doubled(backoff: u64) -> u64 {
    if 2 * backoff <= MAX_RECONNECT_BACKOFF {
        (2 * backoff) as u64
    } else {
        MAX_RECONNECT_BACKOFF
    }
}

fn double(backoff: u64) -> (next: u64)
    ensures
        next == doubled(backoff),
{
    if backoff <= MAX_RECONNECT_BACKOFF / 2 {
        backoff * 2
    } else {
        MAX_RECONNECT_BACKOFF
    }
}

impl Schedule {
    /// Whether waits stay within their bounds.
    pub open spec fn sound(self) -> bool {
        MIN_RECONNECT_BACKOFF <= self.backoff <= MAX_RECONNECT_BACKOFF
    }

    /// Whether time can still be counted a wait ahead.
    pub open spec fn reaches(now: u64) -> bool {
        now + MAX_RECONNECT_BACKOFF <= u64::MAX
    }

    /// The schedule once an attempt failed: the next comes after the current wait, and the wait
    /// after that is longer.
    pub open spec fn backed_off(self, now: u64) -> Schedule {
        Schedule {
            retry_at: (now + self.backoff) as u64,
            backoff: doubled(self.backoff),
            ..self
        }
    }

    /// A schedule that starts now.
    pub open spec fn starting(now: u64) -> Schedule {
        Schedule {
            last_refresh: now,
            last_subscribe: now,
            retry_at: now,
            backoff: MIN_RECONNECT_BACKOFF,
        }
    }

    /// The schedule and the state once a subscription was answered or not.
    pub open spec fn after_events(
        self,
        state: CockpitModel,
        result: Result<Subscription, BackendError>,
        now: u64,
    ) -> (Schedule, CockpitModel) {
        match result {
            Ok(subscription) => if state.falls_behind(subscription) {
                (
                    Schedule { retry_at: now, last_subscribe: now, ..self },
                    CockpitModel {
                        connection: ConnectionState::Reconnecting,
                        ..state.subscribed(subscription)
                    },
                )
            } else {
                (Schedule { last_subscribe: now, ..self }, state.subscribed(subscription))
            },
            Err(_) => (
                Schedule { last_subscribe: now, ..self.backed_off(now) },
                CockpitModel { connection: ConnectionState::Reconnecting, ..state }.saying(
                    "platform disconnected; retaining read-only snapshot"@,
                ),
            ),
        }
    }

    /// The schedule once a refresh has ended.
    pub open spec fn after_refresh(self, reason: RefreshReason, succeeded: bool, now: u64) -> Schedule {
        match (reason, succeeded) {
            (RefreshReason::Reconnect, true) => Schedule {
                backoff: MIN_RECONNECT_BACKOFF,
                last_refresh: now,
                last_subscribe: now,
                ..self
            },
            (RefreshReason::Reconnect, false) => self.backed_off(now),
            (RefreshReason::Interval, true) => Schedule { last_refresh: now, ..self },
            (RefreshReason::Interval, false) => Schedule {
                retry_at: (now + self.backoff) as u64,
                last_refresh: now,
                ..self
            },
        }
    }

    /// A schedule that starts now.
    pub fn new(now: u64) -> (schedule: Self)
        ensures
            schedule == Schedule::starting(now),
            schedule.sound(),
    {
        Schedule {
            last_refresh: now,
            last_subscribe: now,
            retry_at: now,
            backoff: MIN_RECONNECT_BACKOFF,
        }
    }

    /// Whether events are asked for now: only on a live connection, and not too often.
    pub open spec fn events_due(self, connection: ConnectionState, now: u64) -> bool {
        connection == ConnectionState::Live && now - self.last_subscribe >= SUBSCRIBE_INTERVAL
    }

    /// Whether events are asked for now: only on a live connection, and not too often.
    pub fn subscribe_due(&self, connection: ConnectionState, now: u64) -> (due: bool)
        ensures
            due == self.events_due(connection, now),
    {
        connection.mutations_allowed() && now >= self.last_subscribe && now - self.last_subscribe
            >= SUBSCRIBE_INTERVAL
    }

    /// Why an overview is asked for now, if it is.
    pub open spec fn refresh_reason(self, connection: ConnectionState, now: u64) -> Option<
        RefreshReason,
    > {
        if connection != ConnectionState::Live {
            if now >= self.retry_at {
                Some(RefreshReason::Reconnect)
            } else {
                None
            }
        } else if now - self.last_refresh >= REFRESH_INTERVAL {
            Some(RefreshReason::Interval)
        } else {
            None
        }
    }

    /// Why an overview is asked for now, if it is.
    pub fn refresh_due(&self, connection: ConnectionState, now: u64) -> (due: Option<
        RefreshReason,
    >)
        ensures
            due == self.refresh_reason(connection, now),
    {
        if !connection.mutations_allowed() {
            if now >= self.retry_at {
                Some(RefreshReason::Reconnect)
            } else {
                None
            }
        } else if now >= self.last_refresh && now - self.last_refresh >= REFRESH_INTERVAL {
            Some(RefreshReason::Interval)
        } else {
            None
        }
    }

    /// Takes over the answer to a subscription. A state that fell behind reconnects at once; a
    /// missing answer makes it read-only until the next attempt succeeds.
    pub fn subscribe_finished(
        &mut self,
        state: &mut CockpitState,
        result: Result<Subscription, BackendError>,
        now: u64,
    )
        requires
            old(self).sound(),
            Schedule::reaches(now),
        ensures
            final(self).sound(),
            (*final(self), final(state)@) == old(self).after_events(old(state)@, result, now),
    {
        match result {
            Ok(subscription) => {
                if matches!(state.apply_subscription(subscription), ApplyEvents::ResyncRequired) {
                    state.connection = ConnectionState::Reconnecting;
                    self.retry_at = now;
                }
            },
            Err(_) => {
                state.connection = ConnectionState::Reconnecting;
                state.status = "platform disconnected; retaining read-only snapshot".to_owned();
                self.retry_at = now + self.backoff;
                self.backoff = double(self.backoff);
            },
        }
        self.last_subscribe = now;
    }

    /// Takes over the end of a refresh.
    ///
    /// A reconnect that succeeded starts the waits over; one that failed waits longer. A refresh
    /// that failed on a live connection makes the state read-only.
    pub fn refresh_finished(
        &mut self,
        state: &mut CockpitState,
        reason: RefreshReason,
        succeeded: bool,
        now: u64,
    )
        requires
            old(self).sound(),
            Schedule::reaches(now),
        ensures
            final(self).sound(),
            final(state)@ == old(state)@.refresh_ended(reason, succeeded),
            *final(self) == old(self).after_refresh(reason, succeeded, now),
    {
        match reason {
            RefreshReason::Reconnect => {
                if succeeded {
                    self.backoff = MIN_RECONNECT_BACKOFF;
                    self.last_refresh = now;
                    self.last_subscribe = now;
                } else {
                    state.connection = ConnectionState::Reconnecting;
                    self.retry_at = now + self.backoff;
                    self.backoff = double(self.backoff);
                }
            },
            RefreshReason::Interval => {
                if !succeeded {
                    state.connection = ConnectionState::Reconnecting;
                    state.status = "snapshot refresh failed; retaining read-only state".to_owned();
                    self.retry_at = now + self.backoff;
                }
                self.last_refresh = now;
            },
        }
    }

    /// Takes over the terminal after the process was suspended: nothing that happened meanwhile
    /// is known, so the state reconnects at once.
    pub fn resumed(&mut self, state: &mut CockpitState, now: u64)
        ensures
            *final(self) == (Schedule { retry_at: now, ..*old(self) }),
            final(state)@ == old(state)@.resumed(),
    {
        state.status = "terminal resumed; authoritative resync required".to_owned();
        state.connection = ConnectionState::Reconnecting;
        self.retry_at = now;
    }
}

impl CockpitModel {
    /// The state once the terminal was taken over again.
    pub open spec fn resumed(self) -> CockpitModel {
        CockpitModel { connection: ConnectionState::Reconnecting, ..self }.saying(
            "terminal resumed; authoritative resync required"@,
        )
    }

    /// The state once a refresh has ended.
    pub open spec fn refresh_ended(self, reason: RefreshReason, succeeded: bool) -> CockpitModel {
        if succeeded {
            self
        } else {
            let reconnecting = CockpitModel { connection: ConnectionState::Reconnecting, ..self };
            match reason {
                RefreshReason::Reconnect => reconnecting,
                RefreshReason::Interval => reconnecting.saying(
                    "snapshot refresh failed; retaining read-only state"@,
                ),
            }
        }
    }
}

/// The wait between attempts grows until it reaches its bound, and never leaves its bounds.
pub proof fn backoff_is_bounded(backoff: u64)
    requires
        MIN_RECONNECT_BACKOFF <= backoff <= MAX_RECONNECT_BACKOFF,
    ensures
        backoff <= doubled(backoff) <= MAX_RECONNECT_BACKOFF,
        doubled(backoff) == backoff ==> backoff == MAX_RECONNECT_BACKOFF,
{
}

/// A client that is not live asks for no events: it is brought back by an overview only.
pub proof fn read_only_is_left_by_overview_only(
    schedule: Schedule,
    connection: ConnectionState,
    now: u64,
)
    requires
        connection != ConnectionState::Live,
    ensures
        !schedule.events_due(connection, now),
        schedule.refresh_reason(connection, now) != Some(RefreshReason::Interval),
        schedule.refresh_reason(connection, now) == Some(RefreshReason::Reconnect) <==> now
            >= schedule.retry_at,
{
}

/// Events are asked for on a live connection once a quarter of a second has passed since the last
/// time, and an overview once two seconds have; on any other connection an overview is asked for
/// as soon as the wait is over.
pub proof fn asking_has_its_times(schedule: Schedule, connection: ConnectionState, now: u64)
    ensures
        connection == ConnectionState::Live && now >= schedule.last_subscribe + 250
            ==> schedule.events_due(connection, now),
        now < schedule.last_subscribe + 250 ==> !schedule.events_due(connection, now),
        connection == ConnectionState::Live && now >= schedule.last_refresh + 2000
            ==> schedule.refresh_reason(connection, now) == Some(RefreshReason::Interval),
        connection == ConnectionState::Live && now < schedule.last_refresh + 2000
            ==> schedule.refresh_reason(connection, now) is None,
        connection != ConnectionState::Live && now >= schedule.retry_at
            ==> schedule.refresh_reason(connection, now) == Some(RefreshReason::Reconnect),
        connection != ConnectionState::Live && now < schedule.retry_at ==> schedule.refresh_reason(
            connection,
            now,
        ) is None,
{
}

/// A cockpit that starts waits before it asks again, and retries at once where it must.
pub proof fn starting_waits(now: u64)
    ensures
        !Schedule::starting(now).events_due(ConnectionState::Live, now),
        Schedule::starting(now).refresh_reason(ConnectionState::Live, now) is None,
        Schedule::starting(now).refresh_reason(ConnectionState::Stale, now) == Some(
            RefreshReason::Reconnect,
        ),
        Schedule::starting(now).backoff == 250,
{
}

/// An answer that leaves the state behind makes it reconnect at once, without a longer wait. Where
/// no answer comes the state is read-only and waits, and waits twice as long the next time, up to
/// five seconds. Events are then not asked for again at once.
pub proof fn lost_events_are_caught_up(
    schedule: Schedule,
    state: CockpitModel,
    subscription: Subscription,
    error: BackendError,
    now: u64,
)
    requires
        250 <= schedule.backoff <= 5000,
        now + 5000 <= u64::MAX,
    ensures
        ({
            let (behind, reconnecting) = schedule.after_events(state, Ok(subscription), now);
            let (waiting, cut_off) = schedule.after_events(state, Err(error), now);
            &&& behind.last_subscribe == now && waiting.last_subscribe == now
            &&& behind.last_refresh == schedule.last_refresh
            &&& behind.backoff == schedule.backoff
            &&& state.subscription_outcome(subscription) == crate::state::ApplyEvents::ResyncRequired
                ==> reconnecting.connection == ConnectionState::Reconnecting
                && behind.refresh_reason(reconnecting.connection, now) == Some(
                RefreshReason::Reconnect,
            )
            &&& state.subscription_outcome(subscription) != crate::state::ApplyEvents::ResyncRequired
                ==> reconnecting == state.subscribed(subscription) && behind.retry_at
                == schedule.retry_at
            &&& cut_off.connection == ConnectionState::Reconnecting
            &&& cut_off.panes == state.panes && cut_off.overview == state.overview
            &&& waiting.retry_at == now + schedule.backoff
            &&& waiting.last_refresh == schedule.last_refresh
            &&& schedule.backoff <= 2500 ==> waiting.backoff == 2 * schedule.backoff
            &&& schedule.backoff > 2500 ==> waiting.backoff == 5000
        }),
{
}

/// A reconnect that succeeds starts the waits over and counts as having just asked; one that fails
/// waits, and longer each time. A refresh that fails on a live connection makes the state
/// read-only and waits no longer than before.
pub proof fn refreshes_set_the_next_time(schedule: Schedule, state: CockpitModel, now: u64)
    requires
        250 <= schedule.backoff <= 5000,
        now + 5000 <= u64::MAX,
    ensures
        ({
            let back = schedule.after_refresh(RefreshReason::Reconnect, true, now);
            let away = schedule.after_refresh(RefreshReason::Reconnect, false, now);
            let current = schedule.after_refresh(RefreshReason::Interval, true, now);
            let lost = schedule.after_refresh(RefreshReason::Interval, false, now);
            &&& back.backoff == 250 && back.last_refresh == now && back.last_subscribe == now
            &&& away.retry_at == now + schedule.backoff && away.backoff >= schedule.backoff
            &&& away.backoff == 5000 || away.backoff == 2 * schedule.backoff
            &&& away.last_refresh == schedule.last_refresh
            &&& current.last_refresh == now && current.backoff == schedule.backoff
                && current.retry_at == schedule.retry_at && current.last_subscribe
                == schedule.last_subscribe
            &&& lost.last_refresh == now && lost.backoff == schedule.backoff && lost.retry_at
                == now + schedule.backoff
            &&& state.refresh_ended(RefreshReason::Reconnect, true) == state
            &&& state.refresh_ended(RefreshReason::Interval, true) == state
            &&& state.refresh_ended(RefreshReason::Reconnect, false).connection
                == ConnectionState::Reconnecting
            &&& state.refresh_ended(RefreshReason::Interval, false).connection
                == ConnectionState::Reconnecting
            &&& state.refresh_ended(RefreshReason::Interval, false).panes == state.panes
            &&& state.refresh_ended(RefreshReason::Reconnect, false).panes == state.panes
        }),
{
}

/// After a suspension the state is read-only until it has reconnected, and keeps what it shows.
pub proof fn resuming_is_read_only(state: CockpitModel)
    ensures
        state.resumed().connection == ConnectionState::Reconnecting,
        state.resumed().panes == state.panes,
        state.resumed().overview == state.overview,
        state.resumed().pending_receipts == state.pending_receipts,
{
}

} // verus!
