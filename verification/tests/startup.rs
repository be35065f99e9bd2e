use operator_cockpit::backend::{BackendError, OperatorOverview};
use operator_cockpit::idempotency::{interaction_key, KeySource};
use operator_cockpit::interaction::Interaction;
use operator_cockpit::protocol::{
    Capabilities, Freshness, FreshnessState, PlatformAction, PlatformCursor, PlatformEvent,
    ResourceAuthority, ResourceCoordinate, ResourceKind, ResourceRecord, Subscription,
};
use operator_cockpit::schedule::{
    RefreshReason, Schedule, MAX_RECONNECT_BACKOFF, MIN_RECONNECT_BACKOFF, REFRESH_INTERVAL,
    SUBSCRIBE_INTERVAL,
};
use operator_cockpit::startup::{
    client_name, now_millis, platform_socket, start_mode, SocketChoice, StartMode, RUNTIME_SOCKET,
};
use operator_cockpit::state::{CockpitState, ConnectionState};
use operator_cockpit::text::{pad_right, trim};

#[test]
fn the_socket_is_taken_from_the_nearest_source() {
    assert_eq!(
        platform_socket(Some("  /tmp/operator.sock\n"), true, true),
        SocketChoice::Explicit("/tmp/operator.sock".to_string())
    );
    assert_eq!(
        platform_socket(Some(" \u{3000}\t"), true, true),
        SocketChoice::Environment
    );
    assert_eq!(
        platform_socket(None, true, true),
        SocketChoice::Environment
    );
    assert_eq!(platform_socket(None, false, true), SocketChoice::Runtime);
    assert_eq!(
        platform_socket(None, false, false),
        SocketChoice::Missing(
            "no runtime directory; pass --socket or set AUTOMONIQUE_PLATFORM_SOCKET"
        )
    );
    assert_eq!(RUNTIME_SOCKET, "automonique/admin.sock");
}

#[test]
fn json_needs_no_terminal_and_the_cockpit_needs_one_on_both_sides() {
    assert_eq!(start_mode(true, false, false), StartMode::Json);
    assert_eq!(start_mode(false, true, true), StartMode::Cockpit);
    for (input, output) in [(false, true), (true, false), (false, false)] {
        assert_eq!(
            start_mode(false, input, output),
            StartMode::Unusable(
                "platform cockpit needs a terminal; use --json for a one-shot snapshot"
            )
        );
    }
}

#[test]
fn a_clock_that_stands_still_or_goes_back_gives_separate_keys() {
    let mut keys = KeySource::new(17);
    let readings = [None, None, Some(40), Some(40), Some(12), Some(0), Some(41), Some(44)];
    let drawn = readings
        .into_iter()
        .map(|reading| interaction_key("cancel", &mut keys, reading))
        .collect::<Vec<_>>();
    assert_eq!(
        drawn,
        [0, 1, 40, 41, 12, 2, 42, 44].map(|nanos| format!("jcode-platform-cancel-17-{nanos}"))
    );
    assert_eq!(keys.given, drawn);
    assert_eq!(keys.process, 17);
    assert_eq!(
        interaction_key("claim", &mut keys, Some(40)),
        "jcode-platform-claim-17-40"
    );
}

#[test]
fn clients_and_interactions_are_named_after_their_process() {
    assert_eq!(client_name(4242), "jcode-platform-4242");
    assert_eq!(client_name(0), "jcode-platform-0");
    let mut keys = KeySource::new(17);
    assert_eq!(
        interaction_key(
            Interaction::ExitRelease.operation(),
            &mut keys,
            Some(1234567890123)
        ),
        "jcode-platform-exit-release-17-1234567890123"
    );
    assert_eq!(
        interaction_key(Interaction::Claim.operation(), &mut keys, None),
        "jcode-platform-claim-17-0"
    );
    assert_eq!(
        Interaction::Act(PlatformAction::Steer).operation(),
        "steer"
    );
    assert_eq!(Interaction::Release.operation(), "release");
}

#[test]
fn a_clock_that_cannot_be_read_ends_every_lease() {
    assert_eq!(now_millis(Some(1_700_000_000_000)), 1_700_000_000_000);
    assert_eq!(now_millis(None), i64::MAX);
    assert_eq!(now_millis(Some(u128::MAX)), i64::MAX);
}

#[test]
fn waits_double_up_to_their_bound_and_start_over() {
    let mut schedule = Schedule::new(1_000);
    assert_eq!(schedule.backoff, MIN_RECONNECT_BACKOFF);
    let mut state = state();
    state.connection = ConnectionState::Reconnecting;
    let mut waits = Vec::new();
    for _ in 0..6 {
        waits.push(schedule.backoff);
        schedule.refresh_finished(&mut state, RefreshReason::Reconnect, false, 2_000);
    }
    assert_eq!(waits, vec![250, 500, 1000, 2000, 4000, 5000]);
    assert_eq!(schedule.backoff, MAX_RECONNECT_BACKOFF);
    assert_eq!(schedule.retry_at, 7_000);
    assert_eq!(
        schedule.refresh_due(ConnectionState::Reconnecting, 6_999),
        None
    );
    assert_eq!(
        schedule.refresh_due(ConnectionState::Reconnecting, 7_000),
        Some(RefreshReason::Reconnect)
    );
    schedule.refresh_finished(&mut state, RefreshReason::Reconnect, true, 9_000);
    assert_eq!(schedule.backoff, MIN_RECONNECT_BACKOFF);
    assert_eq!(schedule.last_subscribe, 9_000);
}

#[test]
fn events_and_overviews_are_asked_for_at_their_intervals() {
    let schedule = Schedule::new(1_000);
    let live = ConnectionState::Live;
    assert!(!schedule.subscribe_due(live, 1_000 + SUBSCRIBE_INTERVAL - 1));
    assert!(schedule.subscribe_due(live, 1_000 + SUBSCRIBE_INTERVAL));
    assert!(!schedule.subscribe_due(ConnectionState::Stale, 9_000));
    assert_eq!(
        schedule.refresh_due(live, 1_000 + REFRESH_INTERVAL - 1),
        None
    );
    assert_eq!(
        schedule.refresh_due(live, 1_000 + REFRESH_INTERVAL),
        Some(RefreshReason::Interval)
    );
}

#[test]
fn a_lost_subscription_makes_the_state_read_only() {
    let mut schedule = Schedule::new(0);
    let mut state = state();
    schedule.subscribe_finished(&mut state, Err(BackendError::Unavailable), 300);
    assert_eq!(state.connection, ConnectionState::Reconnecting);
    assert_eq!(
        state.status,
        "platform disconnected; retaining read-only snapshot"
    );
    assert_eq!(schedule.retry_at, 550);
    assert_eq!(schedule.backoff, 500);
    assert_eq!(schedule.last_subscribe, 300);
}

#[test]
fn a_gap_reconnects_at_once() {
    let mut schedule = Schedule::new(0);
    let mut state = state();
    let mut gap = state.resource_cursor.clone();
    gap.sequence = 9;
    schedule.subscribe_finished(
        &mut state,
        Ok(Subscription {
            events: vec![PlatformEvent {
                cursor: gap.clone(),
                resource: ResourceRecord {
                    resource: ResourceCoordinate {
                        authority: ResourceAuthority::Automonique,
                        kind: ResourceKind::Run,
                        id: "run-a".to_string(),
                    },
                    freshness: Freshness {
                        state: FreshnessState::Fresh,
                        observed_at: 1,
                        revision: 1,
                    },
                    summary: "running".to_string(),
                },
            }],
            cursor: gap,
        }),
        300,
    );
    assert_eq!(state.connection, ConnectionState::Reconnecting);
    assert_eq!(schedule.retry_at, 300);
    assert_eq!(schedule.backoff, MIN_RECONNECT_BACKOFF);
    schedule.subscribe_finished(
        &mut state,
        Ok(Subscription {
            events: Vec::new(),
            cursor: cursor(1),
        }),
        400,
    );
    assert_eq!(state.connection, ConnectionState::Live);
}

#[test]
fn a_failed_refresh_on_a_live_connection_is_said_and_retried() {
    let mut schedule = Schedule::new(0);
    let mut state = state();
    schedule.refresh_finished(&mut state, RefreshReason::Interval, false, 2_000);
    assert_eq!(state.connection, ConnectionState::Reconnecting);
    assert_eq!(
        state.status,
        "snapshot refresh failed; retaining read-only state"
    );
    assert_eq!(schedule.retry_at, 2_250);
    assert_eq!(schedule.backoff, MIN_RECONNECT_BACKOFF);
    schedule.resumed(&mut state, 5_000);
    assert_eq!(
        state.status,
        "terminal resumed; authoritative resync required"
    );
    assert_eq!(schedule.retry_at, 5_000);
}

#[test]
fn texts_are_trimmed_and_filled_by_characters() {
    assert_eq!(trim("\u{a0} a b \n"), "a b");
    assert_eq!(trim(" \t "), "");
    assert_eq!(pad_right("é", 3), "é  ");
    assert_eq!(pad_right("long", 2), "long");
}

fn cursor(sequence: u64) -> PlatformCursor {
    PlatformCursor {
        authority: ResourceAuthority::Automonique,
        topic: "resources".to_string(),
        sequence,
    }
}

fn state() -> CockpitState {
    CockpitState::new(OperatorOverview {
        capabilities: Capabilities {
            protocol: "automonique.platform".to_string(),
            schema: "automonique.platform/v1".to_string(),
            methods: Vec::new(),
        },
        actions: Vec::new(),
        resources: Vec::new(),
        sessions: Vec::new(),
        cursor: cursor(1),
    })
}
