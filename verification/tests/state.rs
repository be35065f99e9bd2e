use operator_cockpit::backend::OperatorOverview;
use operator_cockpit::protocol::{
    ActionReceipt, Attachment, Capabilities, ControlLease, Freshness, FreshnessState,
    PlatformAction, PlatformCursor, PlatformEvent, PlatformMethod, ReceiptOutcome,
    ResourceAuthority, ResourceCoordinate, ResourceKind, ResourceRecord, SessionRecord,
    Subscription,
};
use operator_cockpit::state::{
    coordinate_key, is_failure, ApplyEvents, CockpitState, ConnectionState, PaneLayout, View,
    MAX_PANES, MAX_PENDING_RECEIPTS, MAX_RECEIPTS, MAX_TIMELINE_EVENTS,
};

fn all_methods() -> Vec<PlatformMethod> {
    vec![
        PlatformMethod::Capabilities,
        PlatformMethod::Snapshot,
        PlatformMethod::ListSessions,
        PlatformMethod::Attach,
        PlatformMethod::Detach,
        PlatformMethod::ClaimControl,
        PlatformMethod::ReleaseControl,
        PlatformMethod::Subscribe,
        PlatformMethod::Execute,
        PlatformMethod::GetReceipt,
    ]
}

fn platform_v1() -> Capabilities {
    Capabilities {
        protocol: "automonique.platform".to_string(),
        schema: "automonique.platform/v1".to_string(),
        methods: all_methods(),
    }
}

fn all_actions() -> Vec<PlatformAction> {
    vec![
        PlatformAction::SubmitRequest,
        PlatformAction::FollowUp,
        PlatformAction::Steer,
        PlatformAction::StartRun,
        PlatformAction::StopRun,
        PlatformAction::DecideApproval,
    ]
}

fn cursor(sequence: u64) -> PlatformCursor {
    PlatformCursor {
        authority: ResourceAuthority::Automonique,
        topic: "resources".to_string(),
        sequence,
    }
}

fn coordinate(kind: ResourceKind, id: &str) -> ResourceCoordinate {
    ResourceCoordinate {
        authority: ResourceAuthority::Automonique,
        kind,
        id: id.to_string(),
    }
}

fn record(id: &str, revision: u64, summary: &str) -> ResourceRecord {
    ResourceRecord {
        resource: coordinate(ResourceKind::Run, id),
        freshness: Freshness {
            state: FreshnessState::Fresh,
            observed_at: 1,
            revision,
        },
        summary: summary.to_string(),
    }
}

fn overview(resources: Vec<ResourceRecord>, sequence: u64) -> OperatorOverview {
    OperatorOverview {
        capabilities: platform_v1(),
        actions: all_actions(),
        resources,
        sessions: Vec::new(),
        cursor: cursor(sequence),
    }
}

fn state() -> CockpitState {
    CockpitState::new(overview(vec![record("run-a", 1, "running")], 1))
}

fn session_record(index: usize) -> (SessionRecord, Attachment) {
    let session_coordinate = coordinate(ResourceKind::Session, &format!("session-{index}"));
    let run = coordinate(ResourceKind::Run, &format!("run-{index}"));
    (
        SessionRecord {
            session: ResourceRecord {
                resource: session_coordinate.clone(),
                freshness: Freshness {
                    state: FreshnessState::Fresh,
                    observed_at: 1,
                    revision: 1,
                },
                summary: "open".to_string(),
            },
            run: Some(run),
            attachable: true,
            controllable: true,
        },
        Attachment {
            session: session_coordinate,
            client: "client-a".to_string(),
            cursor: cursor(1),
        },
    )
}

fn event(sequence: u64, resource: ResourceRecord) -> PlatformEvent {
    PlatformEvent {
        cursor: cursor(sequence),
        resource,
    }
}

fn lease(state: &CockpitState, pane: usize, expires_at: i64) -> ControlLease {
    ControlLease {
        id: "lease-a".to_string(),
        session: state.panes[pane].record.session.resource.clone(),
        client: "client-a".to_string(),
        expires_at,
        revision: 1,
    }
}

#[test]
fn duplicate_events_are_idempotent() {
    let mut state = state();
    let result = state.apply_subscription(Subscription {
        events: vec![event(1, record("run-a", 1, "running"))],
        cursor: cursor(1),
    });
    assert_eq!(result, ApplyEvents::DuplicateOnly);
    assert_eq!(state.overview.resources.len(), 1);
}

#[test]
fn an_answer_that_comes_twice_changes_nothing_the_second_time() {
    let mut state = state();
    let (session, attachment) = session_record(0);
    state.attach(session, attachment);
    let answer = Subscription {
        events: vec![
            event(2, record("run-0", 2, "streaming")),
            event(3, record("run-b", 1, "ready")),
        ],
        cursor: cursor(3),
    };
    assert_eq!(
        state.apply_subscription(answer.clone()),
        ApplyEvents::Applied
    );
    let resources = state.overview.resources.clone();
    assert_eq!(resources.len(), 3);
    assert_eq!(state.panes[0].timeline.len(), 1);
    assert_eq!(
        state.apply_subscription(answer),
        ApplyEvents::DuplicateOnly
    );
    assert_eq!(state.overview.resources, resources);
    assert_eq!(state.panes[0].timeline.len(), 1);
    assert_eq!(state.resource_cursor.sequence, 3);
}

#[test]
fn gaps_force_resync_without_applying_later_state() {
    let mut state = state();
    let result = state.apply_subscription(Subscription {
        events: vec![event(3, record("run-a", 2, "completed"))],
        cursor: cursor(3),
    });
    assert_eq!(result, ApplyEvents::ResyncRequired);
    assert_eq!(state.overview.resources[0].summary.as_str(), "running");
    assert!(!state.connection.mutations_allowed());
}

#[test]
fn events_before_a_gap_are_applied_and_the_cursor_stays() {
    let mut state = state();
    let result = state.apply_subscription(Subscription {
        events: vec![
            event(2, record("run-a", 2, "completed")),
            event(4, record("run-a", 4, "archived")),
        ],
        cursor: cursor(4),
    });
    assert_eq!(result, ApplyEvents::ResyncRequired);
    assert_eq!(state.overview.resources[0].summary, "completed");
    assert_eq!(state.resource_cursor.sequence, 1);
    assert_eq!(
        state.status,
        "event gap detected; requesting fresh snapshot"
    );
}

#[test]
fn a_cursor_that_moves_backwards_forces_resync() {
    let mut state = state();
    let result = state.apply_subscription(Subscription {
        events: vec![event(2, record("run-a", 2, "completed"))],
        cursor: cursor(1),
    });
    assert_eq!(result, ApplyEvents::ResyncRequired);
    assert_eq!(state.connection, ConnectionState::Stale);
    assert_eq!(state.status, "subscription cursor moved backwards");
}

#[test]
fn older_revisions_never_replace_newer_ones() {
    let mut state = CockpitState::new(overview(vec![record("run-a", 5, "running")], 1));
    state.apply_subscription(Subscription {
        events: vec![event(2, record("run-a", 4, "queued"))],
        cursor: cursor(2),
    });
    assert_eq!(state.overview.resources[0].summary, "running");
    state.apply_subscription(Subscription {
        events: vec![event(3, record("run-a", 5, "completed"))],
        cursor: cursor(3),
    });
    assert_eq!(state.overview.resources[0].summary, "completed");
}

#[test]
fn selection_survives_snapshot_reordering_by_durable_identity() {
    let mut state = state();
    state.overview.resources.push(record("run-b", 1, "ready"));
    state.set_view(View::Runs);
    state.move_selection(1);
    assert!(state
        .selected_key
        .as_deref()
        .is_some_and(|key| key.ends_with("run-b")));

    state.replace_overview(
        overview(
            vec![record("run-b", 2, "running"), record("run-a", 1, "running")],
            2,
        ),
        false,
    );
    assert_eq!(state.selected_index, 0);
    assert_eq!(
        state
            .selected_resource()
            .expect("selected")
            .resource
            .id
            .as_str(),
        "run-b"
    );
}

#[test]
fn a_selection_that_is_gone_moves_to_the_nearest_record() {
    let mut state = CockpitState::new(overview(
        vec![record("run-a", 1, "running"), record("run-b", 1, "ready")],
        1,
    ));
    state.move_selection(1);
    state.replace_overview(overview(vec![record("run-a", 1, "running")], 2), false);
    assert_eq!(state.selected_index, 0);
    assert_eq!(state.selected_key.as_deref(), Some("automonique/run/run-a"));
    state.replace_overview(overview(Vec::new(), 3), false);
    assert_eq!(state.selected_key, None);
    assert!(state.selected_resource().is_none());
}

#[test]
fn selection_and_focus_stay_within_their_bounds() {
    let mut state = state();
    state.move_selection(isize::MIN);
    assert_eq!(state.selected_index, 0);
    state.move_selection(isize::MAX);
    assert_eq!(state.selected_index, 0);
    state.focus_next_pane(1);
    assert_eq!(state.focused_pane, 0);
    for index in 0..2 {
        let (session, attachment) = session_record(index);
        state.attach(session, attachment);
    }
    state.panes[0].unread = 3;
    state.focus_next_pane(-5);
    assert_eq!(state.focused_pane, 0);
    assert_eq!(state.panes[0].unread, 0);
    state.focus_next_pane(5);
    assert_eq!(state.focused_pane, 1);
}

#[test]
fn receipt_history_is_bounded() {
    assert_eq!(MAX_RECEIPTS, 64);
}

#[test]
fn receipts_beyond_the_bound_push_the_oldest_out() {
    let mut state = state();
    for index in 0..(MAX_RECEIPTS + 2) {
        state.push_receipt(ActionReceipt {
            id: format!("receipt-{index}"),
            action: PlatformAction::StopRun,
            target: coordinate(ResourceKind::Run, "run-a"),
            outcome: ReceiptOutcome::Accepted,
            revision: 1,
            recorded_at: 1,
            explanation: None,
        });
    }
    assert_eq!(state.receipts.len(), MAX_RECEIPTS);
    assert_eq!(state.receipts[0].id, "receipt-2");
    assert_eq!(state.status, "stop_run accepted for run-a");
}

#[test]
fn awaited_receipts_are_bounded_unique_and_resolvable() {
    let mut state = state();
    for index in 0..(MAX_PENDING_RECEIPTS + 1) {
        state.track_pending_receipt(format!("key-{index}"));
        state.track_pending_receipt(format!("key-{index}"));
    }
    assert_eq!(state.pending_receipts.len(), MAX_PENDING_RECEIPTS);
    assert_eq!(state.pending_receipts[0], "key-1");
    state.resolve_pending_receipt(&"key-1".to_string());
    assert_eq!(state.pending_receipts.len(), MAX_PENDING_RECEIPTS - 1);
    assert!(!state.pending_receipts.contains(&"key-1".to_string()));
    assert_eq!(state.pending_receipts[0], "key-2");
}

#[test]
fn session_projection_is_not_rendered_twice_when_snapshot_and_session_list_overlap() {
    let mut state = state();
    let (session, _) = session_record(0);
    state.overview.resources.push(session.session.clone());
    state.overview.sessions.push(session);
    state.set_view(View::Sessions);
    assert_eq!(state.visible_resources().len(), 1);
}

#[test]
fn views_show_their_own_kinds_and_hide_registry_entries() {
    let mut failed = record("run-failed", 1, "Quarantined by policy");
    failed.freshness.state = FreshnessState::Stale;
    let mut stale_node = record("node-a", 1, "ready");
    stale_node.resource.kind = ResourceKind::Node;
    stale_node.freshness.state = FreshnessState::Stale;
    let mut registry = record("platform-action-steer", 1, "registry");
    registry.resource.kind = ResourceKind::Client;
    let mut state = CockpitState::new(overview(
        vec![record("run-a", 1, "running"), failed, stale_node, registry],
        1,
    ));
    assert_eq!(state.visible_resources().len(), 2);
    state.set_view(View::Runs);
    assert_eq!(state.visible_resources().len(), 2);
    state.set_view(View::Failures);
    assert_eq!(state.visible_resources().len(), 2);
    state.set_view(View::Approvals);
    assert!(state.visible_resources().is_empty());
    assert!(state.selected_session().is_none());
}

#[test]
fn failures_are_recognised_in_any_case_of_letters() {
    assert!(is_failure(&record("run-a", 1, "Build FAILED")));
    assert!(is_failure(&record("run-a", 1, "access denied")));
    assert!(!is_failure(&record("run-a", 1, "running")));
    let mut stale = record("run-a", 1, "running");
    stale.freshness.state = FreshnessState::Other("expired".to_string());
    assert!(is_failure(&stale));
}

#[test]
fn keys_name_authority_kind_and_identity() {
    assert_eq!(
        coordinate_key(&coordinate(ResourceKind::ControlLease, "lease-a")),
        "automonique/control_lease/lease-a"
    );
    assert_ne!(
        coordinate_key(&coordinate(ResourceKind::Run, "a")),
        coordinate_key(&coordinate(ResourceKind::Session, "a"))
    );
}

#[test]
fn dynamic_panes_are_bounded_reorderable_and_independently_buffered() {
    let mut state = state();
    for index in 0..MAX_PANES {
        let (session, attachment) = session_record(index);
        assert!(state.attach(session, attachment));
    }
    let (overflow, overflow_attachment) = session_record(MAX_PANES);
    assert!(!state.attach(overflow.clone(), overflow_attachment.clone()));
    assert_eq!(state.panes.len(), MAX_PANES);
    assert_eq!(state.status, "pane limit reached (12)");

    state.focused_pane = 0;
    let first = state.panes[0].key();
    state.reorder_focused_pane(1);
    assert_eq!(state.focused_pane, 1);
    assert_eq!(state.panes[1].key(), first);

    for sequence in 2..=(MAX_TIMELINE_EVENTS as u64 + 20) {
        let update = record("run-0", sequence, "streaming");
        assert_ne!(
            state.apply_subscription(Subscription {
                events: vec![event(sequence, update)],
                cursor: cursor(sequence),
            }),
            ApplyEvents::ResyncRequired
        );
    }
    let pane = state
        .panes
        .iter()
        .find(|pane| {
            pane.record
                .run
                .as_ref()
                .is_some_and(|run| run.id.as_str() == "run-0")
        })
        .expect("run pane");
    assert_eq!(pane.timeline.len(), MAX_TIMELINE_EVENTS);

    state.focused_pane = 0;
    let removed = state.remove_focused_pane().expect("remove pane");
    assert_eq!(state.panes.len(), MAX_PANES - 1);
    assert!(state.attach(overflow, overflow_attachment));
    assert_eq!(state.panes.len(), MAX_PANES);
    assert!(state.panes.iter().all(|pane| pane.key() != removed.key()));
}

#[test]
fn unread_counts_grow_on_panes_without_focus_only() {
    let mut state = state();
    for index in 0..2 {
        let (session, attachment) = session_record(index);
        state.attach(session, attachment);
    }
    assert_eq!(state.focused_pane, 1);
    state.apply_subscription(Subscription {
        events: vec![
            event(2, record("run-0", 2, "streaming")),
            event(3, record("run-1", 2, "streaming")),
        ],
        cursor: cursor(3),
    });
    assert_eq!(state.panes[0].unread, 1);
    assert_eq!(state.panes[1].unread, 0);
    assert_eq!(state.panes[1].timeline.len(), 1);
}

#[test]
fn attaching_twice_focuses_the_open_pane() {
    let mut state = state();
    for index in 0..2 {
        let (session, attachment) = session_record(index);
        assert!(state.attach(session, attachment));
    }
    let (session, attachment) = session_record(0);
    assert!(!state.attach(session, attachment));
    assert_eq!(state.panes.len(), 2);
    assert_eq!(state.focused_pane, 0);
}

#[test]
fn reordering_back_restores_the_panes() {
    let mut state = state();
    for index in 0..3 {
        let (session, attachment) = session_record(index);
        state.attach(session, attachment);
    }
    let before: Vec<String> = state.panes.iter().map(|pane| pane.key()).collect();
    state.focused_pane = 1;
    state.reorder_focused_pane(-1);
    assert_eq!(state.focused_pane, 0);
    state.reorder_focused_pane(1);
    let after: Vec<String> = state.panes.iter().map(|pane| pane.key()).collect();
    assert_eq!(before, after);
    state.reorder_focused_pane(9);
    assert_eq!(state.focused_pane, 2);
}

#[test]
fn removing_the_last_pane_keeps_the_focus_on_a_pane() {
    let mut state = state();
    assert!(state.remove_focused_pane().is_none());
    for index in 0..2 {
        let (session, attachment) = session_record(index);
        state.attach(session, attachment);
    }
    assert!(state.remove_focused_pane().is_some());
    assert_eq!(state.focused_pane, 0);
    assert!(state.remove_focused_pane().is_some());
    assert_eq!(state.focused_pane, 0);
}

#[test]
fn pinning_is_explicit_and_never_changes_control() {
    let mut state = state();
    let (session, attachment) = session_record(0);
    state.attach(session, attachment);
    state.toggle_focused_pin();
    assert!(state.panes[0].pinned);
    assert!(state.panes[0].control.is_none());
    state.toggle_focused_pin();
    assert!(!state.panes[0].pinned);
}

#[test]
fn pinning_without_a_pane_says_so() {
    let mut state = state();
    state.toggle_focused_pin();
    assert_eq!(state.status, "no focused session pane");
}

#[test]
fn reconnect_drops_control_but_regular_refresh_preserves_it() {
    let mut state = state();
    let (session, attachment) = session_record(0);
    state.attach(session, attachment);
    state.panes[0].control = Some(lease(&state, 0, i64::MAX));
    let overview = state.overview.clone();
    state.replace_overview(overview.clone(), false);
    assert!(state.panes[0].control.is_some());
    state.replace_overview(overview, true);
    assert!(state.panes[0].control.is_none());
}

#[test]
fn leases_expire_at_their_time() {
    let mut state = state();
    let (session, attachment) = session_record(0);
    state.attach(session, attachment);
    state.panes[0].control = Some(lease(&state, 0, 1_000));
    state.expire_controls(999);
    assert!(state.panes[0].control.is_some());
    state.expire_controls(1_000);
    assert!(state.panes[0].control.is_none());
}

#[test]
fn a_newer_overview_updates_the_record_of_a_pane() {
    let mut state = state();
    let (mut session, attachment) = session_record(0);
    state.attach(session.clone(), attachment);
    session.session.summary = "closed".to_string();
    session.attachable = false;
    let mut overview = state.overview.clone();
    overview.sessions.push(session);
    state.replace_overview(overview, false);
    assert_eq!(state.panes[0].record.session.summary, "closed");
    assert!(!state.panes[0].record.attachable);
    assert_eq!(state.status, "reconciled with authoritative snapshot");
}

#[test]
fn layouts_cycle_and_read_back() {
    let mut layout = PaneLayout::Grid;
    for word in ["grid", "rows", "columns", "tabs", "focused"] {
        assert_eq!(layout.label(), word);
        assert_eq!(PaneLayout::parse(word), Some(layout));
        layout = layout.next();
    }
    assert_eq!(layout, PaneLayout::Grid);
    assert_eq!(PaneLayout::parse("Grid"), None);
}

#[test]
fn labels_say_what_is_read_only() {
    assert_eq!(ConnectionState::Live.label(), "LIVE");
    for connection in [
        ConnectionState::Stale,
        ConnectionState::Reconnecting,
        ConnectionState::UpgradeRequired,
    ] {
        assert!(connection.label().contains("READ-ONLY"));
        assert!(!connection.mutations_allowed());
    }
    assert_eq!(View::Receipts.label(), "receipts");
    assert_eq!(View::at(6), Some(View::Receipts));
    assert_eq!(View::at(7), None);
}
