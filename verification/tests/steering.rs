use operator_cockpit::backend::{
    overview_resume, overview_start, BackendError, BackendMode, FakeBackend, OperatorOverview,
    OverviewStep,
};
use operator_cockpit::commands::{
    available_commands, open_composer, AvailableCommand, PendingAction, RequestComposer,
};
use operator_cockpit::idempotency::{interaction_key, KeySource};
use operator_cockpit::interaction::{
    apply_command, execute_confirmed, resume_named, resume_sent, Step,
};
use operator_cockpit::protocol::{
    ActionReceipt, Attachment, Capabilities, ControlLease, Freshness, FreshnessState,
    PlatformAction, PlatformCursor, PlatformMethod, PlatformRequest, PlatformResponse, ReceiptOutcome,
    ResourceAuthority, ResourceCoordinate, ResourceKind, ResourceRecord, SessionList,
    SessionRecord, Snapshot,
};
use operator_cockpit::reconcile::{refresh_gathered, refresh_receipt, RefreshStep};
use operator_cockpit::startup::{platform_socket, SocketChoice};
use operator_cockpit::state::{coordinate_key, CockpitState, ConnectionState, View};
use std::path::PathBuf;
use std::time::{SystemTime, UNIX_EPOCH};

fn all_methods() -> Vec<PlatformMethod> {
    vec![
        PlatformMethod::Capabilities,
        PlatformMethod::Snapshot,
        PlatformMethod::ListSessions,
        PlatformMethod::Attach,
        PlatformMethod::Detach,
        PlatformMethod::ClaimControl,
        PlatformMethod::ReleaseControl,
        PlatformMethod::Subscribe,
        PlatformMethod::Execute,
        PlatformMethod::GetReceipt,
    ]
}

fn platform_v1() -> Capabilities {
    Capabilities {
        protocol: "automonique.platform".to_string(),
        schema: "automonique.platform/v1".to_string(),
        methods: all_methods(),
    }
}

fn all_actions() -> Vec<PlatformAction> {
    vec![
        PlatformAction::SubmitRequest,
        PlatformAction::FollowUp,
        PlatformAction::Steer,
        PlatformAction::StartRun,
        PlatformAction::StopRun,
        PlatformAction::DecideApproval,
    ]
}

fn cursor(sequence: u64) -> PlatformCursor {
    PlatformCursor {
        authority: ResourceAuthority::Automonique,
        topic: "sessions".to_string(),
        sequence,
    }
}

fn coordinate(kind: ResourceKind, id: &str) -> ResourceCoordinate {
    ResourceCoordinate {
        authority: ResourceAuthority::Automonique,
        kind,
        id: id.to_string(),
    }
}

fn session() -> SessionRecord {
    SessionRecord {
        session: ResourceRecord {
            resource: coordinate(ResourceKind::Session, "session-a"),
            freshness: Freshness {
                state: FreshnessState::Fresh,
                observed_at: 1,
                revision: 1,
            },
            summary: "open".to_string(),
        },
        run: None,
        attachable: true,
        controllable: true,
    }
}

fn session_state() -> CockpitState {
    let mut state = CockpitState::new(OperatorOverview {
        capabilities: platform_v1(),
        actions: all_actions(),
        resources: Vec::new(),
        sessions: vec![session()],
        cursor: PlatformCursor {
            authority: ResourceAuthority::Automonique,
            topic: "resources".to_string(),
            sequence: 1,
        },
    });
    state.set_view(View::Sessions);
    state
}

fn drive(
    step: Step,
    backend: &mut FakeBackend,
    client: &String,
    state: &mut CockpitState,
    confirmation: &mut Option<PendingAction>,
) {
    let mut step = step;
    loop {
        step = match step {
            Step::Done => return,
            Step::Name { interaction, then } => {
                let key = interaction_key(interaction.operation(), &mut KeySource::new(7), Some(11));
                resume_named(then, Some(key), client, state, confirmation)
            }
            Step::Send { request, then } => {
                let reply = backend.request(request);
                resume_sent(then, reply, client, state)
            }
        };
    }
}

fn apply(
    command: AvailableCommand,
    backend: &mut FakeBackend,
    client: &String,
    state: &mut CockpitState,
    confirmation: &mut Option<PendingAction>,
    composer: &mut Option<RequestComposer>,
) {
    let step = apply_command(command, client, state, confirmation, composer);
    drive(step, backend, client, state, confirmation);
}

fn execute(pending: PendingAction, backend: &mut FakeBackend, state: &mut CockpitState) {
    let step = execute_confirmed(pending, state);
    drive(step, backend, &"client-a".to_string(), state, &mut None);
}

fn nanos() -> Option<u128> {
    SystemTime::now()
        .duration_since(UNIX_EPOCH)
        .ok()
        .map(|duration| duration.as_nanos())
}

fn new_key(operation: &str) -> String {
    interaction_key(operation, &mut KeySource::new(7), nanos())
}

fn follow_up(state: &CockpitState, text: &str) -> PendingAction {
    let target = state.overview.sessions[0].session.clone();
    RequestComposer {
        action: PlatformAction::FollowUp,
        target: target.resource.clone(),
        expected_revision: target.freshness.revision,
        target_label: coordinate_key(&target.resource),
        text: text.to_string(),
    }
    .into_pending(true, Some(new_key("follow_up")))
    .expect("pending follow-up")
}

fn receipt(id: &str, target: ResourceCoordinate, recorded_at: i64) -> ActionReceipt {
    ActionReceipt {
        id: id.to_string(),
        action: PlatformAction::FollowUp,
        target,
        outcome: ReceiptOutcome::Accepted,
        revision: 1,
        recorded_at,
        explanation: None,
    }
}

fn gather(backend: &mut FakeBackend) -> Result<OperatorOverview, BackendError> {
    let mut step = overview_start();
    loop {
        step = match step {
            OverviewStep::Ready(overview) => return Ok(overview),
            OverviewStep::Failed(error) => return Err(error),
            OverviewStep::Send { request, progress } => {
                let reply = backend.request(request);
                overview_resume(progress, reply, ResourceAuthority::Automonique)
            }
        };
    }
}

fn refresh(backend: &mut FakeBackend, state: &mut CockpitState) -> bool {
    let overview = match gather(backend) {
        Ok(overview) => overview,
        Err(_) => return false,
    };
    let mut step = refresh_gathered(overview, state);
    loop {
        step = match step {
            RefreshStep::Refreshed => return true,
            RefreshStep::UpgradeRequired | RefreshStep::Failed(_) => return false,
            RefreshStep::Send { request, then } => {
                let reply = backend.request(request);
                refresh_receipt(then, reply, state)
            }
        };
    }
}

fn socket_path(choice: SocketChoice) -> Option<PathBuf> {
    match choice {
        SocketChoice::Explicit(path) => Some(PathBuf::from(path)),
        _ => None,
    }
}

fn attach_controlled_session(state: &mut CockpitState, client: &String) -> ControlLease {
    let session = session();
    let attachment = Attachment {
        session: session.session.resource.clone(),
        client: client.clone(),
        cursor: cursor(1),
    };
    state.attach(session.clone(), attachment);
    let lease = ControlLease {
        id: "lease-steer".to_string(),
        session: session.session.resource,
        client: client.clone(),
        expires_at: 9_000_000_000_000,
        revision: 7,
    };
    state.panes[0].control = Some(lease.clone());
    lease
}

#[test]
fn tests_explicit_socket_wins_without_touching_provider_state() {
    assert_eq!(
        socket_path(platform_socket(Some("/tmp/operator.sock"), true, true)).expect("socket"),
        PathBuf::from("/tmp/operator.sock")
    );
}

#[test]
fn tests_action_keys_are_unique_for_separate_interactions() {
    let mut keys = KeySource::new(4242);
    assert_ne!(
        interaction_key("cancel", &mut keys, nanos()),
        interaction_key("cancel", &mut keys, nanos())
    );
}

#[test]
fn tests_fake_backend_drives_attach_control_release_and_detach() {
    let client = "client-a".to_string();
    let session = session();
    let attachment = Attachment {
        session: session.session.resource.clone(),
        client: client.clone(),
        cursor: cursor(1),
    };
    let lease = ControlLease {
        id: "lease-a".to_string(),
        session: session.session.resource.clone(),
        client: client.clone(),
        expires_at: 30_000,
        revision: 1,
    };
    let mut backend = FakeBackend::new(
        BackendMode::Managed,
        vec![
            Ok(PlatformResponse::Attached(attachment)),
            Ok(PlatformResponse::ControlClaimed(lease.clone())),
            Ok(PlatformResponse::ControlReleased {
                session: lease.session.clone(),
                client: client.clone(),
                lease: lease.id.clone(),
            }),
            Ok(PlatformResponse::Detached {
                session: session.session.resource.clone(),
                client: client.clone(),
            }),
        ],
    );
    let mut state = session_state();
    let mut confirmation = None;
    let mut composer = None;
    apply(
        AvailableCommand::Attach,
        &mut backend,
        &client,
        &mut state,
        &mut confirmation,
        &mut composer,
    );
    assert_eq!(state.panes.len(), 1);
    apply(
        AvailableCommand::ClaimControl,
        &mut backend,
        &client,
        &mut state,
        &mut confirmation,
        &mut composer,
    );
    assert!(state.panes[0].control.is_some());
    apply(
        AvailableCommand::ReleaseControl,
        &mut backend,
        &client,
        &mut state,
        &mut confirmation,
        &mut composer,
    );
    assert!(state.panes[0].control.is_none());
    apply(
        AvailableCommand::Detach,
        &mut backend,
        &client,
        &mut state,
        &mut confirmation,
        &mut composer,
    );
    assert!(state.panes.is_empty());
    assert_eq!(backend.requests().len(), 4);
}

#[test]
fn tests_palette_uses_exact_server_actions_instead_of_inferring_from_execute() {
    let mut state = session_state();
    state.overview.actions.clear();
    assert!(!available_commands(&state).contains(&AvailableCommand::FollowUp));
    state.overview.actions = vec![PlatformAction::FollowUp];
    assert!(available_commands(&state).contains(&AvailableCommand::FollowUp));
    assert!(!available_commands(&state).contains(&AvailableCommand::StopRun));
    state.overview.sessions[0].session.freshness.state = FreshnessState::Stale;
    assert_eq!(available_commands(&state), vec![AvailableCommand::Refresh]);
}

#[test]
fn tests_composed_follow_up_reconciles_an_ambiguous_submission_by_key() {
    let mut state = session_state();
    let target = state.overview.sessions[0].session.clone();
    let pending = follow_up(&state, "continue with the verified next step");
    let receipt = receipt("receipt-follow-up", target.resource, 2);
    let mut backend = FakeBackend::new(
        BackendMode::Managed,
        vec![
            Err(BackendError::Unavailable),
            Ok(PlatformResponse::Receipt(receipt.clone())),
        ],
    );
    execute(pending, &mut backend, &mut state);
    assert_eq!(state.receipts.back(), Some(&receipt));
    assert_eq!(backend.requests().len(), 2);
    assert_eq!(state.connection, ConnectionState::Live);
}

#[test]
fn tests_reconnect_reconciles_unknown_receipt_before_controls_reenable() {
    let mut state = session_state();
    let target = state.overview.sessions[0].session.clone();
    let pending = follow_up(&state, "reconcile me");
    let receipt = receipt("receipt-after-reconnect", target.resource, 3);
    let mut backend = FakeBackend::new(
        BackendMode::Managed,
        vec![
            Err(BackendError::Unavailable),
            Err(BackendError::Unavailable),
            Ok(PlatformResponse::Capabilities(platform_v1())),
            Ok(PlatformResponse::Snapshot(Snapshot {
                resources: Vec::new(),
                cursor: cursor(1),
            })),
            Ok(PlatformResponse::Sessions(SessionList {
                sessions: vec![session()],
                cursor: cursor(1),
            })),
            Ok(PlatformResponse::Receipt(receipt.clone())),
        ],
    );

    execute(pending, &mut backend, &mut state);
    assert_eq!(state.connection, ConnectionState::Stale);
    assert_eq!(state.pending_receipts.len(), 1);
    assert!(refresh(&mut backend, &mut state), "reconcile refresh");
    assert_eq!(state.connection, ConnectionState::Live);
    assert!(state.pending_receipts.is_empty());
    assert_eq!(state.receipts.back(), Some(&receipt));
}

#[test]
fn tests_target_revision_change_invalidates_composer_confirmation_without_a_request() {
    let mut state = session_state();
    let pending = follow_up(&state, "continue");
    state.overview.sessions[0].session.freshness.revision = 2;
    let mut backend = FakeBackend::new(BackendMode::Managed, vec![]);
    execute(pending, &mut backend, &mut state);
    assert!(backend.requests().is_empty());
    assert!(state.status.contains("invalidated"));
}

#[test]
fn steering_composes_and_executes_against_the_exact_live_lease() {
    let client = "client-steer".to_string();
    let mut state = session_state();
    let lease = attach_controlled_session(&mut state, &client);
    state.overview.actions = vec![PlatformAction::Steer];
    assert!(available_commands(&state).contains(&AvailableCommand::Steer));

    let mut composer = None;
    open_composer(AvailableCommand::Steer, &mut state, &mut composer);
    let mut composer = composer.expect("steer composer");
    assert_eq!(composer.action, PlatformAction::Steer);
    assert_eq!(composer.target.kind, ResourceKind::ControlLease);
    assert_eq!(composer.target.id.as_str(), lease.id.as_str());
    assert_eq!(composer.expected_revision, lease.revision);
    composer.text = String::from("use the corrected live input");
    let pending = composer
        .into_pending(true, Some(new_key("steer")))
        .expect("pending steer");
    let receipt = ActionReceipt {
        id: "receipt-steer".to_string(),
        action: PlatformAction::Steer,
        target: pending.target.clone(),
        outcome: ReceiptOutcome::Completed,
        revision: 8,
        recorded_at: 2,
        explanation: None,
    };
    let mut backend = FakeBackend::new(
        BackendMode::Managed,
        vec![Ok(PlatformResponse::Receipt(receipt.clone()))],
    );
    execute(pending, &mut backend, &mut state);
    assert_eq!(state.receipts.back(), Some(&receipt));
    let requests = backend.requests();
    let PlatformRequest::Execute(request) = &requests[0] else {
        panic!("steer must use the canonical execute method")
    };
    assert_eq!(request.action, PlatformAction::Steer);
    assert_eq!(request.target.kind, ResourceKind::ControlLease);
    assert_eq!(request.target.id.as_str(), lease.id.as_str());
    assert_eq!(request.expected_revision, Some(lease.revision));
    assert_eq!(
        request.parameter.as_ref().map(String::as_str),
        Some("use the corrected live input")
    );
}

#[test]
fn lease_loss_invalidates_a_steer_confirmation_without_a_request() {
    let client = "client-steer-loss".to_string();
    let mut state = session_state();
    attach_controlled_session(&mut state, &client);
    state.overview.actions = vec![PlatformAction::Steer];
    let mut composer = None;
    open_composer(AvailableCommand::Steer, &mut state, &mut composer);
    let mut composer = composer.expect("steer composer");
    composer.text = String::from("must not cross a lost lease");
    let pending = composer
        .into_pending(true, Some(new_key("steer")))
        .expect("pending steer");
    state.panes[0].control = None;
    let mut backend = FakeBackend::new(BackendMode::Managed, vec![]);
    execute(pending, &mut backend, &mut state);
    assert!(backend.requests().is_empty());
    assert!(state.status.contains("invalidated"));
}

#[test]
fn a_renewed_lease_invalidates_a_steer_confirmation_too() {
    let client = "client-steer-renewed".to_string();
    let mut state = session_state();
    attach_controlled_session(&mut state, &client);
    let mut composer = None;
    open_composer(AvailableCommand::Steer, &mut state, &mut composer);
    let pending = composer
        .expect("steer composer")
        .into_pending(true, Some(new_key("steer")))
        .expect("pending steer");
    if let Some(lease) = state.panes[0].control.as_mut() {
        lease.revision = 8;
    }
    let mut backend = FakeBackend::new(BackendMode::Managed, vec![]);
    execute(pending, &mut backend, &mut state);
    assert!(backend.requests().is_empty());
    assert_eq!(
        state.status,
        "confirmation invalidated by a target revision change"
    );
}

#[test]
fn steering_is_offered_only_with_a_focused_lease_and_a_registered_action() {
    let client = "client-steer".to_string();
    let mut state = session_state();
    assert!(!available_commands(&state).contains(&AvailableCommand::Steer));
    let mut composer = None;
    open_composer(AvailableCommand::Steer, &mut state, &mut composer);
    assert!(composer.is_none());
    assert_eq!(state.status, "focused pane holds no control lease");
    attach_controlled_session(&mut state, &client);
    assert!(available_commands(&state).contains(&AvailableCommand::Steer));
    state.overview.actions = vec![PlatformAction::FollowUp];
    assert!(!available_commands(&state).contains(&AvailableCommand::Steer));
    open_composer(AvailableCommand::Steer, &mut state, &mut composer);
    assert!(composer.is_none());
    assert_eq!(
        state.status,
        "server does not advertise this composition action"
    );
}
