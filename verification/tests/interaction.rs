use operator_cockpit::backend::{BackendError, FakeBackend, BackendMode, OperatorOverview};
use operator_cockpit::commands::{
    open_composer, AvailableCommand, PendingAction, RequestComposer,
};
use operator_cockpit::interaction::{
    apply_command, execute_confirmed, refuse_locally, resume_named, resume_sent, Interaction,
    Named, Sent, Step,
};
use operator_cockpit::protocol::{
    ActionReceipt, Attachment, Capabilities, ControlLease, Freshness, FreshnessState,
    PlatformAction, PlatformCursor, PlatformMethod, PlatformRequest, PlatformResponse,
    ReceiptOutcome, ResourceAuthority, ResourceCoordinate, ResourceKind, ResourceRecord,
    SessionRecord,
};
use operator_cockpit::reconcile::{
    cleanup_client, departure_complaint, departure_requests, detach_complaint,
    reattach_answered, reattach_request, refresh_gathered, refresh_receipt, release_complaint,
    RefreshStep,
};
use operator_cockpit::state::{CockpitState, ConnectionState, PaneLayout, View};

fn all_methods() -> Vec<PlatformMethod> {
    vec![
        PlatformMethod::Capabilities,
        PlatformMethod::Snapshot,
        PlatformMethod::ListSessions,
        PlatformMethod::Attach,
        PlatformMethod::Detach,
        PlatformMethod::ClaimControl,
        PlatformMethod::ReleaseControl,
        PlatformMethod::Subscribe,
        PlatformMethod::Execute,
        PlatformMethod::GetReceipt,
    ]
}

fn platform_v1() -> Capabilities {
    Capabilities {
        protocol: "automonique.platform".to_string(),
        schema: "automonique.platform/v1".to_string(),
        methods: all_methods(),
    }
}

fn all_actions() -> Vec<PlatformAction> {
    vec![
        PlatformAction::SubmitRequest,
        PlatformAction::FollowUp,
        PlatformAction::Steer,
        PlatformAction::StartRun,
        PlatformAction::StopRun,
        PlatformAction::DecideApproval,
    ]
}

fn cursor(sequence: u64) -> PlatformCursor {
    PlatformCursor {
        authority: ResourceAuthority::Automonique,
        topic: "resources".to_string(),
        sequence,
    }
}

fn record(kind: ResourceKind, id: &str, revision: u64) -> ResourceRecord {
    ResourceRecord {
        resource: ResourceCoordinate {
            authority: ResourceAuthority::Automonique,
            kind,
            id: id.to_string(),
        },
        freshness: Freshness {
            state: FreshnessState::Fresh,
            observed_at: 1,
            revision,
        },
        summary: "ready".to_string(),
    }
}

fn session(id: &str) -> SessionRecord {
    SessionRecord {
        session: record(ResourceKind::Session, id, 1),
        run: None,
        attachable: true,
        controllable: true,
    }
}

fn attachment(session: &SessionRecord) -> Attachment {
    Attachment {
        session: session.session.resource.clone(),
        client: "client-a".to_string(),
        cursor: cursor(1),
    }
}

fn state_with(resources: Vec<ResourceRecord>, sessions: Vec<SessionRecord>) -> CockpitState {
    CockpitState::new(OperatorOverview {
        capabilities: platform_v1(),
        actions: all_actions(),
        resources,
        sessions,
        cursor: cursor(1),
    })
}

fn client() -> String {
    "client-a".to_string()
}

fn lease_on(session: &SessionRecord) -> ControlLease {
    ControlLease {
        id: "lease-a".to_string(),
        session: session.session.resource.clone(),
        client: client(),
        expires_at: i64::MAX,
        revision: 2,
    }
}

fn attached() -> CockpitState {
    let session = session("session-a");
    let mut state = state_with(Vec::new(), vec![session.clone()]);
    state.attach(session.clone(), attachment(&session));
    state
}

fn begin(command: AvailableCommand, state: &mut CockpitState) -> Step {
    apply_command(command, &client(), state, &mut None, &mut None)
}

fn refused() -> Result<PlatformResponse, BackendError> {
    Ok(PlatformResponse::Refused {
        outcome: ReceiptOutcome::Rejected,
        explanation: "no".to_string(),
    })
}

#[test]
fn a_stale_client_attaches_claims_and_starts_nothing() {
    for (command, status) in [
        (
            AvailableCommand::Attach,
            "attach disabled while snapshot is stale",
        ),
        (
            AvailableCommand::ClaimControl,
            "control disabled while snapshot is stale",
        ),
        (
            AvailableCommand::StartRun,
            "mutation disabled while snapshot is stale",
        ),
        (
            AvailableCommand::Steer,
            "composition disabled while snapshot is stale",
        ),
    ] {
        let mut state = attached();
        state.connection = ConnectionState::Stale;
        assert_eq!(begin(command, &mut state), Step::Done);
        assert_eq!(state.status, status);
    }
}

#[test]
fn attaching_needs_an_attachable_session() {
    let mut state = state_with(vec![record(ResourceKind::Run, "run-a", 1)], Vec::new());
    assert_eq!(begin(AvailableCommand::Attach, &mut state), Step::Done);
    assert_eq!(state.status, "select an attachable session first");
    let mut closed = session("session-a");
    closed.attachable = false;
    let mut state = state_with(Vec::new(), vec![closed]);
    assert_eq!(begin(AvailableCommand::Attach, &mut state), Step::Done);
    assert_eq!(
        state.status,
        "selected session is read-only and not attachable"
    );
}

#[test]
fn a_refused_attach_opens_no_pane() {
    let mut state = state_with(Vec::new(), vec![session("session-a")]);
    let Step::Send { request, then } = begin(AvailableCommand::Attach, &mut state) else {
        panic!("attach asks the authority")
    };
    assert_eq!(
        request,
        PlatformRequest::Attach {
            session: session("session-a").session.resource,
            client: client(),
        }
    );
    let step = resume_sent(then, refused(), &client(), &mut state);
    assert_eq!(step, Step::Done);
    assert!(state.panes.is_empty());
    assert_eq!(
        state.status,
        "attach refused: operator action rejected: no"
    );
}

#[test]
fn claiming_needs_a_controllable_session() {
    let mut state = state_with(vec![record(ResourceKind::Run, "run-a", 1)], Vec::new());
    assert_eq!(
        begin(AvailableCommand::ClaimControl, &mut state),
        Step::Done
    );
    assert_eq!(
        state.status,
        "select or attach a controllable session first"
    );
    let mut fixed = session("session-a");
    fixed.controllable = false;
    let mut state = state_with(Vec::new(), vec![fixed]);
    assert_eq!(
        begin(AvailableCommand::ClaimControl, &mut state),
        Step::Done
    );
    assert_eq!(
        state.status,
        "server marks the selected session non-controllable"
    );
}

#[test]
fn a_refused_claim_leaves_the_pane_an_observer() {
    let mut state = attached();
    let step = resume_sent(
        Sent::Claim {
            session: session("session-a"),
        },
        Err(BackendError::Unavailable),
        &client(),
        &mut state,
    );
    assert_eq!(step, Step::Done);
    assert!(state.panes[0].control.is_none());
    assert_eq!(
        state.status,
        "control refused or held elsewhere: operator backend unavailable"
    );
}

#[test]
fn a_refused_release_gives_the_lease_back() {
    let mut state = attached();
    let lease = lease_on(&session("session-a"));
    state.panes[0].control = Some(lease.clone());
    let Step::Name { interaction, then } = begin(AvailableCommand::ReleaseControl, &mut state)
    else {
        panic!("a release is named first")
    };
    assert_eq!(interaction, Interaction::Release);
    assert!(state.panes[0].control.is_none());
    let Step::Send { request, then } = resume_named(
        then,
        Some("key-a".to_string()),
        &client(),
        &mut state,
        &mut None,
    ) else {
        panic!("a named release is sent")
    };
    assert_eq!(
        request,
        PlatformRequest::ReleaseControl {
            session: lease.session.clone(),
            client: client(),
            lease: "lease-a".to_string(),
            idempotency_key: "key-a".to_string(),
        }
    );
    resume_sent(then, refused(), &client(), &mut state);
    assert_eq!(state.panes[0].control, Some(lease));
    assert_eq!(
        state.status,
        "control release refused: operator action rejected: no"
    );
}

#[test]
fn interactions_that_cannot_be_named_change_nothing() {
    let mut state = attached();
    let lease = lease_on(&session("session-a"));
    for then in [
        Named::Release {
            lease: lease.clone(),
        },
        Named::DetachRelease {
            lease: lease.clone(),
            session: lease.session.clone(),
        },
    ] {
        state.panes[0].control = Some(lease.clone());
        let step = resume_named(then, None, &client(), &mut state, &mut None);
        assert_eq!(step, Step::Done);
        assert_eq!(state.panes[0].control, Some(lease.clone()));
        assert_eq!(
            state.status,
            "could not construct control release identity"
        );
    }
    let step = resume_named(
        Named::Claim {
            session: session("session-a"),
        },
        None,
        &client(),
        &mut state,
        &mut None,
    );
    assert_eq!(step, Step::Done);
    assert_eq!(state.status, "could not construct control claim identity");
}

#[test]
fn detaching_releases_a_held_lease_first() {
    let mut state = attached();
    let lease = lease_on(&session("session-a"));
    state.panes[0].control = Some(lease.clone());
    let Step::Name { then, .. } = begin(AvailableCommand::Detach, &mut state) else {
        panic!("the release is named first")
    };
    let Step::Send { then, .. } = resume_named(
        then,
        Some("key-a".to_string()),
        &client(),
        &mut state,
        &mut None,
    ) else {
        panic!("the release is sent")
    };
    let released = Ok(PlatformResponse::ControlReleased {
        session: lease.session.clone(),
        client: client(),
        lease: lease.id.clone(),
    });
    let Step::Send { request, then } = resume_sent(then, released, &client(), &mut state) else {
        panic!("the detach follows")
    };
    assert_eq!(
        request,
        PlatformRequest::Detach {
            session: lease.session.clone(),
            client: client(),
        }
    );
    resume_sent(then, refused(), &client(), &mut state);
    assert_eq!(state.panes.len(), 1);
    assert_eq!(
        state.status,
        "detach refused; observer pane retained: operator action rejected: no"
    );
    let detached = Ok(PlatformResponse::Detached {
        session: lease.session.clone(),
        client: client(),
    });
    resume_sent(
        Sent::Detach {
            session: lease.session,
        },
        detached,
        &client(),
        &mut state,
    );
    assert!(state.panes.is_empty());
    assert_eq!(
        state.status,
        "detached observer from session-a; runner unchanged"
    );
    assert_eq!(begin(AvailableCommand::Detach, &mut state), Step::Done);
    assert_eq!(state.status, "no attached pane to detach");
}

#[test]
fn a_refused_release_keeps_the_observer_on_detach() {
    let mut state = attached();
    let lease = lease_on(&session("session-a"));
    let step = resume_sent(
        Sent::DetachRelease {
            session: lease.session.clone(),
            lease,
        },
        refused(),
        &client(),
        &mut state,
    );
    assert_eq!(step, Step::Done);
    assert_eq!(state.panes.len(), 1);
    assert_eq!(
        state.status,
        "control release refused; observer retained: operator action rejected: no"
    );
}

#[test]
fn releasing_needs_a_pane_and_a_lease() {
    let mut state = state_with(Vec::new(), Vec::new());
    assert_eq!(
        begin(AvailableCommand::ReleaseControl, &mut state),
        Step::Done
    );
    assert_eq!(state.status, "no focused session pane");
    let mut state = attached();
    assert_eq!(
        begin(AvailableCommand::ReleaseControl, &mut state),
        Step::Done
    );
    assert_eq!(state.status, "focused pane holds no control lease");
}

#[test]
fn mutations_wait_for_confirmation_with_their_exact_target() {
    for (command, kind, action, parameter, title) in [
        (
            AvailableCommand::StartRun,
            ResourceKind::Run,
            PlatformAction::StartRun,
            None,
            "Start run",
        ),
        (
            AvailableCommand::StopRun,
            ResourceKind::Run,
            PlatformAction::StopRun,
            None,
            "Cancel run",
        ),
        (
            AvailableCommand::GrantApproval,
            ResourceKind::Approval,
            PlatformAction::DecideApproval,
            Some("grant"),
            "Grant approval",
        ),
        (
            AvailableCommand::DenyApproval,
            ResourceKind::Approval,
            PlatformAction::DecideApproval,
            Some("deny"),
            "Deny approval",
        ),
    ] {
        let mut state = state_with(vec![record(kind, "target-a", 4)], Vec::new());
        let mut confirmation: Option<PendingAction> = None;
        let mut composer: Option<RequestComposer> = None;
        let step = apply_command(
            command,
            &client(),
            &mut state,
            &mut confirmation,
            &mut composer,
        );
        let Step::Name { interaction, then } = step else {
            panic!("a mutation is named first")
        };
        assert_eq!(interaction, Interaction::Act(action));
        assert_eq!(
            resume_named(
                then,
                Some("key-a".to_string()),
                &client(),
                &mut state,
                &mut confirmation
            ),
            Step::Done
        );
        let pending = confirmation.expect("pending");
        assert_eq!(pending.action, action);
        assert_eq!(pending.parameter.as_deref(), parameter);
        assert_eq!(pending.title, title);
        assert_eq!(pending.expected_revision, 4);
        assert!(pending.target_label.ends_with("target-a"));
        let Step::Send { request, .. } = execute_confirmed(pending, &mut state) else {
            panic!("a confirmed mutation is sent")
        };
        let PlatformRequest::Execute(request) = request else {
            panic!("a mutation is executed")
        };
        assert_eq!(request.expected_revision, Some(4));
        assert_eq!(request.idempotency_key, "key-a");
    }
}

#[test]
fn a_command_that_does_not_fit_withdraws_the_confirmation() {
    let mut state = state_with(vec![record(ResourceKind::Run, "run-a", 4)], Vec::new());
    let mut confirmation = PendingAction::for_command(
        AvailableCommand::StartRun,
        record(ResourceKind::Run, "run-a", 4),
        Some("key-a".to_string()),
    );
    assert!(confirmation.is_some());
    let step = apply_command(
        AvailableCommand::GrantApproval,
        &client(),
        &mut state,
        &mut confirmation,
        &mut None,
    );
    assert_eq!(step, Step::Done);
    assert!(confirmation.is_none());
    assert!(PendingAction::for_command(
        AvailableCommand::StartRun,
        record(ResourceKind::Run, "run-a", 4),
        None,
    )
    .is_none());
    let mut state = state_with(Vec::new(), Vec::new());
    begin(AvailableCommand::StopRun, &mut state);
    assert_eq!(state.status, "select an exact target first");
}

#[test]
fn a_refused_mutation_has_no_effect_and_awaits_nothing() {
    let mut state = state_with(vec![record(ResourceKind::Run, "run-a", 4)], Vec::new());
    let step = resume_sent(
        Sent::Execute {
            key: "key-a".to_string(),
        },
        refused(),
        &client(),
        &mut state,
    );
    assert_eq!(step, Step::Done);
    assert!(state.pending_receipts.is_empty());
    assert_eq!(state.connection, ConnectionState::Live);
    assert_eq!(
        state.status,
        "mutation refused without effect: operator action rejected: no"
    );
    refuse_locally(&mut state);
    assert_eq!(state.status, "typed mutation failed local validation");
}

#[test]
fn an_unknown_outcome_disables_controls() {
    let mut state = state_with(vec![record(ResourceKind::Run, "run-a", 4)], Vec::new());
    let Step::Send { request, then } = resume_sent(
        Sent::Execute {
            key: "key-a".to_string(),
        },
        Err(BackendError::Protocol),
        &client(),
        &mut state,
    ) else {
        panic!("the receipt is looked for")
    };
    assert_eq!(
        request,
        PlatformRequest::GetReceipt {
            idempotency_key: "key-a".to_string()
        }
    );
    resume_sent(then, refused(), &client(), &mut state);
    assert_eq!(state.connection, ConnectionState::Stale);
    assert_eq!(state.pending_receipts.len(), 1);
    assert_eq!(
        state.status,
        "submission outcome unknown; controls disabled until receipt reconciliation"
    );
}

#[test]
fn a_stale_client_confirms_nothing() {
    let mut state = state_with(vec![record(ResourceKind::Run, "run-a", 4)], Vec::new());
    state.connection = ConnectionState::Stale;
    let pending = PendingAction::for_command(
        AvailableCommand::StopRun,
        record(ResourceKind::Run, "run-a", 4),
        Some("key-a".to_string()),
    )
    .expect("pending");
    assert_eq!(execute_confirmed(pending, &mut state), Step::Done);
    assert_eq!(
        state.status,
        "confirmation invalidated because the client is stale"
    );
}

#[test]
fn composing_needs_a_fresh_target_and_an_advertised_action() {
    let mut composer = None;
    let mut state = state_with(Vec::new(), Vec::new());
    open_composer(AvailableCommand::FollowUp, &mut state, &mut composer);
    assert_eq!(state.status, "select an exact target before composing");
    let mut stale = session("session-a");
    stale.session.freshness.state = FreshnessState::Stale;
    let mut state = state_with(Vec::new(), vec![stale]);
    open_composer(AvailableCommand::FollowUp, &mut state, &mut composer);
    assert_eq!(
        state.status,
        "selected target is not fresh; composition disabled"
    );
    let mut state = state_with(Vec::new(), vec![session("session-a")]);
    open_composer(AvailableCommand::SubmitRequest, &mut state, &mut composer);
    assert_eq!(
        state.status,
        "server does not advertise this composition action"
    );
    assert!(composer.is_none());
}

#[test]
fn layouts_and_resyncs_are_commands_too() {
    let mut state = attached();
    begin(AvailableCommand::CycleLayout, &mut state);
    assert_eq!(state.pane_layout, PaneLayout::Rows);
    begin(AvailableCommand::Refresh, &mut state);
    assert_eq!(state.connection, ConnectionState::Reconnecting);
    assert_eq!(state.status, "authoritative resync requested");
    for command in [AvailableCommand::Refresh, AvailableCommand::Steer] {
        assert!(!command.label().is_empty());
    }
    assert_eq!(
        AvailableCommand::Refresh.label(),
        "Reconcile from authoritative snapshot"
    );
}

#[test]
fn an_incompatible_authority_disables_mutations() {
    let mut state = attached();
    let mut overview = state.overview.clone();
    overview.capabilities.schema = "automonique.platform/v2".to_string();
    assert_eq!(
        refresh_gathered(overview, &mut state),
        RefreshStep::UpgradeRequired
    );
    assert_eq!(state.connection, ConnectionState::UpgradeRequired);
    assert_eq!(
        state.status,
        "server protocol is incompatible; mutation controls disabled"
    );
}

#[test]
fn a_receipt_that_stays_unknown_keeps_controls_disabled() {
    let mut state = attached();
    state.connection = ConnectionState::Stale;
    state.track_pending_receipt("key-a".to_string());
    state.track_pending_receipt("key-b".to_string());
    let overview = state.overview.clone();
    let RefreshStep::Send { then, .. } = refresh_gathered(overview, &mut state) else {
        panic!("receipts are asked for first")
    };
    let receipt = ActionReceipt {
        id: "receipt-a".to_string(),
        action: PlatformAction::StopRun,
        target: session("session-a").session.resource,
        outcome: ReceiptOutcome::Completed,
        revision: 1,
        recorded_at: 1,
        explanation: None,
    };
    let RefreshStep::Send { request, then } = refresh_receipt(
        then,
        Ok(PlatformResponse::Receipt(receipt)),
        &mut state,
    ) else {
        panic!("the next receipt is asked for")
    };
    assert_eq!(
        request,
        PlatformRequest::GetReceipt {
            idempotency_key: "key-b".to_string()
        }
    );
    assert_eq!(
        refresh_receipt(then, Err(BackendError::Unavailable), &mut state),
        RefreshStep::Failed(BackendError::Unavailable)
    );
    assert_eq!(state.connection, ConnectionState::Stale);
    assert_eq!(state.pending_receipts.len(), 1);
    assert_eq!(state.receipts.len(), 1);
    assert_eq!(state.status, "unknown receipt; controls remain disabled");
}

#[test]
fn panes_are_attached_again_without_control() {
    let mut state = attached();
    assert_eq!(
        reattach_request(&state, 0, &client()),
        Some(PlatformRequest::Attach {
            session: session("session-a").session.resource,
            client: client(),
        })
    );
    assert_eq!(reattach_request(&state, 1, &client()), None);
    let mut renewed = attachment(&session("session-a"));
    renewed.cursor = cursor(9);
    reattach_answered(
        &mut state,
        0,
        Ok(PlatformResponse::Attached(renewed.clone())),
    );
    assert_eq!(state.panes[0].attachment, renewed);
    assert!(state.panes[0].control.is_none());
    reattach_answered(&mut state, 0, Err(BackendError::Unavailable));
    assert!(!state.panes[0].record.attachable);
}

#[test]
fn leaving_releases_every_lease_and_detaches_every_observer() {
    let first = session("session-a");
    let second = session("session-b");
    let mut state = attached();
    state.attach(second.clone(), attachment(&second));
    state.panes[0].control = Some(lease_on(&first));
    let departures = cleanup_client(&mut state);
    assert!(state.panes.is_empty());
    assert_eq!(departures.len(), 2);
    assert_eq!(departures[0].lease, Some(lease_on(&first)));
    assert_eq!(departures[0].session, first.session.resource);
    assert_eq!(departures[1].lease, None);
    assert_eq!(departures[1].session, second.session.resource);
    assert_eq!(
        release_complaint(&BackendError::Unavailable),
        "jcode platform: control release during exit failed: operator backend unavailable"
    );
    assert_eq!(
        detach_complaint(&BackendError::Protocol),
        "jcode platform: observer detach during exit failed: operator backend protocol refused"
    );
}

#[test]
fn a_departure_releases_its_lease_and_then_detaches_whatever_is_answered() {
    let first = session("session-a");
    let second = session("session-b");
    let mut state = attached();
    state.attach(second.clone(), attachment(&second));
    state.panes[0].control = Some(lease_on(&first));
    let departures = cleanup_client(&mut state);
    let release = PlatformRequest::ReleaseControl {
        session: first.session.resource.clone(),
        client: client(),
        lease: "lease-a".to_string(),
        idempotency_key: "key-a".to_string(),
    };
    let detach_first = PlatformRequest::Detach {
        session: first.session.resource.clone(),
        client: client(),
    };
    let detach_second = PlatformRequest::Detach {
        session: second.session.resource.clone(),
        client: client(),
    };
    let key = || Some("key-a".to_string());
    assert_eq!(
        departure_requests(&departures[0], key(), &client()),
        vec![release.clone(), detach_first.clone()]
    );
    assert_eq!(
        departure_requests(&departures[0], None, &client()),
        vec![detach_first.clone()]
    );
    assert_eq!(
        departure_requests(&departures[1], key(), &client()),
        vec![detach_second]
    );

    let unavailable = || Err(BackendError::Unavailable);
    assert_eq!(
        departure_complaint(&departures[0], &release, unavailable(), &client()).as_deref(),
        Some("jcode platform: control release during exit failed: operator backend unavailable")
    );
    assert_eq!(
        departure_complaint(&departures[0], &detach_first, unavailable(), &client()).as_deref(),
        Some("jcode platform: observer detach during exit failed: operator backend unavailable")
    );
    assert_eq!(
        departure_complaint(
            &departures[0],
            &release,
            Ok(PlatformResponse::ControlReleased {
                session: first.session.resource.clone(),
                client: client(),
                lease: "lease-a".to_string(),
            }),
            &client()
        ),
        None
    );
    assert_eq!(
        departure_complaint(
            &departures[0],
            &detach_first,
            Ok(PlatformResponse::Detached {
                session: first.session.resource.clone(),
                client: client(),
            }),
            &client()
        ),
        None
    );
}

#[test]
fn a_fake_backend_keeps_what_it_was_asked() {
    let mut backend = FakeBackend::new(BackendMode::Standalone, vec![refused()]);
    assert_eq!(backend.request(PlatformRequest::Snapshot), refused());
    assert_eq!(backend.requests(), vec![PlatformRequest::Snapshot]);
    let mut state = attached();
    state.set_view(View::Sessions);
    assert_eq!(state.visible_resources().len(), 1);
}
