use operator_cockpit::backend::{
    attach, capabilities, claim_control, detach, overview_resume, overview_snapshot,
    overview_start, receipt, release_control, subscribe, supports_method, BackendError,
    BackendMode, ClientError, FakeBackend, OperatorOverview, OverviewStep,
};
use operator_cockpit::json::overview_report;
use operator_cockpit::protocol::{
    Capabilities, ControlLease, Freshness, FreshnessState, PlatformAction, PlatformCursor,
    PlatformMethod, PlatformRequest, PlatformResponse, ReceiptOutcome, ResourceAuthority,
    ResourceCoordinate, ResourceKind, ResourceRecord, SessionList, SessionRecord, Snapshot,
    Subscription,
};

fn all_methods() -> Vec<PlatformMethod> {
    vec![
        PlatformMethod::Capabilities,
        PlatformMethod::Snapshot,
        PlatformMethod::ListSessions,
        PlatformMethod::Attach,
        PlatformMethod::Detach,
        PlatformMethod::ClaimControl,
        PlatformMethod::ReleaseControl,
        PlatformMethod::Subscribe,
        PlatformMethod::Execute,
        PlatformMethod::GetReceipt,
    ]
}

fn platform_v1() -> Capabilities {
    Capabilities {
        protocol: "automonique.platform".to_string(),
        schema: "automonique.platform/v1".to_string(),
        methods: all_methods(),
    }
}

fn cursor(topic: &str, sequence: u64) -> PlatformCursor {
    PlatformCursor {
        authority: ResourceAuthority::Automonique,
        topic: topic.to_string(),
        sequence,
    }
}

fn record(kind: ResourceKind, id: &str, summary: &str) -> ResourceRecord {
    ResourceRecord {
        resource: ResourceCoordinate {
            authority: if kind == ResourceKind::Model {
                ResourceAuthority::Provider
            } else {
                ResourceAuthority::Automonique
            },
            kind,
            id: id.to_string(),
        },
        freshness: Freshness {
            state: FreshnessState::Fresh,
            observed_at: 1,
            revision: 1,
        },
        summary: summary.to_string(),
    }
}

fn response(request: &PlatformRequest) -> PlatformResponse {
    match request {
        PlatformRequest::Capabilities => PlatformResponse::Capabilities(platform_v1()),
        PlatformRequest::Snapshot => PlatformResponse::Snapshot(Snapshot {
            resources: vec![
                record(ResourceKind::Node, "node-fixture", "daemon ready"),
                record(ResourceKind::Model, "model-fixture", "available=true"),
                record(
                    ResourceKind::Client,
                    "platform-action-submit_request",
                    "registry=platform-v1;action=submit_request;target=node;parameter=text;confirmation=required",
                ),
                record(
                    ResourceKind::Client,
                    "platform-action-follow_up",
                    "registry=platform-v1;action=follow_up;target=session;parameter=text;confirmation=required",
                ),
            ],
            cursor: cursor("resources", 1),
        }),
        PlatformRequest::ListSessions { .. } => PlatformResponse::Sessions(SessionList {
            sessions: vec![SessionRecord {
                session: record(ResourceKind::Session, "session-fixture", "open"),
                run: None,
                attachable: true,
                controllable: true,
            }],
            cursor: cursor("sessions", 1),
        }),
        PlatformRequest::Subscribe { cursor: from } => {
            PlatformResponse::Subscription(Subscription {
                events: Vec::new(),
                cursor: from.clone().unwrap_or_else(|| cursor("resources", 1)),
            })
        }
        _ => PlatformResponse::Refused {
            outcome: ReceiptOutcome::Rejected,
            explanation: "fixture_read_only".to_string(),
        },
    }
}

fn gather(
    mut answer: impl FnMut(&PlatformRequest) -> Result<PlatformResponse, BackendError>,
) -> Result<OperatorOverview, BackendError> {
    let mut step = overview_start();
    loop {
        step = match step {
            OverviewStep::Ready(overview) => return Ok(overview),
            OverviewStep::Failed(error) => return Err(error),
            OverviewStep::Send { request, progress } => {
                let reply = answer(&request);
                overview_resume(progress, reply, ResourceAuthority::Automonique)
            }
        };
    }
}

#[test]
fn fake_drives_capabilities_and_snapshot_without_network_or_provider() {
    let mut backend = FakeBackend::new(
        BackendMode::Managed,
        vec![
            Ok(PlatformResponse::Capabilities(platform_v1())),
            Err(BackendError::Unavailable),
        ],
    );
    let reply = backend.request(PlatformRequest::Capabilities);
    assert_eq!(capabilities(reply), Ok(platform_v1()));
    let reply = backend.request(PlatformRequest::Snapshot);
    assert_eq!(reply, Err(BackendError::Unavailable));
    assert_eq!(backend.requests().len(), 2);
    assert_eq!(backend.mode(), BackendMode::Managed);
    assert_eq!(
        backend.request(PlatformRequest::Snapshot),
        Err(BackendError::ExhaustedFake)
    );
}

#[test]
fn json_mode_reads_the_complete_fixture_without_a_provider() {
    let overview = gather(|request| Ok(response(request))).expect("overview");
    let report = overview_report(&overview).expect("report");
    let value: serde_json::Value = serde_json::from_str(&report).expect("JSON output");
    assert_eq!(value["protocol"], "automonique.platform");
    assert!(value["actions"]
        .as_array()
        .expect("actions")
        .iter()
        .any(|action| action == "follow_up"));
    assert_eq!(value["resources"].as_array().expect("resources").len(), 4);
    assert_eq!(value["sessions"].as_array().expect("sessions").len(), 1);
}

#[test]
fn an_overview_projects_the_registry_in_order() {
    let overview = gather(|request| Ok(response(request))).expect("overview");
    assert_eq!(
        overview.actions,
        vec![PlatformAction::SubmitRequest, PlatformAction::FollowUp]
    );
    assert_eq!(overview.cursor, cursor("resources", 1));
}

#[test]
fn an_unknown_registered_action_refuses_the_overview() {
    let result = gather(|request| {
        Ok(match request {
            PlatformRequest::Snapshot => PlatformResponse::Snapshot(Snapshot {
                resources: vec![record(
                    ResourceKind::Client,
                    "platform-action-reboot",
                    "unknown",
                )],
                cursor: cursor("resources", 1),
            }),
            other => response(other),
        })
    });
    assert_eq!(result, Err(BackendError::Protocol));
}

#[test]
fn a_registered_action_that_is_not_fresh_is_not_taken() {
    let overview = gather(|request| {
        Ok(match request {
            PlatformRequest::Snapshot => {
                let mut entry = record(ResourceKind::Client, "platform-action-steer", "stale");
                entry.freshness.state = FreshnessState::Stale;
                PlatformResponse::Snapshot(Snapshot {
                    resources: vec![entry],
                    cursor: cursor("resources", 1),
                })
            }
            other => response(other),
        })
    })
    .expect("overview");
    assert!(overview.actions.is_empty());
}

#[test]
fn sessions_are_asked_for_only_where_they_are_listed() {
    let mut asked = Vec::new();
    let overview = gather(|request| {
        asked.push(request.clone());
        Ok(match request {
            PlatformRequest::Capabilities => {
                let mut value = platform_v1();
                value.methods = vec![PlatformMethod::Snapshot];
                PlatformResponse::Capabilities(value)
            }
            other => response(other),
        })
    })
    .expect("overview");
    assert_eq!(asked.len(), 2);
    assert!(overview.sessions.is_empty());
}

#[test]
fn a_refused_session_list_counts_as_no_sessions() {
    let overview = gather(|request| {
        Ok(match request {
            PlatformRequest::ListSessions { .. } => PlatformResponse::Refused {
                outcome: ReceiptOutcome::Rejected,
                explanation: "no".to_string(),
            },
            other => response(other),
        })
    })
    .expect("overview");
    assert!(overview.sessions.is_empty());
    assert_eq!(
        gather(|request| Ok(match request {
            PlatformRequest::ListSessions { .. } => {
                PlatformResponse::Capabilities(platform_v1())
            }
            other => response(other),
        })),
        Err(BackendError::Protocol)
    );
}

#[test]
fn answers_mean_what_was_asked_or_a_refusal_or_a_protocol_error() {
    let refusal = || {
        Ok(PlatformResponse::Refused {
            outcome: ReceiptOutcome::Rejected,
            explanation: "held elsewhere".to_string(),
        })
    };
    let refused = BackendError::Refused {
        outcome: ReceiptOutcome::Rejected,
        explanation: "held elsewhere".to_string(),
    };
    assert_eq!(attach(refusal()), Err(refused.clone()));
    assert_eq!(claim_control(refusal()), Err(refused.clone()));
    assert_eq!(receipt(refusal()), Err(refused.clone()));
    assert_eq!(subscribe(refusal()), Err(refused.clone()));
    assert_eq!(overview_snapshot(refusal()), Err(refused.clone()));
    assert_eq!(capabilities(refusal()), Err(BackendError::Protocol));
    assert_eq!(
        refused.message(),
        "operator action rejected: held elsewhere"
    );
    assert_eq!(
        attach(Ok(PlatformResponse::Capabilities(platform_v1()))),
        Err(BackendError::Protocol)
    );
}

#[test]
fn acknowledgements_must_name_what_was_asked() {
    let session = record(ResourceKind::Session, "session-a", "open").resource;
    let other = record(ResourceKind::Session, "session-b", "open").resource;
    let client = "client-a".to_string();
    let detached = |session: &ResourceCoordinate| {
        Ok(PlatformResponse::Detached {
            session: session.clone(),
            client: "client-a".to_string(),
        })
    };
    assert_eq!(detach(detached(&session), &session, &client), Ok(()));
    assert_eq!(
        detach(detached(&other), &session, &client),
        Err(BackendError::Protocol)
    );
    let lease = ControlLease {
        id: "lease-a".to_string(),
        session: session.clone(),
        client: client.clone(),
        expires_at: 1,
        revision: 1,
    };
    let released = |id: &str| {
        Ok(PlatformResponse::ControlReleased {
            session: session.clone(),
            client: client.clone(),
            lease: id.to_string(),
        })
    };
    assert_eq!(release_control(released("lease-a"), &lease), Ok(()));
    assert_eq!(
        release_control(released("lease-b"), &lease),
        Err(BackendError::Protocol)
    );
}

#[test]
fn transport_failures_are_told_apart_from_refused_protocols() {
    for error in [
        ClientError::Io,
        ClientError::Endpoint,
        ClientError::Unauthorized,
        ClientError::UnexpectedStatus,
    ] {
        assert_eq!(BackendError::from(error), BackendError::Unavailable);
    }
    for error in [
        ClientError::Protocol,
        ClientError::Correlation,
        ClientError::ResponseTooLarge,
        ClientError::UnexpectedContentType,
    ] {
        assert_eq!(BackendError::from(error), BackendError::Protocol);
    }
    assert_eq!(
        BackendError::Unavailable.message(),
        "operator backend unavailable"
    );
    assert_eq!(
        BackendError::Protocol.message(),
        "operator backend protocol refused"
    );
    assert_eq!(
        BackendError::ExhaustedFake.message(),
        "fake operator backend exhausted"
    );
}

#[test]
fn action_names_read_back_and_unknown_names_do_not() {
    for action in [
        PlatformAction::SubmitRequest,
        PlatformAction::FollowUp,
        PlatformAction::Steer,
        PlatformAction::StartRun,
        PlatformAction::StopRun,
        PlatformAction::DecideApproval,
    ] {
        assert_eq!(PlatformAction::parse(action.as_str()), Some(action));
    }
    assert_eq!(PlatformAction::parse("Steer"), None);
    assert_eq!(PlatformMethod::ListSessions.as_str(), "list_sessions");
}

#[test]
fn the_report_is_one_line_of_json_with_sorted_names_and_escaped_text() {
    let mut value = platform_v1();
    value.methods = vec![PlatformMethod::Snapshot, PlatformMethod::Execute];
    let mut resource = record(ResourceKind::Run, "run-a", "say \"hi\"\n\u{1f}\\");
    resource.freshness.observed_at = -5;
    resource.freshness.revision = u64::MAX;
    let overview = OperatorOverview {
        capabilities: value,
        actions: vec![PlatformAction::StopRun],
        resources: vec![resource.clone()],
        sessions: vec![SessionRecord {
            session: record(ResourceKind::Session, "session-a", "open"),
            run: Some(resource.resource),
            attachable: true,
            controllable: false,
        }],
        cursor: cursor("resources", 7),
    };
    let expected = concat_lines(&[
        r#"{"actions":["stop_run"],"cursor":7,"methods":["snapshot","execute"],"#,
        r#""protocol":"automonique.platform","resources":[{"authority":"automonique","#,
        r#""freshness":"fresh","id":"run-a","kind":"run","observed_at":-5,"#,
        r#""revision":18446744073709551615,"summary":"say \"hi\"\n\u001f\\"}],"#,
        r#""schema":"automonique.platform/v1","sessions":[{"attachable":true,"#,
        r#""controllable":false,"run":"automonique/run/run-a","session":{"#,
        r#""authority":"automonique","freshness":"fresh","id":"session-a","#,
        r#""kind":"session","observed_at":1,"revision":1,"summary":"open"}}]}"#,
    ]);
    assert_eq!(overview_report(&overview), Ok(expected));
}

#[test]
fn a_method_of_another_name_is_kept_and_enables_nothing() {
    let mut value = platform_v1();
    value.methods = vec![
        PlatformMethod::Other("rewind".to_string()),
        PlatformMethod::Attach,
    ];
    assert!(supports_method(&value.methods, &PlatformMethod::Attach));
    assert!(!supports_method(&value.methods, &PlatformMethod::Execute));
    let overview = OperatorOverview {
        capabilities: value,
        actions: Vec::new(),
        resources: Vec::new(),
        sessions: Vec::new(),
        cursor: cursor("resources", 0),
    };
    let report = overview_report(&overview).expect("report");
    assert!(report.contains(r#""methods":["rewind","attach"]"#));
}

#[test]
fn a_session_without_a_run_reports_null() {
    let overview = OperatorOverview {
        capabilities: Capabilities {
            protocol: String::new(),
            schema: String::new(),
            methods: Vec::new(),
        },
        actions: Vec::new(),
        resources: Vec::new(),
        sessions: vec![SessionRecord {
            session: record(ResourceKind::Session, "session-a", "open"),
            run: None,
            attachable: false,
            controllable: false,
        }],
        cursor: cursor("resources", 0),
    };
    let report = overview_report(&overview).expect("report");
    assert!(report.contains(r#""run":null"#));
    assert!(report.starts_with(r#"{"actions":[],"cursor":0,"methods":[],"#));
}

fn concat_lines(parts: &[&str]) -> String {
    let mut whole = String::new();
    for part in parts {
        whole.push_str(part);
    }
    whole
}
