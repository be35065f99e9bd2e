use operator_cockpit::backend::{BackendError, OperatorOverview, Reply};
use operator_cockpit::protocol::{
    Attachment, Capabilities, Freshness, FreshnessState, PlatformAction, PlatformCursor,
    PlatformMethod, PlatformRequest, PlatformResponse, ResourceAuthority, ResourceCoordinate,
    ResourceKind, ResourceRecord, SessionRecord,
};
use operator_cockpit::state::{CockpitState, PaneLayout, View, MAX_PANES};
use operator_cockpit::workspace::{
    check_length, check_report, ignore_workspace, restore_answered, restore_workspace,
    save_outcome, saved_workspace, temporary_name, FileReport, Ownership, RestoreStep, SavedPane,
    SavedWorkspace, MAX_WORKSPACE_BYTES, WORKSPACE_VERSION,
};

fn all_methods() -> Vec<PlatformMethod> {
    vec![
        PlatformMethod::Capabilities,
        PlatformMethod::Snapshot,
        PlatformMethod::ListSessions,
        PlatformMethod::Attach,
        PlatformMethod::Detach,
        PlatformMethod::ClaimControl,
        PlatformMethod::ReleaseControl,
        PlatformMethod::Subscribe,
        PlatformMethod::Execute,
        PlatformMethod::GetReceipt,
    ]
}

fn platform_v1() -> Capabilities {
    Capabilities {
        protocol: "automonique.platform".to_string(),
        schema: "automonique.platform/v1".to_string(),
        methods: all_methods(),
    }
}

fn all_actions() -> Vec<PlatformAction> {
    vec![
        PlatformAction::SubmitRequest,
        PlatformAction::FollowUp,
        PlatformAction::Steer,
        PlatformAction::StartRun,
        PlatformAction::StopRun,
        PlatformAction::DecideApproval,
    ]
}

fn cursor(sequence: u64) -> PlatformCursor {
    PlatformCursor {
        authority: ResourceAuthority::Automonique,
        topic: "resources".to_string(),
        sequence,
    }
}

fn record(kind: ResourceKind, id: &str, revision: u64) -> ResourceRecord {
    ResourceRecord {
        resource: ResourceCoordinate {
            authority: ResourceAuthority::Automonique,
            kind,
            id: id.to_string(),
        },
        freshness: Freshness {
            state: FreshnessState::Fresh,
            observed_at: 1,
            revision,
        },
        summary: "ready".to_string(),
    }
}

fn session(id: &str) -> SessionRecord {
    SessionRecord {
        session: record(ResourceKind::Session, id, 1),
        run: None,
        attachable: true,
        controllable: true,
    }
}

fn attachment(session: &SessionRecord) -> Attachment {
    Attachment {
        session: session.session.resource.clone(),
        client: "client-a".to_string(),
        cursor: cursor(1),
    }
}

fn state_with(resources: Vec<ResourceRecord>, sessions: Vec<SessionRecord>) -> CockpitState {
    CockpitState::new(OperatorOverview {
        capabilities: platform_v1(),
        actions: all_actions(),
        resources,
        sessions,
        cursor: cursor(1),
    })
}

fn saved(layout: &str, panes: &[(&str, bool)]) -> SavedWorkspace {
    SavedWorkspace {
        version: WORKSPACE_VERSION,
        layout: layout.to_string(),
        panes: panes
            .iter()
            .map(|(id, pinned)| SavedPane {
                session_id: id.to_string(),
                pinned: *pinned,
            })
            .collect(),
    }
}

fn restore(
    workspace: SavedWorkspace,
    state: &mut CockpitState,
    mut answer: impl FnMut(&SessionRecord) -> Reply,
) -> Result<(), &'static str> {
    let client = "client-a".to_string();
    let mut step = restore_workspace(workspace, &client, state);
    loop {
        step = match step {
            RestoreStep::Restored => return Ok(()),
            RestoreStep::Failed(word) => return Err(word),
            RestoreStep::Send {
                request,
                record,
                then,
            } => {
                assert_eq!(
                    request,
                    PlatformRequest::Attach {
                        session: record.session.resource.clone(),
                        client: client.clone(),
                    }
                );
                let reply = answer(&record);
                restore_answered(then, record, reply, &client, state)
            }
        };
    }
}

fn granting(record: &SessionRecord) -> Reply {
    Ok(PlatformResponse::Attached(attachment(record)))
}

#[test]
fn a_saved_workspace_is_restored_without_control() {
    let sessions = vec![session("session-a"), session("session-b")];
    let mut state = state_with(Vec::new(), sessions.clone());
    for record in &sessions {
        state.attach(record.clone(), attachment(record));
    }
    state.toggle_focused_pin();
    state.pane_layout = PaneLayout::Columns;
    let workspace = saved_workspace(&state);
    assert_eq!(
        workspace,
        saved("columns", &[("session-a", false), ("session-b", true)])
    );

    let mut restored = state_with(Vec::new(), sessions);
    assert_eq!(
        restore(workspace.clone(), &mut restored, granting),
        Ok(())
    );
    assert_eq!(restored.pane_layout, PaneLayout::Columns);
    assert_eq!(saved_workspace(&restored), workspace);
    assert!(restored.panes.iter().all(|pane| pane.control.is_none()));
    assert_eq!(restored.view, View::Sessions);
    assert_eq!(
        restored.status,
        "saved observer panes restored without control authority"
    );
}

#[test]
fn missing_unattachable_and_refused_sessions_are_skipped() {
    let mut closed = session("session-b");
    closed.attachable = false;
    let mut state = state_with(
        Vec::new(),
        vec![session("session-a"), closed, session("session-c")],
    );
    let workspace = saved(
        "tabs",
        &[
            ("missing", true),
            ("session-a", true),
            ("session-b", true),
            ("session-c", true),
        ],
    );
    assert_eq!(
        restore(workspace, &mut state, |record| {
            if record.session.resource.id == "session-a" {
                Err(BackendError::Unavailable)
            } else {
                granting(record)
            }
        }),
        Ok(())
    );
    assert_eq!(state.panes.len(), 1);
    assert_eq!(state.panes[0].record.session.resource.id, "session-c");
    assert!(state.panes[0].pinned);
}

#[test]
fn nothing_restored_leaves_the_view_alone() {
    let mut state = state_with(Vec::new(), Vec::new());
    assert_eq!(
        restore(saved("rows", &[("missing", false)]), &mut state, granting),
        Ok(())
    );
    assert_eq!(state.view, View::Overview);
    assert_eq!(state.pane_layout, PaneLayout::Rows);
    assert_eq!(state.status, "connected");
}

#[test]
fn invalid_workspaces_are_not_restored() {
    let mut state = state_with(Vec::new(), vec![session("session-a")]);
    let mut other = saved("rows", &[]);
    other.version = 2;
    assert_eq!(
        restore(other, &mut state, granting),
        Err("workspace_version_or_size_invalid")
    );
    let many: Vec<(&str, bool)> = vec![("session-a", false); MAX_PANES + 1];
    assert_eq!(
        restore(saved("rows", &many), &mut state, granting),
        Err("workspace_version_or_size_invalid")
    );
    assert_eq!(
        restore(saved("spiral", &[]), &mut state, granting),
        Err("workspace_layout_invalid")
    );
    assert_eq!(state.pane_layout, PaneLayout::Grid);
    assert_eq!(
        restore(
            saved("rows", &[("session-a", false), ("session-a", true)]),
            &mut state,
            granting
        ),
        Err("workspace_duplicate_session")
    );
    ignore_workspace(&mut state);
    assert_eq!(
        state.status,
        "saved pane layout was ignored because it was invalid"
    );
}

#[test]
fn only_a_small_file_of_its_owner_alone_is_read() {
    let found = |regular: bool, length: u64, user: u32, mode: u32| FileReport::Found {
        regular,
        length,
        ownership: Some(Ownership { user, mode }),
    };
    assert_eq!(check_report(FileReport::Missing, 7), Ok(false));
    assert_eq!(
        check_report(FileReport::Unreadable, 7),
        Err("workspace_unreadable")
    );
    assert_eq!(
        check_report(found(true, MAX_WORKSPACE_BYTES, 7, 0o100600), 7),
        Ok(true)
    );
    assert_eq!(
        check_report(found(false, 1, 7, 0o600), 7),
        Err("workspace_file_invalid")
    );
    assert_eq!(
        check_report(found(true, MAX_WORKSPACE_BYTES + 1, 7, 0o600), 7),
        Err("workspace_file_invalid")
    );
    assert_eq!(
        check_report(found(true, 1, 8, 0o600), 7),
        Err("workspace_permissions_invalid")
    );
    assert_eq!(
        check_report(found(true, 1, 7, 0o640), 7),
        Err("workspace_permissions_invalid")
    );
    assert_eq!(
        check_report(
            FileReport::Found {
                regular: true,
                length: 1,
                ownership: None
            },
            7
        ),
        Ok(true)
    );
}

#[test]
fn saving_is_bounded_and_leaves_nothing_behind() {
    assert_eq!(check_length(MAX_WORKSPACE_BYTES), Ok(()));
    assert_eq!(
        check_length(MAX_WORKSPACE_BYTES + 1),
        Err("workspace_too_large")
    );
    assert_eq!(
        temporary_name(4242, 99),
        ".platform-workspace.4242.99.tmp"
    );
    assert_eq!(save_outcome(true, false, false), Ok(()));
    assert_eq!(
        save_outcome(false, true, false),
        Err("workspace_save_failed")
    );
    assert_eq!(
        save_outcome(false, false, true),
        Err("workspace_cleanup_failed")
    );
}
