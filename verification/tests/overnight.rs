use chrono::Utc;
use operator_cockpit::overnight::{
    reconcile, reconcile_with, reconciled_status, OvernightManifest, OvernightRunStatus,
};

fn manifest_with(status: OvernightRunStatus, process_id: u32) -> OvernightManifest {
    let now = Utc::now();
    let run_dir = "/tmp/overnight-liveness-test".to_string();
    OvernightManifest {
        version: 1,
        run_id: "run-liveness".to_string(),
        parent_session_id: "parent".to_string(),
        coordinator_session_id: "coord".to_string(),
        coordinator_session_name: "coordinator".to_string(),
        started_at: (now - chrono::Duration::hours(1)).timestamp_millis(),
        target_wake_at: (now + chrono::Duration::hours(7)).timestamp_millis(),
        handoff_ready_at: (now + chrono::Duration::hours(6)).timestamp_millis(),
        post_wake_grace_until: (now + chrono::Duration::hours(9)).timestamp_millis(),
        morning_report_posted_at: None,
        completed_at: None,
        cancel_requested_at: None,
        status,
        mission: None,
        working_dir: None,
        provider_name: "provider".to_string(),
        model: "model".to_string(),
        max_agents_guidance: 1,
        process_id,
        run_dir: run_dir.clone(),
        events_path: format!("{run_dir}/events.jsonl"),
        human_log_path: format!("{run_dir}/run.log"),
        review_path: format!("{run_dir}/review.html"),
        review_notes_path: format!("{run_dir}/notes.md"),
        preflight_path: format!("{run_dir}/preflight.json"),
        task_cards_dir: format!("{run_dir}/task-cards"),
        issue_drafts_dir: format!("{run_dir}/issue-drafts"),
        validation_dir: format!("{run_dir}/validation"),
        last_activity_at: now.timestamp_millis(),
    }
}

#[test]
fn dead_process_downgrades_running_run() {
    let manifest = manifest_with(OvernightRunStatus::Running, 4242);
    let reconciled = reconcile_with(manifest, false);
    assert_eq!(reconciled.status, OvernightRunStatus::Failed);
}

#[test]
fn dead_process_resolves_stuck_cancel_request() {
    let manifest = manifest_with(OvernightRunStatus::CancelRequested, 4242);
    let reconciled = reconcile_with(manifest, false);
    assert_eq!(reconciled.status, OvernightRunStatus::Failed);
}

#[test]
fn live_process_keeps_running_status() {
    let manifest = manifest_with(OvernightRunStatus::Running, 4242);
    let reconciled = reconcile_with(manifest, true);
    assert_eq!(reconciled.status, OvernightRunStatus::Running);
}

#[test]
fn reconciliation_preserves_every_other_field() {
    let before = manifest_with(OvernightRunStatus::Running, 4242);
    let after = reconcile_with(before.clone(), false);

    assert_eq!(after.run_id, before.run_id);
    assert_eq!(after.process_id, before.process_id);
    assert_eq!(after.started_at, before.started_at);
    assert_eq!(after.target_wake_at, before.target_wake_at);
    assert_eq!(after.completed_at, before.completed_at);
    assert_eq!(after.cancel_requested_at, before.cancel_requested_at);
    assert_eq!(after.last_activity_at, before.last_activity_at);
    assert_eq!(after.run_dir, before.run_dir);
}

#[test]
fn reconciliation_is_idempotent() {
    let once = reconcile_with(manifest_with(OvernightRunStatus::Running, 4242), false);
    let twice = reconcile_with(once.clone(), false);
    assert_eq!(once.status, twice.status);
    assert_eq!(twice.status, OvernightRunStatus::Failed);
}

#[test]
fn zero_pid_is_treated_as_dead() {
    let manifest = manifest_with(OvernightRunStatus::Running, 0);
    assert_eq!(
        reconcile(manifest, true).status,
        OvernightRunStatus::Failed
    );
}

#[test]
fn reconcile_keeps_a_run_owned_by_this_process_running() {
    let manifest = manifest_with(OvernightRunStatus::Running, 4242);
    assert_eq!(
        reconcile(manifest, true).status,
        OvernightRunStatus::Running
    );
}

#[test]
fn reconcile_reports_a_reaped_child_as_dead() {
    let manifest = manifest_with(OvernightRunStatus::Running, 4242);
    assert_eq!(
        reconcile(manifest, false).status,
        OvernightRunStatus::Failed
    );
}

#[test]
fn runs_that_have_ended_are_left_alone() {
    for status in [OvernightRunStatus::Completed, OvernightRunStatus::Failed] {
        assert_eq!(reconciled_status(status, false), None);
        assert_eq!(
            reconcile(manifest_with(status, 4242), false).status,
            status
        );
    }
    assert_eq!(
        reconciled_status(OvernightRunStatus::CancelRequested, true),
        None
    );
}
