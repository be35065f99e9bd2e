//! Liveness of persisted overnight runs.
//!
//! A run records the process that owns it. A run whose process is gone is reported as failed;
//! nothing is written back.

use vstd::prelude::*;

verus! {

/// How far a run has come.
#[derive(Clone, Copy, Debug, PartialEq, Eq, Structural)]
pub enum OvernightRunStatus {
    Running,
    CancelRequested,
    Completed,
    Failed,
}

impl OvernightRunStatus {
    /// Whether the run has ended.
    pub open spec fn terminal(self) -> bool {
        self is Completed || self is Failed
    }
}

/// A persisted run. Times are milliseconds since the epoch.
#[derive(Clone, Debug, PartialEq, Eq)]
pub struct OvernightManifest {
    pub version: u32,
    pub run_id: String,
    pub parent_session_id: String,
    pub coordinator_session_id: String,
    pub coordinator_session_name: String,
    pub started_at: i64,
    pub target_wake_at: i64,
    pub handoff_ready_at: i64,
    pub post_wake_grace_until: i64,
    pub morning_report_posted_at: Option<i64>,
    pub completed_at: Option<i64>,
    pub cancel_requested_at: Option<i64>,
    pub status: OvernightRunStatus,
    pub mission: Option<String>,
    pub working_dir: Option<String>,
    pub provider_name: String,
    pub model: String,
    pub max_agents_guidance: u32,
    pub process_id: u32,
    pub run_dir: String,
    pub events_path: String,
    pub human_log_path: String,
    pub review_path: String,
    pub review_notes_path: String,
    pub preflight_path: String,
    pub task_cards_dir: String,
    pub issue_drafts_dir: String,
    pub validation_dir: String,
    pub last_activity_at: i64,
}

/// The status of a run whose process is alive or not.
pub open spec fn settled(status: OvernightRunStatus, process_alive: bool) -> OvernightRunStatus {
    if process_alive || status.terminal() {
        status
    } else {
        OvernightRunStatus::Failed
    }
}

/// The status that replaces the recorded one, where the recorded one cannot be true.
pub fn reconciled_status(status: OvernightRunStatus, process_alive: bool) -> (corrected: Option<
    OvernightRunStatus,
>)
    ensures
        match corrected {
            Some(corrected) => corrected == settled(status, process_alive) && corrected != status,
            None => settled(status, process_alive) == status,
        },
{
    if process_alive {
        return None;
    }
    match status {
        OvernightRunStatus::Running | OvernightRunStatus::CancelRequested => Some(
            OvernightRunStatus::Failed,
        ),
        OvernightRunStatus::Completed | OvernightRunStatus::Failed => None,
    }
}

/// A run as it stands, given whether the process that its manifest names is running.
pub open spec fn standing(manifest: OvernightManifest, process_running: bool) -> OvernightManifest {
    OvernightManifest {
        status: settled(manifest.status, process_running && manifest.process_id != 0),
        ..manifest
    }
}

/// A run as it stands, given whether the process that its manifest names is running. The process
/// number zero names no process: asking after it always succeeds, so it counts as gone.
pub fn reconcile(manifest: OvernightManifest, process_running: bool) -> (reconciled:
    OvernightManifest)
    ensures
        reconciled == standing(manifest, process_running),
{
    let alive = process_running && manifest.process_id != 0;
    reconcile_with(manifest, alive)
}

/// A run as it stands, given whether its process is alive.
pub fn reconcile_with(manifest: OvernightManifest, process_alive: bool) -> (reconciled:
    OvernightManifest)
    ensures
        reconciled == (OvernightManifest {
            status: settled(manifest.status, process_alive),
            ..manifest
        }),
{
    let mut reconciled = manifest;
    if let Some(status) = reconciled_status(reconciled.status, process_alive) {
        reconciled.status = status;
    }
    reconciled
}

/// Reconciling twice is reconciling once, and what it corrects has ended.
pub proof fn reconciliation_settles(status: OvernightRunStatus, process_alive: bool)
    ensures
        settled(settled(status, process_alive), process_alive) == settled(status, process_alive),
        !process_alive ==> settled(status, process_alive).terminal(),
        settled(status, process_alive) != status ==> settled(
            status,
            process_alive,
        ) == OvernightRunStatus::Failed,
{
}

/// A run whose process is running stands as it is recorded. One whose process is gone has failed,
/// unless it had ended before. A run that names no process counts as one whose process is gone.
pub proof fn only_unfinished_runs_fail(manifest: OvernightManifest, process_running: bool)
    ensures
        ({
            let status = standing(manifest, process_running).status;
            let alive = process_running && manifest.process_id > 0;
            &&& alive ==> status == manifest.status
            &&& manifest.status == OvernightRunStatus::Completed ==> status
                == OvernightRunStatus::Completed
            &&& manifest.status == OvernightRunStatus::Failed ==> status
                == OvernightRunStatus::Failed
            &&& !alive && manifest.status == OvernightRunStatus::Running ==> status
                == OvernightRunStatus::Failed
            &&& !alive && manifest.status == OvernightRunStatus::CancelRequested ==> status
                == OvernightRunStatus::Failed
            &&& standing(manifest, process_running) == (OvernightManifest { status, ..manifest })
        }),
{
}

} // verus!
