use gui::backup_run::{
    blocking_task_error, complete_backup_run, record_backup_run, record_replication_failure, record_replication_summary,
    safe_mode_refusal, should_replicate, ReplicationOutcome, ReplicationSummary, StoredState,
};

#[test]
fn degraded_summary_keeps_replication_and_run_errors_visible() {
    let mut state = StoredState::default();
    let summary = ReplicationSummary {
        pairs_attempted: 2,
        pairs_ok: 1,
        pairs_failed: 1,
        targets_failed: vec!["secondary".to_string()],
        message: "replication pairs_ok=1/2 targets_failed=1".to_string(),
        ..ReplicationSummary::default()
    };

    assert!(record_replication_summary(&mut state, &summary, 42).is_some());
    assert_eq!(state.replication_last_status.as_deref(), Some("degraded"));
    assert_eq!(state.replication_last_pairs_failed, 1);
    assert_eq!(state.replication_last_targets_failed, vec!["secondary"]);
    assert!(state.replication_last_error.is_some());
    assert!(state.last_error.is_some());
}

#[test]
fn failed_replication_replaces_stale_success_metrics() {
    let mut state = StoredState {
        replication_last_bytes_copied: 99,
        replication_last_pairs_ok: 2,
        replication_last_targets_failed: vec!["stale".to_string()],
        ..StoredState::default()
    };

    record_replication_failure(&mut state, "replica unavailable", 84);

    assert_eq!(state.replication_last_status.as_deref(), Some("failed"));
    assert_eq!(state.replication_last_bytes_copied, 0);
    assert_eq!(state.replication_last_pairs_ok, 0);
    assert!(state.replication_last_targets_failed.is_empty());
    assert!(state.last_error.as_deref().unwrap().contains("unavailable"));
}

#[test]
fn healthy_replication_clears_its_error() {
    let mut state = StoredState::default();
    let summary = ReplicationSummary { pairs_attempted: 1, pairs_ok: 1, bytes_copied: 10, ..ReplicationSummary::default() };
    assert!(record_replication_summary(&mut state, &summary, 7).is_none());
    assert_eq!(state.replication_last_status.as_deref(), Some("ok"));
    assert_eq!(state.replication_last_error, None);
    assert_eq!(state.replication_last_bytes_copied, 10);
    assert_eq!(state.replication_last_run_ts, Some(7));
}

#[test]
fn degraded_run_keeps_its_error_after_the_run_is_recorded() {
    let mut state = StoredState::default();
    let summary = ReplicationSummary { pairs_failed: 1, message: "m".to_string(), ..ReplicationSummary::default() };
    record_replication_summary(&mut state, &summary, 1);
    record_backup_run(&mut state, 3, 2, true);
    assert_eq!(state.last_error.as_deref(), Some("Replication degraded: m"));
    assert_eq!(state.last_files_backed_up, 3);
    let mut clean = StoredState { last_error: Some("old".to_string()), ..StoredState::default() };
    record_backup_run(&mut clean, 0, 5, false);
    assert_eq!(clean.last_error, None);
}

#[test]
fn replication_runs_only_with_replicas() {
    assert!(!should_replicate(&vec![0, 0], true));
    assert!(should_replicate(&vec![0, 2], true));
    assert!(!should_replicate(&vec![1], false));
}

#[test]
fn refusals_name_the_invocation() {
    let e = safe_mode_refusal("c1");
    assert_eq!(e.code, "SAFE_MODE");
    assert!(e.message.starts_with("[cid=c1] Safe mode enabled: skipping writes."));
    let b = blocking_task_error("c2", "verify_cmd", "panicked");
    assert!(b.message.starts_with("[cid=c2] verify_cmd blocking task failed: panicked"));
}

#[test]
fn a_run_reports_degraded_replication_and_keeps_it_in_the_state() {
    let mut state = StoredState::default();
    let summary = ReplicationSummary { pairs_failed: 1, message: "pair down".to_string(), ..ReplicationSummary::default() };
    let err = complete_backup_run(
        &mut state,
        "c",
        2,
        ReplicationOutcome::Completed { summary, redacted_message: "pair down".to_string() },
        50,
    )
    .expect("degraded replication must be reported");
    assert_eq!(err.code, "REPLICATION_DEGRADED");
    assert!(err.message.starts_with("[cid=c] Backup completed, but replica redundancy is degraded: pair down."));
    assert_eq!(state.last_error.as_deref(), Some("Replication degraded: pair down"));
    assert_eq!(state.last_run_ts, Some(50));

    let mut failed = StoredState::default();
    let err = complete_backup_run(&mut failed, "c", 0, ReplicationOutcome::Failed("gone".to_string()), 60).unwrap();
    assert_eq!(err.code, "REPLICATION_FAILED");
    assert_eq!(failed.last_error.as_deref(), Some("Replication failed: gone"));

    let mut plain = StoredState { last_error: Some("stale".to_string()), ..StoredState::default() };
    assert!(complete_backup_run(&mut plain, "c", 4, ReplicationOutcome::NotRun, 70).is_none());
    assert_eq!(plain.last_error, None);
    assert_eq!(plain.last_files_backed_up, 4);
}
