//! Recording of backup, replication and verification outcomes in the persisted state,
//! and the messages the run commands report.
use vstd::prelude::*;
use crate::error::{envelope_message, ErrorEnvelope};
use crate::text::{decimal, push_decimal, push_str, opt_view, strings_view};

verus! {

/// A daemon safety warning about a protected path.
#[derive(Debug)]
pub struct SafetyWarning {
    pub message: String,
    pub watched_path: Option<String>,
}

/// One recent backup activity entry.
#[derive(Debug)]
pub struct ActivityItem {
    pub path: String,
    pub bytes: u64,
    pub ts: i64,
}

/// The persisted daemon state fields that the GUI reads and writes.
#[derive(Debug)]
pub struct StoredState {
    pub last_run_ts: Option<i64>,
    pub last_files_backed_up: usize,
    pub last_error: Option<String>,
    pub last_verify_ts: Option<i64>,
    pub last_verify_status: Option<String>,
    pub last_verify_issues: Option<usize>,
    pub last_scrub_full_ts: Option<i64>,
    pub last_safety_warning: Option<SafetyWarning>,
    pub recent_activity: Vec<ActivityItem>,
    pub safe_mode: bool,
    pub replication_last_run_ts: Option<i64>,
    pub replication_last_status: Option<String>,
    pub replication_last_error: Option<String>,
    pub replication_last_bytes_copied: u64,
    pub replication_last_blobs_copied: usize,
    pub replication_last_manifests_copied: usize,
    pub replication_last_manifests_deleted: usize,
    pub replication_last_pairs_ok: usize,
    pub replication_last_pairs_failed: usize,
    pub replication_last_targets_failed: Vec<String>,
}

impl Default for StoredState {
    fn default() -> (r: StoredState)
        ensures
            r.last_run_ts is None,
            r.last_files_backed_up == 0,
            r.last_error is None,
            r.last_verify_ts is None,
            r.last_verify_status is None,
            r.last_verify_issues is None,
            r.last_scrub_full_ts is None,
            r.last_safety_warning is None,
            r.recent_activity@.len() == 0,
            !r.safe_mode,
            r.replication_last_run_ts is None,
            r.replication_last_status is None,
            r.replication_last_error is None,
            r.replication_last_bytes_copied == 0,
            r.replication_last_blobs_copied == 0,
            r.replication_last_manifests_copied == 0,
            r.replication_last_manifests_deleted == 0,
            r.replication_last_pairs_ok == 0,
            r.replication_last_pairs_failed == 0,
            r.replication_last_targets_failed@.len() == 0,
    {
        StoredState {
            last_run_ts: None,
            last_files_backed_up: 0,
            last_error: None,
            last_verify_ts: None,
            last_verify_status: None,
            last_verify_issues: None,
            last_scrub_full_ts: None,
            last_safety_warning: None,
            recent_activity: Vec::new(),
            safe_mode: false,
            replication_last_run_ts: None,
            replication_last_status: None,
            replication_last_error: None,
            replication_last_bytes_copied: 0,
            replication_last_blobs_copied: 0,
            replication_last_manifests_copied: 0,
            replication_last_manifests_deleted: 0,
            replication_last_pairs_ok: 0,
            replication_last_pairs_failed: 0,
            replication_last_targets_failed: Vec::new(),
        }
    }
}

/// The summary of one replication pass.
#[derive(Debug)]
pub struct ReplicationSummary {
    pub pairs_attempted: usize,
    pub pairs_ok: usize,
    pub pairs_failed: usize,
    pub targets_failed: Vec<String>,
    pub message: String,
    pub bytes_copied: u64,
    pub blobs_copied: usize,
    pub manifests_copied: usize,
    pub manifests_deleted: usize,
}

impl Default for ReplicationSummary {
    fn default() -> (r: ReplicationSummary)
        ensures
            r.pairs_attempted == 0,
            r.pairs_ok == 0,
            r.pairs_failed == 0,
            r.targets_failed@.len() == 0,
            r.message@.len() == 0,
            r.bytes_copied == 0,
            r.blobs_copied == 0,
            r.manifests_copied == 0,
            r.manifests_deleted == 0,
    {
        ReplicationSummary {
            pairs_attempted: 0,
            pairs_ok: 0,
            pairs_failed: 0,
            targets_failed: Vec::new(),
            message: String::new(),
            bytes_copied: 0,
            blobs_copied: 0,
            manifests_copied: 0,
            manifests_deleted: 0,
        }
    }
}

fn copy_strings(v: &Vec<String>) -> (r: Vec<String>)
    ensures
        r@ == v@,
        strings_view(r@) == strings_view(v@),
{
    let mut out: Vec<String> = Vec::new();
    let mut i: usize = 0;
    while i < v.len()
        invariant
            i <= v.len(),
            out@ == v@.take(i as int),
        decreases v.len() - i,
    {
        let s = v[i].clone();
        out.push(s);
        proof {
            assert(out@ =~= v@.take(i + 1));
        }
        i = i + 1;
    }
    proof {
        assert(v@.take(v.len() as int) =~= v@);
    }
    out
}

/// The run error recorded when replication is degraded.
pub open spec fn degraded_run_error(message: Seq<char>) -> Seq<char> {
    "Replication degraded: "@ + message
}

/// The run error recorded when replication failed.
pub open spec fn failed_run_error(message: Seq<char>) -> Seq<char> {
    "Replication failed: "@ + message
}

/// Records a replication summary; returns the degradation message when some pair failed.
pub fn record_replication_summary(state: &mut StoredState, rep: &ReplicationSummary, timestamp: i64) -> (r: Option<String>)
    ensures
        final(state).replication_last_run_ts == Some(timestamp),
        final(state).replication_last_bytes_copied == rep.bytes_copied,
        final(state).replication_last_blobs_copied == rep.blobs_copied,
        final(state).replication_last_manifests_copied == rep.manifests_copied,
        final(state).replication_last_manifests_deleted == rep.manifests_deleted,
        final(state).replication_last_pairs_ok == rep.pairs_ok,
        final(state).replication_last_pairs_failed == rep.pairs_failed,
        strings_view(final(state).replication_last_targets_failed@) == strings_view(rep.targets_failed@),
        rep.pairs_failed == 0 ==> r is None
            && opt_view(final(state).replication_last_status) == Some("ok"@)
            && final(state).replication_last_error is None
            && final(state).last_error == old(state).last_error,
        rep.pairs_failed > 0 ==> (r matches Some(m) && m@ == rep.message@)
            && opt_view(final(state).replication_last_status) == Some("degraded"@)
            && opt_view(final(state).replication_last_error) == Some(rep.message@)
            && opt_view(final(state).last_error) == Some(degraded_run_error(rep.message@)),
        final(state).last_run_ts == old(state).last_run_ts,
        final(state).last_files_backed_up == old(state).last_files_backed_up,
        final(state).safe_mode == old(state).safe_mode,
{
    state.replication_last_run_ts = Some(timestamp);
    state.replication_last_bytes_copied = rep.bytes_copied;
    state.replication_last_blobs_copied = rep.blobs_copied;
    state.replication_last_manifests_copied = rep.manifests_copied;
    state.replication_last_manifests_deleted = rep.manifests_deleted;
    state.replication_last_pairs_ok = rep.pairs_ok;
    state.replication_last_pairs_failed = rep.pairs_failed;
    state.replication_last_targets_failed = copy_strings(&rep.targets_failed);
    if rep.pairs_failed == 0 {
        state.replication_last_status = Some(String::from_str("ok"));
        state.replication_last_error = None;
        return None;
    }
    state.replication_last_status = Some(String::from_str("degraded"));
    state.replication_last_error = Some(rep.message.clone());
    let mut e = String::new();
    push_str(&mut e, "Replication degraded: ");
    push_str(&mut e, rep.message.as_str());
    state.last_error = Some(e);
    Some(rep.message.clone())
}

/// Records a failed replication pass: the failure replaces every metric of the last pass.
pub fn record_replication_failure(state: &mut StoredState, message: &str, timestamp: i64)
    ensures
        final(state).replication_last_run_ts == Some(timestamp),
        opt_view(final(state).replication_last_status) == Some("failed"@),
        opt_view(final(state).replication_last_error) == Some(message@),
        final(state).replication_last_bytes_copied == 0,
        final(state).replication_last_blobs_copied == 0,
        final(state).replication_last_manifests_copied == 0,
        final(state).replication_last_manifests_deleted == 0,
        final(state).replication_last_pairs_ok == 0,
        final(state).replication_last_pairs_failed == 0,
        final(state).replication_last_targets_failed@.len() == 0,
        opt_view(final(state).last_error) == Some(failed_run_error(message@)),
        final(state).last_run_ts == old(state).last_run_ts,
        final(state).last_files_backed_up == old(state).last_files_backed_up,
        final(state).safe_mode == old(state).safe_mode,
{
    state.replication_last_run_ts = Some(timestamp);
    state.replication_last_status = Some(String::from_str("failed"));
    state.replication_last_error = Some(String::from_str(message));
    state.replication_last_bytes_copied = 0;
    state.replication_last_blobs_copied = 0;
    state.replication_last_manifests_copied = 0;
    state.replication_last_manifests_deleted = 0;
    state.replication_last_pairs_ok = 0;
    state.replication_last_pairs_failed = 0;
    state.replication_last_targets_failed = Vec::new();
    let mut e = String::new();
    push_str(&mut e, "Replication failed: ");
    push_str(&mut e, message);
    state.last_error = Some(e);
}

/// Records a finished backup run: its time and version count; the run error is cleared
/// unless replication reported a problem.
pub fn record_backup_run(state: &mut StoredState, versions_created: usize, timestamp: i64, replication_problem: bool)
    ensures
        final(state).last_run_ts == Some(timestamp),
        final(state).last_files_backed_up == versions_created,
        replication_problem ==> final(state).last_error == old(state).last_error,
        !replication_problem ==> final(state).last_error is None,
        *final(state) == (StoredState {
            last_run_ts: Some(timestamp),
            last_files_backed_up: versions_created,
            last_error: final(state).last_error,
            ..*old(state)
        }),
{
    state.last_run_ts = Some(timestamp);
    state.last_files_backed_up = versions_created;
    if !replication_problem {
        state.last_error = None;
    }
}

/// Whether a replication pass follows the backup: some destination replicates somewhere and
/// replication is enabled.
pub fn should_replicate(destination_replica_counts: &Vec<usize>, replication_enabled: bool) -> (r: bool)
    ensures
        r == (replication_enabled && exists|i: int| 0 <= i < destination_replica_counts@.len()
            && #[trigger] destination_replica_counts@[i] > 0),
{
    let mut any = false;
    let mut i: usize = 0;
    while i < destination_replica_counts.len()
        invariant
            i <= destination_replica_counts.len(),
            any == exists|k: int| 0 <= k < i && #[trigger] destination_replica_counts@[k] > 0,
        decreases destination_replica_counts.len() - i,
    {
        if destination_replica_counts[i] > 0 {
            any = true;
        }
        i = i + 1;
    }
    any && replication_enabled
}

/// The refusal of a run while safe mode is on.
pub open spec fn safe_mode_refusal_message(cid: Seq<char>) -> Seq<char> {
    "[cid="@ + cid + "] Safe mode enabled: skipping writes. Use Simulate or Verify instead."@
}

/// The error returned when a backup run is requested in safe mode.
pub fn safe_mode_refusal(cid: &str) -> (r: ErrorEnvelope)
    ensures
        r.code@ == "SAFE_MODE"@,
        r.message@ == envelope_message("SAFE_MODE"@, safe_mode_refusal_message(cid@)),
{
    let mut m = String::new();
    push_str(&mut m, "[cid=");
    push_str(&mut m, cid);
    push_str(&mut m, "] Safe mode enabled: skipping writes. Use Simulate or Verify instead.");
    ErrorEnvelope::new("SAFE_MODE", m.as_str())
}

/// The message when the backup completed but replication is degraded.
pub open spec fn degraded_message(cid: Seq<char>, message: Seq<char>) -> Seq<char> {
    "[cid="@ + cid + "] Backup completed, but replica redundancy is degraded: "@ + message
        + ". Hint: Check failed replica destinations, restore availability, and retry."@
}

/// The message when the backup completed but replication failed.
pub open spec fn replication_failed_message(cid: Seq<char>, message: Seq<char>) -> Seq<char> {
    "[cid="@ + cid + "] Backup completed, but replication failed: "@ + message
        + ". Hint: Check replica destination availability and permissions, then retry."@
}

/// The error returned when the backup completed with degraded replication (the message is
/// already redacted).
pub fn replication_degraded_error(cid: &str, message: &str) -> (r: ErrorEnvelope)
    ensures
        r.code@ == "REPLICATION_DEGRADED"@,
        r.message@ == envelope_message("REPLICATION_DEGRADED"@, degraded_message(cid@, message@)),
{
    let mut m = String::new();
    push_str(&mut m, "[cid=");
    push_str(&mut m, cid);
    push_str(&mut m, "] Backup completed, but replica redundancy is degraded: ");
    push_str(&mut m, message);
    push_str(&mut m, ". Hint: Check failed replica destinations, restore availability, and retry.");
    ErrorEnvelope::new("REPLICATION_DEGRADED", m.as_str())
}

/// The error returned when the backup completed but replication failed (the message is
/// already redacted).
pub fn replication_failed_error(cid: &str, message: &str) -> (r: ErrorEnvelope)
    ensures
        r.code@ == "REPLICATION_FAILED"@,
        r.message@ == envelope_message("REPLICATION_FAILED"@, replication_failed_message(cid@, message@)),
{
    let mut m = String::new();
    push_str(&mut m, "[cid=");
    push_str(&mut m, cid);
    push_str(&mut m, "] Backup completed, but replication failed: ");
    push_str(&mut m, message);
    push_str(&mut m, ". Hint: Check replica destination availability and permissions, then retry.");
    ErrorEnvelope::new("REPLICATION_FAILED", m.as_str())
}

/// The message of a task that stopped unexpectedly.
pub open spec fn blocking_task_message(cid: Seq<char>, command: Seq<char>, error: Seq<char>) -> Seq<char> {
    "[cid="@ + cid + "] "@ + command + " blocking task failed: "@ + error
}

/// The error returned when a command's background task stopped unexpectedly.
pub fn blocking_task_error(cid: &str, command: &str, error: &str) -> (r: ErrorEnvelope)
    ensures
        r.code@ == "BLOCKING_TASK_FAILED"@,
        r.message@ == envelope_message("BLOCKING_TASK_FAILED"@, blocking_task_message(cid@, command@, error@)),
{
    let mut m = String::new();
    push_str(&mut m, "[cid=");
    push_str(&mut m, cid);
    push_str(&mut m, "] ");
    push_str(&mut m, command);
    push_str(&mut m, " blocking task failed: ");
    push_str(&mut m, error);
    ErrorEnvelope::new("BLOCKING_TASK_FAILED", m.as_str())
}

/// The counts of a simulated backup cycle.
#[derive(Debug)]
pub struct SimulationSummary {
    pub versions_would_create: usize,
    pub watched: usize,
    pub adds: usize,
    pub modifies: usize,
    pub deletes: usize,
    pub blobs_to_write: usize,
    pub bytes_to_write: u64,
    pub read_failures: usize,
    pub snapshot_errors: usize,
    pub items: usize,
    pub sample: Vec<String>,
}

/// The result of a simulation shown in the UI.
#[derive(Debug)]
pub struct SimulationResult {
    pub items: usize,
    pub bytes: u64,
    pub sample: Vec<String>,
    pub message: String,
}

/// The one-line description of a simulated cycle.
pub open spec fn simulation_message(s: SimulationSummary) -> Seq<char> {
    let base = "would_create_versions="@ + decimal(s.versions_would_create as nat) + "/"@ + decimal(s.watched as nat)
        + " changes=+"@ + decimal(s.adds as nat) + " ~"@ + decimal(s.modifies as nat) + " -"@
        + decimal(s.deletes as nat) + " blobs_to_write="@ + decimal(s.blobs_to_write as nat)
        + " bytes_to_write="@ + decimal(s.bytes_to_write as nat);
    if s.read_failures > 0 || s.snapshot_errors > 0 {
        base + " read_failures="@ + decimal(s.read_failures as nat) + " snapshot_errors="@
            + decimal(s.snapshot_errors as nat)
    } else {
        base
    }
}

/// The simulation message names each scan problem next to its own count: when there were
/// read failures or snapshot errors it ends with `read_failures=<read failures>
/// snapshot_errors=<snapshot errors>`, and otherwise it ends with the bytes to write. Its
/// start always gives the versions that would be created out of the watched entries.
pub proof fn lemma_simulation_message_labels_its_counts(s: SimulationSummary)
    ensures
        (s.read_failures > 0 || s.snapshot_errors > 0) ==> exists|prefix: Seq<char>| simulation_message(s) == prefix
            + " read_failures="@ + decimal(s.read_failures as nat) + " snapshot_errors="@ + decimal(s.snapshot_errors as nat),
        (s.read_failures == 0 && s.snapshot_errors == 0) ==> exists|prefix: Seq<char>| simulation_message(s) == prefix
            + " bytes_to_write="@ + decimal(s.bytes_to_write as nat),
        exists|rest: Seq<char>| simulation_message(s) == "would_create_versions="@ + decimal(s.versions_would_create as nat)
            + "/"@ + decimal(s.watched as nat) + rest,
{
    let head = "would_create_versions="@ + decimal(s.versions_would_create as nat) + "/"@ + decimal(s.watched as nat);
    let mid = " changes=+"@ + decimal(s.adds as nat) + " ~"@ + decimal(s.modifies as nat) + " -"@
        + decimal(s.deletes as nat) + " blobs_to_write="@ + decimal(s.blobs_to_write as nat);
    let bytes = " bytes_to_write="@ + decimal(s.bytes_to_write as nat);
    let tail = " read_failures="@ + decimal(s.read_failures as nat) + " snapshot_errors="@ + decimal(s.snapshot_errors as nat);
    if s.read_failures > 0 || s.snapshot_errors > 0 {
        assert(simulation_message(s) =~= (head + mid + bytes) + tail);
        assert(simulation_message(s) =~= head + (mid + bytes + tail));
    } else {
        assert(simulation_message(s) =~= (head + mid) + bytes);
        assert(simulation_message(s) =~= head + (mid + bytes));
    }
}

/// The simulation result from the simulated cycle.
pub fn simulation_result(sim: SimulationSummary) -> (r: SimulationResult)
    ensures
        r.items == sim.items,
        r.bytes == sim.bytes_to_write,
        r.sample@ == sim.sample@,
        r.message@ == simulation_message(sim),
{
    let mut m = String::new();
    push_str(&mut m, "would_create_versions=");
    push_decimal(&mut m, sim.versions_would_create as u64);
    push_str(&mut m, "/");
    push_decimal(&mut m, sim.watched as u64);
    push_str(&mut m, " changes=+");
    push_decimal(&mut m, sim.adds as u64);
    push_str(&mut m, " ~");
    push_decimal(&mut m, sim.modifies as u64);
    push_str(&mut m, " -");
    push_decimal(&mut m, sim.deletes as u64);
    push_str(&mut m, " blobs_to_write=");
    push_decimal(&mut m, sim.blobs_to_write as u64);
    push_str(&mut m, " bytes_to_write=");
    push_decimal(&mut m, sim.bytes_to_write);
    if sim.read_failures > 0 || sim.snapshot_errors > 0 {
        push_str(&mut m, " read_failures=");
        push_decimal(&mut m, sim.read_failures as u64);
        push_str(&mut m, " snapshot_errors=");
        push_decimal(&mut m, sim.snapshot_errors as u64);
    }
    SimulationResult { items: sim.items, bytes: sim.bytes_to_write, sample: sim.sample, message: m }
}

/// The result of a full verification shown in the UI.
#[derive(Debug)]
pub struct VerifyResult {
    pub ok: usize,
    pub bad: usize,
    pub last_verify_ts: Option<i64>,
    pub last_verify_status: Option<String>,
    pub last_verify_issues: Option<usize>,
}

/// The counts of a full integrity scrub.
#[derive(Debug)]
pub struct ScrubCounts {
    pub blobs_hashed: usize,
    pub hash_mismatches: usize,
    pub missing_blobs: usize,
    pub manifests_bad: usize,
}

/// Records a full verification at `now` and returns what the UI shows: issues are hash
/// mismatches, missing blobs and bad manifests; good blobs are those hashed without mismatch.
pub fn record_verification(state: &mut StoredState, scrub: &ScrubCounts, now: i64) -> (r: VerifyResult)
    requires
        scrub.hash_mismatches + scrub.missing_blobs + scrub.manifests_bad <= usize::MAX,
    ensures
        r.bad == scrub.hash_mismatches + scrub.missing_blobs + scrub.manifests_bad,
        r.ok == (if scrub.blobs_hashed >= scrub.hash_mismatches { scrub.blobs_hashed - scrub.hash_mismatches } else { 0 }),
        final(state).last_verify_ts == Some(now),
        final(state).last_verify_issues == Some(r.bad),
        final(state).last_scrub_full_ts == Some(now),
        opt_view(final(state).last_verify_status) == Some(if r.bad == 0 { "ok (full)"@ } else { "issues_detected (full)"@ }),
        r.last_verify_ts == final(state).last_verify_ts,
        r.last_verify_issues == final(state).last_verify_issues,
        opt_view(r.last_verify_status) == opt_view(final(state).last_verify_status),
        final(state).last_error == old(state).last_error,
{
    let bad = scrub.hash_mismatches + scrub.missing_blobs + scrub.manifests_bad;
    let ok = scrub.blobs_hashed.saturating_sub(scrub.hash_mismatches);
    state.last_verify_ts = Some(now);
    state.last_verify_issues = Some(bad);
    state.last_verify_status = Some(if bad == 0 {
        String::from_str("ok (full)")
    } else {
        String::from_str("issues_detected (full)")
    });
    state.last_scrub_full_ts = Some(now);
    let status_copy = match &state.last_verify_status {
        Some(s) => Some(s.clone()),
        None => None,
    };
    VerifyResult {
        ok,
        bad,
        last_verify_ts: state.last_verify_ts,
        last_verify_status: status_copy,
        last_verify_issues: state.last_verify_issues,
    }
}

/// What the replication pass after a backup gave.
#[derive(Debug)]
pub enum ReplicationOutcome {
    /// No replication was configured or enabled.
    NotRun,
    /// The pass finished; `redacted_message` is its message as errors may show it.
    Completed { summary: ReplicationSummary, redacted_message: String },
    /// The pass failed with this (redacted) error chain.
    Failed(String),
}

/// Records a finished backup run and its replication pass, and returns the error the run
/// command reports, if any. A degraded or failed replication is never hidden: it stays in
/// the run error and is returned as the command's error.
pub fn complete_backup_run(
    state: &mut StoredState,
    cid: &str,
    versions_created: usize,
    outcome: ReplicationOutcome,
    now: i64,
) -> (r: Option<ErrorEnvelope>)
    ensures
        final(state).last_run_ts == Some(now),
        final(state).last_files_backed_up == versions_created,
        final(state).safe_mode == old(state).safe_mode,
        match outcome {
            ReplicationOutcome::NotRun => r is None && final(state).last_error is None
                && final(state).replication_last_status == old(state).replication_last_status
                && final(state).replication_last_error == old(state).replication_last_error,
            ReplicationOutcome::Completed { summary, redacted_message } => {
                &&& final(state).replication_last_run_ts == Some(now)
                &&& final(state).replication_last_pairs_ok == summary.pairs_ok
                &&& final(state).replication_last_pairs_failed == summary.pairs_failed
                &&& strings_view(final(state).replication_last_targets_failed@) == strings_view(summary.targets_failed@)
                &&& summary.pairs_failed == 0 ==> r is None && final(state).last_error is None
                    && opt_view(final(state).replication_last_status) == Some("ok"@)
                &&& summary.pairs_failed > 0 ==> (r matches Some(e) && e.code@ == "REPLICATION_DEGRADED"@
                    && e.message@ == envelope_message("REPLICATION_DEGRADED"@, degraded_message(cid@, redacted_message@)))
                    && opt_view(final(state).last_error) == Some(degraded_run_error(summary.message@))
                    && opt_view(final(state).replication_last_error) == Some(summary.message@)
                    && opt_view(final(state).replication_last_status) == Some("degraded"@)
            },
            ReplicationOutcome::Failed(m) => {
                &&& r matches Some(e) && e.code@ == "REPLICATION_FAILED"@
                    && e.message@ == envelope_message("REPLICATION_FAILED"@, replication_failed_message(cid@, m@))
                &&& opt_view(final(state).last_error) == Some(failed_run_error(m@))
                &&& opt_view(final(state).replication_last_error) == Some(m@)
                &&& opt_view(final(state).replication_last_status) == Some("failed"@)
                &&& final(state).replication_last_bytes_copied == 0
                &&& final(state).replication_last_pairs_ok == 0
            },
        },
{
    let error = match outcome {
        ReplicationOutcome::NotRun => None,
        ReplicationOutcome::Completed { summary, redacted_message } => {
            match record_replication_summary(state, &summary, now) {
                Some(_) => Some(replication_degraded_error(cid, redacted_message.as_str())),
                None => None,
            }
        },
        ReplicationOutcome::Failed(m) => {
            record_replication_failure(state, m.as_str(), now);
            Some(replication_failed_error(cid, m.as_str()))
        },
    };
    record_backup_run(state, versions_created, now, error.is_some());
    error
}

} // verus!
