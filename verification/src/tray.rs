//! What the tray shows: severity, tooltip, status and last-sync lines, and when the
//! slow health checks are refreshed.
use vstd::prelude::*;
use crate::access::AccessProbe;
use crate::error::ErrorEnvelope;
use crate::text::{
    lemma_strings_view_push, decimal, join_strings, opt_view, join_with, push_decimal, push_str, strings_view,
    trim_seq, trim_string,
};

verus! {

/// Severity of the tray indicator.
#[derive(Clone, Copy, Debug, PartialEq, Eq, Structural)]
pub enum TraySeverity {
    Normal,
    Warning,
    Error,
}

/// The rank of a severity.
pub open spec fn rank(s: TraySeverity) -> nat {
    match s {
        TraySeverity::Normal => 0,
        TraySeverity::Warning => 1,
        TraySeverity::Error => 2,
    }
}

/// The more severe of two severities.
pub open spec fn worse(a: TraySeverity, b: TraySeverity) -> TraySeverity {
    if rank(a) >= rank(b) { a } else { b }
}

/// The label of a severity.
pub open spec fn severity_label(s: TraySeverity) -> Seq<char> {
    match s {
        TraySeverity::Normal => "Normal"@,
        TraySeverity::Warning => "Warning"@,
        TraySeverity::Error => "Error"@,
    }
}

impl TraySeverity {
    /// The label shown for this severity.
    pub fn label(self) -> (r: &'static str)
        ensures
            r@ == severity_label(self),
    {
        match self {
            TraySeverity::Normal => "Normal",
            TraySeverity::Warning => "Warning",
            TraySeverity::Error => "Error",
        }
    }

    /// The more severe of `self` and `other`.
    pub fn max(self, other: TraySeverity) -> (r: TraySeverity)
        ensures
            r == worse(self, other),
    {
        match (self, other) {
            (TraySeverity::Error, _) | (_, TraySeverity::Error) => TraySeverity::Error,
            (TraySeverity::Warning, _) | (_, TraySeverity::Warning) => TraySeverity::Warning,
            _ => TraySeverity::Normal,
        }
    }
}

/// Combining severities is commutative, associative and idempotent, `Normal` changes
/// nothing and `Error` absorbs everything.
pub proof fn lemma_worse_is_a_join(a: TraySeverity, b: TraySeverity, c: TraySeverity)
    ensures
        worse(a, b) == worse(b, a),
        worse(worse(a, b), c) == worse(a, worse(b, c)),
        worse(a, a) == a,
        worse(a, TraySeverity::Normal) == a,
        worse(a, TraySeverity::Error) == TraySeverity::Error,
        rank(worse(a, b)) >= rank(a),
{
}

/// Minutes elapsed since `last_run`, never negative.
pub open spec fn minutes_since(last_run: int, now: int) -> int {
    if now - last_run > 0 { (now - last_run) / 60 } else { 0 }
}

/// The last-sync line for a last run time and the current time, both in Unix seconds.
pub open spec fn last_sync_text(last_run: Option<i64>, now: int) -> Seq<char> {
    match last_run {
        None => "Last sync: Never"@,
        Some(ts) => {
            let mins = minutes_since(ts as int, now);
            if mins < 120 {
                "Last sync: "@ + decimal(mins as nat) + "m ago"@
            } else {
                "Last sync: "@ + decimal((mins / 60) as nat) + "h ago"@
            }
        },
    }
}

/// The last-sync line, given the current time in Unix seconds.
pub fn last_sync_label_at(last_run_ts: Option<i64>, now: i64) -> (r: String)
    ensures
        r@ == last_sync_text(last_run_ts, now as int),
{
    let mut out = String::new();
    match last_run_ts {
        None => {
            push_str(&mut out, "Last sync: Never");
        },
        Some(ts) => {
            let diff: i128 = (now as i128) - (ts as i128);
            let mins_wide: i128 = if diff > 0 { diff / 60 } else { 0 };
            proof {
                assert(mins_wide == minutes_since(ts as int, now as int));
                assert(mins_wide <= 0xffff_ffff_ffff_ffff);
            }
            let mins: u64 = mins_wide as u64;
            push_str(&mut out, "Last sync: ");
            if mins < 120 {
                push_decimal(&mut out, mins);
                push_str(&mut out, "m ago");
            } else {
                push_decimal(&mut out, mins / 60);
                push_str(&mut out, "h ago");
            }
        },
    }
    out
}

/// Whole seconds of a signed millisecond time, rounded down (as `timestamp()` counts them).
pub fn seconds_of_millis(millis: i64) -> (r: i64)
    requires
        millis > i64::MIN,
    ensures
        r as int == (millis as int) / 1000,
{
    if millis >= 0 {
        millis / 1000
    } else {
        let up: i64 = -millis;
        let r: i64 = -((up - 1) / 1000) - 1;
        proof {
            assert(r as int == (millis as int) / 1000) by (nonlinear_arith)
                requires
                    millis < 0,
                    up == -millis,
                    r == -((up - 1) / 1000) - 1,
            ;
        }
        r
    }
}

/// The last-sync line at the current time.
pub fn format_last_sync_label(last_run_ts: Option<i64>) -> (r: String)
    ensures
        exists|now: i64| r@ == last_sync_text(last_run_ts, now as int),
{
    let now = seconds_of_millis(crate::correlation::unix_millis_now());
    last_sync_label_at(last_run_ts, now)
}

/// The slow health checks the tray refreshes from time to time.
#[derive(Debug)]
pub struct TrayHealthSnapshot {
    pub startup_hardening_error: Option<String>,
    pub access_probe: Option<AccessProbe>,
    pub destination_issues: Vec<String>,
}

/// The daemon status fields the tray reads.
#[derive(Debug)]
pub struct TrayStatus {
    pub destination_paused: bool,
    pub safe_mode: bool,
    pub safety_warning: Option<String>,
    pub free_bytes: Option<u64>,
    pub last_run_ts: Option<i64>,
}

/// Free space is low when it is known and below the threshold.
pub open spec fn low_space(status: TrayStatus, threshold: nat) -> bool {
    match status.free_bytes {
        Some(free) => free < threshold,
        None => false,
    }
}

/// Some condition that calls for the error indicator holds.
pub open spec fn has_error_condition(status: TrayStatus, health: TrayHealthSnapshot) -> bool {
    ||| health.startup_hardening_error is Some
    ||| status.destination_paused
    ||| health.destination_issues@.len() > 0
    ||| (health.access_probe matches Some(p) && p.watched_unwritable@.len() > 0)
}

/// Some condition that calls for at least the warning indicator holds.
pub open spec fn has_warning_condition(status: TrayStatus, health: TrayHealthSnapshot, threshold: nat) -> bool {
    ||| status.safe_mode
    ||| status.safety_warning is Some
    ||| low_space(status, threshold)
    ||| (health.access_probe matches Some(p) && p.watched_missing@.len() > 0)
}

/// The tray severity: error conditions win over warning conditions.
pub open spec fn tray_severity_of(status: TrayStatus, health: TrayHealthSnapshot, threshold: nat) -> TraySeverity {
    if has_error_condition(status, health) {
        TraySeverity::Error
    } else if has_warning_condition(status, health, threshold) {
        TraySeverity::Warning
    } else {
        TraySeverity::Normal
    }
}

/// What the tray shows follows the conditions directly: the error indicator whenever a
/// safety check failed, backups are paused, a destination has an issue or a watched path is
/// unwritable, whatever else holds; otherwise the warning indicator for safe mode, a safety
/// warning, low space or a missing watched path; otherwise the normal indicator. Adding a
/// destination issue to any snapshot therefore turns the tray to error.
pub proof fn lemma_tray_severity_follows_conditions(status: TrayStatus, health: TrayHealthSnapshot, threshold: nat)
    ensures
        (health.startup_hardening_error is Some || status.destination_paused || health.destination_issues@.len() > 0
            || (health.access_probe matches Some(p) && p.watched_unwritable@.len() > 0))
            <==> tray_severity_of(status, health, threshold) == TraySeverity::Error,
        health.destination_issues@.len() > 0 ==> tray_severity_of(status, health, threshold) == TraySeverity::Error,
        tray_severity_of(status, health, threshold) == TraySeverity::Normal <==> !(health.startup_hardening_error is Some
            || status.destination_paused || health.destination_issues@.len() > 0
            || (health.access_probe matches Some(p) && (p.watched_unwritable@.len() > 0 || p.watched_missing@.len() > 0))
            || status.safe_mode || status.safety_warning is Some
            || (status.free_bytes matches Some(f) && f < threshold)),
{
}

/// The low-space threshold, at least one byte.
pub open spec fn space_threshold(configured: u64) -> nat {
    if configured < 1 { 1 } else { configured as nat }
}

/// Computes the tray severity from the daemon status and the health snapshot.
pub fn tray_severity(status: &TrayStatus, health: &TrayHealthSnapshot, low_space_warning_bytes: u64) -> (r: TraySeverity)
    ensures
        r == tray_severity_of(*status, *health, space_threshold(low_space_warning_bytes)),
{
    let threshold: u64 = if low_space_warning_bytes < 1 { 1 } else { low_space_warning_bytes };
    let mut severity = TraySeverity::Normal;
    if health.startup_hardening_error.is_some() {
        severity = TraySeverity::Error;
    }
    if status.destination_paused {
        severity = TraySeverity::Error;
    }
    if status.safe_mode {
        severity = severity.max(TraySeverity::Warning);
    }
    if status.safety_warning.is_some() {
        severity = severity.max(TraySeverity::Warning);
    }
    if health.destination_issues.len() > 0 {
        severity = TraySeverity::Error;
    }
    if let Some(free) = status.free_bytes {
        if free < threshold {
            severity = severity.max(TraySeverity::Warning);
        }
    }
    if let Some(access) = &health.access_probe {
        if access.watched_unwritable.len() > 0 {
            severity = TraySeverity::Error;
        } else if access.watched_missing.len() > 0 {
            severity = severity.max(TraySeverity::Warning);
        }
    }
    severity
}

/// The parts of the tooltip after the severity, in order.
pub open spec fn tooltip_extras(
    status: TrayStatus,
    health: TrayHealthSnapshot,
    threshold: nat,
    free_text: Option<Seq<char>>,
) -> Seq<Seq<char>> {
    let a = match free_text {
        Some(t) => seq![t],
        None => Seq::<Seq<char>>::empty(),
    };
    let b = if low_space(status, threshold) { a.push("LOW SPACE"@) } else { a };
    let c = if status.safe_mode { b.push("SAFE MODE"@) } else { b };
    let d = match status.safety_warning {
        Some(w) => c.push(w@),
        None => c,
    };
    let e = match health.startup_hardening_error {
        Some(h) => d.push(h@),
        None => d,
    };
    if health.destination_issues@.len() > 0 {
        e.push("Destinations: "@ + join_with(
            strings_view(health.destination_issues@).take(
                if health.destination_issues@.len() > 2 { 2 } else { health.destination_issues@.len() as int },
            ),
            " \u{2022} "@,
        ))
    } else {
        e
    }
}

/// The tooltip while the daemon answers.
pub open spec fn online_tooltip(
    status: TrayStatus,
    health: TrayHealthSnapshot,
    threshold: nat,
    free_text: Option<Seq<char>>,
) -> Seq<char> {
    let parts = seq!["Online"@, "Status: "@ + severity_label(tray_severity_of(status, health, threshold))]
        + tooltip_extras(status, health, threshold, free_text);
    "Backup Sync \u{2022} "@ + join_with(parts, " \u{2022} "@)
}

/// The three texts the tray shows.
#[derive(Debug)]
pub struct TrayView {
    pub tooltip: String,
    pub status_line: String,
    pub last_sync_line: String,
}

/// The first `count` issues joined with bullets.
fn first_issues(issues: &Vec<String>, count: usize) -> (r: String)
    requires
        count <= issues@.len(),
    ensures
        r@ == join_with(strings_view(issues@).take(count as int), " \u{2022} "@),
{
    let mut first: Vec<String> = Vec::new();
    let mut k: usize = 0;
    while k < count
        invariant
            k <= count,
            count <= issues@.len(),
            strings_view(first@) == strings_view(issues@).take(k as int),
        decreases count - k,
    {
        let item = issues[k].clone();
        proof {
            lemma_strings_view_push(first@, item);
            assert(strings_view(issues@)[k as int] == item@);
            assert(strings_view(issues@).take(k + 1) =~= strings_view(issues@).take(k as int).push(item@));
        }
        first.push(item);
        k = k + 1;
    }
    join_strings(&first, " \u{2022} ")
}

/// The tooltip parts after the severity.
fn tooltip_extra_parts(
    status: &TrayStatus,
    health: &TrayHealthSnapshot,
    threshold: u64,
    free_text: Option<String>,
) -> (r: Vec<String>)
    ensures
        strings_view(r@) == tooltip_extras(*status, *health, threshold as nat, opt_view(free_text)),
{
    let mut parts: Vec<String> = Vec::new();
    let ghost mut extras: Seq<Seq<char>> = Seq::empty();
    proof {
        assert(strings_view(parts@) =~= extras);
    }
    match free_text {
        Some(t) => {
            proof {
                lemma_strings_view_push(parts@, t);
                extras = extras.push(t@);
            }
            parts.push(t);
        },
        None => {},
    }
    if let Some(free) = status.free_bytes {
        if free < threshold {
            let item = String::from_str("LOW SPACE");
            proof {
                lemma_strings_view_push(parts@, item);
                extras = extras.push("LOW SPACE"@);
            }
            parts.push(item);
        }
    }
    if status.safe_mode {
        let item = String::from_str("SAFE MODE");
        proof {
            lemma_strings_view_push(parts@, item);
            extras = extras.push("SAFE MODE"@);
        }
        parts.push(item);
    }
    if let Some(w) = &status.safety_warning {
        let item = w.clone();
        proof {
            lemma_strings_view_push(parts@, item);
            extras = extras.push(w@);
        }
        parts.push(item);
    }
    if let Some(h) = &health.startup_hardening_error {
        let item = h.clone();
        proof {
            lemma_strings_view_push(parts@, item);
            extras = extras.push(h@);
        }
        parts.push(item);
    }
    if health.destination_issues.len() > 0 {
        let count: usize = if health.destination_issues.len() > 2 { 2 } else { health.destination_issues.len() };
        let joined = first_issues(&health.destination_issues, count);
        let mut issue = String::new();
        push_str(&mut issue, "Destinations: ");
        push_str(&mut issue, joined.as_str());
        proof {
            lemma_strings_view_push(parts@, issue);
            extras = extras.push(issue@);
        }
        parts.push(issue);
    }
    proof {
        assert(strings_view(parts@) == extras);
        assert(extras =~= tooltip_extras(*status, *health, threshold as nat, opt_view(free_text)));
    }
    parts
}

/// The tray texts while the daemon answers. `free_text` is the rendered free space
/// (`"<x.y> GB free"`) when the status reports free space.
pub fn online_tray_view(
    status: &TrayStatus,
    health: &TrayHealthSnapshot,
    low_space_warning_bytes: u64,
    free_text: Option<String>,
    now: i64,
) -> (r: TrayView)
    ensures
        r.tooltip@ == online_tooltip(*status, *health, space_threshold(low_space_warning_bytes),
            opt_view(free_text)),
        r.status_line@ == "Status: "@ + severity_label(tray_severity_of(*status, *health,
            space_threshold(low_space_warning_bytes))),
        r.last_sync_line@ == last_sync_text(status.last_run_ts, now as int),
{
    let threshold: u64 = if low_space_warning_bytes < 1 { 1 } else { low_space_warning_bytes };
    let severity = tray_severity(status, health, low_space_warning_bytes);
    let mut status_part = String::new();
    push_str(&mut status_part, "Status: ");
    push_str(&mut status_part, severity.label());
    let status_line = status_part.clone();
    let mut parts: Vec<String> = Vec::new();
    parts.push(String::from_str("Online"));
    parts.push(status_part);
    let ghost head = strings_view(parts@);
    let extras = tooltip_extra_parts(status, health, threshold, free_text);
    let mut i: usize = 0;
    proof {
        assert(head =~= seq!["Online"@, status_line@]);
        assert(extras@.take(0) =~= Seq::<String>::empty());
        assert(strings_view(parts@) =~= head + strings_view(extras@.take(0)));
    }
    while i < extras.len()
        invariant
            i <= extras.len(),
            strings_view(parts@) == head + strings_view(extras@.take(i as int)),
        decreases extras.len() - i,
    {
        let item = extras[i].clone();
        proof {
            lemma_strings_view_push(parts@, item);
            lemma_strings_view_push(extras@.take(i as int), item);
            assert(extras@.take(i + 1) =~= extras@.take(i as int).push(extras@[i as int]));
        }
        parts.push(item);
        i = i + 1;
    }
    proof {
        assert(extras@.take(extras.len() as int) =~= extras@);
        assert(strings_view(parts@) =~= seq!["Online"@, "Status: "@ + severity_label(
            tray_severity_of(*status, *health, space_threshold(low_space_warning_bytes)))]
            + tooltip_extras(*status, *health, threshold as nat, opt_view(free_text)));
    }
    let joined = join_strings(&parts, " \u{2022} ");
    let mut tooltip = String::new();
    push_str(&mut tooltip, "Backup Sync \u{2022} ");
    push_str(&mut tooltip, joined.as_str());
    TrayView { tooltip, status_line, last_sync_line: last_sync_label_at(status.last_run_ts, now) }
}

/// The tray texts while the daemon does not answer.
pub fn offline_tray_view() -> (r: TrayView)
    ensures
        r.tooltip@ == "Backup Sync \u{2022} Offline"@,
        r.status_line@ == "Status: Error (Offline)"@,
        r.last_sync_line@ == "Last sync: \u{2014}"@,
{
    TrayView {
        tooltip: String::from_str("Backup Sync \u{2022} Offline"),
        status_line: String::from_str("Status: Error (Offline)"),
        last_sync_line: String::from_str("Last sync: \u{2014}"),
    }
}

/// How the tray gets its health snapshot this time.
#[derive(Clone, Copy, Debug, PartialEq, Eq, Structural)]
pub enum HealthRefresh {
    /// No check has run yet: run one now (bounded by a timeout) and use its result.
    Eager,
    /// The cached snapshot is stale and no refresh runs: start one in the background and
    /// use the cached snapshot meanwhile.
    Background,
    /// Use the cached snapshot.
    UseCached,
}

/// The cached snapshot is stale when it was never taken or is at least the interval old
/// (the interval is at least one second).
pub open spec fn snapshot_stale(last_full_check_ms: Option<u64>, now_ms: u64, min_interval_secs: u64) -> bool {
    match last_full_check_ms {
        None => true,
        Some(t) => {
            let elapsed: int = if now_ms >= t { now_ms - t } else { 0 };
            let interval: int = if min_interval_secs < 1 { 1000 } else { min_interval_secs * 1000 };
            elapsed >= interval
        },
    }
}

/// Decides whether to run the full health check now, start it in the background, or use
/// the cache.
pub fn plan_health_refresh(
    last_full_check_ms: Option<u64>,
    now_ms: u64,
    min_interval_secs: u64,
    refresh_in_flight: bool,
) -> (r: HealthRefresh)
    ensures
        last_full_check_ms is None ==> r == HealthRefresh::Eager,
        last_full_check_ms is Some ==> (r == HealthRefresh::Background <==> (snapshot_stale(
            last_full_check_ms, now_ms, min_interval_secs) && !refresh_in_flight)),
        last_full_check_ms is Some ==> r != HealthRefresh::Eager,
{
    match last_full_check_ms {
        None => HealthRefresh::Eager,
        Some(t) => {
            let elapsed: u128 = if now_ms >= t { (now_ms - t) as u128 } else { 0 };
            let secs: u128 = if min_interval_secs < 1 { 1 } else { min_interval_secs as u128 };
            let stale = elapsed >= secs * 1000;
            if stale && !refresh_in_flight {
                HealthRefresh::Background
            } else {
                HealthRefresh::UseCached
            }
        },
    }
}

/// The snapshot recorded when the health check task failed or timed out.
pub fn failed_health_snapshot(timed_out: bool) -> (r: TrayHealthSnapshot)
    ensures
        r.startup_hardening_error matches Some(e) && e@ == (if timed_out {
            "Safety checks: timed out"@
        } else {
            "Safety checks: task failed"@
        }),
        r.access_probe is None,
        r.destination_issues@.len() == 0,
{
    let msg = if timed_out {
        String::from_str("Safety checks: timed out")
    } else {
        String::from_str("Safety checks: task failed")
    };
    TrayHealthSnapshot { startup_hardening_error: Some(msg), access_probe: None, destination_issues: Vec::new() }
}

/// The startup hardening line from the outcome of the hardening check: nothing when the
/// report is fine, otherwise `"Safety checks: <message>"`.
pub fn hardening_issue(report: Result<(bool, String), ErrorEnvelope>) -> (r: Option<String>)
    ensures
        report matches Ok((ok, m)) ==> (if ok { r is None } else { r matches Some(t) && t@ == "Safety checks: "@ + m@ }),
        report matches Err(e) ==> (r matches Some(t) && t@ == "Safety checks: "@ + e.message@),
{
    match report {
        Ok((ok, message)) => {
            if ok {
                None
            } else {
                let mut t = String::new();
                push_str(&mut t, "Safety checks: ");
                push_str(&mut t, message.as_str());
                Some(t)
            }
        },
        Err(e) => {
            let mut t = String::new();
            push_str(&mut t, "Safety checks: ");
            push_str(&mut t, e.message.as_str());
            Some(t)
        },
    }
}

/// The name shown for a destination: its label trimmed, unless that is empty, else its path.
pub open spec fn destination_name(label: Option<Seq<char>>, path_display: Seq<char>) -> Seq<char> {
    match label {
        Some(l) => if trim_seq(l).len() > 0 { trim_seq(l) } else { path_display },
        None => path_display,
    }
}

/// The issue listed for one destination, from the outcome of checking it: nothing when it is
/// writable, `"<name>: <message>"` when it is not, `"<path>: <error>"` when the check failed.
pub fn destination_issue(
    label: Option<String>,
    path_display: &str,
    check: Result<(bool, String), ErrorEnvelope>,
) -> (r: Option<String>)
    ensures
        check is Ok && check->Ok_0.0 ==> r is None,
        check is Ok && !check->Ok_0.0 ==> (r matches Some(t) && t@ == destination_name(opt_view(label),
            path_display@) + ": "@ + check->Ok_0.1@),
        check is Err ==> (r matches Some(t) && t@ == path_display@ + ": "@ + check->Err_0.message@),
{
    match check {
        Err(e) => {
            let mut t = String::new();
            push_str(&mut t, path_display);
            push_str(&mut t, ": ");
            push_str(&mut t, e.message.as_str());
            Some(t)
        },
        Ok((writable, message)) => {
            if writable {
                return None;
            }
            let mut t = String::new();
            match label {
                Some(l) => {
                    let trimmed = trim_string(l.as_str());
                    if !trimmed.as_str().is_empty() {
                        push_str(&mut t, trimmed.as_str());
                    } else {
                        push_str(&mut t, path_display);
                    }
                },
                None => push_str(&mut t, path_display),
            }
            push_str(&mut t, ": ");
            push_str(&mut t, message.as_str());
            Some(t)
        },
    }
}

} // verus!
