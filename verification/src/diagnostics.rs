//! Support exports: the doctor report, the health report, the text of the diagnostics
//! bundle, and the naming and clean-up of the files they are written to.
use vstd::prelude::*;
use crate::text::{contains_seq, decimal, join_with, occurs_at, push_decimal, push_signed_decimal, push_str, signed_decimal, strings_view, join_strings};

verus! {

/// Marks a freshly created output file for removal unless the write completes.
#[derive(Debug)]
pub struct IncompleteFileGuard {
    pub path: String,
    pub committed: bool,
}

impl IncompleteFileGuard {
    /// A guard for `path`, not yet committed.
    pub fn new(path: String) -> (r: IncompleteFileGuard)
        ensures
            r.path == path,
            !r.committed,
    {
        IncompleteFileGuard { path, committed: false }
    }

    /// Records that the file was written completely and must be kept.
    pub fn commit(&mut self)
        ensures
            final(self).committed,
            final(self).path == old(self).path,
    {
        self.committed = true;
    }

    /// Whether the file must be removed when the guard goes away.
    pub fn needs_cleanup(&self) -> (r: bool)
        ensures
            r == !self.committed,
    {
        !self.committed
    }
}

/// The lowercase hexadecimal digit for `d` (`d < 16`).
pub open spec fn hex_digit(d: nat) -> char {
    if d < 10 { (48 + d) as char } else { (87 + d) as char }
}

/// `n` in lowercase hexadecimal, zero-padded to `width` digits (the low `width` digits).
pub open spec fn hex_fixed(n: nat, width: nat) -> Seq<char>
    decreases width,
{
    if width == 0 {
        Seq::empty()
    } else {
        hex_fixed(n / 16, (width - 1) as nat).push(hex_digit(n % 16))
    }
}

fn push_hex_fixed(out: &mut String, n: u64, width: u64)
    ensures
        final(out)@ == old(out)@ + hex_fixed(n as nat, width as nat),
    decreases width,
{
    if width == 0 {
        proof {
            assert(old(out)@ + hex_fixed(n as nat, 0) =~= old(out)@);
        }
        return;
    }
    push_hex_fixed(out, n / 16, width - 1);
    let d = n % 16;
    let c: char = if d < 10 { ((48 + d) as u8) as char } else { ((87 + d) as u8) as char };
    proof {
        assert(c == hex_digit(d as nat));
    }
    out.push(c);
    proof {
        let tail = hex_fixed((n / 16) as nat, (width - 1) as nat);
        assert(old(out)@ + tail + seq![c] =~= old(out)@ + tail.push(c));
    }
}

/// The name for a new output file: `<stem>-<16 hex digits>.<extension>`, the digits
/// coming from a hash that differs between attempts.
pub fn exclusive_file_name(stem: &str, hash: u64, extension: &str) -> (r: String)
    ensures
        r@ == stem@ + "-"@ + hex_fixed(hash as nat, 16) + "."@ + extension@,
{
    let mut s = String::new();
    push_str(&mut s, stem);
    push_str(&mut s, "-");
    push_hex_fixed(&mut s, hash, 16);
    push_str(&mut s, ".");
    push_str(&mut s, extension);
    s
}

/// `{:?}` of an optional integer: `Some(<n>)` or `None`.
pub open spec fn debug_option(o: Option<int>) -> Seq<char> {
    match o {
        Some(n) => "Some("@ + signed_decimal(n) + ")"@,
        None => "None"@,
    }
}

/// Appends `{:?}` of an optional signed integer.
pub fn push_debug_i64(out: &mut String, o: Option<i64>)
    ensures
        final(out)@ == old(out)@ + debug_option(match o { Some(n) => Some(n as int), None => None }),
{
    match o {
        Some(n) => {
            push_str(out, "Some(");
            push_signed_decimal(out, n);
            push_str(out, ")");
        },
        None => push_str(out, "None"),
    }
}

/// Appends `{:?}` of an optional count.
pub fn push_debug_usize(out: &mut String, o: Option<usize>)
    ensures
        final(out)@ == old(out)@ + debug_option(match o { Some(n) => Some(n as int), None => None }),
{
    match o {
        Some(n) => {
            push_str(out, "Some(");
            push_decimal(out, n as u64);
            push_str(out, ")");
            proof {
                assert(signed_decimal(n as int) == decimal(n as nat));
            }
        },
        None => push_str(out, "None"),
    }
}

/// What the health report shows; paths and texts arrive already redacted.
#[derive(Debug)]
pub struct HealthFacts {
    pub generated: String,
    pub config_path: String,
    pub state_path: String,
    pub backup_root: String,
    pub watched_count: usize,
    pub last_error_debug: String,
    pub status: String,
}

/// The health report text.
pub open spec fn health_text(f: HealthFacts) -> Seq<char> {
    "# Backup Sync Health Report\n"@
        + "Generated: "@ + f.generated@ + "\n"@
        + "Config path: "@ + f.config_path@ + "\n"@
        + "State path: "@ + f.state_path@ + "\n"@
        + "Backup destination: "@ + f.backup_root@ + "\n"@
        + "Watched entries: "@ + decimal(f.watched_count as nat) + "\n"@
        + "Last error: "@ + f.last_error_debug@ + "\n"@
        + "\nStatus snapshot:\n"@
        + f.status@
}

/// Builds the health report; it always opens with the product heading.
pub fn health_report(f: &HealthFacts) -> (r: String)
    ensures
        r@ == health_text(*f),
{
    let mut s = String::new();
    push_str(&mut s, "# Backup Sync Health Report\n");
    push_str(&mut s, "Generated: ");
    push_str(&mut s, f.generated.as_str());
    push_str(&mut s, "\n");
    push_str(&mut s, "Config path: ");
    push_str(&mut s, f.config_path.as_str());
    push_str(&mut s, "\n");
    push_str(&mut s, "State path: ");
    push_str(&mut s, f.state_path.as_str());
    push_str(&mut s, "\n");
    push_str(&mut s, "Backup destination: ");
    push_str(&mut s, f.backup_root.as_str());
    push_str(&mut s, "\n");
    push_str(&mut s, "Watched entries: ");
    push_decimal(&mut s, f.watched_count as u64);
    push_str(&mut s, "\n");
    push_str(&mut s, "Last error: ");
    push_str(&mut s, f.last_error_debug.as_str());
    push_str(&mut s, "\n");
    push_str(&mut s, "\nStatus snapshot:\n");
    push_str(&mut s, f.status.as_str());
    s
}

/// The config path line of the health report: the path, or why it is unavailable.
pub fn health_config_path(path: Result<String, String>) -> (r: String)
    ensures
        path matches Ok(p) ==> r == p,
        path matches Err(e) ==> r@ == "backup::verify::build_health_report config path unavailable: "@ + e@,
{
    match path {
        Ok(p) => p,
        Err(e) => {
            let mut s = String::new();
            push_str(&mut s, "backup::verify::build_health_report config path unavailable: ");
            push_str(&mut s, e.as_str());
            s
        },
    }
}

/// The status section of a report: the serialized status, or why it is unavailable.
/// `context` names the report asking for it.
pub fn status_snapshot_text(context: &str, status: Result<String, String>) -> (r: String)
    ensures
        status matches Ok(body) ==> r == body,
        status matches Err(m) ==> r@ == context@ + " status unavailable: "@ + m@,
{
    match status {
        Ok(body) => body,
        Err(m) => {
            let mut s = String::new();
            push_str(&mut s, context);
            push_str(&mut s, " status unavailable: ");
            push_str(&mut s, m.as_str());
            s
        },
    }
}

/// One recent-activity record; the path arrives already redacted.
#[derive(Debug)]
pub struct ActivityLine {
    pub path: String,
    pub bytes: u64,
    pub ts: i64,
}

/// `<path> • <bytes> bytes • <ts>`.
pub open spec fn activity_text(a: ActivityLine) -> Seq<char> {
    a.path@ + " • "@ + decimal(a.bytes as nat) + " bytes • "@ + signed_decimal(a.ts as int)
}

/// The newest 20 activity records, newest first, one line each.
pub fn recent_activity_lines(items: &Vec<ActivityLine>) -> (r: Vec<String>)
    ensures
        r@.len() == if items@.len() < 20 { items@.len() } else { 20 },
        forall|k: int| 0 <= k < r@.len() ==> (#[trigger] r@[k])@ == activity_text(items@[items@.len() - 1 - k]),
{
    let mut out: Vec<String> = Vec::new();
    let n = items.len();
    let mut k: usize = 0;
    while k < n && k < 20
        invariant
            n == items.len(),
            k <= n,
            k <= 20,
            out@.len() == k,
            forall|m: int| 0 <= m < k ==> (#[trigger] out@[m])@ == activity_text(items@[n - 1 - m]),
        decreases 20 - k,
    {
        let a = &items[n - 1 - k];
        let mut s = String::new();
        push_str(&mut s, a.path.as_str());
        push_str(&mut s, " • ");
        push_decimal(&mut s, a.bytes);
        push_str(&mut s, " bytes • ");
        push_signed_decimal(&mut s, a.ts);
        out.push(s);
        k = k + 1;
    }
    out
}

/// What the first file of the diagnostics bundle shows; paths and texts arrive redacted.
#[derive(Debug)]
pub struct DiagnosticsFacts {
    pub generated: String,
    pub config_path: String,
    pub state_path: String,
    pub log_path: String,
    pub last_error_debug: String,
    pub last_verify_ts: Option<i64>,
    pub last_verify_issues: Option<usize>,
    pub recent_activity_count: usize,
}

/// The main text of the diagnostics bundle.
pub open spec fn primary_text(f: DiagnosticsFacts, recent: Seq<Seq<char>>) -> Seq<char> {
    "# Backup Sync Diagnostics\n"@
        + "Generated: "@ + f.generated@ + "\n\n"@
        + "## Paths\n"@
        + "Config file: "@ + f.config_path@ + "\nState file: "@ + f.state_path@ + "\nLog file: "@ + f.log_path@ + "\n"@
        + "\n## State summary\n"@
        + "Last error: "@ + f.last_error_debug@
        + "\nLast verify: "@ + debug_option(match f.last_verify_ts { Some(n) => Some(n as int), None => None })
        + " (issues: "@ + debug_option(match f.last_verify_issues { Some(n) => Some(n as int), None => None })
        + ")\nRecent activity: "@ + decimal(f.recent_activity_count as nat) + " items\n"@
        + "\n## Recent activity (latest 20)\n"@
        + join_with(recent, "\n"@)
}

/// Builds the main text of the diagnostics bundle.
pub fn diagnostics_primary_text(f: &DiagnosticsFacts, recent_activity: &Vec<String>) -> (r: String)
    ensures
        r@ == primary_text(*f, strings_view(recent_activity@)),
{
    let mut s = String::new();
    push_str(&mut s, "# Backup Sync Diagnostics\n");
    push_str(&mut s, "Generated: ");
    push_str(&mut s, f.generated.as_str());
    push_str(&mut s, "\n\n");
    push_str(&mut s, "## Paths\n");
    push_str(&mut s, "Config file: ");
    push_str(&mut s, f.config_path.as_str());
    push_str(&mut s, "\nState file: ");
    push_str(&mut s, f.state_path.as_str());
    push_str(&mut s, "\nLog file: ");
    push_str(&mut s, f.log_path.as_str());
    push_str(&mut s, "\n");
    push_str(&mut s, "\n## State summary\n");
    push_str(&mut s, "Last error: ");
    push_str(&mut s, f.last_error_debug.as_str());
    push_str(&mut s, "\nLast verify: ");
    push_debug_i64(&mut s, f.last_verify_ts);
    push_str(&mut s, " (issues: ");
    push_debug_usize(&mut s, f.last_verify_issues);
    push_str(&mut s, ")\nRecent activity: ");
    push_decimal(&mut s, f.recent_activity_count as u64);
    push_str(&mut s, " items\n");
    push_str(&mut s, "\n## Recent activity (latest 20)\n");
    let joined = join_strings(recent_activity, "\n");
    push_str(&mut s, joined.as_str());
    s
}

/// What the doctor report shows; paths and texts arrive already redacted.
#[derive(Debug)]
pub struct DoctorFacts {
    pub generated: String,
    pub config_path: String,
    pub state_path: String,
    pub destination: String,
    pub destinations_count: usize,
    /// Each watched path with whether it exists.
    pub watched: Vec<(String, bool)>,
    /// The free space at the destination, or why it could not be read.
    pub free_space: Result<u64, String>,
    pub min_free_space_bytes: Option<u64>,
    /// The outcome of the write probe, the error already redacted.
    pub write_probe: Result<(), String>,
    pub last_error_debug: String,
    pub last_verify_ts: Option<i64>,
    pub last_verify_issues: Option<usize>,
}

/// The watched paths that do not exist, in order.
pub open spec fn missing_paths(w: Seq<(String, bool)>) -> Seq<Seq<char>>
    decreases w.len(),
{
    if w.len() == 0 {
        Seq::empty()
    } else if !w.last().1 {
        missing_paths(w.drop_last()).push(w.last().0@)
    } else {
        missing_paths(w.drop_last())
    }
}

/// Some entry with path `p` is flagged as not existing.
pub open spec fn flagged_missing(w: Seq<(String, bool)>, p: Seq<char>) -> bool {
    exists|i: int| 0 <= i < w.len() && !w[i].1 && w[i].0@ == p
}

/// The missing watched paths are exactly the paths of the entries flagged as not existing,
/// each once and in the entries' order: the paths of those entries, kept by filtering.
/// So every entry flagged missing is listed, and nothing else is.
#[verifier::spinoff_prover]
pub proof fn lemma_missing_paths_lists_every_missing_entry(w: Seq<(String, bool)>)
    ensures
        missing_paths(w) == w.filter(|e: (String, bool)| !e.1).map_values(|e: (String, bool)| e.0@),
        forall|i: int| 0 <= i < w.len() && !(#[trigger] w[i]).1 ==> missing_paths(w).contains(w[i].0@),
        forall|k: int| 0 <= k < missing_paths(w).len() ==> flagged_missing(w, #[trigger] missing_paths(w)[k]),
    decreases w.len(),
{
    let pred = |e: (String, bool)| !e.1;
    let f = |e: (String, bool)| e.0@;
    reveal(Seq::filter);
    if w.len() > 0 {
        lemma_missing_paths_lists_every_missing_entry(w.drop_last());
        let rest = w.drop_last().filter(pred);
        if pred(w.last()) {
            assert(w.filter(pred) == rest.push(w.last()));
            assert(rest.push(w.last()).map_values(f) =~= rest.map_values(f).push(f(w.last())));
        } else {
            assert(w.filter(pred) == rest);
        }
    } else {
        assert(w.filter(pred) =~= Seq::<(String, bool)>::empty());
        assert(Seq::<(String, bool)>::empty().map_values(f) =~= Seq::<Seq<char>>::empty());
    }
    let m = missing_paths(w);
    assert forall|i: int| 0 <= i < w.len() && !(#[trigger] w[i]).1 implies m.contains(w[i].0@) by {
        w.lemma_filter_contains(pred, i);
        let fl = w.filter(pred);
        let j = choose|j: int| 0 <= j < fl.len() && fl[j] == w[i];
        assert(m[j] == f(fl[j]));
    }
    assert forall|k: int| 0 <= k < m.len() implies flagged_missing(w, #[trigger] m[k]) by {
        let fl = w.filter(pred);
        w.lemma_filter_pred(pred, k);
        assert(fl.contains(fl[k]));
        w.lemma_filter_contains_rev(pred, fl[k]);
        let i = choose|i: int| 0 <= i < w.len() && w[i] == fl[k];
        assert(m[k] == f(fl[k]));
        assert(pred(fl[k]));
        assert(0 <= i < w.len() && !w[i].1 && w[i].0@ == m[k]);
    }
}

/// One indented line per path.
pub open spec fn indented_lines(p: Seq<Seq<char>>) -> Seq<char>
    decreases p.len(),
{
    if p.len() == 0 {
        Seq::empty()
    } else {
        indented_lines(p.drop_last()) + "  "@ + p.last() + "\n"@
    }
}

/// The watched-path section: a warning when nothing is watched, and the missing paths.
pub open spec fn missing_section(w: Seq<(String, bool)>) -> Seq<char> {
    let empty_note = if w.len() == 0 { "Problem: no watched paths configured.\n"@ } else { Seq::empty() };
    let missing = missing_paths(w);
    empty_note + if missing.len() == 0 {
        Seq::empty()
    } else {
        "Missing watched paths ("@ + decimal(missing.len()) + "):\n"@ + indented_lines(missing)
    }
}

proof fn lemma_occurs_in_left(a: Seq<char>, b: Seq<char>, n: Seq<char>, i: int)
    requires
        occurs_at(a, n, i),
    ensures
        occurs_at(a + b, n, i),
{
    assert((a + b).subrange(i, i + n.len()) =~= a.subrange(i, i + n.len()));
}

proof fn lemma_occurs_in_right(a: Seq<char>, b: Seq<char>, n: Seq<char>, i: int)
    requires
        occurs_at(b, n, i),
    ensures
        occurs_at(a + b, n, a.len() + i),
{
    assert((a + b).subrange(a.len() + i, a.len() + i + n.len()) =~= b.subrange(i, i + n.len()));
}

/// Each path has its own indented line.
proof fn lemma_indented_lines_show_each(p: Seq<Seq<char>>, k: int)
    requires
        0 <= k < p.len(),
    ensures
        contains_seq(indented_lines(p), "  "@ + p[k] + "\n"@),
    decreases p.len(),
{
    let line = "  "@ + p[k] + "\n"@;
    let front = indented_lines(p.drop_last());
    if k == p.len() - 1 {
        assert(indented_lines(p) =~= front + line);
        assert(line.subrange(0, line.len() as int) =~= line);
        lemma_occurs_in_right(front, line, line, 0);
    } else {
        lemma_indented_lines_show_each(p.drop_last(), k);
        assert(p.drop_last()[k] == p[k]);
        let i = choose|i: int| occurs_at(front, line, i);
        assert(indented_lines(p) =~= front + ("  "@ + p.last() + "\n"@));
        lemma_occurs_in_left(front, "  "@ + p.last() + "\n"@, line, i);
    }
}

/// The doctor report lists every watched path flagged as missing on a line of its own,
/// under a heading that counts exactly the entries flagged missing.
#[verifier::spinoff_prover]
#[verifier::rlimit(60)]
pub proof fn lemma_doctor_report_lists_missing_paths(f: DoctorFacts)
    ensures
        forall|i: int| 0 <= i < f.watched@.len() && !(#[trigger] f.watched@[i]).1
            ==> contains_seq(doctor_text(f), "  "@ + f.watched@[i].0@ + "\n"@),
        (exists|i: int| 0 <= i < f.watched@.len() && !(#[trigger] f.watched@[i]).1) ==> contains_seq(doctor_text(f),
            "Missing watched paths ("@ + decimal(f.watched@.filter(|e: (String, bool)| !e.1).len()) + "):\n"@),
{
    let w = f.watched@;
    lemma_missing_paths_lists_every_missing_entry(w);
    let m = missing_paths(w);
    let note = if w.len() == 0 { "Problem: no watched paths configured.\n"@ } else { Seq::empty() };
    let head = "Missing watched paths ("@ + decimal(m.len()) + "):\n"@;
    let before = "# Backup Sync Doctor Report\n"@
        + "Generated: "@ + f.generated@ + "\n\n"@
        + "Config file: "@ + f.config_path@ + "\n"@
        + "State file: "@ + f.state_path@ + "\n"@
        + "Backup destination: "@ + f.destination@ + "\n"@
        + "Destinations defined: "@ + decimal(f.destinations_count as nat) + "\n"@
        + "Watched entries: "@ + decimal(w.len()) + "\n"@;
    let after = free_space_section(f.free_space, f.min_free_space_bytes)
        + write_probe_section(f.write_probe)
        + "Last error: "@ + f.last_error_debug@ + "\n"@
        + "Last verify: "@ + debug_option(match f.last_verify_ts { Some(n) => Some(n as int), None => None })
        + " issues: "@ + debug_option(match f.last_verify_issues { Some(n) => Some(n as int), None => None }) + "\n"@;
    assert(doctor_text(f) =~= before + missing_section(w) + after);
    if m.len() > 0 {
        let body = indented_lines(m);
        assert(missing_section(w) =~= note + (head + body));
        assert forall|i: int| 0 <= i < w.len() && !(#[trigger] w[i]).1
            implies contains_seq(doctor_text(f), "  "@ + w[i].0@ + "\n"@) by {
            let line = "  "@ + w[i].0@ + "\n"@;
            let k = choose|k: int| 0 <= k < m.len() && m[k] == w[i].0@;
            lemma_indented_lines_show_each(m, k);
            let j = choose|j: int| occurs_at(body, line, j);
            lemma_occurs_in_right(head, body, line, j);
            lemma_occurs_in_right(note, head + body, line, head.len() + j);
            lemma_occurs_in_right(before, missing_section(w), line, note.len() + head.len() + j);
            lemma_occurs_in_left(before + missing_section(w), after, line, before.len() + note.len() + head.len() + j);
        }
        assert(head.subrange(0, head.len() as int) =~= head);
        lemma_occurs_in_left(head, body, head, 0);
        lemma_occurs_in_right(note, head + body, head, 0);
        lemma_occurs_in_right(before, missing_section(w), head, note.len() as int);
        lemma_occurs_in_left(before + missing_section(w), after, head, before.len() + note.len() as int);
        assert(w.filter(|e: (String, bool)| !e.1).len() == m.len());
    } else {
        assert forall|i: int| 0 <= i < w.len() && !(#[trigger] w[i]).1
            implies contains_seq(doctor_text(f), "  "@ + w[i].0@ + "\n"@) by {
            assert(m.contains(w[i].0@));
        }
    }
}

/// The free-space section.
pub open spec fn free_space_section(free: Result<u64, String>, min_free: Option<u64>) -> Seq<char> {
    match free {
        Ok(bytes) => "Free space at destination: "@ + decimal(bytes as nat) + " bytes\n"@ + match min_free {
            Some(m) => if bytes < m {
                "Problem: free space below configured minimum "@ + decimal(m as nat) + "\n"@
            } else {
                Seq::empty()
            },
            None => Seq::empty(),
        },
        Err(e) => "Problem reading free space: "@ + e@ + "\n"@,
    }
}

/// The write-probe section.
pub open spec fn write_probe_section(probe: Result<(), String>) -> Seq<char> {
    match probe {
        Ok(_) => "Write check: OK\n"@,
        Err(e) => "Problem: cannot write to backup destination: "@ + e@
            + ". Check destination permissions and available space.\n"@,
    }
}

/// The doctor report text.
pub open spec fn doctor_text(f: DoctorFacts) -> Seq<char> {
    "# Backup Sync Doctor Report\n"@
        + "Generated: "@ + f.generated@ + "\n\n"@
        + "Config file: "@ + f.config_path@ + "\n"@
        + "State file: "@ + f.state_path@ + "\n"@
        + "Backup destination: "@ + f.destination@ + "\n"@
        + "Destinations defined: "@ + decimal(f.destinations_count as nat) + "\n"@
        + "Watched entries: "@ + decimal(f.watched@.len()) + "\n"@
        + missing_section(f.watched@)
        + free_space_section(f.free_space, f.min_free_space_bytes)
        + write_probe_section(f.write_probe)
        + "Last error: "@ + f.last_error_debug@ + "\n"@
        + "Last verify: "@ + debug_option(match f.last_verify_ts { Some(n) => Some(n as int), None => None })
        + " issues: "@ + debug_option(match f.last_verify_issues { Some(n) => Some(n as int), None => None }) + "\n"@
}

/// The destination the doctor report examines: Main storage's folder, or the backup
/// root when no storage location is configured.
pub fn doctor_destination(main_path: Option<String>, backup_root: String) -> (r: String)
    ensures
        r == match main_path { Some(p) => p, None => backup_root },
{
    match main_path {
        Some(p) => p,
        None => backup_root,
    }
}

fn push_missing_section(s: &mut String, watched: &Vec<(String, bool)>)
    ensures
        final(s)@ == old(s)@ + missing_section(watched@),
{
    let ghost start = s@;
    if watched.len() == 0 {
        push_str(s, "Problem: no watched paths configured.\n");
    }
    let ghost after_note = s@;
    let mut missing: Vec<String> = Vec::new();
    let mut i: usize = 0;
    proof {
        assert(watched@.take(0) =~= Seq::<(String, bool)>::empty());
    }
    while i < watched.len()
        invariant
            i <= watched.len(),
            strings_view(missing@) == missing_paths(watched@.take(i as int)),
        decreases watched.len() - i,
    {
        proof {
            assert(watched@.take(i + 1).drop_last() =~= watched@.take(i as int));
            assert(watched@.take(i + 1).last() == watched@[i as int]);
        }
        if !watched[i].1 {
            missing.push(watched[i].0.clone());
            proof {
                assert(strings_view(missing@) =~= missing_paths(watched@.take(i as int)).push(watched@[i as int].0@));
            }
        }
        i = i + 1;
    }
    proof {
        assert(watched@.take(watched.len() as int) =~= watched@);
    }
    if missing.len() > 0 {
        push_str(s, "Missing watched paths (");
        push_decimal(s, missing.len() as u64);
        push_str(s, "):\n");
        let ghost head = s@;
        let mut k: usize = 0;
        proof {
            assert(strings_view(missing@).take(0) =~= Seq::<Seq<char>>::empty());
            assert(head + indented_lines(Seq::<Seq<char>>::empty()) =~= head);
        }
        while k < missing.len()
            invariant
                k <= missing.len(),
                s@ == head + indented_lines(strings_view(missing@).take(k as int)),
            decreases missing.len() - k,
        {
            proof {
                assert(strings_view(missing@).take(k + 1).drop_last() =~= strings_view(missing@).take(k as int));
                assert(strings_view(missing@).take(k + 1).last() == missing@[k as int]@);
            }
            push_str(s, "  ");
            push_str(s, missing[k].as_str());
            push_str(s, "\n");
            proof {
                let t = strings_view(missing@).take(k as int);
                assert(head + indented_lines(t) + "  "@ + missing@[k as int]@ + "\n"@
                    =~= head + (indented_lines(t) + "  "@ + missing@[k as int]@ + "\n"@));
            }
            k = k + 1;
        }
        proof {
            assert(strings_view(missing@).take(missing.len() as int) =~= strings_view(missing@));
            let ml = strings_view(missing@);
            assert(start + missing_section(watched@) =~= after_note
                + ("Missing watched paths ("@ + decimal(ml.len()) + "):\n"@ + indented_lines(ml)));
        }
    } else {
        proof {
            assert(start + missing_section(watched@) =~= after_note);
        }
    }
}

/// Builds the doctor report.
pub fn doctor_report(f: &DoctorFacts) -> (r: String)
    ensures
        r@ == doctor_text(*f),
{
    let mut s = String::new();
    push_str(&mut s, "# Backup Sync Doctor Report\n");
    push_str(&mut s, "Generated: ");
    push_str(&mut s, f.generated.as_str());
    push_str(&mut s, "\n\n");
    push_str(&mut s, "Config file: ");
    push_str(&mut s, f.config_path.as_str());
    push_str(&mut s, "\n");
    push_str(&mut s, "State file: ");
    push_str(&mut s, f.state_path.as_str());
    push_str(&mut s, "\n");
    push_str(&mut s, "Backup destination: ");
    push_str(&mut s, f.destination.as_str());
    push_str(&mut s, "\n");
    push_str(&mut s, "Destinations defined: ");
    push_decimal(&mut s, f.destinations_count as u64);
    push_str(&mut s, "\n");
    push_str(&mut s, "Watched entries: ");
    push_decimal(&mut s, f.watched.len() as u64);
    push_str(&mut s, "\n");
    let ghost before_missing = s@;
    push_missing_section(&mut s, &f.watched);
    let ghost before_free = s@;
    match &f.free_space {
        Ok(bytes) => {
            push_str(&mut s, "Free space at destination: ");
            push_decimal(&mut s, *bytes);
            push_str(&mut s, " bytes\n");
            match f.min_free_space_bytes {
                Some(m) => {
                    if *bytes < m {
                        push_str(&mut s, "Problem: free space below configured minimum ");
                        push_decimal(&mut s, m);
                        push_str(&mut s, "\n");
                    }
                },
                None => {},
            }
        },
        Err(e) => {
            push_str(&mut s, "Problem reading free space: ");
            push_str(&mut s, e.as_str());
            push_str(&mut s, "\n");
        },
    }
    proof {
        assert(s@ =~= before_free + free_space_section(f.free_space, f.min_free_space_bytes));
    }
    let ghost before_probe = s@;
    match &f.write_probe {
        Ok(()) => push_str(&mut s, "Write check: OK\n"),
        Err(e) => {
            push_str(&mut s, "Problem: cannot write to backup destination: ");
            push_str(&mut s, e.as_str());
            push_str(&mut s, ". Check destination permissions and available space.\n");
        },
    }
    proof {
        assert(s@ =~= before_probe + write_probe_section(f.write_probe));
    }
    push_str(&mut s, "Last error: ");
    push_str(&mut s, f.last_error_debug.as_str());
    push_str(&mut s, "\n");
    push_str(&mut s, "Last verify: ");
    push_debug_i64(&mut s, f.last_verify_ts);
    push_str(&mut s, " issues: ");
    push_debug_usize(&mut s, f.last_verify_issues);
    push_str(&mut s, "\n");
    s
}

} // verus!
