//! First-run hardening: the checks that must pass before background backups are
//! scheduled, and the report that gates enabling them.
use vstd::prelude::*;
use crate::destination::{StoragePlace, WatchedSource};
use crate::text::{
    decimal, join_with, lemma_seq_less_total, lemma_seq_less_transitive, push_decimal,
    push_signed_decimal, push_str, seq_less, signed_decimal, str_eq, str_less, strings_view, join_strings,
};

verus! {

/// Which optional checks a hardening run makes.
#[derive(Debug)]
pub struct HardeningCheckRequest {
    pub check_snapshots: bool,
    pub require_snapshots: bool,
}

/// A watched path that cannot be read, and why.
#[derive(Debug)]
pub struct WatchedIssue {
    pub path: String,
    pub kind: String,
    pub issue: String,
}

/// The outcome of probing one destination store.
#[derive(Debug)]
pub struct DestinationHardening {
    pub id: String,
    pub path: String,
    pub ok: bool,
    pub free_bytes: Option<u64>,
    pub required_free_bytes: u64,
    pub message: String,
}

/// The outcome of probing snapshot support.
#[derive(Debug)]
pub struct SnapshotHardening {
    pub checked: bool,
    pub supported: bool,
    pub message: String,
}

/// Whether scheduling may be enabled, with the evidence.
#[derive(Debug)]
pub struct HardeningReport {
    pub ok: bool,
    pub message: String,
    pub watched_ok: Vec<String>,
    pub watched_issues: Vec<WatchedIssue>,
    pub destinations: Vec<DestinationHardening>,
    pub snapshots: SnapshotHardening,
}

/// The request to run: the given one, or no optional checks at all.
pub fn resolve_request(request: Option<HardeningCheckRequest>) -> (r: HardeningCheckRequest)
    ensures
        request matches Some(q) ==> r == q,
        request is None ==> !r.check_snapshots && !r.require_snapshots,
{
    match request {
        Some(q) => q,
        None => HardeningCheckRequest { check_snapshots: false, require_snapshots: false },
    }
}

/// The free space a destination needs: the configured minimum (zero when unset) or the
/// safety buffer, whichever is larger.
pub fn required_free_bytes(min_free_space_bytes: Option<u64>, safety_buffer_bytes: u64) -> (r: u64)
    ensures
        ({
            let m = match min_free_space_bytes { Some(v) => v, None => 0u64 };
            r == if m >= safety_buffer_bytes { m } else { safety_buffer_bytes }
        }),
{
    let m = match min_free_space_bytes {
        Some(v) => v,
        None => 0,
    };
    if m >= safety_buffer_bytes { m } else { safety_buffer_bytes }
}

/// The positions of the enabled watched entries, in order: the ones a hardening run probes.
pub fn enabled_indices(watched: &Vec<WatchedSource>) -> (r: Vec<usize>)
    ensures
        forall|k: int| 0 <= k < r@.len() ==> r@[k] < watched@.len() && watched@[r@[k] as int].enabled,
        forall|a: int, b: int| 0 <= a < b < r@.len() ==> r@[a] < r@[b],
        forall|i: int| 0 <= i < watched@.len() && watched@[i].enabled ==> exists|k: int| 0 <= k < r@.len() && r@[k] == i,
{
    let mut out: Vec<usize> = Vec::new();
    let mut i: usize = 0;
    while i < watched.len()
        invariant
            i <= watched.len(),
            forall|k: int| 0 <= k < out@.len() ==> out@[k] < i && watched@[out@[k] as int].enabled,
            forall|a: int, b: int| 0 <= a < b < out@.len() ==> out@[a] < out@[b],
            forall|j: int| 0 <= j < i && watched@[j].enabled ==> exists|k: int| 0 <= k < out@.len() && out@[k] == j,
        decreases watched.len() - i,
    {
        if watched[i].enabled {
            let ghost before = out@;
            out.push(i);
            proof {
                assert forall|j: int| 0 <= j < i + 1 && watched@[j].enabled implies exists|k: int| 0 <= k < out@.len() && out@[k] == j by {
                    if j < i {
                        let k = choose|k: int| 0 <= k < before.len() && before[k] == j;
                        assert(out@[k] == j);
                    } else {
                        assert(out@[before.len() as int] == j);
                    }
                }
            }
        }
        i = i + 1;
    }
    out
}

/// What probing a watched path found, in the order the checks are made.
#[derive(Debug)]
pub enum WatchedPathProbe {
    Missing,
    MetadataFailed(String),
    OpenFailed(String),
    ReadDirFailed(String),
    IterationFailed(String),
    Readable,
}

/// The issue a probe outcome reports, if any.
pub open spec fn probe_issue(p: WatchedPathProbe) -> Option<Seq<char>> {
    match p {
        WatchedPathProbe::Missing => Some("missing"@),
        WatchedPathProbe::MetadataFailed(e) => Some("metadata failed: "@ + e@),
        WatchedPathProbe::OpenFailed(e) => Some("open failed: "@ + e@),
        WatchedPathProbe::ReadDirFailed(e) => Some("read_dir failed: "@ + e@),
        WatchedPathProbe::IterationFailed(e) => Some("read_dir iteration failed: "@ + e@),
        WatchedPathProbe::Readable => None,
    }
}

fn prefixed(prefix: &str, detail: &str) -> (r: String)
    ensures
        r@ == prefix@ + detail@,
{
    let mut s = String::new();
    push_str(&mut s, prefix);
    push_str(&mut s, detail);
    s
}

/// The issue text for a probe outcome, or `None` when the path is readable.
pub fn watched_probe_issue(probe: WatchedPathProbe) -> (r: Option<String>)
    ensures
        match probe_issue(probe) {
            Some(m) => r matches Some(s) && s@ == m,
            None => r is None,
        },
{
    match probe {
        WatchedPathProbe::Missing => Some(String::from_str("missing")),
        WatchedPathProbe::MetadataFailed(e) => Some(prefixed("metadata failed: ", e.as_str())),
        WatchedPathProbe::OpenFailed(e) => Some(prefixed("open failed: ", e.as_str())),
        WatchedPathProbe::ReadDirFailed(e) => Some(prefixed("read_dir failed: ", e.as_str())),
        WatchedPathProbe::IterationFailed(e) => Some(prefixed("read_dir iteration failed: ", e.as_str())),
        WatchedPathProbe::Readable => None,
    }
}

/// One probed watched path: its display text, its kind as shown, and the outcome.
#[derive(Debug)]
pub struct ProbedPath {
    pub path: String,
    pub kind: String,
    pub probe: WatchedPathProbe,
}

/// The readable paths, in order.
pub open spec fn readable_paths(v: Seq<ProbedPath>) -> Seq<Seq<char>>
    decreases v.len(),
{
    if v.len() == 0 {
        Seq::empty()
    } else if probe_issue(v.last().probe) is None {
        readable_paths(v.drop_last()).push(v.last().path@)
    } else {
        readable_paths(v.drop_last())
    }
}

/// The unreadable paths with their kinds and issues, in order.
pub open spec fn path_issues(v: Seq<ProbedPath>) -> Seq<(Seq<char>, Seq<char>, Seq<char>)>
    decreases v.len(),
{
    if v.len() == 0 {
        Seq::empty()
    } else {
        match probe_issue(v.last().probe) {
            Some(m) => path_issues(v.drop_last()).push((v.last().path@, v.last().kind@, m)),
            None => path_issues(v.drop_last()),
        }
    }
}

/// The views of watched issues.
pub open spec fn issues_view(v: Seq<WatchedIssue>) -> Seq<(Seq<char>, Seq<char>, Seq<char>)> {
    v.map_values(|w: WatchedIssue| (w.path@, w.kind@, w.issue@))
}

/// Sorts probed paths into the readable ones and the issues, keeping their order.
pub fn summarize_watched(probed: Vec<ProbedPath>) -> (r: (Vec<String>, Vec<WatchedIssue>))
    ensures
        strings_view(r.0@) == readable_paths(probed@),
        issues_view(r.1@) == path_issues(probed@),
{
    let mut ok: Vec<String> = Vec::new();
    let mut issues: Vec<WatchedIssue> = Vec::new();
    let rest = probed;
    let ghost all = rest@;
    let mut i: usize = 0;
    proof {
        assert(all.take(0) =~= Seq::<ProbedPath>::empty());
    }
    while i < rest.len()
        invariant
            rest@ == all,
            i <= rest.len(),
            strings_view(ok@) == readable_paths(all.take(i as int)),
            issues_view(issues@) == path_issues(all.take(i as int)),
        decreases rest.len() - i,
    {
        let p = &rest[i];
        proof {
            assert(all.take(i + 1).drop_last() =~= all.take(i as int));
            assert(all.take(i + 1).last() == all[i as int]);
        }
        let path = p.path.clone();
        let kind = p.kind.clone();
        let issue = match &p.probe {
            WatchedPathProbe::Missing => Some(String::from_str("missing")),
            WatchedPathProbe::MetadataFailed(e) => Some(prefixed("metadata failed: ", e.as_str())),
            WatchedPathProbe::OpenFailed(e) => Some(prefixed("open failed: ", e.as_str())),
            WatchedPathProbe::ReadDirFailed(e) => Some(prefixed("read_dir failed: ", e.as_str())),
            WatchedPathProbe::IterationFailed(e) => Some(prefixed("read_dir iteration failed: ", e.as_str())),
            WatchedPathProbe::Readable => None,
        };
        match issue {
            Some(m) => {
                issues.push(WatchedIssue { path, kind, issue: m });
                proof {
                    assert(issues_view(issues@) =~= path_issues(all.take(i as int)).push(
                        (all[i as int].path@, all[i as int].kind@, probe_issue(all[i as int].probe)->0)));
                }
            },
            None => {
                ok.push(path);
                proof {
                    assert(strings_view(ok@) =~= readable_paths(all.take(i as int)).push(all[i as int].path@));
                }
            },
        }
        i = i + 1;
    }
    proof {
        assert(all.take(rest.len() as int) =~= all);
    }
    (ok, issues)
}

/// The ids are in strictly increasing order.
pub open spec fn strictly_sorted(ids: Seq<Seq<char>>) -> bool {
    forall|a: int, b: int| 0 <= a < b < ids.len() ==> seq_less(ids[a], ids[b])
}

/// Some enabled watched entry sends its backups to location `id`.
pub open spec fn wanted(watched: Seq<WatchedSource>, id: Seq<char>) -> bool {
    exists|i: int| 0 <= i < watched.len() && watched[i].enabled && watched[i].destination_id@ == id
}

/// The folder of the last configured location with id `id` (a later entry with the same
/// id replaces an earlier one).
pub open spec fn last_place_path(places: Seq<StoragePlace>, id: Seq<char>) -> Option<Seq<char>>
    decreases places.len(),
{
    if places.len() == 0 {
        None
    } else if places.last().id@ == id {
        Some(places.last().path@)
    } else {
        last_place_path(places.drop_last(), id)
    }
}

/// A destination the enabled watched entries need, with its folder when it is configured.
#[derive(Debug)]
pub struct RequiredDestination {
    pub id: String,
    pub path: Option<String>,
}

fn insert_sorted(ids: &mut Vec<String>, id: &str)
    requires
        strictly_sorted(strings_view(old(ids)@)),
    ensures
        strictly_sorted(strings_view(final(ids)@)),
        forall|k: int| 0 <= k < final(ids)@.len() ==> (#[trigger] final(ids)@[k])@ == id@
            || exists|j: int| 0 <= j < old(ids)@.len() && old(ids)@[j]@ == final(ids)@[k]@,
        forall|j: int| 0 <= j < old(ids)@.len() ==> exists|k: int| 0 <= k < final(ids)@.len()
            && (#[trigger] old(ids)@[j])@ == final(ids)@[k]@,
        exists|k: int| 0 <= k < final(ids)@.len() && final(ids)@[k]@ == id@,
{
    let mut pos: usize = 0;
    while pos < ids.len() && str_less(ids[pos].as_str(), id)
        invariant
            pos <= ids.len(),
            forall|k: int| 0 <= k < pos ==> seq_less(ids@[k]@, id@),
        decreases ids.len() - pos,
    {
        pos = pos + 1;
    }
    if pos < ids.len() && str_eq(ids[pos].as_str(), id) {
        return;
    }
    let ghost before = ids@;
    proof {
        if pos < before.len() {
            lemma_seq_less_total(before[pos as int]@, id@);
        }
    }
    ids.insert(pos, String::from_str(id));
    proof {
        assert(ids@ =~= before.insert(pos as int, ids@[pos as int]));
        assert forall|a: int, b: int| 0 <= a < b < ids@.len() implies seq_less(strings_view(ids@)[a], strings_view(ids@)[b]) by {
            if b < pos {
                assert(ids@[a] == before[a] && ids@[b] == before[b]);
                assert(seq_less(strings_view(before)[a], strings_view(before)[b]));
            } else if b == pos {
                assert(ids@[a] == before[a]);
            } else if a == pos {
                assert(ids@[b] == before[b - 1]);
                if b - 1 > pos {
                    assert(seq_less(strings_view(before)[pos as int], strings_view(before)[b - 1]));
                    lemma_seq_less_transitive(id@, before[pos as int]@, before[b - 1]@);
                }
            } else if a < pos {
                assert(ids@[a] == before[a] && ids@[b] == before[b - 1]);
                assert(seq_less(before[a]@, id@));
                assert(seq_less(id@, before[pos as int]@));
                if b - 1 > pos {
                    assert(seq_less(strings_view(before)[pos as int], strings_view(before)[b - 1]));
                    lemma_seq_less_transitive(id@, before[pos as int]@, before[b - 1]@);
                }
                lemma_seq_less_transitive(before[a]@, id@, before[b - 1]@);
            } else {
                assert(ids@[a] == before[a - 1] && ids@[b] == before[b - 1]);
                assert(seq_less(strings_view(before)[a - 1], strings_view(before)[b - 1]));
            }
        }
        assert forall|k: int| 0 <= k < ids@.len() implies (#[trigger] ids@[k])@ == id@
            || exists|j: int| 0 <= j < before.len() && before[j]@ == ids@[k]@ by {
            if k < pos {
                assert(before[k] == ids@[k]);
            } else if k > pos {
                assert(before[k - 1] == ids@[k]);
            }
        }
        assert forall|j: int| 0 <= j < before.len() implies exists|k: int| 0 <= k < ids@.len()
            && (#[trigger] before[j])@ == ids@[k]@ by {
            if j < pos {
                assert(before[j] == ids@[j]);
            } else {
                assert(before[j] == ids@[j + 1]);
            }
        }
        assert(ids@[pos as int]@ == id@);
    }
}

/// The destinations the enabled watched entries need: each id once, in increasing
/// order, each with the folder of the last configured location carrying that id.
pub fn required_destinations(watched: &Vec<WatchedSource>, places: &Vec<StoragePlace>) -> (r: Vec<RequiredDestination>)
    ensures
        strictly_sorted(r@.map_values(|d: RequiredDestination| d.id@)),
        forall|k: int| 0 <= k < r@.len() ==> wanted(watched@, #[trigger] r@[k].id@),
        forall|i: int| 0 <= i < watched@.len() && watched@[i].enabled ==>
            exists|k: int| 0 <= k < r@.len() && r@[k].id@ == (#[trigger] watched@[i]).destination_id@,
        forall|k: int| 0 <= k < r@.len() ==> crate::text::opt_view(#[trigger] r@[k].path) == last_place_path(places@, r@[k].id@),
{
    let mut ids: Vec<String> = Vec::new();
    let mut i: usize = 0;
    while i < watched.len()
        invariant
            i <= watched.len(),
            strictly_sorted(strings_view(ids@)),
            forall|k: int| 0 <= k < ids@.len() ==> wanted(watched@, #[trigger] ids@[k]@),
            forall|j: int| 0 <= j < i && watched@[j].enabled ==>
                exists|k: int| 0 <= k < ids@.len() && ids@[k]@ == (#[trigger] watched@[j]).destination_id@,
        decreases watched.len() - i,
    {
        if watched[i].enabled {
            let ghost before = ids@;
            insert_sorted(&mut ids, watched[i].destination_id.as_str());
            proof {
                assert forall|k: int| 0 <= k < ids@.len() implies wanted(watched@, #[trigger] ids@[k]@) by {
                    if ids@[k]@ == watched@[i as int].destination_id@ {
                    } else {
                        let j = choose|j: int| 0 <= j < before.len() && before[j]@ == ids@[k]@;
                        assert(wanted(watched@, before[j]@));
                    }
                }
                assert forall|j: int| 0 <= j < i + 1 && watched@[j].enabled implies
                    exists|k: int| 0 <= k < ids@.len() && ids@[k]@ == (#[trigger] watched@[j]).destination_id@ by {
                    if j < i {
                        let k0 = choose|k0: int| 0 <= k0 < before.len() && before[k0]@ == watched@[j].destination_id@;
                        assert(exists|k: int| 0 <= k < ids@.len() && (before[k0])@ == ids@[k]@);
                    }
                }
            }
        }
        i = i + 1;
    }
    let mut out: Vec<RequiredDestination> = Vec::new();
    let mut k: usize = 0;
    while k < ids.len()
        invariant
            k <= ids.len(),
            out@.len() == k,
            forall|m: int| 0 <= m < k ==> (#[trigger] out@[m]).id@ == ids@[m]@,
            forall|m: int| 0 <= m < k ==> crate::text::opt_view((#[trigger] out@[m]).path) == last_place_path(places@, out@[m].id@),
        decreases ids.len() - k,
    {
        let id = ids[k].as_str();
        let mut found: Option<String> = None;
        let mut j: usize = 0;
        proof {
            assert(places@.take(0) =~= Seq::<StoragePlace>::empty());
        }
        while j < places.len()
            invariant
                j <= places.len(),
                crate::text::opt_view(found) == last_place_path(places@.take(j as int), id@),
            decreases places.len() - j,
        {
            proof {
                assert(places@.take(j + 1).drop_last() =~= places@.take(j as int));
                assert(places@.take(j + 1).last() == places@[j as int]);
            }
            if str_eq(places[j].id.as_str(), id) {
                found = Some(places[j].path.clone());
            }
            j = j + 1;
        }
        proof {
            assert(places@.take(places.len() as int) =~= places@);
        }
        out.push(RequiredDestination { id: ids[k].clone(), path: found });
        k = k + 1;
    }
    proof {
        let v = out@.map_values(|d: RequiredDestination| d.id@);
        assert(v =~= strings_view(ids@));
        assert forall|m: int| 0 <= m < out@.len() implies wanted(watched@, #[trigger] out@[m].id@) by {
            assert(wanted(watched@, ids@[m]@));
        }
        assert forall|i2: int| 0 <= i2 < watched@.len() && watched@[i2].enabled implies
            exists|m: int| 0 <= m < out@.len() && out@[m].id@ == (#[trigger] watched@[i2]).destination_id@ by {
            let m = choose|m: int| 0 <= m < ids@.len() && ids@[m]@ == watched@[i2].destination_id@;
            assert(out@[m].id@ == ids@[m]@);
        }
    }
    out
}

/// The record for a destination the watched entries name but the configuration lacks.
pub fn missing_destination(id: &str, required_free_bytes: u64) -> (r: DestinationHardening)
    ensures
        r.id@ == id@,
        r.path@.len() == 0,
        !r.ok,
        r.free_bytes is None,
        r.required_free_bytes == required_free_bytes,
        r.message@ == "missing destination config for watched path"@,
{
    DestinationHardening {
        id: String::from_str(id),
        path: String::new(),
        ok: false,
        free_bytes: None,
        required_free_bytes,
        message: String::from_str("missing destination config for watched path"),
    }
}

/// Where a destination store probe stands.
#[derive(Debug)]
pub enum StoreProbeStage {
    InspectingPath,
    CreatingDestination,
    ReadingFreeSpace,
    CreatingStore,
    WritingProbe,
    Finished,
}

/// What the last piece of probing reported.
#[derive(Debug)]
pub enum StoreProbeEvent {
    /// Whether the destination path is present and whether it is a regular file.
    PathInspected { present: bool, is_file: bool },
    /// Creating the destination folder finished.
    DestinationCreated(Result<(), String>),
    /// Reading the free space finished.
    FreeSpace(Result<u64, String>),
    /// Creating the store folder `store_root` finished.
    StoreCreated { store_root: String, result: Result<(), String> },
    /// Writing, flushing and removing the probe file finished; which step failed, on what
    /// file and with what error, on failure.
    ProbeWritten(Result<(), ProbeFileFailure>),
}

/// A failed step of writing the probe file: the step, the probe file's path and the error.
#[derive(Debug)]
pub struct ProbeFileFailure {
    pub step: ProbeFileStep,
    pub probe_path: String,
    pub error: String,
}

/// The message for a failed probe-file step: `cannot <verb> probe file <path>: <error>`.
pub open spec fn probe_file_message(step: ProbeFileStep, probe_path: Seq<char>, error: Seq<char>) -> Seq<char> {
    let verb = match step {
        ProbeFileStep::Create => "cannot create probe file "@,
        ProbeFileStep::Write => "cannot write probe file "@,
        ProbeFileStep::Remove => "cannot remove probe file "@,
    };
    verb + probe_path + ": "@ + error
}

/// The probing to do next.
#[derive(Debug)]
pub enum StoreProbeAction {
    InspectPath,
    CreateDestination,
    ReadFreeSpace,
    CreateStore,
    WriteProbe,
    Finish(DestinationHardening),
}

/// A destination store probe in progress.
#[derive(Debug)]
pub struct StoreProbe {
    pub id: String,
    pub path: String,
    pub required_free_bytes: u64,
    pub free_bytes: Option<u64>,
    pub stage: StoreProbeStage,
}

impl StoreProbe {
    /// Free space is unknown until it is read, and has been found sufficient before the store
    /// is touched.
    pub open spec fn wf(&self) -> bool {
        &&& (self.stage is CreatingStore || self.stage is WritingProbe) ==>
            (self.free_bytes matches Some(f) && f >= self.required_free_bytes)
        &&& (self.stage is InspectingPath || self.stage is CreatingDestination || self.stage is ReadingFreeSpace) ==>
            self.free_bytes is None
    }
}

/// The events each probe stage waits for.
pub open spec fn probe_expects(stage: StoreProbeStage, event: StoreProbeEvent) -> bool {
    match stage {
        StoreProbeStage::InspectingPath => event is PathInspected,
        StoreProbeStage::CreatingDestination => event is DestinationCreated,
        StoreProbeStage::ReadingFreeSpace => event is FreeSpace,
        StoreProbeStage::CreatingStore => event is StoreCreated,
        StoreProbeStage::WritingProbe => event is ProbeWritten,
        StoreProbeStage::Finished => false,
    }
}

/// Whether the probe waits for `event` now.
pub fn probe_stage_expects(stage: &StoreProbeStage, event: &StoreProbeEvent) -> (r: bool)
    ensures
        r == probe_expects(*stage, *event),
{
    match stage {
        StoreProbeStage::InspectingPath => matches!(event, StoreProbeEvent::PathInspected { .. }),
        StoreProbeStage::CreatingDestination => matches!(event, StoreProbeEvent::DestinationCreated(_)),
        StoreProbeStage::ReadingFreeSpace => matches!(event, StoreProbeEvent::FreeSpace(_)),
        StoreProbeStage::CreatingStore => matches!(event, StoreProbeEvent::StoreCreated { .. }),
        StoreProbeStage::WritingProbe => matches!(event, StoreProbeEvent::ProbeWritten(_)),
        StoreProbeStage::Finished => false,
    }
}

fn finish(p: &mut StoreProbe, ok: bool, message: String) -> (r: StoreProbeAction)
    ensures
        final(p).stage is Finished,
        final(p).id == old(p).id,
        final(p).path == old(p).path,
        final(p).required_free_bytes == old(p).required_free_bytes,
        final(p).free_bytes == old(p).free_bytes,
        r matches StoreProbeAction::Finish(d) && d.id == old(p).id && d.path == old(p).path && d.ok == ok
            && d.free_bytes == old(p).free_bytes && d.required_free_bytes == old(p).required_free_bytes
            && d.message == message,
{
    p.stage = StoreProbeStage::Finished;
    StoreProbeAction::Finish(DestinationHardening {
        id: p.id.clone(),
        path: p.path.clone(),
        ok,
        free_bytes: p.free_bytes,
        required_free_bytes: p.required_free_bytes,
        message,
    })
}

/// Starts probing destination `id` at `path`. An empty path fails at once; otherwise
/// the path is inspected first.
pub fn start_store_probe(id: &str, path: &str, required_free_bytes: u64) -> (r: (StoreProbe, StoreProbeAction))
    ensures
        r.0.wf(),
        r.0.id@ == id@,
        r.0.path@ == path@,
        r.0.required_free_bytes == required_free_bytes,
        r.0.free_bytes is None,
        path@.len() == 0 ==> r.0.stage is Finished && (r.1 matches StoreProbeAction::Finish(d) && !d.ok
            && d.id@ == id@ && d.path@ == path@ && d.free_bytes is None
            && d.required_free_bytes == required_free_bytes && d.message@ == "destination path is empty"@),
        path@.len() > 0 ==> r.0.stage is InspectingPath && r.1 is InspectPath,
{
    let mut p = StoreProbe {
        id: String::from_str(id),
        path: String::from_str(path),
        required_free_bytes,
        free_bytes: None,
        stage: StoreProbeStage::InspectingPath,
    };
    if path.unicode_len() == 0 {
        let a = finish(&mut p, false, String::from_str("destination path is empty"));
        return (p, a);
    }
    (p, StoreProbeAction::InspectPath)
}

/// Advances a store probe. The store is created and written to only after the free space
/// was read and found to be at least the required amount, and only a written, flushed and
/// removed probe file makes the destination `ok`.
pub fn store_probe_step(p: &mut StoreProbe, event: StoreProbeEvent) -> (a: StoreProbeAction)
    requires
        old(p).wf(),
        probe_expects(old(p).stage, event),
    ensures
        final(p).wf(),
        final(p).id == old(p).id,
        final(p).path == old(p).path,
        final(p).required_free_bytes == old(p).required_free_bytes,
        a matches StoreProbeAction::Finish(d) ==> d.id == old(p).id && d.path == old(p).path
            && d.required_free_bytes == old(p).required_free_bytes && d.free_bytes == final(p).free_bytes
            && final(p).stage is Finished
            && (d.ok <==> event matches StoreProbeEvent::ProbeWritten(Ok(_)))
            && (d.ok ==> (d.free_bytes matches Some(f) && f >= d.required_free_bytes)),
        (a is CreateStore || a is WriteProbe) ==> (final(p).free_bytes matches Some(f) && f >= final(p).required_free_bytes),
        match event {
            StoreProbeEvent::PathInspected { present, is_file } => if present && is_file {
                (a matches StoreProbeAction::Finish(d) && d.message@ == "destination points to a file; choose a folder"@)
            } else {
                a is CreateDestination && final(p).stage is CreatingDestination
            },
            StoreProbeEvent::DestinationCreated(Ok(_)) => a is ReadFreeSpace && final(p).stage is ReadingFreeSpace,
            StoreProbeEvent::DestinationCreated(Err(e)) =>
                a matches StoreProbeAction::Finish(d) && d.message@ == "cannot create destination directory: "@ + e@,
            StoreProbeEvent::FreeSpace(Ok(free)) => final(p).free_bytes == Some(free) && if free < old(p).required_free_bytes {
                (a matches StoreProbeAction::Finish(d) && d.message@ == "insufficient free space (need >= "@
                    + decimal(old(p).required_free_bytes as nat) + " bytes)"@)
            } else {
                a is CreateStore && final(p).stage is CreatingStore
            },
            StoreProbeEvent::FreeSpace(Err(e)) =>
                a matches StoreProbeAction::Finish(d) && d.free_bytes is None && d.message@ == "cannot read free space: "@ + e@,
            StoreProbeEvent::StoreCreated { store_root, result } => match result {
                Ok(_) => a is WriteProbe && final(p).stage is WritingProbe,
                Err(e) => a matches StoreProbeAction::Finish(d)
                    && d.message@ == "cannot create store directory "@ + store_root@ + ": "@ + e@,
            },
            StoreProbeEvent::ProbeWritten(Ok(_)) => a matches StoreProbeAction::Finish(d) && d.message@ == "ok"@,
            StoreProbeEvent::ProbeWritten(Err(f)) => a matches StoreProbeAction::Finish(d)
                && d.message@ == probe_file_message(f.step, f.probe_path@, f.error@),
        },
        // Only a passed probe reads `ok`.
        a matches StoreProbeAction::Finish(d) ==> (d.ok <==> d.message@ == "ok"@),
{
    proof {
        reveal_strlit("ok");
        reveal_strlit("destination points to a file; choose a folder");
        reveal_strlit("cannot create destination directory: ");
        reveal_strlit("insufficient free space (need >= ");
        reveal_strlit("cannot read free space: ");
        reveal_strlit("cannot create store directory ");
        assert("ok"@.len() == 2);
    }
    match event {
        StoreProbeEvent::PathInspected { present, is_file } => {
            if present && is_file {
                return finish(p, false, String::from_str("destination points to a file; choose a folder"));
            }
            p.stage = StoreProbeStage::CreatingDestination;
            StoreProbeAction::CreateDestination
        },
        StoreProbeEvent::DestinationCreated(Ok(())) => {
            p.stage = StoreProbeStage::ReadingFreeSpace;
            StoreProbeAction::ReadFreeSpace
        },
        StoreProbeEvent::DestinationCreated(Err(e)) => {
            finish(p, false, prefixed("cannot create destination directory: ", e.as_str()))
        },
        StoreProbeEvent::FreeSpace(Ok(free)) => {
            p.free_bytes = Some(free);
            if free < p.required_free_bytes {
                let mut m = String::new();
                push_str(&mut m, "insufficient free space (need >= ");
                push_decimal(&mut m, p.required_free_bytes);
                push_str(&mut m, " bytes)");
                return finish(p, false, m);
            }
            p.stage = StoreProbeStage::CreatingStore;
            StoreProbeAction::CreateStore
        },
        StoreProbeEvent::FreeSpace(Err(e)) => {
            finish(p, false, prefixed("cannot read free space: ", e.as_str()))
        },
        StoreProbeEvent::StoreCreated { store_root, result } => {
            match result {
                Ok(()) => {
                    p.stage = StoreProbeStage::WritingProbe;
                    StoreProbeAction::WriteProbe
                },
                Err(e) => {
                    let mut m = String::new();
                    push_str(&mut m, "cannot create store directory ");
                    push_str(&mut m, store_root.as_str());
                    push_str(&mut m, ": ");
                    push_str(&mut m, e.as_str());
                    finish(p, false, m)
                },
            }
        },
        StoreProbeEvent::ProbeWritten(Ok(())) => finish(p, true, String::from_str("ok")),
        StoreProbeEvent::ProbeWritten(Err(f)) => {
            let m = probe_file_error(f.step, f.probe_path.as_str(), f.error.as_str());
            proof {
                reveal_strlit("cannot create probe file ");
                reveal_strlit("cannot write probe file ");
                reveal_strlit("cannot remove probe file ");
                reveal_strlit("ok");
                assert(m@.len() > 2);
            }
            finish(p, false, m)
        },
    }
}

/// The name of the probe file written under a store: `.hardening_probe_<token>.bin`.
pub fn probe_file_name(token: i64) -> (r: String)
    ensures
        r@ == ".hardening_probe_"@ + signed_decimal(token as int) + ".bin"@,
{
    let mut s = String::new();
    push_str(&mut s, ".hardening_probe_");
    push_signed_decimal(&mut s, token);
    push_str(&mut s, ".bin");
    s
}

/// The step of the probe-file write that failed.
#[derive(Debug)]
pub enum ProbeFileStep {
    Create,
    Write,
    Remove,
}

/// The message for a failed probe-file step: `cannot <verb> probe file <path>: <error>`.
pub fn probe_file_error(step: ProbeFileStep, probe_path: &str, error: &str) -> (r: String)
    ensures
        r@ == probe_file_message(step, probe_path@, error@),
{
    let mut s = String::new();
    match step {
        ProbeFileStep::Create => push_str(&mut s, "cannot create probe file "),
        ProbeFileStep::Write => push_str(&mut s, "cannot write probe file "),
        ProbeFileStep::Remove => push_str(&mut s, "cannot remove probe file "),
    }
    push_str(&mut s, probe_path);
    push_str(&mut s, ": ");
    push_str(&mut s, error);
    s
}

/// The snapshot record when snapshot support was not probed.
pub fn snapshot_not_checked() -> (r: SnapshotHardening)
    ensures
        !r.checked,
        !r.supported,
        r.message@ == "not checked"@,
{
    SnapshotHardening { checked: false, supported: false, message: String::from_str("not checked") }
}

/// The time allowed for the snapshot probe: the source snapshot timeout, capped by the
/// hardening probe timeout (taken as at least one second).
pub fn snapshot_probe_timeout(source_snapshot_timeout_seconds: u64, hardening_probe_timeout_seconds: u64) -> (r: u64)
    ensures
        ({
            let cap = if hardening_probe_timeout_seconds >= 1 { hardening_probe_timeout_seconds } else { 1u64 };
            r == if source_snapshot_timeout_seconds <= cap { source_snapshot_timeout_seconds } else { cap }
        }),
{
    let cap = if hardening_probe_timeout_seconds >= 1 { hardening_probe_timeout_seconds } else { 1 };
    if source_snapshot_timeout_seconds <= cap { source_snapshot_timeout_seconds } else { cap }
}

/// What preparing a snapshot-backed view of the first enabled source gave.
#[derive(Debug)]
pub enum SnapshotOutcome {
    /// No enabled watched path to try.
    NoWatchedPaths,
    /// A snapshot was taken.
    Supported,
    /// The view was prepared without a snapshot; the reason, when one was given.
    Unavailable(Option<String>),
    /// Preparing the view failed with this error chain.
    Failed(String),
}

/// The snapshot message for an unavailable snapshot.
pub open spec fn unavailable_message(require: bool, detail: Seq<char>) -> Seq<char> {
    if require { "unavailable (required): "@ + detail } else { "unavailable: "@ + detail }
}

/// The snapshot record for a probe outcome.
pub fn snapshot_hardening(outcome: SnapshotOutcome, require_snapshots: bool) -> (r: SnapshotHardening)
    ensures
        r.checked,
        r.supported == (outcome is Supported),
        r.message@ == match outcome {
            SnapshotOutcome::NoWatchedPaths => "no watched paths configured"@,
            SnapshotOutcome::Supported => "supported"@,
            SnapshotOutcome::Unavailable(Some(d)) => unavailable_message(require_snapshots, d@),
            SnapshotOutcome::Unavailable(None) =>
                unavailable_message(require_snapshots, "snapshot unavailable on this platform/path"@),
            SnapshotOutcome::Failed(e) => unavailable_message(require_snapshots, e@),
        },
{
    let detail = match outcome {
        SnapshotOutcome::NoWatchedPaths => {
            return SnapshotHardening {
                checked: true,
                supported: false,
                message: String::from_str("no watched paths configured"),
            };
        },
        SnapshotOutcome::Supported => {
            return SnapshotHardening { checked: true, supported: true, message: String::from_str("supported") };
        },
        SnapshotOutcome::Unavailable(Some(d)) => d,
        SnapshotOutcome::Unavailable(None) => String::from_str("snapshot unavailable on this platform/path"),
        SnapshotOutcome::Failed(e) => e,
    };
    let message = if require_snapshots {
        prefixed("unavailable (required): ", detail.as_str())
    } else {
        prefixed("unavailable: ", detail.as_str())
    };
    SnapshotHardening { checked: true, supported: false, message }
}

/// Every destination probe succeeded.
pub open spec fn all_destinations_ok(d: Seq<DestinationHardening>) -> bool {
    forall|i: int| 0 <= i < d.len() ==> #[trigger] d[i].ok
}

/// The snapshot requirement is met.
pub open spec fn snapshots_ok(s: SnapshotHardening, require: bool) -> bool {
    require ==> s.checked && s.supported
}

/// The problems the report names, in order.
pub open spec fn report_problems(watched_all_ok: bool, destinations_ok: bool, snapshot_ok: bool) -> Seq<Seq<char>> {
    let a = if watched_all_ok { Seq::<Seq<char>>::empty() } else { seq!["watched paths not readable"@] };
    let b = if destinations_ok { a } else { a.push("destination not writable or low space"@) };
    if snapshot_ok { b } else { b.push("snapshots required but unavailable"@) }
}

/// Snapshots that are required but not both checked and supported always make the report
/// fail, with `snapshots required but unavailable` as its last named problem; when they are
/// not required, or were checked and found supported, that problem is never named.
pub proof fn lemma_required_snapshots_must_be_available(
    watched_all_ok: bool,
    destinations_ok: bool,
    snapshots: SnapshotHardening,
    require: bool,
)
    ensures
        (require && !(snapshots.checked && snapshots.supported)) <==> !snapshots_ok(snapshots, require),
        (require && !snapshots.supported) ==> exists|prefix: Seq<char>| join_with(report_problems(watched_all_ok,
            destinations_ok, snapshots_ok(snapshots, require)), "; "@) == prefix + "snapshots required but unavailable"@,
        (!require || (snapshots.checked && snapshots.supported)) ==> !report_problems(watched_all_ok, destinations_ok,
            snapshots_ok(snapshots, require)).contains("snapshots required but unavailable"@),
{
    let ps = report_problems(watched_all_ok, destinations_ok, snapshots_ok(snapshots, require));
    let last = "snapshots required but unavailable"@;
    reveal_strlit("snapshots required but unavailable");
    reveal_strlit("watched paths not readable");
    reveal_strlit("destination not writable or low space");
    reveal_strlit("; ");
    if require && !snapshots.supported {
        assert(ps.last() == last);
        if ps.len() == 1 {
            assert(join_with(ps, "; "@) == Seq::<char>::empty() + last);
        } else {
            assert(join_with(ps, "; "@) == (join_with(ps.drop_last(), "; "@) + "; "@) + last);
        }
    }
    if !require || (snapshots.checked && snapshots.supported) {
        assert("watched paths not readable"@.len() != last.len());
        assert("destination not writable or low space"@.len() != last.len());
        if ps.contains(last) {
            let k = choose|k: int| 0 <= k < ps.len() && ps[k] == last;
            assert(ps[k] == "watched paths not readable"@ || ps[k] == "destination not writable or low space"@);
        }
    }
}

/// Builds the hardening report. Scheduling is safe (`ok`) exactly when every watched path
/// is readable, every destination probe succeeded, and snapshots are available where they
/// are required; otherwise the message lists the failing areas joined by `"; "`.
pub fn hardening_report(
    watched_ok: Vec<String>,
    watched_issues: Vec<WatchedIssue>,
    destinations: Vec<DestinationHardening>,
    snapshots: SnapshotHardening,
    require_snapshots: bool,
) -> (r: HardeningReport)
    ensures
        r.ok == (watched_issues@.len() == 0 && all_destinations_ok(destinations@)
            && snapshots_ok(snapshots, require_snapshots)),
        r.ok ==> r.message@ == "ok"@,
        !r.ok ==> r.message@ == join_with(report_problems(watched_issues@.len() == 0,
            all_destinations_ok(destinations@), snapshots_ok(snapshots, require_snapshots)), "; "@),
        r.watched_ok@ == watched_ok@,
        r.watched_issues@ == watched_issues@,
        r.destinations@ == destinations@,
        r.snapshots == snapshots,
{
    let mut destinations_ok = true;
    let mut i: usize = 0;
    while i < destinations.len()
        invariant
            i <= destinations.len(),
            destinations_ok == forall|k: int| 0 <= k < i ==> #[trigger] destinations@[k].ok,
        decreases destinations.len() - i,
    {
        destinations_ok = destinations_ok && destinations[i].ok;
        i = i + 1;
    }
    let watched_all_ok = watched_issues.len() == 0;
    let snapshot_ok = if require_snapshots { snapshots.checked && snapshots.supported } else { true };
    let ok = destinations_ok && watched_all_ok && snapshot_ok;
    let message = if ok {
        String::from_str("ok")
    } else {
        let mut parts: Vec<String> = Vec::new();
        if !watched_all_ok {
            parts.push(String::from_str("watched paths not readable"));
        }
        if !destinations_ok {
            parts.push(String::from_str("destination not writable or low space"));
        }
        if !snapshot_ok {
            parts.push(String::from_str("snapshots required but unavailable"));
        }
        proof {
            assert(strings_view(parts@) =~= report_problems(watched_all_ok, destinations_ok, snapshot_ok));
        }
        join_strings(&parts, "; ")
    };
    HardeningReport {
        ok,
        message,
        watched_ok,
        watched_issues,
        destinations,
        snapshots,
    }
}

} // verus!
