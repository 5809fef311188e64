//! Configuration commands: save and safe-mode results, and the consistency check for
//! removing a protected path.
use vstd::prelude::*;
use crate::error::{envelope_message, ErrorEnvelope};
use crate::destination::{paths_equal, same_path};
use crate::text::{push_str, str_eq};

verus! {

/// The outcome of saving the configuration, as the frontend reads it.
#[derive(Debug)]
pub struct ConfigSaveResult {
    pub daemon_restarted: bool,
    pub daemon_restart_scheduled: bool,
    pub daemon_restart_warning: Option<String>,
}

/// The outcome of changing safe mode.
#[derive(Debug)]
pub struct SafeModeUpdateResult {
    pub safe_mode: bool,
    pub applied_live: bool,
    pub warning: Option<String>,
}

/// The warning shown when saved versions were removed but the daemon did not restart.
pub open spec fn restart_warning(reason: Seq<char>) -> Seq<char> {
    "Protection and its saved versions were removed, but the background service could not restart automatically. Restart Backup Sync before changing more settings: "@
        + reason
}

/// The save result after a protected path was removed, from the outcome of restarting the
/// daemon.
pub fn config_save_result_from_restart_result(restart_result: Result<String, ErrorEnvelope>) -> (r: ConfigSaveResult)
    ensures
        restart_result is Ok ==> r.daemon_restarted && !r.daemon_restart_scheduled
            && r.daemon_restart_warning is None,
        restart_result matches Err(e) ==> (!r.daemon_restarted && !r.daemon_restart_scheduled
            && (r.daemon_restart_warning matches Some(w) && w@ == restart_warning(e.message@))),
{
    match restart_result {
        Ok(_) => ConfigSaveResult {
            daemon_restarted: true,
            daemon_restart_scheduled: false,
            daemon_restart_warning: None,
        },
        Err(error) => {
            let mut w = String::new();
            push_str(
                &mut w,
                "Protection and its saved versions were removed, but the background service could not restart automatically. Restart Backup Sync before changing more settings: ",
            );
            push_str(&mut w, error.message.as_str());
            ConfigSaveResult {
                daemon_restarted: false,
                daemon_restart_scheduled: false,
                daemon_restart_warning: Some(w),
            }
        },
    }
}

/// The save result after an ordinary save: the daemon restart is scheduled.
pub fn config_saved_result() -> (r: ConfigSaveResult)
    ensures
        !r.daemon_restarted,
        r.daemon_restart_scheduled,
        r.daemon_restart_warning is None,
{
    ConfigSaveResult { daemon_restarted: false, daemon_restart_scheduled: true, daemon_restart_warning: None }
}

/// The safe-mode value to store: the requested one, or the opposite of the current one.
pub fn next_safe_mode(desired: Option<bool>, current: bool) -> (r: bool)
    ensures
        r == match desired {
            Some(d) => d,
            None => !current,
        },
{
    match desired {
        Some(d) => d,
        None => !current,
    }
}

/// The warning when the running daemon did not acknowledge a safe-mode change.
pub open spec fn safe_mode_deferred_warning() -> Seq<char> {
    "Preference saved for the next daemon start; the background service is not currently responding."@
}

/// The safe-mode result after the preference was saved, from whether the running daemon
/// acknowledged it.
pub fn safe_mode_update_result(next: bool, acknowledged: bool) -> (r: SafeModeUpdateResult)
    ensures
        r.safe_mode == next,
        r.applied_live == acknowledged,
        acknowledged ==> r.warning is None,
        !acknowledged ==> (r.warning matches Some(w) && w@ == safe_mode_deferred_warning()),
{
    if acknowledged {
        SafeModeUpdateResult { safe_mode: next, applied_live: true, warning: None }
    } else {
        SafeModeUpdateResult {
            safe_mode: next,
            applied_live: false,
            warning: Some(String::from_str(
                "Preference saved for the next daemon start; the background service is not currently responding.",
            )),
        }
    }
}

/// Whether a protected path is a file or a directory.
#[derive(Clone, Copy, Debug, PartialEq, Eq, Structural)]
pub enum WatchedKind {
    File,
    Directory,
}

/// A protected path entry: its path, its kind, and the serialized form of the entry.
#[derive(Debug)]
pub struct WatchedEntry {
    pub path: String,
    pub kind: WatchedKind,
    pub settings: String,
}

/// The ghost view of an entry.
pub struct EntryView {
    pub path: Seq<char>,
    pub kind: WatchedKind,
    pub settings: Seq<char>,
}

/// The ghost view of an entry.
pub open spec fn entry_view(e: WatchedEntry) -> EntryView {
    EntryView { path: e.path@, kind: e.kind, settings: e.settings@ }
}

/// The ghost view of a list of entries.
pub open spec fn entries_view(v: Seq<WatchedEntry>) -> Seq<EntryView> {
    v.map_values(|e: WatchedEntry| entry_view(e))
}

/// The entry is the one being removed: the same path (compared as paths, component by
/// component) and the same kind.
pub open spec fn is_removed_entry(e: EntryView, source: Seq<char>, kind: WatchedKind) -> bool {
    same_path(e.path, source) && e.kind == kind
}

/// The entries that remain after removing the source path of the given kind.
pub open spec fn remaining_entries(v: Seq<EntryView>, source: Seq<char>, kind: WatchedKind) -> Seq<EntryView> {
    v.filter(|e: EntryView| !is_removed_entry(e, source, kind))
}

/// Some entry is the one being removed.
pub open spec fn has_entry(v: Seq<EntryView>, source: Seq<char>, kind: WatchedKind) -> bool {
    exists|i: int| 0 <= i < v.len() && is_removed_entry(#[trigger] v[i], source, kind)
}

/// Some entry names the source path (as a path), whatever its kind.
pub open spec fn mentions_path(v: Seq<EntryView>, source: Seq<char>) -> bool {
    exists|i: int| 0 <= i < v.len() && same_path((#[trigger] v[i]).path, source)
}

/// Message when the path to remove is no longer protected.
pub open spec fn removal_not_found_message() -> Seq<char> {
    "The protected path no longer exists in the current configuration."@
}

/// Message when some destination entry of the path was kept.
pub open spec fn removal_partial_message() -> Seq<char> {
    "Every destination entry for this protected path must be removed together."@
}

/// Message when the requested configuration is not the current one minus the path.
pub open spec fn removal_changed_message() -> Seq<char> {
    "The configuration changed while removal was being prepared. Reload and try again."@
}

fn same_entry(a: &WatchedEntry, b: &WatchedEntry) -> (r: bool)
    ensures
        r == (entry_view(*a) == entry_view(*b)),
{
    str_eq(a.path.as_str(), b.path.as_str()) && a.kind == b.kind && str_eq(a.settings.as_str(), b.settings.as_str())
}

/// The entries of `previous` without the source path of the given kind.
pub fn remove_entries(previous: &Vec<WatchedEntry>, source_path: &str, kind: WatchedKind) -> (r: Vec<WatchedEntry>)
    ensures
        entries_view(r@) == remaining_entries(entries_view(previous@), source_path@, kind),
{
    let ghost all = entries_view(previous@);
    let mut out: Vec<WatchedEntry> = Vec::new();
    let mut i: usize = 0;
    proof {
        reveal(Seq::filter);
        assert(all.take(0) =~= Seq::<EntryView>::empty());
        assert(entries_view(out@) =~= remaining_entries(all.take(0), source_path@, kind));
    }
    while i < previous.len()
        invariant
            i <= previous.len(),
            all == entries_view(previous@),
            entries_view(out@) == remaining_entries(all.take(i as int), source_path@, kind),
        decreases previous.len() - i,
    {
        let e = &previous[i];
        proof {
            reveal(Seq::filter);
            assert(all.take(i + 1).drop_last() =~= all.take(i as int));
            assert(all.take(i + 1).last() == entry_view(*e));
        }
        let removed = paths_equal(e.path.as_str(), source_path) && e.kind == kind;
        if !removed {
            let copy = WatchedEntry { path: e.path.clone(), kind: e.kind, settings: e.settings.clone() };
            let ghost before = out@;
            out.push(copy);
            proof {
                assert(entries_view(out@) =~= entries_view(before).push(entry_view(*e)));
            }
        }
        i = i + 1;
    }
    proof {
        assert(all.take(previous.len() as int) =~= all);
    }
    out
}

/// Checks that a configuration submitted for saving is exactly the current one with the
/// source path of the given kind removed: the path must still be protected, the submission
/// must not mention it, and everything else must be unchanged (`other_settings_unchanged`
/// says so for the settings outside the protected paths).
pub fn check_protected_path_removal(
    previous: &Vec<WatchedEntry>,
    requested: &Vec<WatchedEntry>,
    source_path: &str,
    kind: WatchedKind,
    other_settings_unchanged: bool,
) -> (r: Result<(), ErrorEnvelope>)
    ensures
        !has_entry(entries_view(previous@), source_path@, kind) ==> (r matches Err(e) && e.code@ == "NOT_FOUND"@
            && e.message@ == envelope_message("NOT_FOUND"@, removal_not_found_message())),
        has_entry(entries_view(previous@), source_path@, kind) && mentions_path(entries_view(requested@), source_path@)
            ==> (r matches Err(e) && e.code@ == "CONFLICT"@
            && e.message@ == envelope_message("CONFLICT"@, removal_partial_message())),
        has_entry(entries_view(previous@), source_path@, kind) && !mentions_path(entries_view(requested@), source_path@)
            && !(other_settings_unchanged && entries_view(requested@) == remaining_entries(
            entries_view(previous@), source_path@, kind)) ==> (r matches Err(e) && e.code@ == "CONFLICT"@
            && e.message@ == envelope_message("CONFLICT"@, removal_changed_message())),
        r is Ok <==> (has_entry(entries_view(previous@), source_path@, kind)
            && !mentions_path(entries_view(requested@), source_path@) && other_settings_unchanged
            && entries_view(requested@) == remaining_entries(entries_view(previous@), source_path@, kind)),
{
    let ghost pv = entries_view(previous@);
    let ghost rv = entries_view(requested@);
    let mut found = false;
    let mut i: usize = 0;
    while i < previous.len()
        invariant
            i <= previous.len(),
            pv == entries_view(previous@),
            found <==> exists|k: int| 0 <= k < i && is_removed_entry(#[trigger] pv[k], source_path@, kind),
        decreases previous.len() - i,
    {
        if paths_equal(previous[i].path.as_str(), source_path) && previous[i].kind == kind {
            found = true;
        }
        proof {
            assert(pv[i as int] == entry_view(previous@[i as int]));
        }
        i = i + 1;
    }
    if !found {
        return Err(ErrorEnvelope::new(
            "NOT_FOUND",
            "The protected path no longer exists in the current configuration.",
        ));
    }
    let mut mentioned = false;
    let mut j: usize = 0;
    while j < requested.len()
        invariant
            j <= requested.len(),
            rv == entries_view(requested@),
            mentioned <==> exists|k: int| 0 <= k < j && same_path((#[trigger] rv[k]).path, source_path@),
        decreases requested.len() - j,
    {
        if paths_equal(requested[j].path.as_str(), source_path) {
            mentioned = true;
        }
        proof {
            assert(rv[j as int] == entry_view(requested@[j as int]));
        }
        j = j + 1;
    }
    if mentioned {
        return Err(ErrorEnvelope::new(
            "CONFLICT",
            "Every destination entry for this protected path must be removed together.",
        ));
    }
    let expected = remove_entries(previous, source_path, kind);
    let mut same = other_settings_unchanged && expected.len() == requested.len();
    let mut k: usize = 0;
    while same && k < requested.len()
        invariant
            k <= requested.len(),
            same ==> expected.len() == requested.len(),
            same ==> other_settings_unchanged,
            same ==> forall|m: int| 0 <= m < k ==> entry_view(#[trigger] requested@[m]) == entry_view(expected@[m]),
            !same ==> (!other_settings_unchanged || expected.len() != requested.len() || (k < requested.len()
                && k < expected.len() && entry_view(requested@[k as int]) != entry_view(expected@[k as int]))),
        decreases requested.len() - k + (if same { 1int } else { 0int }),
    {
        if !same_entry(&requested[k], &expected[k]) {
            same = false;
        } else {
            k = k + 1;
        }
    }
    proof {
        let ev = entries_view(expected@);
        if same {
            assert(k == requested.len());
            assert(rv.len() == ev.len());
            assert forall|m: int| 0 <= m < rv.len() implies rv[m] == ev[m] by {
                assert(rv[m] == entry_view(requested@[m]));
                assert(ev[m] == entry_view(expected@[m]));
            }
            assert(rv =~= ev);
            assert(ev == remaining_entries(pv, source_path@, kind));
        } else {
            if other_settings_unchanged && rv == ev {
                assert(rv.len() == ev.len());
                assert(expected.len() == requested.len());
                assert(rv[k as int] == ev[k as int]);
            }
        }
    }
    if !same {
        return Err(ErrorEnvelope::new(
            "CONFLICT",
            "The configuration changed while removal was being prepared. Reload and try again.",
        ));
    }
    Ok(())
}

/// After an accepted removal, the submitted configuration no longer protects the source
/// path with the removed kind.
pub proof fn lemma_removal_leaves_no_entry(v: Seq<EntryView>, source: Seq<char>, kind: WatchedKind)
    ensures
        !has_entry(remaining_entries(v, source, kind), source, kind),
{
    let rest = remaining_entries(v, source, kind);
    assert forall|i: int| 0 <= i < rest.len() implies !is_removed_entry(#[trigger] rest[i], source, kind) by {
        v.lemma_filter_pred(|e: EntryView| !is_removed_entry(e, source, kind), i);
    }
}

} // verus!
