//! Removing the extra version kept as a safety baseline for a watched path.
use vstd::prelude::*;
use crate::destination::{paths_equal, same_path, StoragePlace};
use crate::error::{envelope_message, ErrorEnvelope};
use crate::text::{opt_view, str_eq};

verus! {

/// A watched entry as the lookup sees it: its path, its resolved form where resolving
/// worked, and the id of its destination.
#[derive(Debug)]
pub struct WatchedLocation {
    pub path: String,
    pub resolved: Option<String>,
    pub destination_id: String,
}

/// Entry `w` is the requested path: the same path, the same resolved location, or the
/// same text.
pub open spec fn names_requested(w: WatchedLocation, requested: Seq<char>, requested_resolved: Option<Seq<char>>) -> bool {
    same_path(w.path@, requested)
        || (match (requested_resolved, opt_view(w.resolved)) {
            (Some(a), Some(b)) => same_path(b, a),
            _ => false,
        })
        || w.path@ == requested
}

/// The position of the first watched entry naming the requested path.
pub fn locate_watched_index(watched: &Vec<WatchedLocation>, requested: &str, requested_resolved: &Option<String>) -> (r: Option<usize>)
    ensures
        r is None ==> forall|i: int| 0 <= i < watched@.len()
            ==> !names_requested(#[trigger] watched@[i], requested@, opt_view(*requested_resolved)),
        r matches Some(i) ==> i < watched@.len()
            && names_requested(watched@[i as int], requested@, opt_view(*requested_resolved))
            && forall|j: int| 0 <= j < i ==> !names_requested(#[trigger] watched@[j], requested@, opt_view(*requested_resolved)),
{
    let mut i: usize = 0;
    while i < watched.len()
        invariant
            i <= watched.len(),
            forall|j: int| 0 <= j < i ==> !names_requested(#[trigger] watched@[j], requested@, opt_view(*requested_resolved)),
        decreases watched.len() - i,
    {
        let w = &watched[i];
        let resolved_match = match (requested_resolved, &w.resolved) {
            (Some(a), Some(b)) => paths_equal(b.as_str(), a.as_str()),
            _ => false,
        };
        if paths_equal(w.path.as_str(), requested) || resolved_match || str_eq(w.path.as_str(), requested) {
            return Some(i);
        }
        i = i + 1;
    }
    None
}

/// Entry `wi` is the first one naming the requested path.
pub open spec fn first_named(watched: Seq<WatchedLocation>, requested: Seq<char>, requested_resolved: Option<Seq<char>>, wi: int) -> bool {
    &&& 0 <= wi < watched.len()
    &&& names_requested(watched[wi], requested, requested_resolved)
    &&& forall|j: int| 0 <= j < wi ==> !names_requested(#[trigger] watched[j], requested, requested_resolved)
}

/// Finds the watched entry and its destination for a safety-baseline removal, as
/// positions in `watched` and `places`: the first entry naming the path, and the first
/// location carrying that entry's destination id.
pub fn plan_safety_removal(
    cid: &str,
    watched_path: &str,
    requested_resolved: Option<String>,
    watched: &Vec<WatchedLocation>,
    places: &Vec<StoragePlace>,
) -> (r: Result<(usize, usize), ErrorEnvelope>)
    ensures
        (forall|i: int| 0 <= i < watched@.len()
            ==> !names_requested(#[trigger] watched@[i], watched_path@, opt_view(requested_resolved)))
            ==> (r matches Err(e) && e.code@ == "WATCHED_NOT_FOUND"@ && e.message@ == envelope_message("WATCHED_NOT_FOUND"@,
                "[cid="@ + cid@ + "] "@ + "safety::remove_kept_extra_version_cmd watched path not found: "@ + watched_path@)),
        r matches Ok((wi, di)) ==> wi < watched@.len() && di < places@.len()
            && names_requested(watched@[wi as int], watched_path@, opt_view(requested_resolved))
            && places@[di as int].id@ == watched@[wi as int].destination_id@
            && forall|j: int| 0 <= j < di ==> (#[trigger] places@[j]).id@ != watched@[wi as int].destination_id@,
        (r is Err && r->Err_0.code@ == "DEST_NOT_FOUND"@) ==> exists|wi: int| 0 <= wi < watched@.len()
            && names_requested(watched@[wi], watched_path@, opt_view(requested_resolved))
            && (forall|j: int| 0 <= j < places@.len() ==> (#[trigger] places@[j]).id@ != watched@[wi].destination_id@)
            && r->Err_0.message@ == envelope_message("DEST_NOT_FOUND"@, "[cid="@ + cid@ + "] "@
                + "safety::remove_kept_extra_version_cmd destination id "@ + watched@[wi].destination_id@
                + " missing for watched path "@ + watched_path@),
        r matches Err(e) ==> e.code@ == "WATCHED_NOT_FOUND"@ || e.code@ == "DEST_NOT_FOUND"@,
        (exists|i: int| 0 <= i < watched@.len() && names_requested(#[trigger] watched@[i], watched_path@, opt_view(requested_resolved)))
            ==> !(r is Err && r->Err_0.code@ == "WATCHED_NOT_FOUND"@),
        forall|wi: int| #[trigger] first_named(watched@, watched_path@, opt_view(requested_resolved), wi) ==> match r {
            Ok((a, di)) => a == wi && di < places@.len() && places@[di as int].id@ == watched@[wi].destination_id@
                && forall|j: int| 0 <= j < di ==> (#[trigger] places@[j]).id@ != watched@[wi].destination_id@,
            Err(e) => e.code@ == "DEST_NOT_FOUND"@
                && forall|j: int| 0 <= j < places@.len() ==> (#[trigger] places@[j]).id@ != watched@[wi].destination_id@,
        },
        forall|wi: int, di: int| #![trigger first_named(watched@, watched_path@, opt_view(requested_resolved), wi), places@[di]]
            first_named(watched@, watched_path@, opt_view(requested_resolved), wi)
            && 0 <= di < places@.len() && places@[di].id@ == watched@[wi].destination_id@ ==> r is Ok,
{
    proof {
        reveal_strlit("WATCHED_NOT_FOUND");
        reveal_strlit("DEST_NOT_FOUND");
    }
    let wi = match locate_watched_index(watched, watched_path, &requested_resolved) {
        Some(i) => i,
        None => {
            return Err(ErrorEnvelope::with_cid(
                "WATCHED_NOT_FOUND",
                cid,
                "safety::remove_kept_extra_version_cmd watched path not found: ",
                watched_path,
            ));
        },
    };
    let ghost requested_view = opt_view(requested_resolved);
    assert(names_requested(watched@[wi as int], watched_path@, requested_view));
    assert forall|w2: int| #[trigger] first_named(watched@, watched_path@, requested_view, w2) implies w2 == wi by {
        if w2 < wi {
            assert(!names_requested(watched@[w2], watched_path@, requested_view));
        } else if w2 > wi {
            assert(!names_requested(watched@[wi as int], watched_path@, requested_view));
        }
    }
    assert(first_named(watched@, watched_path@, requested_view, wi as int));
    let dest_id = watched[wi].destination_id.as_str();
    let mut di: usize = 0;
    while di < places.len()
        invariant
            di <= places.len(),
            wi < watched@.len(),
            requested_view == opt_view(requested_resolved),
            names_requested(watched@[wi as int], watched_path@, requested_view),
            dest_id@ == watched@[wi as int].destination_id@,
            forall|j: int| 0 <= j < di ==> (#[trigger] places@[j]).id@ != dest_id@,
            forall|w2: int| #[trigger] first_named(watched@, watched_path@, requested_view, w2) ==> w2 == wi,
        decreases places.len() - di,
    {
        if str_eq(places[di].id.as_str(), dest_id) {
            return Ok((wi, di));
        }
        di = di + 1;
    }
    let mut text = String::from_str("safety::remove_kept_extra_version_cmd destination id ");
    crate::text::push_str(&mut text, dest_id);
    crate::text::push_str(&mut text, " missing for watched path ");
    let e = ErrorEnvelope::with_cid("DEST_NOT_FOUND", cid, text.as_str(), watched_path);
    proof {
        assert(text@ == "safety::remove_kept_extra_version_cmd destination id "@ + dest_id@ + " missing for watched path "@);
        assert("[cid="@ + cid@ + "] "@ + text@ + watched_path@ =~= "[cid="@ + cid@ + "] "@
            + "safety::remove_kept_extra_version_cmd destination id "@ + watched@[wi as int].destination_id@
            + " missing for watched path "@ + watched_path@);
        assert(e.message@ == envelope_message("DEST_NOT_FOUND"@, "[cid="@ + cid@ + "] "@
            + "safety::remove_kept_extra_version_cmd destination id "@ + watched@[wi as int].destination_id@
            + " missing for watched path "@ + watched_path@));
        assert(names_requested(watched@[wi as int], watched_path@, requested_view));
        reveal_strlit("WATCHED_NOT_FOUND");
        reveal_strlit("DEST_NOT_FOUND");
        assert(e.code@ == "DEST_NOT_FOUND"@);
        assert("DEST_NOT_FOUND"@.len() == 14);
        assert("WATCHED_NOT_FOUND"@.len() == 17);
    }
    Err(e)
}

/// The answer once removal was attempted: `removed` tells whether a kept version existed
/// and was removed, or carries the failure.
pub fn finish_safety_removal(cid: &str, watched_path: &str, removed: Result<bool, String>) -> (r: Result<(), ErrorEnvelope>)
    ensures
        removed == Ok::<bool, String>(true) <==> r is Ok,
        removed matches Err(d) ==> (r matches Err(e) && e.code@ == "SAFETY_REMOVE_FAILED"@
            && e.message@ == envelope_message("SAFETY_REMOVE_FAILED"@, "[cid="@ + cid@ + "] "@
                + "safety::remove_kept_extra_version_cmd failed to remove safety baseline: "@ + d@)),
        removed == Ok::<bool, String>(false) ==> (r matches Err(e) && e.code@ == "SAFETY_NOT_PRESENT"@
            && e.message@ == envelope_message("SAFETY_NOT_PRESENT"@, "[cid="@ + cid@ + "] "@
                + "No extra kept version exists for "@ + watched_path@)),
{
    match removed {
        Err(d) => Err(ErrorEnvelope::with_cid(
            "SAFETY_REMOVE_FAILED",
            cid,
            "safety::remove_kept_extra_version_cmd failed to remove safety baseline: ",
            d.as_str(),
        )),
        Ok(false) => Err(ErrorEnvelope::with_cid("SAFETY_NOT_PRESENT", cid, "No extra kept version exists for ", watched_path)),
        Ok(true) => Ok(()),
    }
}

/// Whether the persisted safety warning is the one for `watched_path`, and so is cleared
/// once its kept version is removed.
pub fn clears_persisted_warning(warning_path: Option<String>, watched_path: &str) -> (r: bool)
    ensures
        r == (opt_view(warning_path) == Some(watched_path@)),
{
    match warning_path {
        Some(p) => str_eq(p.as_str(), watched_path),
        None => false,
    }
}

} // verus!
