//! The tracked-file index kept in the daemon state: which files have backups, and where.
use vstd::prelude::*;
use crate::text::str_eq;

verus! {

/// One tracked file and the paths of its backups.
#[derive(Debug)]
pub struct TrackedFile {
    pub path: String,
    pub backups: Vec<String>,
}

/// The index is keyed by path: no two tracked files share one.
pub open spec fn distinct_paths(files: Seq<TrackedFile>) -> bool {
    forall|a: int, b: int| 0 <= a < b < files.len() ==> (#[trigger] files[a]).path@ != (#[trigger] files[b]).path@
}

/// The tracked files' paths, in index order; each path once.
pub fn list_tracked_paths(files: &Vec<TrackedFile>) -> (r: Vec<String>)
    requires
        distinct_paths(files@),
    ensures
        r@.len() == files@.len(),
        forall|k: int| 0 <= k < r@.len() ==> (#[trigger] r@[k])@ == files@[k].path@,
        forall|a: int, b: int| 0 <= a < b < r@.len() ==> (#[trigger] r@[a])@ != (#[trigger] r@[b])@,
{
    let mut out: Vec<String> = Vec::new();
    let mut i: usize = 0;
    while i < files.len()
        invariant
            i <= files.len(),
            out@.len() == i,
            forall|k: int| 0 <= k < i ==> (#[trigger] out@[k])@ == files@[k].path@,
            distinct_paths(files@),
        decreases files.len() - i,
    {
        out.push(files[i].path.clone());
        i = i + 1;
    }
    out
}

/// The backups of the file at `path`, or an error naming the path when it is not tracked.
pub fn list_backups_for_path(files: &Vec<TrackedFile>, path: &str) -> (r: Result<Vec<String>, String>)
    requires
        distinct_paths(files@),
    ensures
        forall|k: int| 0 <= k < files@.len() && (#[trigger] files@[k]).path@ == path@ ==> (r matches Ok(v)
            && v@ == files@[k].backups@),
        (forall|k: int| 0 <= k < files@.len() ==> (#[trigger] files@[k]).path@ != path@) <==> r is Err,
        r matches Err(m) ==> m@ == "gui::api::backup_api::list_backups_for_path no backups tracked for "@ + path@,
        r matches Ok(v) ==> exists|k: int| 0 <= k < files@.len() && (#[trigger] files@[k]).path@ == path@
            && v@ == files@[k].backups@,
{
    let mut i: usize = 0;
    while i < files.len()
        invariant
            i <= files.len(),
            forall|k: int| 0 <= k < i ==> (#[trigger] files@[k]).path@ != path@,
            distinct_paths(files@),
        decreases files.len() - i,
    {
        if str_eq(files[i].path.as_str(), path) {
            let mut v: Vec<String> = Vec::new();
            let b = &files[i].backups;
            let mut j: usize = 0;
            while j < b.len()
                invariant
                    j <= b.len(),
                    v@ == b@.take(j as int),
                decreases b.len() - j,
            {
                v.push(b[j].clone());
                proof {
                    assert(v@ =~= b@.take(j + 1));
                }
                j = j + 1;
            }
            proof {
                assert(b@.take(b.len() as int) =~= b@);
                assert forall|k: int| 0 <= k < files@.len() && (#[trigger] files@[k]).path@ == path@ implies k == i by {
                    if k < i as int {
                        assert(files@[k].path@ != files@[i as int].path@);
                    } else if k > i as int {
                        assert(files@[i as int].path@ != files@[k].path@);
                    }
                }
            }
            return Ok(v);
        }
        i = i + 1;
    }
    let mut m = String::from_str("gui::api::backup_api::list_backups_for_path no backups tracked for ");
    crate::text::push_str(&mut m, path);
    Err(m)
}

} // verus!
