//! Storage locations: checking a candidate folder, swapping Main storage with a
//! secondary copy, and the decisions taken while a storage location is moved.
use vstd::prelude::*;
use std::path::{Component, Path};
use crate::error::{envelope_message, ErrorEnvelope};
use crate::text::{decimal, is_blank, push_decimal, push_str, str_contains, str_eq, str_is_blank, contains_seq};

verus! {

/// The answer to "can this folder hold backups?".
#[derive(Debug)]
pub struct DestinationCheck {
    pub writable: bool,
    pub free_bytes: Option<u64>,
    pub message: String,
}

/// `std::path::Path` equality, which compares paths component by component.
pub uninterp spec fn same_path(a: Seq<char>, b: Seq<char>) -> bool;

/// Whether `std::path::Path::parent` finds a parent (false for a root or an empty path).
pub uninterp spec fn path_has_parent(p: Seq<char>) -> bool;

/// `std::path::Path::starts_with`: `base` is a leading run of `p`'s components.
pub uninterp spec fn path_starts_with(p: Seq<char>, base: Seq<char>) -> bool;

/// `Path::new(a) == Path::new(b)`: the two paths have the same components.
#[verifier::external_body]
pub(crate) fn paths_equal(a: &str, b: &str) -> (r: bool)
    ensures
        r == same_path(a@, b@),
{
    Path::new(a) == Path::new(b)
}

/// `Path::new(p).parent().is_some()`: the path names something below a root.
#[verifier::external_body]
fn has_parent(p: &str) -> (r: bool)
    ensures
        r == path_has_parent(p@),
{
    Path::new(p).parent().is_some()
}

/// `Path::new(p).starts_with(base)`: component-wise prefix test.
#[verifier::external_body]
fn starts_with_path(p: &str, base: &str) -> (r: bool)
    ensures
        r == path_starts_with(p@, base@),
{
    Path::new(p).starts_with(base)
}

/// `Path::strip_prefix`: what is left of `p` after the leading components of `base`, when
/// `base` is such a leading run.
pub uninterp spec fn path_strip_prefix(p: Seq<char>, base: Seq<char>) -> Option<Seq<char>>;

/// The first of `p`'s components (`Path::components`) when it is a normal name.
pub uninterp spec fn path_first_normal(p: Seq<char>) -> Option<Seq<char>>;

/// `Path::new(path).strip_prefix(base)`, the rest as text.
#[verifier::external_body]
fn strip_path_prefix(path: &str, base: &str) -> (r: Option<String>)
    ensures
        match r {
            Some(rest) => path_strip_prefix(path@, base@) == Some(rest@),
            None => path_strip_prefix(path@, base@) is None,
        },
{
    Path::new(path).strip_prefix(base).ok().and_then(|rest| rest.to_str()).map(String::from)
}

/// `Path::new(path).components().next()` when it is `Component::Normal`, as text.
#[verifier::external_body]
fn first_normal_component(path: &str) -> (r: Option<String>)
    ensures
        match r {
            Some(name) => path_first_normal(path@) == Some(name@),
            None => path_first_normal(path@) is None,
        },
{
    match Path::new(path).components().next() {
        Some(Component::Normal(name)) => name.to_str().map(String::from),
        _ => None,
    }
}

/// The volume an absolute path under `/Volumes` lies on: the first component after
/// `/Volumes` when it is a normal name.
pub open spec fn volume_name(p: Seq<char>) -> Option<Seq<char>> {
    match path_strip_prefix(p, "/Volumes"@) {
        Some(rest) => path_first_normal(rest),
        None => None,
    }
}

/// The volume `path` lies on, if it lies under `/Volumes`.
fn volume_of(path: &str) -> (r: Option<String>)
    ensures
        match r {
            Some(n) => volume_name(path@) == Some(n@),
            None => volume_name(path@) is None,
        },
{
    match strip_path_prefix(path, "/Volumes") {
        Some(rest) => first_normal_component(rest.as_str()),
        None => None,
    }
}

/// The mount point of the removable volume `path` lies on (`/Volumes/<name>`), if any.
pub fn macos_mount_root(path: &str) -> (r: Option<String>)
    ensures
        match volume_name(path@) {
            Some(n) => r matches Some(root) && root@ == "/Volumes/"@ + n,
            None => r is None,
        },
{
    match volume_of(path) {
        Some(name) => {
            let mut root = String::from_str("/Volumes/");
            push_str(&mut root, name.as_str());
            Some(root)
        },
        None => None,
    }
}

/// The mount point to report as missing: the volume's mount point when `path` lies on a
/// removable volume and that mount point is not present.
pub fn missing_macos_mount_root(path: &str, mount_root_present: bool) -> (r: Option<String>)
    ensures
        match volume_name(path@) {
            Some(n) => if mount_root_present { r is None } else {
                r matches Some(root) && root@ == "/Volumes/"@ + n
            },
            None => r is None,
        },
{
    if mount_root_present {
        return None;
    }
    macos_mount_root(path)
}

/// The position of the first storage location with id `id`.
pub fn find_place(places: &Vec<StoragePlace>, id: &str) -> (r: Option<usize>)
    ensures
        r is None ==> forall|i: int| 0 <= i < places@.len() ==> (#[trigger] places@[i]).id@ != id@,
        r matches Some(i) ==> i < places@.len() && places@[i as int].id@ == id@
            && forall|j: int| 0 <= j < i ==> (#[trigger] places@[j]).id@ != id@,
{
    let mut i: usize = 0;
    while i < places.len()
        invariant
            i <= places.len(),
            forall|j: int| 0 <= j < i ==> (#[trigger] places@[j]).id@ != id@,
        decreases places.len() - i,
    {
        if str_eq(places[i].id.as_str(), id) {
            return Some(i);
        }
        i = i + 1;
    }
    None
}

/// The location to open in the file manager: it must still be configured, and its folder
/// (`folder_present` for location `i`) must exist.
pub fn open_destination_target(places: &Vec<StoragePlace>, destination_id: &str, folder_present: &Vec<bool>) -> (r: Result<usize, ErrorEnvelope>)
    requires
        folder_present@.len() == places@.len(),
    ensures
        (forall|i: int| 0 <= i < places@.len() ==> (#[trigger] places@[i]).id@ != destination_id@) ==>
            (r matches Err(e) && e.code@ == "NOT_FOUND"@
                && e.message@ == envelope_message("NOT_FOUND"@, "Storage location no longer exists."@)),
        r matches Ok(i) ==> i < places@.len() && places@[i as int].id@ == destination_id@ && folder_present@[i as int],
        forall|i: int| 0 <= i < places@.len() && places@[i].id@ == destination_id@
            && (forall|j: int| 0 <= j < i ==> (#[trigger] places@[j]).id@ != destination_id@) ==>
            if folder_present@[i] {
                r == Ok::<usize, ErrorEnvelope>(i as usize)
            } else {
                r matches Err(e) && e.code@ == "NOT_FOUND"@ && e.message@ == envelope_message("NOT_FOUND"@,
                    "The configured storage folder is missing or unavailable."@)
            },
{
    match find_place(places, destination_id) {
        None => Err(ErrorEnvelope::new("NOT_FOUND", "Storage location no longer exists.")),
        Some(i) => {
            proof {
                assert forall|k: int| 0 <= k < places@.len() && places@[k].id@ == destination_id@
                    && (forall|j: int| 0 <= j < k ==> (#[trigger] places@[j]).id@ != destination_id@) implies k == i by {
                    if k < i {
                    } else if k > i {
                        assert(places@[i as int].id@ == destination_id@);
                    }
                }
            }
            if folder_present[i] {
                Ok(i)
            } else {
                Err(ErrorEnvelope::new("NOT_FOUND", "The configured storage folder is missing or unavailable."))
            }
        },
    }
}

/// The platforms with a file manager to open folders in.
#[derive(Debug)]
pub enum DesktopPlatform {
    MacOs,
    Windows,
    OtherUnix,
    Unsupported,
}

/// The program that opens a folder in the platform's file manager, if there is one.
pub fn file_manager_program(platform: DesktopPlatform) -> (r: Result<&'static str, &'static str>)
    ensures
        platform is MacOs ==> r == Ok::<&'static str, &'static str>("open"),
        platform is Windows ==> r == Ok::<&'static str, &'static str>("explorer.exe"),
        platform is OtherUnix ==> r == Ok::<&'static str, &'static str>("xdg-open"),
        platform is Unsupported ==> r == Err::<&'static str, &'static str>("Opening storage folders is not supported on this platform."),
{
    match platform {
        DesktopPlatform::MacOs => Ok("open"),
        DesktopPlatform::Windows => Ok("explorer.exe"),
        DesktopPlatform::OtherUnix => Ok("xdg-open"),
        DesktopPlatform::Unsupported => Err("Opening storage folders is not supported on this platform."),
    }
}

/// What the filesystem reported about a candidate folder that passed the input checks.
#[derive(Debug)]
pub enum FolderProbe {
    /// The path names an existing regular file.
    IsFile,
    /// The path lies on a removable volume whose mount point, given here, is missing.
    MountMissing(String),
    /// The folder was missing and creating it failed with this error.
    CreateFailed(String),
    /// The path exists (or was created) but is not a directory.
    NotADirectory,
    /// The folder is usable and has this many free bytes.
    FreeSpace(u64),
    /// Reading the free space failed with this error.
    FreeSpaceFailed(String),
}

/// The check result for input that needs no filesystem access, if any.
pub open spec fn input_problem(path: Seq<char>) -> Option<Seq<char>> {
    if is_blank(path) {
        Some("Pick a backup destination."@)
    } else if !path_has_parent(path) {
        Some("Cannot use filesystem root. Pick a folder inside your home directory."@)
    } else {
        None
    }
}

/// The message a probe outcome produces.
pub open spec fn probe_message(p: FolderProbe) -> Seq<char> {
    match p {
        FolderProbe::IsFile => "Destination points to a file; choose a folder."@,
        FolderProbe::MountMissing(root) => "Destination drive is not mounted at "@ + root@
            + ". Reconnect it and try again."@,
        FolderProbe::CreateFailed(e) => "Could not create destination folder automatically: "@ + e@,
        FolderProbe::NotADirectory => "Destination must be a folder."@,
        FolderProbe::FreeSpace(free) => "Writable. Free space: "@ + decimal(free as nat) + " bytes"@,
        FolderProbe::FreeSpaceFailed(e) => "Cannot read free space: "@ + e@,
    }
}

fn unwritable(message: String) -> (r: DestinationCheck)
    ensures
        !r.writable,
        r.free_bytes is None,
        r.message == message,
{
    DestinationCheck { writable: false, free_bytes: None, message }
}

/// The answer for a blank path or a filesystem root, which need no probing.
pub fn destination_input_problem(path: &str) -> (r: Option<DestinationCheck>)
    ensures
        input_problem(path@) is None <==> r is None,
        r matches Some(c) ==> !c.writable && c.free_bytes is None
            && c.message@ == input_problem(path@)->0,
{
    if str_is_blank(path) {
        return Some(unwritable(String::from_str("Pick a backup destination.")));
    }
    if !has_parent(path) {
        return Some(unwritable(
            String::from_str("Cannot use filesystem root. Pick a folder inside your home directory."),
        ));
    }
    None
}

/// Checks a candidate backup destination: input problems first, then what probing the
/// folder found. Only a readable free-space figure makes the folder writable.
pub fn check_destination(path: &str, probe: FolderProbe) -> (r: DestinationCheck)
    ensures
        input_problem(path@) matches Some(m) ==> !r.writable && r.free_bytes is None && r.message@ == m,
        input_problem(path@) is None ==> {
            &&& r.message@ == probe_message(probe)
            &&& r.writable == (probe is FreeSpace)
            &&& r.free_bytes == (match probe {
                FolderProbe::FreeSpace(free) => Some(free),
                _ => None,
            })
        },
{
    if let Some(c) = destination_input_problem(path) {
        return c;
    }
    match probe {
        FolderProbe::IsFile => unwritable(String::from_str("Destination points to a file; choose a folder.")),
        FolderProbe::MountMissing(root) => {
            let mut m = String::new();
            push_str(&mut m, "Destination drive is not mounted at ");
            push_str(&mut m, root.as_str());
            push_str(&mut m, ". Reconnect it and try again.");
            unwritable(m)
        },
        FolderProbe::CreateFailed(e) => {
            let mut m = String::new();
            push_str(&mut m, "Could not create destination folder automatically: ");
            push_str(&mut m, e.as_str());
            unwritable(m)
        },
        FolderProbe::NotADirectory => unwritable(String::from_str("Destination must be a folder.")),
        FolderProbe::FreeSpace(free) => {
            let mut m = String::new();
            push_str(&mut m, "Writable. Free space: ");
            push_decimal(&mut m, free);
            push_str(&mut m, " bytes");
            DestinationCheck { writable: true, free_bytes: Some(free), message: m }
        },
        FolderProbe::FreeSpaceFailed(e) => {
            let mut m = String::new();
            push_str(&mut m, "Cannot read free space: ");
            push_str(&mut m, e.as_str());
            unwritable(m)
        },
    }
}

/// Two paths name the same location: equal as paths, or equal once both resolved.
pub open spec fn same_location(left: Seq<char>, right: Seq<char>, left_resolved: Option<Seq<char>>, right_resolved: Option<Seq<char>>) -> bool {
    same_path(left, right) || (match (left_resolved, right_resolved) {
        (Some(l), Some(r)) => same_path(l, r),
        _ => false,
    })
}

/// Whether two paths refer to the same location. `left_resolved` and `right_resolved`
/// are the canonical forms of the paths, where resolving them succeeded.
pub fn paths_refer_to_same_location(
    left: &str,
    right: &str,
    left_resolved: Option<String>,
    right_resolved: Option<String>,
) -> (r: bool)
    ensures
        r == same_location(left@, right@, crate::text::opt_view(left_resolved), crate::text::opt_view(right_resolved)),
{
    if paths_equal(left, right) {
        return true;
    }
    match (left_resolved, right_resolved) {
        (Some(l), Some(r)) => paths_equal(l.as_str(), r.as_str()),
        _ => false,
    }
}

/// One configured storage location: its stable id and its folder.
#[derive(Debug)]
pub struct StoragePlace {
    pub id: String,
    pub path: String,
}

/// The storage part of the configuration: the locations (Main storage first) and the
/// backup root, which always names Main storage's folder.
#[derive(Debug)]
pub struct StorageLayout {
    pub places: Vec<StoragePlace>,
    pub backup_root: String,
}

/// The ids of the storage locations, in order.
pub open spec fn place_ids(places: Seq<StoragePlace>) -> Seq<Seq<char>> {
    places.map_values(|p: StoragePlace| p.id@)
}

impl StoragePlace {
    /// A field-by-field copy.
    pub fn duplicate(&self) -> (r: StoragePlace)
        ensures
            r == *self,
    {
        StoragePlace { id: self.id.clone(), path: self.path.clone() }
    }
}

impl StorageLayout {
    /// A field-by-field copy.
    pub fn duplicate(&self) -> (r: StorageLayout)
        ensures
            r.places@ == self.places@,
            r.backup_root == self.backup_root,
    {
        let mut places: Vec<StoragePlace> = Vec::new();
        let mut i: usize = 0;
        while i < self.places.len()
            invariant
                i <= self.places.len(),
                places@ == self.places@.take(i as int),
            decreases self.places.len() - i,
        {
            let p = self.places[i].duplicate();
            places.push(p);
            proof {
                assert(places@ =~= self.places@.take(i + 1));
            }
            i = i + 1;
        }
        proof {
            assert(self.places@.take(self.places@.len() as int) =~= self.places@);
        }
        StorageLayout { places, backup_root: self.backup_root.clone() }
    }
}

/// `places` with the folder of location `i` replaced by `path`.
pub open spec fn with_path(places: Seq<StoragePlace>, i: int, path: String) -> Seq<StoragePlace> {
    places.update(i, StoragePlace { id: places[i].id, path })
}

fn set_path(places: &mut Vec<StoragePlace>, i: usize, path: String)
    requires
        i < old(places).len(),
    ensures
        final(places)@ == with_path(old(places)@, i as int, path),
{
    let id = places[i].id.clone();
    places.set(i, StoragePlace { id, path });
}

/// The layout after Main storage and the secondary location `i` trade folders.
pub open spec fn swapped(l: StorageLayout, i: int) -> (Seq<StoragePlace>, String) {
    let main = l.places@[0].path;
    let secondary = l.places@[i].path;
    (with_path(with_path(l.places@, 0, secondary), i, main), secondary)
}

/// Lets an existing secondary location become Main storage: the two locations trade
/// folders, every id stays where it was, and the backup root follows Main storage.
/// Fails unless `secondary_index` names a location other than Main storage.
pub fn swap_main_with_secondary(layout: &StorageLayout, secondary_index: usize) -> (r: Result<StorageLayout, String>)
    ensures
        (secondary_index == 0 || secondary_index >= layout.places.len()) <==> r is Err,
        r matches Err(m) ==> m@ == "Only an existing secondary backup location can become Main storage."@,
        r matches Ok(next) ==> next.places@ == swapped(*layout, secondary_index as int).0
            && next.backup_root == swapped(*layout, secondary_index as int).1,
{
    if secondary_index == 0 || secondary_index >= layout.places.len() {
        return Err(String::from_str("Only an existing secondary backup location can become Main storage."));
    }
    let mut next = layout.duplicate();
    let main_path = next.places[0].path.clone();
    let secondary_path = next.places[secondary_index].path.clone();
    set_path(&mut next.places, 0, secondary_path.clone());
    set_path(&mut next.places, secondary_index, main_path);
    next.backup_root = secondary_path;
    Ok(next)
}

/// Swapping Main storage with a secondary location keeps every id in place and, done twice,
/// gives back the original folders.
pub proof fn lemma_swap_keeps_ids_and_undoes_itself(l: StorageLayout, i: int)
    requires
        0 < i < l.places@.len(),
    ensures
        place_ids(swapped(l, i).0) == place_ids(l.places@),
        ({
            let s1 = swapped(l, i).0;
            let main = s1[0].path;
            let secondary = s1[i].path;
            with_path(with_path(s1, 0, secondary), i, main) == l.places@
        }),
{
    let s1 = swapped(l, i).0;
    assert(place_ids(s1) =~= place_ids(l.places@));
    let main = s1[0].path;
    let secondary = s1[i].path;
    let s2 = with_path(with_path(s1, 0, secondary), i, main);
    assert(s2.len() == l.places@.len());
    assert forall|k: int| 0 <= k < s2.len() implies s2[k] == l.places@[k] by {
        if k == 0 {
            assert(s2[0].path == l.places@[0].path);
        } else if k == i {
            assert(s2[i].path == l.places@[i].path);
        }
    }
    assert(s2 =~= l.places@);
}

/// The layout after location `i` moves to `new_path`; moving Main storage moves the
/// backup root with it.
pub open spec fn moved(l: StorageLayout, i: int, new_path: String) -> (Seq<StoragePlace>, String) {
    (with_path(l.places@, i, new_path), if i == 0 { new_path } else { l.backup_root })
}

/// The layout with location `index` moved to `new_path`.
pub fn relocated_layout(layout: &StorageLayout, index: usize, new_path: &str) -> (r: StorageLayout)
    requires
        index < layout.places.len(),
    ensures
        r.places@ == moved(*layout, index as int, r.places@[index as int].path).0,
        r.places@[index as int].path@ == new_path@,
        r.backup_root == moved(*layout, index as int, r.places@[index as int].path).1,
{
    let mut next = layout.duplicate();
    let p = String::from_str(new_path);
    set_path(&mut next.places, index, p.clone());
    if index == 0 {
        next.backup_root = p;
    }
    next
}

/// An envelope for a failure described by `detail` (the rendered, redacted error chain)
/// in the step named by `context`.
pub fn relocation_error(code: &str, context: &str, detail: &str) -> (r: ErrorEnvelope)
    ensures
        r.code@ == code@,
        r.message@ == envelope_message(code@, context@ + ": "@ + detail@),
{
    ErrorEnvelope::with_context(code, context, detail)
}


/// Where a relocation request points: the location to change and, when the new folder
/// is already another configured location, that location.
#[derive(Debug)]
pub struct RelocationPlan {
    pub index: usize,
    pub existing: Option<usize>,
}

/// Location `i` carries id `id` and no earlier location does.
pub open spec fn first_with_id(places: Seq<StoragePlace>, id: Seq<char>, i: int) -> bool {
    &&& 0 <= i < places.len()
    &&& places[i].id@ == id
    &&& forall|j: int| 0 <= j < i ==> places[j].id@ != id
}

/// Location `k` (other than `index`) already is the new folder, and no earlier one is.
pub open spec fn first_other_match(same: Seq<bool>, index: int, k: int) -> bool {
    &&& 0 <= k < same.len()
    &&& k != index
    &&& same[k]
    &&& forall|j: int| 0 <= j < k && j != index ==> !same[j]
}

/// Decides whether a request to move location `destination_id` to `new_path` may go
/// ahead. `same_location[i]` tells whether location `i` already is the new folder.
/// Refused: an unknown id, the same folder again, a filesystem root, and pointing a
/// secondary location at another configured location (only Main storage may be swapped
/// with an existing secondary location).
pub fn plan_relocation(layout: &StorageLayout, destination_id: &str, new_path: &str, same_location: &Vec<bool>) -> (r: Result<RelocationPlan, ErrorEnvelope>)
    requires
        same_location.len() == layout.places.len(),
    ensures
        (forall|i: int| 0 <= i < layout.places@.len() ==> layout.places@[i].id@ != destination_id@)
            ==> (r matches Err(e) && e.code@ == "NOT_FOUND"@
                && e.message@ == envelope_message("NOT_FOUND"@, "Storage location no longer exists."@)),
        forall|i: int| first_with_id(layout.places@, destination_id@, i) ==> {
            let old_path = layout.places@[i].path@;
            if same_path(old_path, new_path@) {
                r matches Err(e) && e.code@ == "INVALID_INPUT"@
                    && e.message@ == envelope_message("INVALID_INPUT"@, "Choose a different storage location."@)
            } else if !path_has_parent(new_path@) {
                r matches Err(e) && e.code@ == "INVALID_INPUT"@
                    && e.message@ == envelope_message("INVALID_INPUT"@, "Cannot use a filesystem root as backup storage."@)
            } else if i != 0 && (exists|k: int| first_other_match(same_location@, i, k)) {
                r matches Err(e) && e.code@ == "CONFLICT"@
                    && e.message@ == envelope_message("CONFLICT"@,
                        "Only Main storage can be switched with an existing secondary backup location."@)
            } else {
                r matches Ok(plan) && plan.index == i && (match plan.existing {
                    Some(k) => first_other_match(same_location@, i, k as int),
                    None => forall|k: int| 0 <= k < same_location@.len() && k != i ==> !same_location@[k],
                })
            }
        },
{
    let mut i: usize = 0;
    let mut found: Option<usize> = None;
    while i < layout.places.len()
        invariant
            i <= layout.places.len(),
            found is None ==> forall|j: int| 0 <= j < i ==> layout.places@[j].id@ != destination_id@,
            found matches Some(f) ==> first_with_id(layout.places@, destination_id@, f as int),
        decreases layout.places.len() - i,
    {
        if found.is_none() && str_eq(layout.places[i].id.as_str(), destination_id) {
            found = Some(i);
        }
        i = i + 1;
    }
    let index = match found {
        None => {
            return Err(ErrorEnvelope::new("NOT_FOUND", "Storage location no longer exists."));
        },
        Some(f) => f,
    };
    proof {
        assert forall|j: int| first_with_id(layout.places@, destination_id@, j) implies j == index by {
            if j < index {
            } else if j > index {
                assert(layout.places@[index as int].id@ == destination_id@);
            }
        }
    }
    if paths_equal(layout.places[index].path.as_str(), new_path) {
        return Err(ErrorEnvelope::new("INVALID_INPUT", "Choose a different storage location."));
    }
    if !has_parent(new_path) {
        return Err(ErrorEnvelope::new("INVALID_INPUT", "Cannot use a filesystem root as backup storage."));
    }
    let mut k: usize = 0;
    let mut existing: Option<usize> = None;
    while k < same_location.len()
        invariant
            k <= same_location.len(),
            same_location.len() == layout.places.len(),
            index < same_location.len(),
            existing is None ==> forall|j: int| 0 <= j < k && j != index ==> !same_location@[j],
            existing matches Some(e) ==> first_other_match(same_location@, index as int, e as int),
        decreases same_location.len() - k,
    {
        if existing.is_none() && k != index && same_location[k] {
            existing = Some(k);
        }
        k = k + 1;
    }
    proof {
        if existing is None {
            assert forall|m: int| !first_other_match(same_location@, index as int, m) by {}
        } else {
            let e = existing->0 as int;
            assert forall|m: int| first_other_match(same_location@, index as int, m) implies m == e by {
                if m < e {
                    assert(!same_location@[m]);
                } else if m > e {
                    assert(!same_location@[e]);
                }
            }
        }
    }
    if existing.is_some() && index != 0 {
        return Err(ErrorEnvelope::new(
            "CONFLICT",
            "Only Main storage can be switched with an existing secondary backup location.",
        ));
    }
    Ok(RelocationPlan { index, existing })
}

/// Why promoting secondary location `secondary_index` cannot start, if it cannot.
pub open spec fn promotion_problem(
    place_count: nat,
    secondary_index: nat,
    main_available: bool,
    secondary_available: bool,
    same_folder: bool,
) -> Option<Seq<char>> {
    if place_count == 0 {
        Some("Main storage is not configured."@)
    } else if secondary_index >= place_count {
        Some("The selected secondary backup location no longer exists."@)
    } else if !main_available {
        Some("Main storage is missing or unavailable; no storage roles were changed."@)
    } else if !secondary_available {
        Some("The selected secondary backup location is missing or unavailable."@)
    } else if same_folder {
        Some("Main and secondary storage resolve to the same folder."@)
    } else {
        None
    }
}

/// The checks made before a secondary copy is compared with Main storage:
/// `main_available` and `secondary_available` tell whether each folder is a directory,
/// `same_folder` whether both resolve to one location.
pub fn promotion_precheck(
    place_count: usize,
    secondary_index: usize,
    main_available: bool,
    secondary_available: bool,
    same_folder: bool,
) -> (r: Result<(), String>)
    ensures
        match promotion_problem(place_count as nat, secondary_index as nat, main_available, secondary_available, same_folder) {
            Some(m) => r matches Err(e) && e@ == m,
            None => r is Ok,
        },
{
    if place_count == 0 {
        Err(String::from_str("Main storage is not configured."))
    } else if secondary_index >= place_count {
        Err(String::from_str("The selected secondary backup location no longer exists."))
    } else if !main_available {
        Err(String::from_str("Main storage is missing or unavailable; no storage roles were changed."))
    } else if !secondary_available {
        Err(String::from_str("The selected secondary backup location is missing or unavailable."))
    } else if same_folder {
        Err(String::from_str("Main and secondary storage resolve to the same folder."))
    } else {
        Ok(())
    }
}

/// A watched source as the promotion check sees it.
#[derive(Debug)]
pub struct WatchedSource {
    pub path: String,
    pub enabled: bool,
    pub destination_id: String,
}

/// Source `s` backs up to location `id` while enabled.
pub open spec fn feeds(s: WatchedSource, id: Seq<char>) -> bool {
    s.enabled && s.destination_id@ == id
}

/// `p` is in `v`, as the same string or as the same path.
pub open spec fn covered(p: Seq<char>, v: Seq<String>) -> bool {
    exists|k: int| 0 <= k < v.len() && (v[k]@ == p || same_path(v[k]@, p))
}

/// `p` is the path of one of the first `n` sources, and that source feeds location `id`.
pub open spec fn fed_path(watched: Seq<WatchedSource>, n: int, id: Seq<char>, p: Seq<char>) -> bool {
    exists|j: int| 0 <= j < n && feeds(watched[j], id) && watched[j].path@ == p
}

/// The enabled sources that back up to Main storage (`main_id`), each path once, in
/// configuration order: the sources whose newest version the secondary copy must hold.
pub fn sources_to_check(watched: &Vec<WatchedSource>, main_id: &str) -> (r: Vec<String>)
    ensures
        forall|k: int| 0 <= k < r@.len() ==> fed_path(watched@, watched@.len() as int, main_id@, #[trigger] r@[k]@),
        forall|i: int| 0 <= i < watched@.len() && feeds(watched@[i], main_id@) ==>
            covered(#[trigger] watched@[i].path@, r@),
        forall|a: int, b: int| 0 <= a < b < r@.len() ==> !same_path(r@[a]@, r@[b]@),
{
    let mut out: Vec<String> = Vec::new();
    let mut i: usize = 0;
    while i < watched.len()
        invariant
            i <= watched.len(),
            forall|k: int| 0 <= k < out@.len() ==> fed_path(watched@, i as int, main_id@, #[trigger] out@[k]@),
            forall|j: int| 0 <= j < i && feeds(watched@[j], main_id@) ==>
                covered(#[trigger] watched@[j].path@, out@),
            forall|a: int, b: int| 0 <= a < b < out@.len() ==> !same_path(out@[a]@, out@[b]@),
        decreases watched.len() - i,
    {
        let ghost before = out@;
        let w = &watched[i];
        if w.enabled && str_eq(w.destination_id.as_str(), main_id) {
            let mut seen = false;
            let mut k: usize = 0;
            while k < out.len()
                invariant
                    k <= out.len(),
                    out@ == before,
                    !seen ==> forall|m: int| 0 <= m < k ==> !same_path(out@[m]@, w.path@),
                    seen ==> covered(w.path@, out@),
                decreases out.len() - k,
            {
                if paths_equal(out[k].as_str(), w.path.as_str()) {
                    seen = true;
                }
                k = k + 1;
            }
            if !seen {
                out.push(w.path.clone());
                proof {
                    assert(out@[before.len() as int]@ == watched@[i as int].path@);
                    assert forall|a: int, b: int| 0 <= a < b < out@.len() implies !same_path(out@[a]@, out@[b]@) by {
                        if b == before.len() {
                            assert(out@[a] == before[a]);
                        } else {
                            assert(out@[a] == before[a] && out@[b] == before[b]);
                        }
                    }
                    assert(covered(watched@[i as int].path@, out@));
                }
            }
        }
        proof {
            assert forall|k2: int| 0 <= k2 < out@.len() implies fed_path(watched@, i + 1, main_id@, #[trigger] out@[k2]@) by {
                if k2 < before.len() {
                    assert(out@[k2] == before[k2]);
                    assert(fed_path(watched@, i as int, main_id@, before[k2]@));
                    let j = choose|j: int| 0 <= j < i && feeds(watched@[j], main_id@) && watched@[j].path@ == before[k2]@;
                    assert(0 <= j < i + 1 && feeds(watched@[j], main_id@) && watched@[j].path@ == out@[k2]@);
                } else {
                    assert(feeds(watched@[i as int], main_id@) && watched@[i as int].path@ == out@[k2]@);
                }
            }
            assert forall|j: int| 0 <= j < i + 1 && feeds(watched@[j], main_id@) implies
                covered(#[trigger] watched@[j].path@, out@) by {
                if j < i {
                    assert(covered(watched@[j].path@, before));
                    let k3 = choose|k3: int| 0 <= k3 < before.len()
                        && (before[k3]@ == watched@[j].path@ || same_path(before[k3]@, watched@[j].path@));
                    assert(out@[k3] == before[k3]);
                }
            }
        }
        i = i + 1;
    }
    out
}

/// The newest of the given version timestamps.
pub open spec fn is_latest(created: Seq<i64>, t: i64) -> bool {
    &&& exists|i: int| 0 <= i < created.len() && created[i] == t
    &&& forall|i: int| 0 <= i < created.len() ==> created[i] <= t
}

/// The newest creation time among a source's recovery versions, if it has any.
pub fn latest_created(created: &Vec<i64>) -> (r: Option<i64>)
    ensures
        created@.len() == 0 <==> r is None,
        r matches Some(t) ==> is_latest(created@, t),
{
    if created.len() == 0 {
        return None;
    }
    let mut best: i64 = created[0];
    let mut i: usize = 1;
    while i < created.len()
        invariant
            1 <= i <= created.len(),
            exists|k: int| 0 <= k < i && created@[k] == best,
            forall|k: int| 0 <= k < i ==> created@[k] <= best,
        decreases created.len() - i,
    {
        if created[i] > best {
            best = created[i];
        }
        i = i + 1;
    }
    Some(best)
}

/// Why the secondary copy cannot replace Main storage for one source, if it cannot:
/// it must hold a version at least as new as Main storage's newest one.
pub open spec fn freshness_problem(source_debug: Seq<char>, main_latest: Option<i64>, secondary_latest: Option<i64>) -> Option<Seq<char>> {
    match main_latest {
        None => None,
        Some(m) => match secondary_latest {
            None => Some("The selected secondary location has no recovery version for "@ + source_debug + "."@),
            Some(c) => if c < m {
                Some("The selected secondary location is behind Main storage for "@ + source_debug
                    + "; run a backup and try again."@)
            } else {
                None
            },
        },
    }
}

/// Compares the newest versions of one source on Main storage and on the secondary copy.
/// `source_debug` is the source path as the messages quote it.
pub fn check_source_freshness(source_debug: &str, main_latest: Option<i64>, secondary_latest: Option<i64>) -> (r: Result<(), String>)
    ensures
        match freshness_problem(source_debug@, main_latest, secondary_latest) {
            Some(m) => r matches Err(e) && e@ == m,
            None => r is Ok,
        },
{
    match main_latest {
        None => Ok(()),
        Some(m) => match secondary_latest {
            None => {
                let mut e = String::new();
                push_str(&mut e, "The selected secondary location has no recovery version for ");
                push_str(&mut e, source_debug);
                push_str(&mut e, ".");
                Err(e)
            },
            Some(c) => {
                if c < m {
                    let mut e = String::new();
                    push_str(&mut e, "The selected secondary location is behind Main storage for ");
                    push_str(&mut e, source_debug);
                    push_str(&mut e, "; run a backup and try again.");
                    Err(e)
                } else {
                    Ok(())
                }
            },
        },
    }
}

/// `a + b`, held at `u64::MAX` when it would overflow.
pub open spec fn sat_add(a: nat, b: nat) -> nat {
    if a + b > u64::MAX { u64::MAX as nat } else { a + b }
}

/// The integrity issues a full scrub of the secondary copy found; the copy may become
/// Main storage only when there are none.
pub fn integrity_check(manifests_bad: u64, missing_blobs: u64, hash_mismatches: u64) -> (r: Result<(), String>)
    ensures
        ({
            let issues = sat_add(sat_add(manifests_bad as nat, missing_blobs as nat), hash_mismatches as nat);
            &&& issues == 0 <==> r is Ok
            &&& r matches Err(e) ==> e@ == "The selected secondary location has "@ + decimal(issues)
                + " integrity issue(s); storage roles were not changed."@
        }),
{
    let issues = manifests_bad.saturating_add(missing_blobs).saturating_add(hash_mismatches);
    if issues > 0 {
        let mut e = String::new();
        push_str(&mut e, "The selected secondary location has ");
        push_decimal(&mut e, issues);
        push_str(&mut e, " integrity issue(s); storage roles were not changed.");
        return Err(e);
    }
    Ok(())
}

/// Why the current store cannot be copied to the new folder, judged before anything is
/// written: the current folder must be a directory and the new path must not be a file.
pub fn copy_source_problem(old_is_dir: bool, new_exists: bool, new_is_dir: bool) -> (r: Option<String>)
    ensures
        !old_is_dir ==> (r matches Some(m) && m@ == "The current backup storage folder is missing or unavailable."@),
        old_is_dir && new_exists && !new_is_dir ==> (r matches Some(m) && m@ == "The new storage location points to a file."@),
        old_is_dir && !(new_exists && !new_is_dir) ==> r is None,
{
    if !old_is_dir {
        return Some(String::from_str("The current backup storage folder is missing or unavailable."));
    }
    if new_exists && !new_is_dir {
        return Some(String::from_str("The new storage location points to a file."));
    }
    None
}

/// The new folder is the current one or one of them lies inside the other.
pub open spec fn overlapping(old_resolved: Seq<char>, new_resolved: Seq<char>) -> bool {
    same_path(old_resolved, new_resolved) || path_starts_with(old_resolved, new_resolved)
        || path_starts_with(new_resolved, old_resolved)
}

/// Why the resolved folders cannot be used for a copy, if they cannot: the new folder
/// must be empty, and neither folder may be or contain the other.
pub fn copy_target_problem(new_has_entries: bool, old_resolved: &str, new_resolved: &str) -> (r: Option<String>)
    ensures
        new_has_entries ==> (r matches Some(m)
            && m@ == "The new storage folder must be empty so existing files cannot be overwritten."@),
        !new_has_entries && overlapping(old_resolved@, new_resolved@) ==> (r matches Some(m)
            && m@ == "The new storage folder cannot be the current folder or one nested inside it."@),
        !new_has_entries && !overlapping(old_resolved@, new_resolved@) ==> r is None,
{
    if new_has_entries {
        return Some(String::from_str("The new storage folder must be empty so existing files cannot be overwritten."));
    }
    if paths_equal(old_resolved, new_resolved) || starts_with_path(old_resolved, new_resolved)
        || starts_with_path(new_resolved, old_resolved) {
        return Some(String::from_str("The new storage folder cannot be the current folder or one nested inside it."));
    }
    None
}

/// The kind of an entry met while walking the current store.
#[derive(Debug)]
pub enum EntryKind {
    Symlink,
    Directory,
    File,
    Other,
}

/// The walk over the current store: directories still to read, files to copy, and the
/// running byte total (held at `u64::MAX` rather than overflowing).
#[derive(Debug)]
pub struct StoreWalk {
    pub pending: Vec<String>,
    pub files: Vec<String>,
    pub total_bytes: u64,
}

/// Starts a walk at the resolved root of the current store.
pub fn start_store_walk(root: &str) -> (r: StoreWalk)
    ensures
        r.pending@.len() == 1,
        r.pending@[0]@ == root@,
        r.files@.len() == 0,
        r.total_bytes == 0,
{
    let mut pending: Vec<String> = Vec::new();
    pending.push(String::from_str(root));
    StoreWalk { pending, files: Vec::new(), total_bytes: 0 }
}

impl StoreWalk {
    /// The next directory to read, most recently found first.
    pub fn next_directory(&mut self) -> (r: Option<String>)
        ensures
            old(self).pending@.len() == 0 ==> r is None && final(self).pending@ == old(self).pending@,
            old(self).pending@.len() > 0 ==> r == Some(old(self).pending@.last())
                && final(self).pending@ == old(self).pending@.drop_last(),
            final(self).files@ == old(self).files@,
            final(self).total_bytes == old(self).total_bytes,
    {
        self.pending.pop()
    }

    /// Takes note of one entry: a directory is queued, a file is counted, anything else is
    /// skipped, and a symbolic link stops the walk with an error.
    pub fn visit(&mut self, path: String, kind: EntryKind, len: u64) -> (r: Result<(), String>)
        ensures
            kind is Symlink <==> r is Err,
            r matches Err(m) ==> m@ == "Backup storage contains a symbolic link, so it was left unchanged."@,
            kind is Directory ==> final(self).pending@ == old(self).pending@.push(path)
                && final(self).files@ == old(self).files@ && final(self).total_bytes == old(self).total_bytes,
            kind is File ==> final(self).files@ == old(self).files@.push(path)
                && final(self).pending@ == old(self).pending@
                && final(self).total_bytes == sat_add(old(self).total_bytes as nat, len as nat),
            (kind is Symlink || kind is Other) ==> final(self).pending@ == old(self).pending@
                && final(self).files@ == old(self).files@ && final(self).total_bytes == old(self).total_bytes,
    {
        match kind {
            EntryKind::Symlink => Err(String::from_str("Backup storage contains a symbolic link, so it was left unchanged.")),
            EntryKind::Directory => {
                self.pending.push(path);
                Ok(())
            },
            EntryKind::File => {
                self.total_bytes = self.total_bytes.saturating_add(len);
                self.files.push(path);
                Ok(())
            },
            EntryKind::Other => Ok(()),
        }
    }
}

/// Checks one copied backup file: the copy must have the same SHA-256 digest as the file it
/// was copied from. `relative_debug` is the file's path below the store, as the message
/// quotes it.
pub fn copied_file_check(relative_debug: &str, source_digest: &str, copy_digest: &str) -> (r: Result<(), String>)
    ensures
        r is Ok <==> source_digest@ == copy_digest@,
        r matches Err(m) ==> m@ == "Verification failed for copied backup file "@ + relative_debug@ + "."@,
{
    if str_eq(source_digest, copy_digest) {
        return Ok(());
    }
    let mut m = String::new();
    push_str(&mut m, "Verification failed for copied backup file ");
    push_str(&mut m, relative_debug);
    push_str(&mut m, ".");
    Err(m)
}

/// Checks that the new folder has room for the whole store plus the safety buffer.
/// Returns the space required.
pub fn copy_space_check(total_bytes: u64, safety_buffer: u64, available: u64) -> (r: Result<u64, String>)
    ensures
        ({
            let required = sat_add(total_bytes as nat, safety_buffer as nat);
            &&& available >= required <==> r is Ok
            &&& r matches Ok(q) ==> q == required
            &&& r matches Err(m) ==> m@ == "The new storage location needs at least "@ + decimal(required)
                + " bytes free; only "@ + decimal(available as nat) + " bytes are available."@
        }),
{
    let required = total_bytes.saturating_add(safety_buffer);
    if available < required {
        let mut m = String::new();
        push_str(&mut m, "The new storage location needs at least ");
        push_decimal(&mut m, required);
        push_str(&mut m, " bytes free; only ");
        push_decimal(&mut m, available);
        push_str(&mut m, " bytes are available.");
        return Err(m);
    }
    Ok(required)
}

/// Where a storage relocation stands.
#[derive(Debug)]
pub enum RelocationStage {
    SavingPaused,
    PausingDaemon,
    VerifyingSecondary,
    SavingPromoted,
    RestartingPromoted,
    RollingBackPromoted,
    Copying,
    SavingMoved,
    RestartingMoved,
    RollingBackMoved,
    RemovingOld,
    Finished,
}

/// How pausing the daemon failed: `summary` is the error's own text, `detail` the full
/// redacted error chain.
#[derive(Debug)]
pub struct DaemonFailure {
    pub summary: String,
    pub detail: String,
}

/// What the outside work of the last action reported.
#[derive(Debug)]
pub enum RelocationEvent {
    /// A configuration save finished; the error chain on failure.
    Saved(Result<(), String>),
    /// Pausing active backups finished.
    DaemonPaused(Result<(), DaemonFailure>),
    /// The secondary copy was verified (recovery manifests checked) or refused.
    SecondaryVerified(Result<usize, String>),
    /// The store was copied and verified (files, bytes) or not.
    Copied(Result<(usize, u64), String>),
    /// The background task doing the work stopped unexpectedly.
    TaskStopped(String),
    /// The daemon restart finished; the failure reason on failure.
    Restarted(Result<(), String>),
    /// The rollback finished: whether the original configuration was saved and whether
    /// the daemon restarted with it.
    RollbackFinished { saved: bool, restarted: bool },
    /// Removing the old location finished.
    OldRemoved(Result<(), String>),
}

/// What a finished relocation reports.
#[derive(Debug)]
pub struct RelocationSummary {
    pub operation: String,
    pub files_moved: usize,
    pub bytes_moved: u64,
    pub old_location_removed: bool,
    pub warning: Option<String>,
}

/// The outside work to do next.
#[derive(Debug)]
pub enum RelocationAction {
    /// Save the configuration with this storage layout; `paused` turns safe mode on,
    /// otherwise the original safe-mode setting is kept.
    SaveConfig { layout: StorageLayout, paused: bool },
    /// Ask the daemon to pause active backups.
    PauseDaemon,
    /// Verify that this secondary location can become Main storage.
    VerifySecondary(usize),
    /// Copy and verify the store from the first folder into the second.
    CopyStore { from: String, to: String },
    /// Restart the daemon so it picks up the saved configuration.
    RestartDaemon,
    /// Save the original configuration again and restart the daemon with it.
    RollbackAndRestart,
    /// Delete the old storage folder.
    RemoveOldLocation(String),
    /// Save the original configuration, restore its safe-mode setting in the daemon, and fail.
    RollbackThenFail(ErrorEnvelope),
    /// Save the original configuration and fail.
    RestoreConfigThenFail(ErrorEnvelope),
    /// Fail; nothing needs undoing.
    Fail(ErrorEnvelope),
    /// Finish successfully.
    Succeed(RelocationSummary),
}

/// A storage relocation in progress: the original layout, the location being changed
/// and its new folder, and what has been learned so far.
#[derive(Debug)]
pub struct Relocation {
    pub original: StorageLayout,
    pub index: usize,
    pub new_path: String,
    pub existing: Option<usize>,
    pub stage: RelocationStage,
    pub next: StorageLayout,
    pub manifests_verified: usize,
    pub files_moved: usize,
    pub bytes_moved: u64,
    pub restart_reason: String,
}

impl Relocation {
    /// The location index is valid, and an existing secondary location to promote only
    /// ever goes with a change of Main storage.
    pub open spec fn wf(&self) -> bool {
        &&& self.index < self.original.places@.len()
        &&& self.existing matches Some(k) ==> self.index == 0 && 0 < k < self.original.places@.len()
        &&& place_ids(self.next.places@) == place_ids(self.original.places@)
        &&& (self.stage is VerifyingSecondary || self.stage is SavingPromoted || self.stage is RestartingPromoted
            || self.stage is RollingBackPromoted) ==> self.existing is Some
    }
}

/// The events each stage waits for.
pub open spec fn expects(stage: RelocationStage, event: RelocationEvent) -> bool {
    match stage {
        RelocationStage::SavingPaused | RelocationStage::SavingPromoted | RelocationStage::SavingMoved => event is Saved,
        RelocationStage::PausingDaemon => event is DaemonPaused,
        RelocationStage::VerifyingSecondary => event is SecondaryVerified || event is TaskStopped,
        RelocationStage::Copying => event is Copied || event is TaskStopped,
        RelocationStage::RestartingPromoted | RelocationStage::RestartingMoved => event is Restarted,
        RelocationStage::RollingBackPromoted | RelocationStage::RollingBackMoved => event is RollbackFinished,
        RelocationStage::RemovingOld => event is OldRemoved || event is TaskStopped,
        RelocationStage::Finished => false,
    }
}

/// Whether `stage` waits for `event`.
pub fn stage_expects(stage: &RelocationStage, event: &RelocationEvent) -> (r: bool)
    ensures
        r == expects(*stage, *event),
{
    match stage {
        RelocationStage::SavingPaused | RelocationStage::SavingPromoted | RelocationStage::SavingMoved => {
            matches!(event, RelocationEvent::Saved(_))
        },
        RelocationStage::PausingDaemon => matches!(event, RelocationEvent::DaemonPaused(_)),
        RelocationStage::VerifyingSecondary => {
            matches!(event, RelocationEvent::SecondaryVerified(_)) || matches!(event, RelocationEvent::TaskStopped(_))
        },
        RelocationStage::Copying => {
            matches!(event, RelocationEvent::Copied(_)) || matches!(event, RelocationEvent::TaskStopped(_))
        },
        RelocationStage::RestartingPromoted | RelocationStage::RestartingMoved => {
            matches!(event, RelocationEvent::Restarted(_))
        },
        RelocationStage::RollingBackPromoted | RelocationStage::RollingBackMoved => {
            matches!(event, RelocationEvent::RollbackFinished { .. })
        },
        RelocationStage::RemovingOld => {
            matches!(event, RelocationEvent::OldRemoved(_)) || matches!(event, RelocationEvent::TaskStopped(_))
        },
        RelocationStage::Finished => false,
    }
}

/// Starts a relocation planned by `plan_relocation`: the first step saves the original
/// configuration with safe mode on, so no backup writes while storage changes.
pub fn start_relocation(original: StorageLayout, plan: RelocationPlan, new_path: String) -> (r: (Relocation, RelocationAction))
    requires
        plan.index < original.places@.len(),
        plan.existing matches Some(k) ==> plan.index == 0 && 0 < k < original.places@.len(),
    ensures
        r.0.wf(),
        r.0.stage is SavingPaused,
        r.0.original == original,
        r.0.index == plan.index,
        r.0.existing == plan.existing,
        r.0.new_path == new_path,
        r.1 matches RelocationAction::SaveConfig { layout, paused } && paused
            && layout.places@ == original.places@ && layout.backup_root == original.backup_root,
{
    let paused_layout = original.duplicate();
    let next = original.duplicate();
    let rel = Relocation {
        original,
        index: plan.index,
        new_path,
        existing: plan.existing,
        stage: RelocationStage::SavingPaused,
        next,
        manifests_verified: 0,
        files_moved: 0,
        bytes_moved: 0,
        restart_reason: String::new(),
    };
    (rel, RelocationAction::SaveConfig { layout: paused_layout, paused: true })
}

/// The note appended when the daemon refused a promoted Main storage.
pub open spec fn promotion_rollback_note(saved: bool, restarted: bool) -> Seq<char> {
    if !saved || !restarted {
        " Automatic rollback also needs attention; leave Backup Sync paused and inspect the configured paths before continuing."@
    } else {
        " The original storage roles were restored."@
    }
}

/// The note appended when the daemon refused a moved storage location.
pub open spec fn move_rollback_note(saved: bool, restarted: bool) -> Seq<char> {
    if !saved || !restarted {
        " Automatic rollback also needs attention; leave Backup Sync paused and inspect the configured paths before continuing."@
    } else {
        " The original storage location was restored. The verified new copy was kept and can be removed manually after inspection."@
    }
}

/// The warning of a successful promotion.
pub open spec fn promotion_warning(manifests: nat) -> Seq<char> {
    "Verified "@ + decimal(manifests)
        + " recovery manifest(s). The selected secondary copy is now Main storage; the previous Main storage remains intact as a secondary backup."@
}

fn rollback_note(promoted: bool, saved: bool, restarted: bool) -> (r: &'static str)
    ensures
        promoted ==> r@ == promotion_rollback_note(saved, restarted),
        !promoted ==> r@ == move_rollback_note(saved, restarted),
{
    if !saved || !restarted {
        " Automatic rollback also needs attention; leave Backup Sync paused and inspect the configured paths before continuing."
    } else if promoted {
        " The original storage roles were restored."
    } else {
        " The original storage location was restored. The verified new copy was kept and can be removed manually after inspection."
    }
}

fn message_of(parts: &str, tail: &str) -> (r: String)
    ensures
        r@ == parts@ + tail@,
{
    let mut m = String::new();
    push_str(&mut m, parts);
    push_str(&mut m, tail);
    m
}

/// The steps that record a new storage layout: a verified secondary copy, or a verified copy.
pub open spec fn sets_layout(stage: RelocationStage, event: RelocationEvent) -> bool {
    ||| stage is VerifyingSecondary && event matches RelocationEvent::SecondaryVerified(Ok(_))
    ||| stage is Copying && event matches RelocationEvent::Copied(Ok(_))
}

/// The step that records what was copied.
pub open spec fn sets_copy_counts(stage: RelocationStage, event: RelocationEvent) -> bool {
    stage is Copying && event matches RelocationEvent::Copied(Ok(_))
}

/// The step that records how many manifests were verified.
pub open spec fn sets_manifest_count(stage: RelocationStage, event: RelocationEvent) -> bool {
    stage is VerifyingSecondary && event matches RelocationEvent::SecondaryVerified(Ok(_))
}

/// The steps that record why the daemon refused a restart.
pub open spec fn sets_restart_reason(stage: RelocationStage, event: RelocationEvent) -> bool {
    (stage is RestartingPromoted || stage is RestartingMoved) && event matches RelocationEvent::Restarted(Err(_))
}

/// Advances a relocation by one event and names the next piece of outside work.
///
/// Once the paused configuration is saved, every failure first restores the original
/// configuration (and, where backups were paused, the original safe-mode setting), and the
/// old storage folder is deleted only after the moved configuration was saved and the
/// daemon accepted it.
#[verifier::rlimit(40)]
pub fn relocation_step(r: &mut Relocation, event: RelocationEvent) -> (a: RelocationAction)
    requires
        old(r).wf(),
        expects(old(r).stage, event),
    ensures
        final(r).wf(),
        final(r).original == old(r).original,
        final(r).index == old(r).index,
        final(r).new_path == old(r).new_path,
        final(r).existing == old(r).existing,
        // What each step does not set, it keeps.
        !sets_layout(old(r).stage, event) ==> final(r).next == old(r).next,
        !sets_copy_counts(old(r).stage, event) ==> final(r).files_moved == old(r).files_moved
            && final(r).bytes_moved == old(r).bytes_moved,
        !sets_manifest_count(old(r).stage, event) ==> final(r).manifests_verified == old(r).manifests_verified,
        !sets_restart_reason(old(r).stage, event) ==> final(r).restart_reason == old(r).restart_reason,
        // A bare failure only before anything changed, or once the rollback ran.
        a is Fail ==> old(r).stage is SavingPaused || old(r).stage is RollingBackPromoted
            || old(r).stage is RollingBackMoved,
        // The old folder goes only after the moved configuration is active.
        a is RemoveOldLocation ==> old(r).stage is RestartingMoved && event matches RelocationEvent::Restarted(Ok(_)),
        a matches RelocationAction::RemoveOldLocation(p) ==> p == old(r).original.places@[old(r).index as int].path,
        // Every saved layout keeps the locations' ids.
        a matches RelocationAction::SaveConfig { layout, paused } ==> !paused
            && place_ids(layout.places@) == place_ids(old(r).original.places@)
            && layout.places@ == final(r).next.places@ && layout.backup_root == final(r).next.backup_root,
        old(r).stage is SavingPaused ==> match event {
            RelocationEvent::Saved(Ok(_)) => a is PauseDaemon && final(r).stage is PausingDaemon,
            RelocationEvent::Saved(Err(d)) => final(r).stage is Finished && (a matches RelocationAction::Fail(e)
                && e.code@ == "CONFIG_SAVE"@ && e.message@ == envelope_message("CONFIG_SAVE"@,
                    "destination::relocate_destination_cmd failed to pause configuration"@ + ": "@ + d@)),
            _ => true,
        },
        old(r).stage is PausingDaemon ==> match event {
            RelocationEvent::DaemonPaused(Err(f)) if !contains_seq(f.summary@, "socket not found"@) =>
                final(r).stage is Finished && (a matches RelocationAction::RestoreConfigThenFail(e)
                    && e.code@ == "STATUS_UNAVAILABLE"@ && e.message@ == envelope_message("STATUS_UNAVAILABLE"@,
                        "destination::relocate_destination_cmd could not pause active backups"@ + ": "@ + f.detail@)),
            _ => match old(r).existing {
                Some(k) => a == RelocationAction::VerifySecondary(k) && final(r).stage is VerifyingSecondary,
                None => final(r).stage is Copying && (a matches RelocationAction::CopyStore { from, to }
                    && from == old(r).original.places@[old(r).index as int].path && to == old(r).new_path),
            },
        },
        old(r).stage is VerifyingSecondary ==> match event {
            RelocationEvent::SecondaryVerified(Ok(n)) => final(r).stage is SavingPromoted
                && final(r).manifests_verified == n
                && final(r).next.places@ == swapped(old(r).original, old(r).existing->0 as int).0
                && final(r).next.backup_root == swapped(old(r).original, old(r).existing->0 as int).1
                && a is SaveConfig,
            RelocationEvent::SecondaryVerified(Err(d)) => final(r).stage is Finished
                && (a matches RelocationAction::RollbackThenFail(e) && e.code@ == "STORAGE_PROMOTION_FAILED"@
                    && e.message@ == envelope_message("STORAGE_PROMOTION_FAILED"@,
                        "The existing secondary copy could not be verified; storage roles are unchanged"@ + ": "@ + d@)),
            RelocationEvent::TaskStopped(d) => final(r).stage is Finished
                && (a matches RelocationAction::RollbackThenFail(e) && e.code@ == "BLOCKING_TASK_FAILED"@
                    && e.message@ == envelope_message("BLOCKING_TASK_FAILED"@,
                        "Storage verification stopped unexpectedly; storage roles are unchanged: "@ + d@)),
            _ => true,
        },
        old(r).stage is Copying ==> match event {
            RelocationEvent::Copied(Ok((files, bytes))) => final(r).stage is SavingMoved
                && final(r).files_moved == files && final(r).bytes_moved == bytes
                && final(r).next.places@ == moved(old(r).original, old(r).index as int, final(r).next.places@[old(r).index as int].path).0
                && final(r).next.places@[old(r).index as int].path@ == old(r).new_path@
                && final(r).next.backup_root == moved(old(r).original, old(r).index as int, final(r).next.places@[old(r).index as int].path).1
                && a is SaveConfig,
            RelocationEvent::Copied(Err(d)) => final(r).stage is Finished
                && (a matches RelocationAction::RollbackThenFail(e) && e.code@ == "STORAGE_MOVE_FAILED"@
                    && e.message@ == envelope_message("STORAGE_MOVE_FAILED"@,
                        "New storage could not be copied and verified; the old location is unchanged"@ + ": "@ + d@)),
            RelocationEvent::TaskStopped(d) => final(r).stage is Finished
                && (a matches RelocationAction::RollbackThenFail(e) && e.code@ == "BLOCKING_TASK_FAILED"@
                    && e.message@ == envelope_message("BLOCKING_TASK_FAILED"@,
                        "Storage move stopped unexpectedly; the old location is unchanged: "@ + d@)),
            _ => true,
        },
        old(r).stage is SavingPromoted ==> match event {
            RelocationEvent::Saved(Ok(_)) => a is RestartDaemon && final(r).stage is RestartingPromoted,
            RelocationEvent::Saved(Err(d)) => final(r).stage is Finished
                && (a matches RelocationAction::RollbackThenFail(e) && e.code@ == "CONFIG_SAVE"@
                    && e.message@ == envelope_message("CONFIG_SAVE"@,
                        "The secondary copy was verified but could not be promoted; storage roles are unchanged"@ + ": "@ + d@)),
            _ => true,
        },
        old(r).stage is SavingMoved ==> match event {
            RelocationEvent::Saved(Ok(_)) => a is RestartDaemon && final(r).stage is RestartingMoved,
            RelocationEvent::Saved(Err(d)) => final(r).stage is Finished
                && (a matches RelocationAction::RollbackThenFail(e) && e.code@ == "CONFIG_SAVE"@
                    && e.message@ == envelope_message("CONFIG_SAVE"@,
                        "New storage was verified but could not be activated; the old location is unchanged"@ + ": "@ + d@)),
            _ => true,
        },
        old(r).stage is RestartingPromoted ==> match event {
            RelocationEvent::Restarted(Ok(_)) => final(r).stage is Finished
                && (a matches RelocationAction::Succeed(s) && s.operation@ == "promoted_existing_secondary"@
                    && s.files_moved == 0 && s.bytes_moved == 0 && !s.old_location_removed
                    && (s.warning matches Some(w) && w@ == promotion_warning(old(r).manifests_verified as nat))),
            RelocationEvent::Restarted(Err(reason)) => a is RollbackAndRestart
                && final(r).stage is RollingBackPromoted && final(r).restart_reason == reason,
            _ => true,
        },
        old(r).stage is RestartingMoved ==> match event {
            RelocationEvent::Restarted(Ok(_)) => final(r).stage is RemovingOld && a is RemoveOldLocation,
            RelocationEvent::Restarted(Err(reason)) => a is RollbackAndRestart
                && final(r).stage is RollingBackMoved && final(r).restart_reason == reason,
            _ => true,
        },
        old(r).stage is RollingBackPromoted ==> match event {
            RelocationEvent::RollbackFinished { saved, restarted } => final(r).stage is Finished
                && (a matches RelocationAction::Fail(e) && e.code@ == "ACTIVATION_FAILED"@
                    && e.message@ == envelope_message("ACTIVATION_FAILED"@,
                        "The selected copy verified correctly, but the background service did not accept the role change: "@
                        + old(r).restart_reason@ + "."@ + promotion_rollback_note(saved, restarted))),
            _ => true,
        },
        old(r).stage is RollingBackMoved ==> match event {
            RelocationEvent::RollbackFinished { saved, restarted } => final(r).stage is Finished
                && (a matches RelocationAction::Fail(e) && e.code@ == "ACTIVATION_FAILED"@
                    && e.message@ == envelope_message("ACTIVATION_FAILED"@,
                        "The new copy verified correctly, but the background service did not accept the storage change: "@
                        + old(r).restart_reason@ + "."@ + move_rollback_note(saved, restarted))),
            _ => true,
        },
        old(r).stage is RemovingOld ==> final(r).stage is Finished && (a matches RelocationAction::Succeed(s)
            && s.operation@ == "moved_to_new_location"@
            && s.files_moved == old(r).files_moved && s.bytes_moved == old(r).bytes_moved
            && s.old_location_removed == (event matches RelocationEvent::OldRemoved(Ok(_)))
            && match event {
                RelocationEvent::OldRemoved(Ok(_)) => s.warning is None,
                RelocationEvent::OldRemoved(Err(d)) => (s.warning matches Some(w) && w@ ==
                    "The new location is active and verified. The old backup files could not be removed automatically and remain at "@
                    + old(r).original.places@[old(r).index as int].path@ + ": "@ + d@),
                RelocationEvent::TaskStopped(d) => (s.warning matches Some(w) && w@ ==
                    "The new location is active and verified. The old backup files remain at "@
                    + old(r).original.places@[old(r).index as int].path@ + " because cleanup did not complete: "@ + d@),
                _ => true,
            }),
{
    let ghost start = *r;
    match r.stage {
        RelocationStage::SavingPaused => {
            match event {
                RelocationEvent::Saved(Ok(())) => {
                    r.stage = RelocationStage::PausingDaemon;
                    RelocationAction::PauseDaemon
                },
                RelocationEvent::Saved(Err(d)) => {
                    r.stage = RelocationStage::Finished;
                    RelocationAction::Fail(relocation_error(
                        "CONFIG_SAVE",
                        "destination::relocate_destination_cmd failed to pause configuration",
                        d.as_str(),
                    ))
                },
                _ => { proof { assert(false); } RelocationAction::PauseDaemon },
            }
        },
        RelocationStage::PausingDaemon => {
            let refused = match &event {
                RelocationEvent::DaemonPaused(Err(f)) => !str_contains(f.summary.as_str(), "socket not found"),
                _ => false,
            };
            if refused {
                match event {
                    RelocationEvent::DaemonPaused(Err(f)) => {
                        r.stage = RelocationStage::Finished;
                        return RelocationAction::RestoreConfigThenFail(relocation_error(
                            "STATUS_UNAVAILABLE",
                            "destination::relocate_destination_cmd could not pause active backups",
                            f.detail.as_str(),
                        ));
                    },
                    _ => { proof { assert(false); } },
                }
            }
            match r.existing {
                Some(k) => {
                    r.stage = RelocationStage::VerifyingSecondary;
                    RelocationAction::VerifySecondary(k)
                },
                None => {
                    r.stage = RelocationStage::Copying;
                    let from = r.original.places[r.index].path.clone();
                    RelocationAction::CopyStore { from, to: r.new_path.clone() }
                },
            }
        },
        RelocationStage::VerifyingSecondary => {
            match event {
                RelocationEvent::SecondaryVerified(Ok(n)) => {
                    let k = match r.existing { Some(k) => k, None => { proof { assert(false); } 0 } };
                    match swap_main_with_secondary(&r.original, k) {
                        Ok(next) => {
                            proof {
                                lemma_swap_keeps_ids_and_undoes_itself(r.original, k as int);
                            }
                            let layout = next.duplicate();
                            r.next = next;
                            r.manifests_verified = n;
                            r.stage = RelocationStage::SavingPromoted;
                            RelocationAction::SaveConfig { layout, paused: false }
                        },
                        Err(_) => { proof { assert(false); } RelocationAction::PauseDaemon },
                    }
                },
                RelocationEvent::SecondaryVerified(Err(d)) => {
                    r.stage = RelocationStage::Finished;
                    RelocationAction::RollbackThenFail(relocation_error(
                        "STORAGE_PROMOTION_FAILED",
                        "The existing secondary copy could not be verified; storage roles are unchanged",
                        d.as_str(),
                    ))
                },
                RelocationEvent::TaskStopped(d) => {
                    r.stage = RelocationStage::Finished;
                    let m = message_of("Storage verification stopped unexpectedly; storage roles are unchanged: ", d.as_str());
                    RelocationAction::RollbackThenFail(ErrorEnvelope::new("BLOCKING_TASK_FAILED", m.as_str()))
                },
                _ => { proof { assert(false); } RelocationAction::PauseDaemon },
            }
        },
        RelocationStage::Copying => {
            match event {
                RelocationEvent::Copied(Ok((files, bytes))) => {
                    let next = relocated_layout(&r.original, r.index, r.new_path.as_str());
                    proof {
                        assert(place_ids(next.places@) =~= place_ids(r.original.places@));
                    }
                    let layout = next.duplicate();
                    r.next = next;
                    r.files_moved = files;
                    r.bytes_moved = bytes;
                    r.stage = RelocationStage::SavingMoved;
                    RelocationAction::SaveConfig { layout, paused: false }
                },
                RelocationEvent::Copied(Err(d)) => {
                    r.stage = RelocationStage::Finished;
                    RelocationAction::RollbackThenFail(relocation_error(
                        "STORAGE_MOVE_FAILED",
                        "New storage could not be copied and verified; the old location is unchanged",
                        d.as_str(),
                    ))
                },
                RelocationEvent::TaskStopped(d) => {
                    r.stage = RelocationStage::Finished;
                    let m = message_of("Storage move stopped unexpectedly; the old location is unchanged: ", d.as_str());
                    RelocationAction::RollbackThenFail(ErrorEnvelope::new("BLOCKING_TASK_FAILED", m.as_str()))
                },
                _ => { proof { assert(false); } RelocationAction::PauseDaemon },
            }
        },
        RelocationStage::SavingPromoted | RelocationStage::SavingMoved => {
            let promoted = matches!(r.stage, RelocationStage::SavingPromoted);
            match event {
                RelocationEvent::Saved(Ok(())) => {
                    r.stage = if promoted { RelocationStage::RestartingPromoted } else { RelocationStage::RestartingMoved };
                    RelocationAction::RestartDaemon
                },
                RelocationEvent::Saved(Err(d)) => {
                    r.stage = RelocationStage::Finished;
                    let context = if promoted {
                        "The secondary copy was verified but could not be promoted; storage roles are unchanged"
                    } else {
                        "New storage was verified but could not be activated; the old location is unchanged"
                    };
                    RelocationAction::RollbackThenFail(relocation_error("CONFIG_SAVE", context, d.as_str()))
                },
                _ => { proof { assert(false); } RelocationAction::PauseDaemon },
            }
        },
        RelocationStage::RestartingPromoted => {
            match event {
                RelocationEvent::Restarted(Ok(())) => {
                    r.stage = RelocationStage::Finished;
                    let mut w = String::new();
                    push_str(&mut w, "Verified ");
                    push_decimal(&mut w, r.manifests_verified as u64);
                    push_str(&mut w, " recovery manifest(s). The selected secondary copy is now Main storage; the previous Main storage remains intact as a secondary backup.");
                    RelocationAction::Succeed(RelocationSummary {
                        operation: String::from_str("promoted_existing_secondary"),
                        files_moved: 0,
                        bytes_moved: 0,
                        old_location_removed: false,
                        warning: Some(w),
                    })
                },
                RelocationEvent::Restarted(Err(reason)) => {
                    r.restart_reason = reason;
                    r.stage = RelocationStage::RollingBackPromoted;
                    RelocationAction::RollbackAndRestart
                },
                _ => { proof { assert(false); } RelocationAction::PauseDaemon },
            }
        },
        RelocationStage::RestartingMoved => {
            match event {
                RelocationEvent::Restarted(Ok(())) => {
                    r.stage = RelocationStage::RemovingOld;
                    RelocationAction::RemoveOldLocation(r.original.places[r.index].path.clone())
                },
                RelocationEvent::Restarted(Err(reason)) => {
                    r.restart_reason = reason;
                    r.stage = RelocationStage::RollingBackMoved;
                    RelocationAction::RollbackAndRestart
                },
                _ => { proof { assert(false); } RelocationAction::PauseDaemon },
            }
        },
        RelocationStage::RollingBackPromoted | RelocationStage::RollingBackMoved => {
            let promoted = matches!(r.stage, RelocationStage::RollingBackPromoted);
            match event {
                RelocationEvent::RollbackFinished { saved, restarted } => {
                    r.stage = RelocationStage::Finished;
                    let mut m = String::new();
                    if promoted {
                        push_str(&mut m, "The selected copy verified correctly, but the background service did not accept the role change: ");
                    } else {
                        push_str(&mut m, "The new copy verified correctly, but the background service did not accept the storage change: ");
                    }
                    push_str(&mut m, r.restart_reason.as_str());
                    push_str(&mut m, ".");
                    push_str(&mut m, rollback_note(promoted, saved, restarted));
                    RelocationAction::Fail(ErrorEnvelope::new("ACTIVATION_FAILED", m.as_str()))
                },
                _ => { proof { assert(false); } RelocationAction::PauseDaemon },
            }
        },
        RelocationStage::RemovingOld => {
            r.stage = RelocationStage::Finished;
            let old_path = r.original.places[r.index].path.as_str();
            let (removed, warning) = match event {
                RelocationEvent::OldRemoved(Ok(())) => (true, None),
                RelocationEvent::OldRemoved(Err(d)) => {
                    let mut w = String::new();
                    push_str(&mut w, "The new location is active and verified. The old backup files could not be removed automatically and remain at ");
                    push_str(&mut w, old_path);
                    push_str(&mut w, ": ");
                    push_str(&mut w, d.as_str());
                    (false, Some(w))
                },
                RelocationEvent::TaskStopped(d) => {
                    let mut w = String::new();
                    push_str(&mut w, "The new location is active and verified. The old backup files remain at ");
                    push_str(&mut w, old_path);
                    push_str(&mut w, " because cleanup did not complete: ");
                    push_str(&mut w, d.as_str());
                    (false, Some(w))
                },
                _ => { proof { assert(false); } (false, None) },
            };
            RelocationAction::Succeed(RelocationSummary {
                operation: String::from_str("moved_to_new_location"),
                files_moved: r.files_moved,
                bytes_moved: r.bytes_moved,
                old_location_removed: removed,
                warning,
            })
        },
        RelocationStage::Finished => { proof { assert(false); } RelocationAction::PauseDaemon },
    }
}

} // verus!
