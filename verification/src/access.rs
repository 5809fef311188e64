//! Access checks of the watched paths and of the backup destination.
use vstd::prelude::*;
use crate::text::{push_decimal, push_str, starts_with_seq, str_starts_with, decimal};

verus! {

/// The outcome of the access probe shown in the UI.
#[derive(Debug)]
pub struct AccessProbe {
    pub destination_writable: bool,
    pub destination_message: String,
    pub watched_ok: Vec<String>,
    pub watched_missing: Vec<String>,
    pub watched_unwritable: Vec<String>,
}

/// What probing one watched path found.
#[derive(Debug)]
pub enum WatchedProbe {
    /// The path does not exist.
    Missing,
    /// Reading its metadata failed, with the rendered error.
    MetadataFailed(String),
    /// The path exists and its metadata can be read.
    Readable,
}

/// The ghost description of a probe outcome.
pub enum WatchedOutcome {
    Missing,
    MetadataFailed(Seq<char>),
    Readable,
}

/// The ghost view of a probe outcome.
pub open spec fn outcome_of(p: WatchedProbe) -> WatchedOutcome {
    match p {
        WatchedProbe::Missing => WatchedOutcome::Missing,
        WatchedProbe::MetadataFailed(e) => WatchedOutcome::MetadataFailed(e@),
        WatchedProbe::Readable => WatchedOutcome::Readable,
    }
}

/// The entry listed for a path whose metadata could not be read.
pub open spec fn unreadable_entry(path: Seq<char>, error: Seq<char>) -> Seq<char> {
    path + " (metadata failed: "@ + error + ")"@
}

/// The three lists (readable, missing, unreadable) built from probes of the watched paths,
/// in the order of the paths.
pub open spec fn classified(probes: Seq<(Seq<char>, WatchedOutcome)>) -> (Seq<Seq<char>>, Seq<Seq<char>>, Seq<Seq<char>>)
    decreases probes.len(),
{
    if probes.len() == 0 {
        (Seq::empty(), Seq::empty(), Seq::empty())
    } else {
        let (ok, missing, bad) = classified(probes.drop_last());
        let (path, outcome) = probes.last();
        match outcome {
            WatchedOutcome::Missing => (ok, missing.push(path), bad),
            WatchedOutcome::MetadataFailed(e) => (ok, missing, bad.push(unreadable_entry(path, e))),
            WatchedOutcome::Readable => (ok.push(path), missing, bad),
        }
    }
}

/// The ghost view of the probes of the watched paths.
pub open spec fn probes_view(v: Seq<(String, WatchedProbe)>) -> Seq<(Seq<char>, WatchedOutcome)> {
    v.map_values(|p: (String, WatchedProbe)| (p.0@, outcome_of(p.1)))
}

/// The views of a vector of strings.
pub open spec fn views(v: Seq<String>) -> Seq<Seq<char>> {
    v.map_values(|s: String| s@)
}

/// Sorts watched paths into readable, missing and unreadable ones.
pub fn classify_watched(probes: Vec<(String, WatchedProbe)>) -> (r: (Vec<String>, Vec<String>, Vec<String>))
    ensures
        (views(r.0@), views(r.1@), views(r.2@)) == classified(probes_view(probes@)),
{
    let ghost all = probes_view(probes@);
    let mut ok: Vec<String> = Vec::new();
    let mut missing: Vec<String> = Vec::new();
    let mut bad: Vec<String> = Vec::new();
    let mut i: usize = 0;
    let n = probes.len();
    proof {
        assert(all.take(0) =~= Seq::<(Seq<char>, WatchedOutcome)>::empty());
        assert(views(ok@) =~= Seq::<Seq<char>>::empty());
        assert(views(missing@) =~= Seq::<Seq<char>>::empty());
        assert(views(bad@) =~= Seq::<Seq<char>>::empty());
    }
    while i < n
        invariant
            i <= n,
            n == all.len(),
            n == probes@.len(),
            all == probes_view(probes@),
            (views(ok@), views(missing@), views(bad@)) == classified(all.take(i as int)),
        decreases n - i,
    {
        let ghost before = (views(ok@), views(missing@), views(bad@));
        let path = probes[i].0.clone();
        let probe = &probes[i].1;
        proof {
            assert(path@ == all[i as int].0);
            assert(outcome_of(*probe) == all[i as int].1);
            assert(all.take(i + 1).drop_last() =~= all.take(i as int));
            assert(all.take(i + 1).last() == all[i as int]);
        }
        match probe {
            WatchedProbe::Missing => {
                let ghost prev = missing@;
                missing.push(path);
                proof {
                    assert(views(missing@) =~= views(prev).push(all[i as int].0));
                }
            },
            WatchedProbe::MetadataFailed(e) => {
                let mut entry = String::new();
                push_str(&mut entry, path.as_str());
                push_str(&mut entry, " (metadata failed: ");
                push_str(&mut entry, e.as_str());
                push_str(&mut entry, ")");
                let ghost prev = bad@;
                bad.push(entry);
                proof {
                    assert(views(bad@) =~= views(prev).push(unreadable_entry(path@, e@)));
                }
            },
            WatchedProbe::Readable => {
                let ghost prev = ok@;
                ok.push(path);
                proof {
                    assert(views(ok@) =~= views(prev).push(all[i as int].0));
                }
            },
        }
        i = i + 1;
    }
    proof {
        assert(all.take(n as int) =~= all);
    }
    (ok, missing, bad)
}

/// What probing the backup destination found.
#[derive(Debug)]
pub enum DestinationProbe {
    /// No destination is configured.
    Unset,
    /// The destination is a file; carries its debug rendering.
    IsFile(String),
    /// Creating the destination folder failed, with the rendered error.
    CreateFailed(String),
    /// The folder exists or was created; then reading its free space gave this.
    Created(Result<u64, String>),
}

/// The message shown for a destination probe.
pub open spec fn destination_probe_message(p: DestinationProbe) -> Seq<char> {
    match p {
        DestinationProbe::Unset => "No backup destination set"@,
        DestinationProbe::IsFile(d) => d@ + " is a file; choose a folder"@,
        DestinationProbe::CreateFailed(e) => "Not writable: "@ + e@,
        DestinationProbe::Created(Ok(free)) => "Writable. Free space: "@ + decimal(free as nat) + " bytes"@,
        DestinationProbe::Created(Err(e)) => "Writable, but failed to read free space: "@ + e@,
    }
}

/// Whether the destination can take backups, with the message shown for it; the message
/// begins with `Writable` exactly when it can.
pub fn probe_destination(probe: DestinationProbe) -> (r: (bool, String))
    ensures
        r.1@ == destination_probe_message(probe),
        r.0 == starts_with_seq(destination_probe_message(probe), "Writable"@),
{
    let mut msg = String::new();
    match probe {
        DestinationProbe::Unset => push_str(&mut msg, "No backup destination set"),
        DestinationProbe::IsFile(d) => {
            push_str(&mut msg, d.as_str());
            push_str(&mut msg, " is a file; choose a folder");
        },
        DestinationProbe::CreateFailed(e) => {
            push_str(&mut msg, "Not writable: ");
            push_str(&mut msg, e.as_str());
        },
        DestinationProbe::Created(Ok(free)) => {
            push_str(&mut msg, "Writable. Free space: ");
            push_decimal(&mut msg, free);
            push_str(&mut msg, " bytes");
        },
        DestinationProbe::Created(Err(e)) => {
            push_str(&mut msg, "Writable, but failed to read free space: ");
            push_str(&mut msg, e.as_str());
        },
    }
    let writable = str_starts_with(msg.as_str(), "Writable");
    (writable, msg)
}

/// The access probe from the destination probe and the watched-path probes.
pub fn access_probe(destination: DestinationProbe, watched: Vec<(String, WatchedProbe)>) -> (r: AccessProbe)
    ensures
        r.destination_message@ == destination_probe_message(destination),
        r.destination_writable == starts_with_seq(destination_probe_message(destination), "Writable"@),
        (views(r.watched_ok@), views(r.watched_missing@), views(r.watched_unwritable@))
            == classified(probes_view(watched@)),
{
    let (ok, missing, bad) = classify_watched(watched);
    let (writable, message) = probe_destination(destination);
    AccessProbe {
        destination_writable: writable,
        destination_message: message,
        watched_ok: ok,
        watched_missing: missing,
        watched_unwritable: bad,
    }
}

} // verus!
