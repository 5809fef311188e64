//! The background service: the commands that install, enable and restart it, the rules
//! for retrying them, and the status shown to the user.
use vstd::prelude::*;
use crate::error::{envelope_message, ErrorEnvelope};
use crate::lines::{lines_of, lines_view, text_lines};
use crate::text::{decimal, push_decimal, push_str, string_from_chars, trim_seq, trim_string};

pub mod linux;
pub mod macos;
pub mod windows;
pub mod unsupported;

verus! {

/// What the GUI shows about the background service.
#[derive(Debug)]
pub struct ServiceStatus {
    pub installed: bool,
    pub reachable: bool,
    pub message: String,
    pub fix_command: Option<String>,
    pub uptime_secs: Option<i64>,
    pub last_ipc_ts: Option<i64>,
}

/// An external command: the program, its arguments, the error code a failure carries and
/// the name used for it in messages.
#[derive(Debug)]
pub struct ServiceCommand {
    pub program: String,
    pub args: Vec<String>,
    pub code: String,
    pub context: String,
}

/// One step of a command sequence: the command, whether a failure is retried once after
/// a delay, and whether a failure is tolerated.
#[derive(Debug)]
pub struct CommandStep {
    pub command: ServiceCommand,
    pub retry: bool,
    pub best_effort: bool,
}

/// The views of a list of strings.
pub open spec fn texts(v: Seq<String>) -> Seq<Seq<char>> {
    v.map_values(|s: String| s@)
}

/// Builds a command from string slices.
pub fn service_command(program: &str, args: &[&str], code: &str, context: &str) -> (r: ServiceCommand)
    ensures
        r.program@ == program@,
        r.args@.len() == args@.len(),
        forall|k: int| 0 <= k < args@.len() ==> (#[trigger] r.args@[k])@ == args@[k]@,
        r.code@ == code@,
        r.context@ == context@,
{
    let mut v: Vec<String> = Vec::new();
    let mut i: usize = 0;
    while i < args.len()
        invariant
            i <= args.len(),
            v@.len() == i,
            forall|k: int| 0 <= k < i ==> (#[trigger] v@[k])@ == args@[k]@,
        decreases args.len() - i,
    {
        v.push(String::from_str(args[i]));
        i = i + 1;
    }
    ServiceCommand {
        program: String::from_str(program),
        args: v,
        code: String::from_str(code),
        context: String::from_str(context),
    }
}

/// How running a command failed.
#[derive(Debug)]
pub enum CommandFailure {
    /// The process could not be started.
    Spawn(String),
    /// Waiting for its output failed.
    Wait(String),
    /// It exited unsuccessfully with this standard error output.
    Exit(String),
    /// It was still running after this many seconds and was killed.
    TimedOut(u64),
    /// Polling its state failed.
    Poll(String),
}

/// The message for a failed command.
pub open spec fn failure_text(context: Seq<char>, f: CommandFailure) -> Seq<char> {
    match f {
        CommandFailure::Spawn(e) => "service::run_command failed to run "@ + context + ": "@ + e@,
        CommandFailure::Wait(e) => "service::run_command failed to wait "@ + context + ": "@ + e@,
        CommandFailure::Exit(stderr) => "service::run_command "@ + context + " failed: "@ + stderr@,
        CommandFailure::TimedOut(secs) => "service::run_command "@ + context + " timed out after "@
            + decimal(secs as nat) + " seconds"@,
        CommandFailure::Poll(e) => "service::run_command failed to poll "@ + context + ": "@ + e@,
    }
}

/// The error for a failed command, under the command's own code.
pub fn command_error(command: &ServiceCommand, failure: CommandFailure) -> (r: ErrorEnvelope)
    ensures
        r.code@ == command.code@,
        r.message@ == envelope_message(command.code@, failure_text(command.context@, failure)),
{
    let context = command.context.as_str();
    let mut m = String::new();
    match failure {
        CommandFailure::Spawn(e) => {
            push_str(&mut m, "service::run_command failed to run ");
            push_str(&mut m, context);
            push_str(&mut m, ": ");
            push_str(&mut m, e.as_str());
        },
        CommandFailure::Wait(e) => {
            push_str(&mut m, "service::run_command failed to wait ");
            push_str(&mut m, context);
            push_str(&mut m, ": ");
            push_str(&mut m, e.as_str());
        },
        CommandFailure::Exit(stderr) => {
            push_str(&mut m, "service::run_command ");
            push_str(&mut m, context);
            push_str(&mut m, " failed: ");
            push_str(&mut m, stderr.as_str());
        },
        CommandFailure::TimedOut(secs) => {
            push_str(&mut m, "service::run_command ");
            push_str(&mut m, context);
            push_str(&mut m, " timed out after ");
            push_decimal(&mut m, secs);
            push_str(&mut m, " seconds");
        },
        CommandFailure::Poll(e) => {
            push_str(&mut m, "service::run_command failed to poll ");
            push_str(&mut m, context);
            push_str(&mut m, ": ");
            push_str(&mut m, e.as_str());
        },
    }
    ErrorEnvelope::new(command.code.as_str(), m.as_str())
}

/// Whether a command still running after `elapsed_ms` has overrun its timeout.
pub fn command_timed_out(elapsed_ms: u64, timeout_seconds: u64) -> (r: bool)
    ensures
        r == (elapsed_ms as int > timeout_seconds as int * 1000),
{
    if timeout_seconds > u64::MAX / 1000 {
        false
    } else {
        elapsed_ms > timeout_seconds * 1000
    }
}

/// Where a command sequence stands: the step running, whether it is being retried, and
/// the error of its first attempt.
#[derive(Debug)]
pub struct CommandRun {
    pub next: usize,
    pub retrying: bool,
    pub first_error: Option<ErrorEnvelope>,
}

/// What to do next in a command sequence.
#[derive(Debug)]
pub enum CommandAction {
    /// Run step `i`.
    Run(usize),
    /// Wait the retry delay, then run step `i` again.
    RetryAfterDelay(usize),
    /// The sequence is over.
    Done(Result<(), ErrorEnvelope>),
}

/// Starts a command sequence.
pub fn start_commands(steps: &Vec<CommandStep>) -> (r: (CommandRun, CommandAction))
    ensures
        r.0.next == 0,
        !r.0.retrying,
        r.0.first_error is None,
        steps@.len() == 0 ==> r.1 matches CommandAction::Done(Ok(_)),
        steps@.len() > 0 ==> r.1 == CommandAction::Run(0),
{
    let run = CommandRun { next: 0, retrying: false, first_error: None };
    if steps.len() == 0 {
        (run, CommandAction::Done(Ok(())))
    } else {
        (run, CommandAction::Run(0))
    }
}

/// Moves past step `run.next` after it succeeded or failed tolerably.
fn advance(steps: &Vec<CommandStep>, run: &mut CommandRun) -> (a: CommandAction)
    requires
        old(run).next < steps@.len(),
    ensures
        final(run).next == old(run).next + 1,
        !final(run).retrying,
        final(run).first_error is None,
        final(run).next == steps@.len() ==> a == CommandAction::Done(Ok::<(), ErrorEnvelope>(())),
        final(run).next < steps@.len() ==> a == CommandAction::Run(final(run).next),
{
    let len = steps.len();
    run.next = run.next + 1;
    run.retrying = false;
    run.first_error = None;
    if run.next == len {
        CommandAction::Done(Ok(()))
    } else {
        CommandAction::Run(run.next)
    }
}

/// The sequence moved past step `prev`: the next step runs, or the sequence succeeded.
pub open spec fn moved_on(prev: usize, run: CommandRun, a: CommandAction, len: nat) -> bool {
    &&& run.next == prev + 1
    &&& !run.retrying
    &&& run.first_error is None
    &&& run.next == len ==> a == CommandAction::Done(Ok::<(), ErrorEnvelope>(()))
    &&& run.next < len ==> a == CommandAction::Run(run.next)
}

/// Takes the outcome of the step just run. A failed step marked for retry runs once more
/// after a delay; if that attempt fails too, the error of the first attempt is reported.
/// A tolerated failure moves on; any other failure ends the sequence with its error.
pub fn command_step(steps: &Vec<CommandStep>, run: &mut CommandRun, outcome: Result<(), ErrorEnvelope>) -> (a: CommandAction)
    requires
        old(run).next < steps@.len(),
        old(run).retrying ==> old(run).first_error is Some && steps@[old(run).next as int].retry,
    ensures
        final(run).next <= steps@.len(),
        final(run).retrying ==> final(run).first_error is Some && final(run).next < steps@.len()
            && steps@[final(run).next as int].retry,
        a matches CommandAction::Run(i) ==> i == final(run).next && i < steps@.len() && !final(run).retrying,
        a matches CommandAction::RetryAfterDelay(i) ==> i == old(run).next && !old(run).retrying
            && final(run).retrying && outcome is Err && Some(outcome->Err_0) == final(run).first_error,
        outcome is Ok ==> final(run).next == old(run).next + 1,
        a matches CommandAction::Done(Err(e)) ==> outcome is Err && !steps@[old(run).next as int].best_effort
            && (old(run).retrying ==> Some(e) == old(run).first_error)
            && (!old(run).retrying ==> e == outcome->Err_0),
        a matches CommandAction::Done(Ok(_)) ==> final(run).next == steps@.len(),
        // A success, or a tolerated failure that is not retried, moves on to the next step.
        (outcome is Ok || (!(!old(run).retrying && steps@[old(run).next as int].retry)
            && steps@[old(run).next as int].best_effort)) ==> moved_on(old(run).next, *final(run), a, steps@.len()),
        // The first failure of a step marked for retry is always retried.
        (outcome is Err && !old(run).retrying && steps@[old(run).next as int].retry) ==> a == CommandAction::RetryAfterDelay(
            old(run).next) && final(run).next == old(run).next && final(run).retrying
            && final(run).first_error == Some(outcome->Err_0),
        // Any other failure ends the sequence: with the first attempt's error after a retry.
        (outcome is Err && !(!old(run).retrying && steps@[old(run).next as int].retry)
            && !steps@[old(run).next as int].best_effort) ==> a == CommandAction::Done(Err(
            if old(run).retrying { old(run).first_error->0 } else { outcome->Err_0 })),
{
    let i = run.next;
    match outcome {
        Ok(()) => advance(steps, run),
        Err(e) => {
            if !run.retrying && steps[i].retry {
                run.retrying = true;
                run.first_error = Some(e);
                return CommandAction::RetryAfterDelay(i);
            }
            if steps[i].best_effort {
                return advance(steps, run);
            }
            let reported = if run.retrying {
                match run.first_error.take() {
                    Some(f) => f,
                    None => { proof { assert(false); } e },
                }
            } else {
                e
            };
            run.retrying = false;
            CommandAction::Done(Err(reported))
        },
    }
}

/// The process ids listed in `pgrep` output: one per line, trimmed, blank lines skipped.
pub open spec fn listed_pids(output: Seq<char>) -> Seq<Seq<char>> {
    pid_lines(text_lines(output))
}

/// The trimmed, non-blank lines.
pub open spec fn pid_lines(ls: Seq<Seq<char>>) -> Seq<Seq<char>>
    decreases ls.len(),
{
    if ls.len() == 0 {
        Seq::empty()
    } else if trim_seq(ls.last()).len() == 0 {
        pid_lines(ls.drop_last())
    } else {
        pid_lines(ls.drop_last()).push(trim_seq(ls.last()))
    }
}

/// The process ids in `pgrep` output.
pub fn pids_from_output(output: &str) -> (r: Vec<String>)
    ensures
        texts(r@) == listed_pids(output@),
{
    let ls = lines_of(output);
    let ghost all = lines_view(ls@);
    let mut out: Vec<String> = Vec::new();
    let mut i: usize = 0;
    proof {
        assert(all.take(0) =~= Seq::<Seq<char>>::empty());
    }
    while i < ls.len()
        invariant
            i <= ls.len(),
            all == lines_view(ls@),
            all.len() == ls@.len(),
            forall|k: int| 0 <= k < ls@.len() ==> all[k] == (#[trigger] ls@[k])@,
            texts(out@) == pid_lines(all.take(i as int)),
        decreases ls.len() - i,
    {
        proof {
            assert(all.take(i + 1).drop_last() =~= all.take(i as int));
            assert(all.take(i + 1).last() == ls@[i as int]@);
        }
        let line = string_from_chars(ls[i].as_slice());
        let t = trim_string(line.as_str());
        if t.unicode_len() > 0 {
            out.push(t);
            proof {
                assert(texts(out@) =~= pid_lines(all.take(i as int)).push(trim_seq(ls@[i as int]@)));
            }
        }
        i = i + 1;
    }
    proof {
        assert(all.take(ls.len() as int) =~= all);
    }
    out
}

/// The ids still alive, in order, given the outcome of probing each id; the first probe
/// failure is returned instead.
pub fn alive_process_ids(pids: &Vec<String>, probes: &Vec<Result<bool, ErrorEnvelope>>) -> (r: Result<Vec<String>, ErrorEnvelope>)
    requires
        probes@.len() == pids@.len(),
    ensures
        r is Ok <==> forall|k: int| 0 <= k < probes@.len() ==> (#[trigger] probes@[k]) is Ok,
        r matches Ok(v) ==> texts(v@) == alive_from(texts(pids@), probes@),
        r matches Err(e) ==> exists|k: int| 0 <= k < probes@.len() && probes@[k] == Err::<bool, ErrorEnvelope>(e)
            && forall|j: int| 0 <= j < k ==> (#[trigger] probes@[j]) is Ok,
{
    let mut out: Vec<String> = Vec::new();
    let mut i: usize = 0;
    proof {
        assert(texts(pids@).take(0) =~= Seq::<Seq<char>>::empty());
    }
    while i < pids.len()
        invariant
            i <= pids.len(),
            probes@.len() == pids@.len(),
            forall|j: int| 0 <= j < i ==> (#[trigger] probes@[j]) is Ok,
            texts(out@) == alive_from(texts(pids@).take(i as int), probes@.take(i as int)),
        decreases pids.len() - i,
    {
        proof {
            assert(texts(pids@).take(i + 1).drop_last() =~= texts(pids@).take(i as int));
            assert(probes@.take(i + 1).drop_last() =~= probes@.take(i as int));
        }
        match &probes[i] {
            Err(e) => {
                return Err(e.duplicate());
            },
            Ok(alive) => {
                if *alive {
                    out.push(pids[i].clone());
                    proof {
                        assert(texts(out@) =~= alive_from(texts(pids@).take(i as int), probes@.take(i as int)).push(pids@[i as int]@));
                    }
                }
            },
        }
        i = i + 1;
    }
    proof {
        assert(texts(pids@).take(pids.len() as int) =~= texts(pids@));
        assert(probes@.take(pids.len() as int) =~= probes@);
    }
    Ok(out)
}

/// The ids whose probe reported them alive.
pub open spec fn alive_from(pids: Seq<Seq<char>>, probes: Seq<Result<bool, ErrorEnvelope>>) -> Seq<Seq<char>>
    decreases pids.len(),
{
    if pids.len() == 0 || probes.len() == 0 {
        Seq::empty()
    } else if probes.last() == Ok::<bool, ErrorEnvelope>(true) {
        alive_from(pids.drop_last(), probes.drop_last()).push(pids.last())
    } else {
        alive_from(pids.drop_last(), probes.drop_last())
    }
}

/// A `ps` state line marks a zombie process when, trimmed, it starts with `Z`.
pub fn is_zombie_state(stat: &str) -> (r: bool)
    ensures
        r == (trim_seq(stat@).len() > 0 && trim_seq(stat@)[0] == 'Z'),
{
    let t = trim_string(stat);
    let tv = crate::text::chars_of(t.as_str());
    tv.len() > 0 && tv[0] == 'Z'
}

/// A daemon restart: the command to run and the message reported when it succeeds.
#[derive(Debug)]
pub struct RestartPlan {
    pub command: ServiceCommand,
    pub success: String,
}

/// The answer of a restart once its command ran.
pub fn finish_restart(plan: RestartPlan, outcome: Result<(), ErrorEnvelope>) -> (r: Result<String, ErrorEnvelope>)
    ensures
        outcome is Ok ==> r == Ok::<String, ErrorEnvelope>(plan.success),
        outcome matches Err(e) ==> r == Err::<String, ErrorEnvelope>(e),
{
    match outcome {
        Ok(()) => Ok(plan.success),
        Err(e) => Err(e),
    }
}

/// The status of an installed or missing service definition: `definition` is how the
/// definition file is quoted, `present` whether it exists, `kind` how it is named in
/// messages (for example `systemd unit`), `fix_installed` and `fix_missing` the commands
/// suggested in each case, `enabled_word` how an installed but unreachable service is
/// described, and `expected` how a missing definition is named.
pub open spec fn status_of(
    definition: Seq<char>,
    present: bool,
    reachable: bool,
    uptime_secs: Option<i64>,
    last_ipc: Option<i64>,
    kind: Seq<char>,
    enabled_word: Seq<char>,
    expected: Seq<char>,
    fix_installed: Seq<char>,
    fix_missing: Seq<char>,
) -> (bool, bool, Seq<char>, Seq<char>, Option<i64>, Option<i64>) {
    if present {
        (true, reachable,
            if reachable {
                "Service running ("@ + kind + " at "@ + definition + ")"@
            } else {
                "Start on login "@ + enabled_word + " ("@ + kind + " at "@ + definition + ") but daemon unreachable"@
            },
            fix_installed, uptime_secs, last_ipc)
    } else {
        (false, false, "Start on login not installed. "@ + expected + " expected at "@ + definition, fix_missing, None, None)
    }
}

/// The flattened view of a status, for comparison with `status_of`.
pub open spec fn status_view(s: ServiceStatus) -> (bool, bool, Seq<char>, Seq<char>, Option<i64>, Option<i64>) {
    (s.installed, s.reachable, s.message@, match s.fix_command { Some(f) => f@, None => Seq::empty() },
        s.uptime_secs, s.last_ipc_ts)
}

/// Builds a service status (see `status_of`).
pub fn service_status(
    definition: &str,
    present: bool,
    reachable: bool,
    uptime_secs: Option<i64>,
    last_ipc: Option<i64>,
    kind: &str,
    enabled_word: &str,
    expected: &str,
    fix_installed: &str,
    fix_missing: &str,
) -> (r: ServiceStatus)
    ensures
        status_view(r) == status_of(definition@, present, reachable, uptime_secs, last_ipc, kind@,
            enabled_word@, expected@, fix_installed@, fix_missing@),
        r.fix_command is Some,
{
    let mut m = String::new();
    if present {
        if reachable {
            push_str(&mut m, "Service running (");
            push_str(&mut m, kind);
            push_str(&mut m, " at ");
            push_str(&mut m, definition);
            push_str(&mut m, ")");
        } else {
            push_str(&mut m, "Start on login ");
            push_str(&mut m, enabled_word);
            push_str(&mut m, " (");
            push_str(&mut m, kind);
            push_str(&mut m, " at ");
            push_str(&mut m, definition);
            push_str(&mut m, ") but daemon unreachable");
        }
        ServiceStatus {
            installed: true,
            reachable,
            message: m,
            fix_command: Some(String::from_str(fix_installed)),
            uptime_secs,
            last_ipc_ts: last_ipc,
        }
    } else {
        push_str(&mut m, "Start on login not installed. ");
        push_str(&mut m, expected);
        push_str(&mut m, " expected at ");
        push_str(&mut m, definition);
        ServiceStatus {
            installed: false,
            reachable: false,
            message: m,
            fix_command: Some(String::from_str(fix_missing)),
            uptime_secs: None,
            last_ipc_ts: None,
        }
    }
}

/// The status timestamps a reachable daemon gets: its uptime, and `now` as the time of
/// the last successful status request; an unreachable one gets neither.
pub fn ipc_timestamps(reachable: bool, uptime_secs: Option<i64>, now: i64) -> (r: (Option<i64>, Option<i64>))
    ensures
        reachable ==> r == (uptime_secs, Some(now)),
        !reachable ==> r == (uptime_secs, None::<i64>),
{
    if reachable { (uptime_secs, Some(now)) } else { (uptime_secs, None) }
}

} // verus!
