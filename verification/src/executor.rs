//! Server core: the per-call protocol. The parse phase turns the first
//! request chunk into a runnable command; the fan-in state machine decides,
//! for each wakeup of the stdin/control loop, what is done with the child;
//! the teardown plan settles the kill-or-leak policy and the exit report.
//!
//! The functions here are pure deciders over plain values: the caller
//! performs the spawns, reads, writes and kills they call for, and feeds the
//! outcomes back in, so every decision of the call's lifecycle is verified
//! for every outcome of the surrounding asynchronous work.

use vstd::prelude::*;
use crate::path::{path_is_absolute, path_parent, spec_is_absolute, spec_parent};
use crate::status::{Status, StatusKind};
use crate::wire::{Command, ExecuteRequestChunk, Payload, ProgramOutput, RequestChunk};

verus! {

/// Server-side state of one call: the resolved command a child is spawned
/// from. One value is created per call and owns the child from spawn to
/// reap.
#[derive(Debug, Clone)]
pub struct ProgramCaller {
    /// Absolute path of the program to run.
    pub executable: String,
    /// Working directory of the child.
    pub current_dir: String,
    /// Arguments, passed verbatim.
    pub args: Vec<String>,
    /// Teardown policy: `true` leaves the child alive on disconnect.
    pub leak: bool,
}

impl ProgramCaller {
    /// The executable a caller stores is always absolute.
    pub open spec fn wf(self) -> bool {
        spec_is_absolute(self.executable@)
    }
}

/// The first inbound chunk must carry a `Command`; any other first chunk
/// aborts the call with `InvalidArgument` and nothing is spawned.
pub fn parse_first_chunk(first: Option<ExecuteRequestChunk>) -> (r: Result<Command, Status>)
    ensures
        r is Ok <==> (first matches Some(ch) && ch.request_chunk matches Some(
            RequestChunk::Command(_),
        )),
        r matches Ok(c) ==> (first matches Some(ch) && ch.request_chunk == Some(
            RequestChunk::Command(c),
        )),
        r matches Err(e) ==> e.kind == StatusKind::InvalidArgument && e.message@
            == "can not get command in first chunk"@,
{
    match first {
        Some(ExecuteRequestChunk { request_chunk: Some(RequestChunk::Command(c)) }) => Ok(c),
        _ => Err(Status::invalid_argument("can not get command in first chunk".to_owned())),
    }
}

/// What the parse phase makes of a command once the resolver has spoken:
/// an unresolved executable is `NotFound`; a relative resolution is
/// `InvalidArgument`; an absent working directory defaults to the parent of
/// the resolved executable, and `NotFound` where there is none; otherwise
/// the call is ready to spawn, with every field pinned.
pub fn build_caller(cmd: Command, resolved: Option<String>) -> (r: Result<ProgramCaller, Status>)
    ensures
        resolved is None ==> (r matches Err(e) && e.kind == StatusKind::NotFound && e.message@
            == "executable not found"@),
        (resolved matches Some(p) && !spec_is_absolute(p@)) ==> (r matches Err(e) && e.kind
            == StatusKind::InvalidArgument && e.message@
            == "relative executable path is not supported"@),
        (resolved matches Some(p) && spec_is_absolute(p@) && cmd.current_dir is None
            && spec_parent(p@) is None) ==> (r matches Err(e) && e.kind == StatusKind::NotFound
            && e.message@ == "cannot set current dir automatically"@),
        resolved matches Some(p) ==> (spec_is_absolute(p@) && (cmd.current_dir is Some
            || spec_parent(p@) is Some) ==> (r matches Ok(pc) && pc.executable == p && pc.args
            == cmd.args && pc.leak == cmd.leak && (cmd.current_dir matches Some(d)
            ==> pc.current_dir == d) && (cmd.current_dir is None ==> pc.current_dir@
            == spec_parent(p@).unwrap()))),
        r matches Ok(pc) ==> pc.wf(),
{
    let p = match resolved {
        Some(p) => p,
        None => {
            return Err(Status::not_found("executable not found".to_owned()));
        },
    };
    if !path_is_absolute(p.as_str()) {
        return Err(
            Status::invalid_argument("relative executable path is not supported".to_owned()),
        );
    }
    let current_dir = match cmd.current_dir {
        Some(d) => d,
        None => match path_parent(p.as_str()) {
            Some(d) => d,
            None => {
                return Err(Status::not_found("cannot set current dir automatically".to_owned()));
            },
        },
    };
    Ok(ProgramCaller { executable: p, current_dir, args: cmd.args, leak: cmd.leak })
}

/// Relies on which::which: looks the name up on the host's executable
/// search path and returns the path it found, or nothing. The outcome
/// depends on the filesystem and environment at call time, so nothing is
/// promised of it; the verified callers state what holds of every outcome.
#[verifier::external_body]
fn resolve_executable(name: &String) -> Option<String> {
    match which::which(name.as_str()) {
        Ok(p) => Some(p.to_string_lossy().into_owned()),
        Err(_) => None,
    }
}

impl ProgramCaller {
    /// Parse phase of a call: the first inbound chunk must be a `Command`;
    /// its executable is resolved on the host's search path and the working
    /// directory defaulted. Nothing is spawned here, and an error returned
    /// here is the call's terminal status with no output sent.
    ///
    /// The resolution itself depends on the host, so for a well-shaped
    /// first chunk this states what holds of every resolver outcome; the
    /// exact outcome-by-outcome contract is `build_caller`'s.
    pub fn parse(first: Option<ExecuteRequestChunk>) -> (r: Result<ProgramCaller, Status>)
        ensures
            !(first matches Some(ch) && ch.request_chunk matches Some(RequestChunk::Command(_)))
                ==> (r matches Err(e) && e.kind == StatusKind::InvalidArgument && e.message@
                == "can not get command in first chunk"@),
            first matches Some(ch) ==> (ch.request_chunk matches Some(RequestChunk::Command(c))
                ==> match r {
                    Ok(pc) => pc.wf() && pc.args == c.args && pc.leak == c.leak && (
                    c.current_dir matches Some(d) ==> pc.current_dir == d) && (c.current_dir
                        is None ==> spec_parent(pc.executable@) is Some && pc.current_dir@
                        == spec_parent(pc.executable@).unwrap()),
                    Err(e) => (e.kind == StatusKind::NotFound && e.message@
                        == "executable not found"@) || (e.kind == StatusKind::InvalidArgument
                        && e.message@ == "relative executable path is not supported"@) || (e.kind
                        == StatusKind::NotFound && e.message@
                        == "cannot set current dir automatically"@),
                }),
    {
        let cmd = match parse_first_chunk(first) {
            Ok(c) => c,
            Err(e) => {
                return Err(e);
            },
        };
        let resolved = resolve_executable(&cmd.executable);
        build_caller(cmd, resolved)
    }
}

/// The OS's answer to the spawn request.
#[derive(Debug)]
pub enum SpawnOutcome {
    /// The child was spawned with its three standard streams piped.
    Spawned,
    /// The spawn failed, with the failure's description.
    SpawnFailed(String),
}

/// What the spawn phase makes of the OS's answer: a spawned child lets
/// the call go on; a spawn failure is the call's terminal status,
/// `Unknown` with the failure's words.
pub fn spawn_step(outcome: SpawnOutcome) -> (r: Option<Status>)
    ensures
        outcome is Spawned <==> r is None,
        outcome matches SpawnOutcome::SpawnFailed(m) ==> (r matches Some(e) && e.kind
            == StatusKind::Unknown && e.message == m),
{
    match outcome {
        SpawnOutcome::Spawned => None,
        SpawnOutcome::SpawnFailed(m) => Some(Status::unknown(m)),
    }
}

/// Result of polling the child's liveness without blocking.
#[derive(Debug)]
pub enum ChildPoll {
    /// The child has exited.
    Exited,
    /// The child is still running.
    Running,
    /// The poll itself failed, with the failure's description.
    PollFailed(String),
}

/// One wakeup of the fan-in loop.
#[derive(Debug)]
pub enum FanInEvent {
    /// A request chunk arrived.
    Chunk(RequestChunk),
    /// The stream was idle — a timeout tick, a clean end of the stream, or
    /// a message without a payload — and the child's liveness was polled.
    /// A clean end keeps the call alive: the buffered client closes its
    /// send half right after the command and still expects the output.
    Idle(ChildPoll),
    /// The request stream itself was lost (a read error: the client
    /// dropped the call). The loop ends at once, whether or not the child
    /// still runs, and teardown settles the kill-or-leak policy.
    StreamLost,
    /// A write to the child's stdin failed, with the failure's
    /// description; the call is aborted with `Internal`.
    StdinWriteFailed(String),
}

/// What the fan-in loop does on one wakeup.
#[derive(Debug)]
pub enum FanInAction {
    /// Write the bytes to the child's stdin; a failure comes back as a
    /// `StdinWriteFailed` wakeup and aborts the call with `Internal`.
    WriteStdin(Vec<u8>),
    /// Close the child's stdin and leave the loop: the canonical end of
    /// input.
    CloseStdin,
    /// Kill the child, wait for it, report its exit and leave the loop.
    KillChild,
    /// Abort the call with this status.
    Fail(Status),
    /// Nothing to do; keep waiting.
    Continue,
}

/// State the fan-in loop carries between wakeups.
#[derive(Debug, Clone, Copy, PartialEq, Eq, Structural)]
pub struct FanInState {
    /// The loop has exited: stdin saw EOF, a kill was served, the child
    /// exited, the request stream was lost, or the call failed.
    pub done: bool,
    /// An `ExitStatus` has already been sent on this call (the kill path
    /// sends one), so no later phase may send another.
    pub exit_emitted: bool,
}

impl FanInState {
    /// A fresh call: the loop runs and nothing has been reported.
    pub fn new() -> (r: FanInState)
        ensures
            r == (FanInState { done: false, exit_emitted: false }),
    {
        FanInState { done: false, exit_emitted: false }
    }
}

/// The transition of the fan-in loop, as a whole: a non-empty `StdinChunk`
/// is written through; an empty one closes stdin and ends the loop; `Kill`
/// ends the loop through the kill path; a late `Command` is ignored; an
/// idle wakeup ends the loop once the child has exited, aborts the call
/// where the poll failed, and otherwise keeps waiting; a lost request
/// stream ends the loop at once, so that teardown reaches the child while
/// it may still run; a failed stdin write aborts the call with `Internal`.
/// After the loop has ended every event is ignored.
pub open spec fn spec_fan_in_step(s: FanInState, e: FanInEvent) -> (FanInState, FanInAction) {
    if s.done {
        (s, FanInAction::Continue)
    } else {
        match e {
            FanInEvent::Chunk(RequestChunk::StdinChunk(d)) => {
                if d@.len() == 0 {
                    (FanInState { done: true, ..s }, FanInAction::CloseStdin)
                } else {
                    (s, FanInAction::WriteStdin(d))
                }
            },
            FanInEvent::Chunk(RequestChunk::Kill) => (
                FanInState { done: true, ..s },
                FanInAction::KillChild,
            ),
            FanInEvent::Chunk(RequestChunk::Command(_)) => (s, FanInAction::Continue),
            FanInEvent::Idle(ChildPoll::Exited) => (
                FanInState { done: true, ..s },
                FanInAction::Continue,
            ),
            FanInEvent::Idle(ChildPoll::Running) => (s, FanInAction::Continue),
            FanInEvent::Idle(ChildPoll::PollFailed(m)) => (
                FanInState { done: true, ..s },
                FanInAction::Fail(Status { kind: StatusKind::Internal, message: m }),
            ),
            FanInEvent::StreamLost => (FanInState { done: true, ..s }, FanInAction::Continue),
            FanInEvent::StdinWriteFailed(m) => (
                FanInState { done: true, ..s },
                FanInAction::Fail(Status { kind: StatusKind::Internal, message: m }),
            ),
        }
    }
}

/// One wakeup of the fan-in loop; does exactly what `spec_fan_in_step`
/// says.
pub fn fan_in_step(s: FanInState, e: FanInEvent) -> (r: (FanInState, FanInAction))
    ensures
        r == spec_fan_in_step(s, e),
{
    if s.done {
        return (s, FanInAction::Continue);
    }
    match e {
        FanInEvent::Chunk(RequestChunk::StdinChunk(d)) => {
            if d.len() == 0 {
                (FanInState { done: true, ..s }, FanInAction::CloseStdin)
            } else {
                (s, FanInAction::WriteStdin(d))
            }
        },
        FanInEvent::Chunk(RequestChunk::Kill) => (
            FanInState { done: true, ..s },
            FanInAction::KillChild,
        ),
        FanInEvent::Chunk(RequestChunk::Command(_)) => (s, FanInAction::Continue),
        FanInEvent::Idle(ChildPoll::Exited) => (
            FanInState { done: true, ..s },
            FanInAction::Continue,
        ),
        FanInEvent::Idle(ChildPoll::Running) => (s, FanInAction::Continue),
        FanInEvent::Idle(ChildPoll::PollFailed(m)) => (
            FanInState { done: true, ..s },
            FanInAction::Fail(Status::internal(m)),
        ),
        FanInEvent::StreamLost => (FanInState { done: true, ..s }, FanInAction::Continue),
        FanInEvent::StdinWriteFailed(m) => (
            FanInState { done: true, ..s },
            FanInAction::Fail(Status::internal(m)),
        ),
    }
}

/// Once the fan-in loop has ended, every further event — an extra empty
/// `StdinChunk` after EOF as much as anything else — is ignored: the state
/// does not change and nothing is done.
pub proof fn lemma_fan_in_done_ignores(s: FanInState, e: FanInEvent)
    requires
        s.done,
    ensures
        spec_fan_in_step(s, e) == (s, FanInAction::Continue),
{
}

/// The state the fan-in loop is left in by a sequence of wakeups.
pub open spec fn run_fan_in(s: FanInState, events: Seq<FanInEvent>) -> FanInState
    decreases events.len(),
{
    if events.len() == 0 {
        s
    } else {
        run_fan_in(spec_fan_in_step(s, events.first()).0, events.drop_first())
    }
}

/// Once the fan-in loop has ended, no sequence of further events moves the
/// state at all: in particular, any number of extra stdin chunks after EOF
/// changes nothing.
pub proof fn lemma_run_after_done(s: FanInState, events: Seq<FanInEvent>)
    requires
        s.done,
    ensures
        run_fan_in(s, events) == s,
    decreases events.len(),
{
    if events.len() > 0 {
        lemma_fan_in_done_ignores(s, events.first());
        lemma_run_after_done(s, events.drop_first());
    }
}

/// The exit code reported for a reaped child: its own code, or -1 where
/// the platform gives none (the child was killed by a signal).
pub open spec fn spec_exit_code(code: Option<i32>) -> i32 {
    match code {
        Some(c) => c,
        None => -1i32,
    }
}

/// Exec mirror of `spec_exit_code`.
pub fn exit_code_or_default(code: Option<i32>) -> (r: i32)
    ensures
        r == spec_exit_code(code),
{
    match code {
        Some(c) => c,
        None => -1,
    }
}

/// Outcome of waiting on the child after a kill.
#[derive(Debug)]
pub enum WaitOutcome {
    /// The child was reaped, with the exit code the platform reported.
    Reaped(Option<i32>),
    /// The wait failed, with the failure's description.
    WaitFailed(String),
}

/// The kill path after the child was killed and waited on: a reaped child
/// is reported as one `ExitStatus` carrying its code (or -1), and the state
/// records that the report went out; a failed wait aborts the call with
/// `Internal` and nothing is reported.
pub fn after_kill(s: FanInState, wait: WaitOutcome) -> (r: (
    FanInState,
    Option<ProgramOutput>,
    Option<Status>,
))
    requires
        !s.exit_emitted,
    ensures
        wait matches WaitOutcome::Reaped(c) ==> r == (
            FanInState { exit_emitted: true, ..s },
            Some(ProgramOutput { payload: Some(Payload::ExitStatus(spec_exit_code(c))) }),
            None::<Status>,
        ),
        wait matches WaitOutcome::WaitFailed(m) ==> r == (
            s,
            None::<ProgramOutput>,
            Some(Status { kind: StatusKind::Internal, message: m }),
        ),
{
    match wait {
        WaitOutcome::Reaped(c) => (
            FanInState { exit_emitted: true, ..s },
            Some(ProgramOutput { payload: Some(Payload::ExitStatus(exit_code_or_default(c))) }),
            None,
        ),
        WaitOutcome::WaitFailed(m) => (s, None, Some(Status::internal(m))),
    }
}

/// What the teardown phase does once the fan-in loop has ended.
#[derive(Debug, Clone, PartialEq)]
pub struct TeardownPlan {
    /// Kill the child before looking at its exit.
    pub kill_child: bool,
    /// Send this exit code as the final message; send nothing when absent.
    pub emit_exit: Option<i32>,
}

/// The teardown policy: the child is killed exactly when it is not
/// deliberately leaked; the exit code is reported where the child has
/// exited by the time of the non-blocking check — `exited` carries the
/// platform's code for a reaped child — and where the kill path has not
/// already reported one, so at most one `ExitStatus` is ever sent. A still
/// running, leaked child is reported by the very absence of an
/// `ExitStatus`.
pub open spec fn spec_teardown_plan(
    leak: bool,
    exit_emitted: bool,
    exited: Option<Option<i32>>,
) -> TeardownPlan {
    TeardownPlan {
        kill_child: !leak,
        emit_exit: if exit_emitted {
            None
        } else {
            match exited {
                Some(c) => Some(spec_exit_code(c)),
                None => None,
            }
        },
    }
}

/// Teardown decision after the fan-in loop; does exactly what
/// `spec_teardown_plan` says.
pub fn teardown_plan(leak: bool, exit_emitted: bool, exited: Option<Option<i32>>) -> (r:
    TeardownPlan)
    ensures
        r == spec_teardown_plan(leak, exit_emitted, exited),
{
    let emit_exit = if exit_emitted {
        None
    } else {
        match exited {
            Some(c) => Some(exit_code_or_default(c)),
            None => None,
        }
    };
    TeardownPlan { kill_child: !leak, emit_exit }
}

/// The server→client message for one read from the child's stdout: the
/// first `len` bytes of the read buffer, verbatim. A read of zero bytes is
/// the stream's end and sends nothing, so no empty chunk ever goes out.
pub fn stdout_chunk_message(buf: &Vec<u8>, len: usize) -> (r: ProgramOutput)
    requires
        0 < len <= buf.len(),
    ensures
        r.payload matches Some(Payload::StdoutChunk(d)) && d@ == buf@.take(len as int),
        crate::wire::stdout_data(r) == buf@.take(len as int),
{
    let data = vstd::slice::slice_to_vec(vstd::slice::slice_subrange(buf.as_slice(), 0, len));
    ProgramOutput { payload: Some(Payload::StdoutChunk(data)) }
}

/// The server→client message for one read from the child's stderr: the
/// first `len` bytes of the read buffer, verbatim. A read of zero bytes is
/// the stream's end and sends nothing, so no empty chunk ever goes out.
pub fn stderr_chunk_message(buf: &Vec<u8>, len: usize) -> (r: ProgramOutput)
    requires
        0 < len <= buf.len(),
    ensures
        r.payload matches Some(Payload::StderrChunk(d)) && d@ == buf@.take(len as int),
        crate::wire::stderr_data(r) == buf@.take(len as int),
{
    let data = vstd::slice::slice_to_vec(vstd::slice::slice_subrange(buf.as_slice(), 0, len));
    ProgramOutput { payload: Some(Payload::StderrChunk(data)) }
}

/// The terminal server→client message carrying the exit code.
pub fn exit_status_message(code: i32) -> (r: ProgramOutput)
    ensures
        r == (ProgramOutput { payload: Some(Payload::ExitStatus(code)) }),
{
    ProgramOutput { payload: Some(Payload::ExitStatus(code)) }
}

} // verus!
