//! The wire message set of the streaming call, together with the spec-level
//! views of chunk sequences that the contracts of the server and client
//! sides are stated over.

use vstd::prelude::*;

verus! {

/// The first client→server message of a call: what to run.
#[derive(Debug, Clone, PartialEq)]
pub struct Command {
    /// Program name or path; resolved on the server's search path.
    pub executable: String,
    /// Arguments, passed verbatim to the child.
    pub args: Vec<String>,
    /// Working directory; when absent the server defaults it to the parent
    /// directory of the resolved executable.
    pub current_dir: Option<String>,
    /// Teardown policy on client disconnect: `true` leaves the child alive.
    pub leak: bool,
}

/// The payload of one client→server chunk.
#[derive(Debug, Clone, PartialEq)]
pub enum RequestChunk {
    /// Initial message only; later occurrences are ignored.
    Command(Command),
    /// Bytes for the child's standard input; empty data means stdin EOF.
    StdinChunk(Vec<u8>),
    /// In-band termination request.
    Kill,
}

/// One client→server message; the payload may be absent on the wire.
#[derive(Debug, Clone, PartialEq)]
pub struct ExecuteRequestChunk {
    pub request_chunk: Option<RequestChunk>,
}

/// The payload of one server→client chunk.
#[derive(Debug, Clone, PartialEq)]
pub enum Payload {
    /// Bytes read from the child's standard output.
    StdoutChunk(Vec<u8>),
    /// Bytes read from the child's standard error.
    StderrChunk(Vec<u8>),
    /// The child's exit code; terminal, at most one per call.
    ExitStatus(i32),
}

/// One server→client message; the payload may be absent on the wire.
#[derive(Debug, Clone, PartialEq)]
pub struct ProgramOutput {
    pub payload: Option<Payload>,
}

/// Whether a server→client message carries the exit code.
pub open spec fn is_exit(m: ProgramOutput) -> bool {
    m.payload matches Some(Payload::ExitStatus(_))
}

/// The bytes a server→client message contributes to the stdout stream.
pub open spec fn stdout_data(m: ProgramOutput) -> Seq<u8> {
    match m.payload {
        Some(Payload::StdoutChunk(d)) => d@,
        _ => Seq::empty(),
    }
}

/// The bytes a server→client message contributes to the stderr stream.
pub open spec fn stderr_data(m: ProgramOutput) -> Seq<u8> {
    match m.payload {
        Some(Payload::StderrChunk(d)) => d@,
        _ => Seq::empty(),
    }
}

/// The stdout stream carried by a sequence of server→client messages:
/// the concatenation, in order, of the `StdoutChunk` payloads.
pub open spec fn stdout_concat(s: Seq<ProgramOutput>) -> Seq<u8>
    decreases s.len(),
{
    if s.len() == 0 {
        Seq::empty()
    } else {
        stdout_concat(s.drop_last()) + stdout_data(s.last())
    }
}

/// The stderr stream carried by a sequence of server→client messages.
pub open spec fn stderr_concat(s: Seq<ProgramOutput>) -> Seq<u8>
    decreases s.len(),
{
    if s.len() == 0 {
        Seq::empty()
    } else {
        stderr_concat(s.drop_last()) + stderr_data(s.last())
    }
}

/// The exit code reported by a sequence of server→client messages: the code
/// of the last `ExitStatus`, if any was sent.
pub open spec fn last_exit(s: Seq<ProgramOutput>) -> Option<i32>
    decreases s.len(),
{
    if s.len() == 0 {
        None
    } else {
        match s.last().payload {
            Some(Payload::ExitStatus(c)) => Some(c),
            _ => last_exit(s.drop_last()),
        }
    }
}

/// How many messages of the sequence carry the exit code.
pub open spec fn exit_count(s: Seq<ProgramOutput>) -> nat
    decreases s.len(),
{
    if s.len() == 0 {
        0
    } else {
        exit_count(s.drop_last()) + if is_exit(s.last()) {
            1nat
        } else {
            0nat
        }
    }
}

/// A well-formed response stream: an `ExitStatus`, where one occurs, is the
/// last message, so nothing follows it and at most one is ever sent.
pub open spec fn output_seq_ok(s: Seq<ProgramOutput>) -> bool {
    forall|i: int| 0 <= i < s.len() && is_exit(#[trigger] s[i]) ==> i == s.len() - 1
}

/// The bytes a client→server message contributes to the stdin stream.
pub open spec fn stdin_data(c: ExecuteRequestChunk) -> Seq<u8> {
    match c.request_chunk {
        Some(RequestChunk::StdinChunk(d)) => d@,
        _ => Seq::empty(),
    }
}

/// The stdin stream carried by a sequence of client→server messages: the
/// concatenation, in order, of the `StdinChunk` payloads.
pub open spec fn stdin_concat(s: Seq<ExecuteRequestChunk>) -> Seq<u8>
    decreases s.len(),
{
    if s.len() == 0 {
        Seq::empty()
    } else {
        stdin_concat(s.drop_last()) + stdin_data(s.last())
    }
}

/// A well-formed response stream carries at most one `ExitStatus`, and only
/// as its last message.
pub proof fn lemma_exit_is_terminal(s: Seq<ProgramOutput>)
    requires
        output_seq_ok(s),
    ensures
        exit_count(s) <= 1,
        exit_count(s) == 1 ==> s.len() > 0 && is_exit(s.last()),
    decreases s.len(),
{
    if s.len() > 0 {
        let front = s.drop_last();
        assert forall|i: int| 0 <= i < front.len() && is_exit(#[trigger] front[i]) implies false by {
            assert(s[i] == front[i]);
        }
        lemma_exit_is_terminal(front);
        assert(exit_count(front) == 0) by {
            if exit_count(front) == 1 {
                assert(is_exit(front.last()));
            }
        }
    }
}

/// Concatenation of the stdin stream distributes over splitting the message
/// sequence: the bytes of `s1 + s2` are the bytes of `s1` then those of `s2`.
pub proof fn lemma_stdin_concat_append(s1: Seq<ExecuteRequestChunk>, s2: Seq<ExecuteRequestChunk>)
    ensures
        stdin_concat(s1 + s2) == stdin_concat(s1) + stdin_concat(s2),
    decreases s2.len(),
{
    if s2.len() == 0 {
        assert(s1 + s2 =~= s1);
        assert(stdin_concat(s1) + stdin_concat(s2) =~= stdin_concat(s1));
    } else {
        lemma_stdin_concat_append(s1, s2.drop_last());
        assert((s1 + s2).drop_last() =~= s1 + s2.drop_last());
        assert((s1 + s2).last() == s2.last());
        assert(stdin_concat(s1) + stdin_concat(s2.drop_last()) + stdin_data(s2.last()) =~= stdin_concat(
            s1,
        ) + stdin_concat(s2));
    }
}

/// The fan-out of one child stream preserved: a sequence of messages whose
/// i-th member carries the i-th read of the child's stdout carries, in
/// order, exactly the concatenation of those reads — and no stderr bytes,
/// no exit, and the protocol invariant holds of it.
pub proof fn lemma_fan_out_stream(s: Seq<ProgramOutput>, reads: Seq<Seq<u8>>)
    requires
        s.len() == reads.len(),
        forall|i: int|
            0 <= i < s.len() ==> (#[trigger] s[i].payload matches Some(Payload::StdoutChunk(d))
                && d@ == reads[i]),
    ensures
        stdout_concat(s) == reads.flatten(),
        stderr_concat(s) == Seq::<u8>::empty(),
        last_exit(s) is None,
        output_seq_ok(s),
    decreases s.len(),
{
    reads.lemma_flatten_and_flatten_alt_are_equivalent();
    if s.len() == 0 {
        assert(reads.flatten_alt() =~= Seq::<u8>::empty());
    } else {
        let sf = s.drop_last();
        let rf = reads.drop_last();
        assert forall|i: int|
            0 <= i < sf.len() implies (#[trigger] sf[i].payload matches Some(
            Payload::StdoutChunk(d),
        ) && d@ == rf[i]) by {
            assert(sf[i] == s[i]);
        }
        lemma_fan_out_stream(sf, rf);
        rf.lemma_flatten_and_flatten_alt_are_equivalent();
        assert(stdout_data(s.last()) == reads.last());
        assert(stdout_concat(s) == reads.flatten_alt());
        assert(stderr_concat(sf) + stderr_data(s.last()) =~= Seq::<u8>::empty());
    }
}

/// The fan-out of the other child stream preserved, symmetrically: a
/// sequence of messages whose i-th member carries the i-th read of the
/// child's stderr carries, in order, exactly the concatenation of those
/// reads — and no stdout bytes, no exit, and the protocol invariant holds
/// of it.
pub proof fn lemma_fan_out_stream_stderr(s: Seq<ProgramOutput>, reads: Seq<Seq<u8>>)
    requires
        s.len() == reads.len(),
        forall|i: int|
            0 <= i < s.len() ==> (#[trigger] s[i].payload matches Some(Payload::StderrChunk(d))
                && d@ == reads[i]),
    ensures
        stderr_concat(s) == reads.flatten(),
        stdout_concat(s) == Seq::<u8>::empty(),
        last_exit(s) is None,
        output_seq_ok(s),
    decreases s.len(),
{
    reads.lemma_flatten_and_flatten_alt_are_equivalent();
    if s.len() == 0 {
        assert(reads.flatten_alt() =~= Seq::<u8>::empty());
    } else {
        let sf = s.drop_last();
        let rf = reads.drop_last();
        assert forall|i: int|
            0 <= i < sf.len() implies (#[trigger] sf[i].payload matches Some(
            Payload::StderrChunk(d),
        ) && d@ == rf[i]) by {
            assert(sf[i] == s[i]);
        }
        lemma_fan_out_stream_stderr(sf, rf);
        rf.lemma_flatten_and_flatten_alt_are_equivalent();
        assert(stderr_data(s.last()) == reads.last());
        assert(stderr_concat(s) == reads.flatten_alt());
        assert(stdout_concat(sf) + stdout_data(s.last()) =~= Seq::<u8>::empty());
    }
}

/// The stdout stream likewise distributes over splitting the sequence.
pub proof fn lemma_stdout_concat_append(s1: Seq<ProgramOutput>, s2: Seq<ProgramOutput>)
    ensures
        stdout_concat(s1 + s2) == stdout_concat(s1) + stdout_concat(s2),
    decreases s2.len(),
{
    if s2.len() == 0 {
        assert(s1 + s2 =~= s1);
        assert(stdout_concat(s1) + stdout_concat(s2) =~= stdout_concat(s1));
    } else {
        lemma_stdout_concat_append(s1, s2.drop_last());
        assert((s1 + s2).drop_last() =~= s1 + s2.drop_last());
        assert((s1 + s2).last() == s2.last());
        assert(stdout_concat(s1) + stdout_concat(s2.drop_last()) + stdout_data(s2.last())
            =~= stdout_concat(s1) + stdout_concat(s2));
    }
}

} // verus!
