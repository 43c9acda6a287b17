//! Client core: the symmetric half of the protocol. The command chunk that
//! opens a call, the chunking of the local stdin stream, the per-message
//! step of the streaming receiver, and the buffered accumulation of a whole
//! response stream.

use vstd::prelude::*;
use crate::wire::{
    Command, ExecuteRequestChunk, last_exit, Payload, ProgramOutput, RequestChunk, stderr_concat,
    stdin_concat, stdin_data, stdout_concat,
};

verus! {

/// How many bytes one stdin read, and so one `StdinChunk`, carries at most.
pub const STDIN_READ_LEN: usize = 1024;

/// What one call runs, as the client states it.
#[derive(Debug, Clone)]
pub struct ExecuteOptions {
    /// Program name or path, resolved on the server.
    pub executable: String,
    /// Working directory on the server; the caller settles the default.
    pub current_dir: Option<String>,
    /// Arguments, passed verbatim.
    pub args: Vec<String>,
    /// Teardown policy on disconnect: `true` leaves the child alive.
    pub leak: bool,
}

/// Step-by-step construction of `ExecuteOptions`; every field must be set.
#[derive(Debug, Clone)]
pub struct ExecuteOptionsBuilder {
    executable: Option<String>,
    current_dir: Option<Option<String>>,
    args: Option<Vec<String>>,
    leak: Option<bool>,
}

impl ExecuteOptionsBuilder {
    /// What the builder holds so far.
    pub closed spec fn parts(&self) -> (
        Option<String>,
        Option<Option<String>>,
        Option<Vec<String>>,
        Option<bool>,
    ) {
        (self.executable, self.current_dir, self.args, self.leak)
    }

    pub fn executable(self, executable: String) -> (r: ExecuteOptionsBuilder)
        ensures
            r.parts() == (
                Some(executable),
                self.parts().1,
                self.parts().2,
                self.parts().3,
            ),
    {
        ExecuteOptionsBuilder { executable: Some(executable), ..self }
    }

    pub fn current_dir(self, current_dir: Option<String>) -> (r: ExecuteOptionsBuilder)
        ensures
            r.parts() == (
                self.parts().0,
                Some(current_dir),
                self.parts().2,
                self.parts().3,
            ),
    {
        ExecuteOptionsBuilder { current_dir: Some(current_dir), ..self }
    }

    pub fn args(self, args: Vec<String>) -> (r: ExecuteOptionsBuilder)
        ensures
            r.parts() == (self.parts().0, self.parts().1, Some(args), self.parts().3),
    {
        ExecuteOptionsBuilder { args: Some(args), ..self }
    }

    pub fn leak(self, leak: bool) -> (r: ExecuteOptionsBuilder)
        ensures
            r.parts() == (self.parts().0, self.parts().1, self.parts().2, Some(leak)),
    {
        ExecuteOptionsBuilder { leak: Some(leak), ..self }
    }

    /// The finished options; every field must have been set.
    pub fn build(self) -> (r: ExecuteOptions)
        requires
            self.parts().0 is Some,
            self.parts().1 is Some,
            self.parts().2 is Some,
            self.parts().3 is Some,
        ensures
            r.executable == self.parts().0.unwrap(),
            r.current_dir == self.parts().1.unwrap(),
            r.args == self.parts().2.unwrap(),
            r.leak == self.parts().3.unwrap(),
    {
        ExecuteOptions {
            executable: self.executable.unwrap(),
            current_dir: self.current_dir.unwrap(),
            args: self.args.unwrap(),
            leak: self.leak.unwrap(),
        }
    }
}

impl ExecuteOptions {
    /// A builder with nothing set.
    pub fn builder() -> (r: ExecuteOptionsBuilder)
        ensures
            r.parts() == (
                None::<String>,
                None::<Option<String>>,
                None::<Vec<String>>,
                None::<bool>,
            ),
    {
        ExecuteOptionsBuilder { executable: None, current_dir: None, args: None, leak: None }
    }
}

/// What a buffered call returns: the two whole output streams and the exit
/// code, -1 where none arrived.
#[derive(Debug, Clone)]
pub struct ExecuteOutput {
    pub stdout: Vec<u8>,
    pub stderr: Vec<u8>,
    pub code: i32,
}

/// The message that opens every call, carrying the command.
pub fn command_chunk(options: ExecuteOptions) -> (r: ExecuteRequestChunk)
    ensures
        r == (ExecuteRequestChunk {
            request_chunk: Some(
                RequestChunk::Command(
                    Command {
                        executable: options.executable,
                        args: options.args,
                        current_dir: options.current_dir,
                        leak: options.leak,
                    },
                ),
            ),
        }),
{
    ExecuteRequestChunk {
        request_chunk: Some(
            RequestChunk::Command(
                Command {
                    executable: options.executable,
                    args: options.args,
                    current_dir: options.current_dir,
                    leak: options.leak,
                },
            ),
        ),
    }
}

/// The message for one read from the local stdin: the first `len` bytes of
/// the read buffer, verbatim. Empty reads mean EOF and are sent with
/// `stdin_eof_chunk` instead.
pub fn stdin_chunk_message(buf: &Vec<u8>, len: usize) -> (r: ExecuteRequestChunk)
    requires
        0 < len <= buf.len(),
    ensures
        r.request_chunk matches Some(RequestChunk::StdinChunk(d)) && d@ == buf@.take(len as int),
        stdin_data(r) == buf@.take(len as int),
{
    let data = vstd::slice::slice_to_vec(vstd::slice::slice_subrange(buf.as_slice(), 0, len));
    ExecuteRequestChunk { request_chunk: Some(RequestChunk::StdinChunk(data)) }
}

/// The terminal stdin message: empty data, the canonical end-of-input
/// signal.
pub fn stdin_eof_chunk() -> (r: ExecuteRequestChunk)
    ensures
        r.request_chunk matches Some(RequestChunk::StdinChunk(d)) && d@ == Seq::<u8>::empty(),
        stdin_data(r) == Seq::<u8>::empty(),
{
    ExecuteRequestChunk { request_chunk: Some(RequestChunk::StdinChunk(Vec::new())) }
}

/// A whole local stdin stream, cut into transmit chunks: every chunk
/// carries at most `STDIN_READ_LEN` bytes and none is empty, a terminal
/// empty chunk signals EOF, and the concatenation of the chunks, in order,
/// is exactly the input.
pub fn stdin_chunks(data: &Vec<u8>) -> (r: Vec<ExecuteRequestChunk>)
    ensures
        stdin_concat(r@) == data@,
        r@.len() > 0,
        r@.last().request_chunk matches Some(RequestChunk::StdinChunk(d)) && d@.len() == 0,
        forall|i: int|
            0 <= i < r@.len() - 1 ==> (#[trigger] r@[i].request_chunk matches Some(
                RequestChunk::StdinChunk(d),
            ) && 0 < d@.len() <= STDIN_READ_LEN),
{
    let mut chunks: Vec<ExecuteRequestChunk> = Vec::new();
    let mut pos: usize = 0;
    proof {
        assert(data@.take(0) =~= Seq::<u8>::empty());
    }
    while pos < data.len()
        invariant
            pos <= data.len(),
            stdin_concat(chunks@) == data@.take(pos as int),
            forall|i: int|
                0 <= i < chunks@.len() ==> (#[trigger] chunks@[i].request_chunk matches Some(
                    RequestChunk::StdinChunk(d),
                ) && 0 < d@.len() <= STDIN_READ_LEN),
        decreases data.len() - pos,
    {
        let len = if data.len() - pos < STDIN_READ_LEN {
            data.len() - pos
        } else {
            STDIN_READ_LEN
        };
        let piece = vstd::slice::slice_to_vec(
            vstd::slice::slice_subrange(data.as_slice(), pos, pos + len),
        );
        let chunk = ExecuteRequestChunk { request_chunk: Some(RequestChunk::StdinChunk(piece)) };
        proof {
            assert(chunks@.push(chunk).drop_last() =~= chunks@);
            assert(data@.take(pos as int) + data@.subrange(pos as int, pos + len) =~= data@.take(
                pos + len,
            ));
        }
        chunks.push(chunk);
        pos = pos + len;
    }
    let eof = stdin_eof_chunk();
    proof {
        assert(chunks@.push(eof).drop_last() =~= chunks@);
        assert(data@.take(pos as int) =~= data@);
        assert(data@ + stdin_data(eof) =~= data@);
    }
    chunks.push(eof);
    chunks
}

/// Round trip of a buffered call: a response stream of stdout messages
/// carrying the child's reads, closed by one `ExitStatus`, carries exactly
/// the concatenation of those reads as its stdout stream, nothing as its
/// stderr stream, and that code as its reported exit — so buffered
/// accumulation, whose contract is stated over these very views, returns
/// exactly the child's output and the advertised code.
pub proof fn lemma_buffered_round_trip(s: Seq<ProgramOutput>, reads: Seq<Seq<u8>>, code: i32)
    requires
        s.len() == reads.len(),
        forall|i: int|
            0 <= i < s.len() ==> (#[trigger] s[i].payload matches Some(Payload::StdoutChunk(d))
                && d@ == reads[i]),
    ensures
        stdout_concat(s.push(ProgramOutput { payload: Some(Payload::ExitStatus(code)) }))
            == reads.flatten(),
        stderr_concat(s.push(ProgramOutput { payload: Some(Payload::ExitStatus(code)) }))
            == Seq::<u8>::empty(),
        last_exit(s.push(ProgramOutput { payload: Some(Payload::ExitStatus(code)) })) == Some(
            code,
        ),
{
    crate::wire::lemma_fan_out_stream(s, reads);
    let m = ProgramOutput { payload: Some(Payload::ExitStatus(code)) };
    let t = s.push(m);
    assert(t.drop_last() =~= s);
    assert(stdout_concat(s) + crate::wire::stdout_data(m) =~= stdout_concat(s));
    assert(stderr_concat(s) + crate::wire::stderr_data(m) =~= stderr_concat(s));
}

/// What the streaming receiver does with one response message.
#[derive(Debug)]
pub enum ClientAction {
    /// Write the bytes to the local stdout sink and flush.
    WriteStdout(Vec<u8>),
    /// Write the bytes to the local stderr sink and flush.
    WriteStderr(Vec<u8>),
    /// The exit code arrived: the call is over and this is its result.
    Finish(i32),
    /// A message without a payload; nothing to do.
    Skip,
}

/// The streaming receiver's handling of one message, as a whole.
pub open spec fn spec_client_output_step(m: ProgramOutput) -> ClientAction {
    match m.payload {
        Some(Payload::StdoutChunk(d)) => ClientAction::WriteStdout(d),
        Some(Payload::StderrChunk(d)) => ClientAction::WriteStderr(d),
        Some(Payload::ExitStatus(c)) => ClientAction::Finish(c),
        None => ClientAction::Skip,
    }
}

/// One message of the response stream, handled; does exactly what
/// `spec_client_output_step` says. A clean end of the stream without a
/// `Finish` is the server's leak path: the caller then reports the absence
/// of an exit code.
pub fn client_output_step(m: ProgramOutput) -> (r: ClientAction)
    ensures
        r == spec_client_output_step(m),
{
    match m.payload {
        Some(Payload::StdoutChunk(d)) => ClientAction::WriteStdout(d),
        Some(Payload::StderrChunk(d)) => ClientAction::WriteStderr(d),
        Some(Payload::ExitStatus(c)) => ClientAction::Finish(c),
        None => ClientAction::Skip,
    }
}

/// Buffered consumption of a whole response stream: stdout and stderr are
/// accumulated in arrival order and the last exit code is kept, -1 where
/// none arrived.
pub fn accumulate_output(messages: &Vec<ProgramOutput>) -> (r: ExecuteOutput)
    ensures
        r.stdout@ == stdout_concat(messages@),
        r.stderr@ == stderr_concat(messages@),
        r.code == (match last_exit(messages@) {
            Some(c) => c,
            None => -1i32,
        }),
{
    let mut stdout: Vec<u8> = Vec::new();
    let mut stderr: Vec<u8> = Vec::new();
    let mut code: i32 = -1;
    let mut i: usize = 0;
    proof {
        assert(messages@.take(0) =~= Seq::<ProgramOutput>::empty());
    }
    while i < messages.len()
        invariant
            i <= messages.len(),
            stdout@ == stdout_concat(messages@.take(i as int)),
            stderr@ == stderr_concat(messages@.take(i as int)),
            code == (match last_exit(messages@.take(i as int)) {
                Some(c) => c,
                None => -1i32,
            }),
        decreases messages.len() - i,
    {
        proof {
            assert(messages@.take(i + 1).drop_last() =~= messages@.take(i as int));
            assert(messages@.take(i + 1).last() == messages@[i as int]);
        }
        match &messages[i] {
            ProgramOutput { payload: Some(Payload::StdoutChunk(d)) } => {
                stdout.extend_from_slice(d.as_slice());
            },
            ProgramOutput { payload: Some(Payload::StderrChunk(d)) } => {
                stderr.extend_from_slice(d.as_slice());
            },
            ProgramOutput { payload: Some(Payload::ExitStatus(c)) } => {
                code = *c;
            },
            ProgramOutput { payload: None } => {},
        }
        proof {
            let now = messages@.take(i + 1);
            assert(stdout_concat(now) =~= stdout@);
            assert(stderr_concat(now) =~= stderr@);
        }
        i = i + 1;
    }
    proof {
        assert(messages@.take(messages@.len() as int) =~= messages@);
    }
    ExecuteOutput { stdout, stderr, code }
}

} // verus!
