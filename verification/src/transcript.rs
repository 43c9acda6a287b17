//! The response stream of one call, as the server builds it: stdout and
//! stderr chunks in read order, and at most one `ExitStatus`, which is then
//! the last message ever sent.

use vstd::prelude::*;
use crate::wire::{
    is_exit, last_exit, output_seq_ok, Payload, ProgramOutput, stderr_concat, stderr_data,
    stdout_concat, stdout_data,
};

verus! {

/// The outbound message sequence of one call. Pushing keeps the protocol
/// invariant: once the exit code is in, nothing more can be sent.
pub struct Transcript {
    messages: Vec<ProgramOutput>,
}

impl Transcript {
    /// The messages sent so far, in order.
    pub closed spec fn view(&self) -> Seq<ProgramOutput> {
        self.messages@
    }

    /// The protocol invariant of the response stream: an `ExitStatus`,
    /// where one occurs, is the last message.
    pub open spec fn wf(&self) -> bool {
        output_seq_ok(self@)
    }

    /// Whether the exit code has been sent; nothing may follow it.
    pub open spec fn finished(&self) -> bool {
        self@.len() > 0 && is_exit(self@.last())
    }

    /// An empty response stream.
    pub fn new() -> (r: Transcript)
        ensures
            r@ == Seq::<ProgramOutput>::empty(),
            r.wf(),
            !r.finished(),
    {
        Transcript { messages: Vec::new() }
    }

    /// The messages sent so far.
    pub fn messages(&self) -> (r: &Vec<ProgramOutput>)
        ensures
            r@ == self@,
    {
        &self.messages
    }

    /// How many messages have been sent.
    pub fn len(&self) -> (r: usize)
        ensures
            r == self@.len(),
    {
        self.messages.len()
    }

    /// Append one message that does not carry the exit code.
    fn push_message(&mut self, m: ProgramOutput)
        requires
            old(self).wf(),
            !old(self).finished(),
            !is_exit(m),
        ensures
            final(self)@ == old(self)@.push(m),
            final(self).wf(),
            !final(self).finished(),
            stdout_concat(final(self)@) == stdout_concat(old(self)@) + stdout_data(m),
            stderr_concat(final(self)@) == stderr_concat(old(self)@) + stderr_data(m),
            last_exit(final(self)@) == last_exit(old(self)@),
    {
        proof {
            let s = self@;
            assert forall|i: int| 0 <= i < s.len() implies !is_exit(#[trigger] s[i]) by {
                if is_exit(s[i]) {
                    assert(i == s.len() - 1);
                }
            }
            assert(s.push(m).drop_last() =~= s);
        }
        self.messages.push(m);
    }

    /// Send one read from the child's stdout: the stdout stream grows by
    /// exactly those bytes, the stderr stream and the reported exit do not
    /// move.
    pub fn push_stdout(&mut self, data: Vec<u8>)
        requires
            old(self).wf(),
            !old(self).finished(),
        ensures
            final(self)@ == old(self)@.push(
                ProgramOutput { payload: Some(Payload::StdoutChunk(data)) },
            ),
            final(self).wf(),
            !final(self).finished(),
            stdout_concat(final(self)@) == stdout_concat(old(self)@) + data@,
            stderr_concat(final(self)@) == stderr_concat(old(self)@),
            last_exit(final(self)@) == last_exit(old(self)@),
    {
        proof {
            let m = ProgramOutput { payload: Some(Payload::StdoutChunk(data)) };
            assert(stderr_concat(self@) + stderr_data(m) =~= stderr_concat(self@));
        }
        self.push_message(ProgramOutput { payload: Some(Payload::StdoutChunk(data)) });
    }

    /// Send one read from the child's stderr.
    pub fn push_stderr(&mut self, data: Vec<u8>)
        requires
            old(self).wf(),
            !old(self).finished(),
        ensures
            final(self)@ == old(self)@.push(
                ProgramOutput { payload: Some(Payload::StderrChunk(data)) },
            ),
            final(self).wf(),
            !final(self).finished(),
            stdout_concat(final(self)@) == stdout_concat(old(self)@),
            stderr_concat(final(self)@) == stderr_concat(old(self)@) + data@,
            last_exit(final(self)@) == last_exit(old(self)@),
    {
        proof {
            let m = ProgramOutput { payload: Some(Payload::StderrChunk(data)) };
            assert(stdout_concat(self@) + stdout_data(m) =~= stdout_concat(self@));
        }
        self.push_message(ProgramOutput { payload: Some(Payload::StderrChunk(data)) });
    }

    /// Send the exit code: the terminal message. Afterwards the stream is
    /// finished and nothing more can be pushed.
    pub fn push_exit(&mut self, code: i32)
        requires
            old(self).wf(),
            !old(self).finished(),
        ensures
            final(self)@ == old(self)@.push(
                ProgramOutput { payload: Some(Payload::ExitStatus(code)) },
            ),
            final(self).wf(),
            final(self).finished(),
            stdout_concat(final(self)@) == stdout_concat(old(self)@),
            stderr_concat(final(self)@) == stderr_concat(old(self)@),
            last_exit(final(self)@) == Some(code),
    {
        proof {
            let s = self@;
            let m = ProgramOutput { payload: Some(Payload::ExitStatus(code)) };
            assert forall|i: int| 0 <= i < s.len() implies !is_exit(#[trigger] s[i]) by {
                if is_exit(s[i]) {
                    assert(i == s.len() - 1);
                }
            }
            assert(s.push(m).drop_last() =~= s);
            assert(stdout_concat(s) + stdout_data(m) =~= stdout_concat(s));
            assert(stderr_concat(s) + stderr_data(m) =~= stderr_concat(s));
        }
        self.messages.push(ProgramOutput { payload: Some(Payload::ExitStatus(code)) });
    }

    /// Hand the finished stream out.
    pub fn into_messages(self) -> (r: Vec<ProgramOutput>)
        ensures
            r@ == self@,
    {
        self.messages
    }
}

} // verus!
