//! The byte streams end to end: stdin chunking, the transcript invariant,
//! and buffered accumulation of a response stream.

use exec_with_local_desktop::client::{
    accumulate_output, client_output_step, command_chunk, stdin_chunk_message, stdin_chunks,
    stdin_eof_chunk, ClientAction, ExecuteOptions,
};
use exec_with_local_desktop::executor::{fan_in_step, FanInAction, FanInEvent, FanInState};
use exec_with_local_desktop::transcript::Transcript;
use exec_with_local_desktop::wire::{Payload, ProgramOutput, RequestChunk};

fn stdin_payloads(chunks: &[exec_with_local_desktop::wire::ExecuteRequestChunk]) -> Vec<Vec<u8>> {
    chunks
        .iter()
        .map(|c| match &c.request_chunk {
            Some(RequestChunk::StdinChunk(d)) => d.clone(),
            other => panic!("not a stdin chunk: {:?}", other),
        })
        .collect()
}

#[test]
fn stdin_chunks_concatenate_to_the_input() {
    let data = b"abc\n".to_vec();
    let chunks = stdin_chunks(&data);
    let payloads = stdin_payloads(&chunks);
    assert_eq!(payloads, vec![b"abc\n".to_vec(), vec![]]);
    let rejoined: Vec<u8> = payloads.concat();
    assert_eq!(rejoined, data);
}

#[test]
fn stdin_chunks_of_empty_input_is_just_eof() {
    let chunks = stdin_chunks(&vec![]);
    assert_eq!(stdin_payloads(&chunks), vec![Vec::<u8>::new()]);
}

#[test]
fn stdin_chunks_split_long_input() {
    let data: Vec<u8> = (0..3000u32).map(|i| (i % 251) as u8).collect();
    let chunks = stdin_chunks(&data);
    let payloads = stdin_payloads(&chunks);
    let lens: Vec<usize> = payloads.iter().map(|p| p.len()).collect();
    assert_eq!(lens, vec![1024, 1024, 952, 0]);
    assert_eq!(payloads.concat(), data);
}

#[test]
fn stdin_chunk_from_read_buffer() {
    let buf = vec![1u8, 2, 3, 4, 5];
    let chunk = stdin_chunk_message(&buf, 3);
    assert_eq!(chunk.request_chunk, Some(RequestChunk::StdinChunk(vec![1, 2, 3])));
    let eof = stdin_eof_chunk();
    assert_eq!(eof.request_chunk, Some(RequestChunk::StdinChunk(vec![])));
}

#[test]
fn transcript_keeps_exit_last() {
    let mut t = Transcript::new();
    t.push_stdout(b"he".to_vec());
    t.push_stderr(b"warn".to_vec());
    t.push_stdout(b"llo\n".to_vec());
    t.push_exit(0);
    let msgs = t.into_messages();
    assert_eq!(msgs.len(), 4);
    assert_eq!(msgs[0].payload, Some(Payload::StdoutChunk(b"he".to_vec())));
    assert_eq!(msgs[1].payload, Some(Payload::StderrChunk(b"warn".to_vec())));
    assert_eq!(msgs[2].payload, Some(Payload::StdoutChunk(b"llo\n".to_vec())));
    assert_eq!(msgs[3].payload, Some(Payload::ExitStatus(0)));
    // Exactly one ExitStatus, and it is the last message.
    let exits = msgs
        .iter()
        .filter(|m| matches!(m.payload, Some(Payload::ExitStatus(_))))
        .count();
    assert_eq!(exits, 1);
}

#[test]
fn hello_world_round_trip() {
    // The child writes one line on stdout and exits 0; the buffered client
    // sees exactly that.
    let mut t = Transcript::new();
    t.push_stdout(b"hello\n".to_vec());
    t.push_exit(0);
    let out = accumulate_output(t.messages());
    assert_eq!(out.stdout, b"hello\n".to_vec());
    assert_eq!(out.stderr, Vec::<u8>::new());
    assert_eq!(out.code, 0);
}

#[test]
fn nonzero_exit_without_output() {
    let mut t = Transcript::new();
    t.push_exit(7);
    let out = accumulate_output(t.messages());
    assert_eq!(out.stdout, Vec::<u8>::new());
    assert_eq!(out.stderr, Vec::<u8>::new());
    assert_eq!(out.code, 7);
}

#[test]
fn missing_exit_defaults_to_minus_one() {
    // The server's leak path ends the stream without an ExitStatus; the
    // buffered client reports -1.
    let mut t = Transcript::new();
    t.push_stdout(b"out".to_vec());
    let out = accumulate_output(t.messages());
    assert_eq!(out.stdout, b"out".to_vec());
    assert_eq!(out.code, -1);
}

#[test]
fn streams_keep_their_order() {
    // stdout and stderr interleave freely; within each stream the bytes
    // stay in read order.
    let mut t = Transcript::new();
    t.push_stdout(b"ab".to_vec());
    t.push_stderr(b"x".to_vec());
    t.push_stdout(b"cd".to_vec());
    t.push_stderr(b"y".to_vec());
    t.push_exit(0);
    let out = accumulate_output(t.messages());
    assert_eq!(out.stdout, b"abcd".to_vec());
    assert_eq!(out.stderr, b"xy".to_vec());
}

#[test]
fn payload_free_messages_are_skipped() {
    let msgs = vec![
        ProgramOutput { payload: None },
        ProgramOutput { payload: Some(Payload::StdoutChunk(b"z".to_vec())) },
        ProgramOutput { payload: None },
    ];
    let out = accumulate_output(&msgs);
    assert_eq!(out.stdout, b"z".to_vec());
    assert_eq!(out.code, -1);
}

#[test]
fn stdin_echo_through_the_server_loop() {
    // Streaming mode against `cat`: the client cuts "abc\n" plus EOF into
    // chunks; the fan-in loop writes exactly those bytes to the child and
    // closes stdin on the terminal empty chunk; the child echoes them back
    // and exits 0.
    let data = b"abc\n".to_vec();
    let chunks = stdin_chunks(&data);

    let mut s = FanInState::new();
    let mut written: Vec<u8> = Vec::new();
    for chunk in chunks {
        let (s2, action) = fan_in_step(s, FanInEvent::Chunk(chunk.request_chunk.unwrap()));
        s = s2;
        match action {
            FanInAction::WriteStdin(d) => written.extend_from_slice(&d),
            FanInAction::CloseStdin => break,
            other => panic!("unexpected action {:?}", other),
        }
    }
    assert!(s.done);
    assert_eq!(written, data);

    let mut t = Transcript::new();
    t.push_stdout(written);
    t.push_exit(0);
    let out = accumulate_output(t.messages());
    assert_eq!(out.stdout, b"abc\n".to_vec());
    assert_eq!(out.code, 0);
}

#[test]
fn client_steps_route_payloads() {
    let m = ProgramOutput { payload: Some(Payload::StdoutChunk(b"o".to_vec())) };
    assert!(matches!(client_output_step(m), ClientAction::WriteStdout(d) if d == b"o".to_vec()));
    let m = ProgramOutput { payload: Some(Payload::StderrChunk(b"e".to_vec())) };
    assert!(matches!(client_output_step(m), ClientAction::WriteStderr(d) if d == b"e".to_vec()));
    let m = ProgramOutput { payload: Some(Payload::ExitStatus(3)) };
    assert!(matches!(client_output_step(m), ClientAction::Finish(3)));
    let m = ProgramOutput { payload: None };
    assert!(matches!(client_output_step(m), ClientAction::Skip));
}

#[test]
fn command_chunk_carries_the_options() {
    let options = ExecuteOptions {
        executable: "bash".to_string(),
        current_dir: Some("/tmp".to_string()),
        args: vec!["-c".to_string(), "exit 7".to_string()],
        leak: true,
    };
    let chunk = command_chunk(options);
    match chunk.request_chunk {
        Some(RequestChunk::Command(c)) => {
            assert_eq!(c.executable, "bash");
            assert_eq!(c.current_dir, Some("/tmp".to_string()));
            assert_eq!(c.args, vec!["-c".to_string(), "exit 7".to_string()]);
            assert!(c.leak);
        }
        other => panic!("not a command chunk: {:?}", other),
    }
}
