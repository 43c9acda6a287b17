//! The parse phase: the first-chunk rule, resolution outcomes, and the
//! working-directory default.

use exec_with_local_desktop::executor::{build_caller, parse_first_chunk, ProgramCaller};
use exec_with_local_desktop::path::{path_is_absolute, path_parent};
use exec_with_local_desktop::status::StatusKind;
use exec_with_local_desktop::wire::{Command, ExecuteRequestChunk, RequestChunk};

fn command(executable: &str, current_dir: Option<&str>) -> Command {
    Command {
        executable: executable.to_string(),
        args: vec!["-c".to_string(), "echo hello".to_string()],
        current_dir: current_dir.map(|d| d.to_string()),
        leak: false,
    }
}

fn command_chunk_of(cmd: Command) -> Option<ExecuteRequestChunk> {
    Some(ExecuteRequestChunk { request_chunk: Some(RequestChunk::Command(cmd)) })
}

#[test]
fn first_chunk_missing() {
    let r = parse_first_chunk(None);
    let e = r.err().unwrap();
    assert_eq!(e.kind, StatusKind::InvalidArgument);
    assert_eq!(e.message, "can not get command in first chunk");
}

#[test]
fn first_chunk_not_a_command() {
    let stdin_first = Some(ExecuteRequestChunk {
        request_chunk: Some(RequestChunk::StdinChunk(vec![1, 2, 3])),
    });
    let e = parse_first_chunk(stdin_first).err().unwrap();
    assert_eq!(e.kind, StatusKind::InvalidArgument);
    assert_eq!(e.message, "can not get command in first chunk");

    let kill_first = Some(ExecuteRequestChunk { request_chunk: Some(RequestChunk::Kill) });
    let e = parse_first_chunk(kill_first).err().unwrap();
    assert_eq!(e.kind, StatusKind::InvalidArgument);

    let empty_first = Some(ExecuteRequestChunk { request_chunk: None });
    let e = parse_first_chunk(empty_first).err().unwrap();
    assert_eq!(e.kind, StatusKind::InvalidArgument);
}

#[test]
fn first_chunk_command_is_taken() {
    let cmd = command("bash", Some("/tmp"));
    let taken = parse_first_chunk(command_chunk_of(cmd.clone())).ok().unwrap();
    assert_eq!(taken, cmd);
}

#[test]
fn executable_not_found() {
    let e = build_caller(command("missing", None), None).err().unwrap();
    assert_eq!(e.kind, StatusKind::NotFound);
    assert_eq!(e.message, "executable not found");
}

#[test]
fn relative_resolution_is_refused() {
    let e = build_caller(command("x", None), Some("relative/x".to_string())).err().unwrap();
    assert_eq!(e.kind, StatusKind::InvalidArgument);
    assert_eq!(e.message, "relative executable path is not supported");
}

#[test]
fn no_parent_for_default_dir() {
    let e = build_caller(command("x", None), Some("/".to_string())).err().unwrap();
    assert_eq!(e.kind, StatusKind::NotFound);
    assert_eq!(e.message, "cannot set current dir automatically");
}

#[test]
fn current_dir_defaults_to_parent() {
    let pc = build_caller(command("bash", None), Some("/bin/bash".to_string())).ok().unwrap();
    assert_eq!(pc.executable, "/bin/bash");
    assert_eq!(pc.current_dir, "/bin");
    assert_eq!(pc.args, vec!["-c".to_string(), "echo hello".to_string()]);
    assert!(!pc.leak);
}

#[test]
fn current_dir_explicit_is_kept() {
    let pc =
        build_caller(command("bash", Some("/tmp")), Some("/bin/bash".to_string())).ok().unwrap();
    assert_eq!(pc.current_dir, "/tmp");
}

#[test]
fn parent_of_root_binary_is_root() {
    let pc = build_caller(command("init", None), Some("/init".to_string())).ok().unwrap();
    assert_eq!(pc.current_dir, "/");
}

#[test]
fn parse_resolves_on_search_path() {
    let r = ProgramCaller::parse(command_chunk_of(command("sh", Some("/tmp")))).ok().unwrap();
    assert!(r.executable.starts_with('/'));
    assert!(r.executable.ends_with("sh"));
    assert_eq!(r.current_dir, "/tmp");
}

#[test]
fn parse_not_found_on_search_path() {
    let missing = command("no_such_binary_anywhere_on_path_0x77", None);
    let e = ProgramCaller::parse(command_chunk_of(missing)).err().unwrap();
    assert_eq!(e.kind, StatusKind::NotFound);
    assert_eq!(e.message, "executable not found");
}

#[test]
fn path_predicates() {
    assert!(path_is_absolute("/bin"));
    assert!(!path_is_absolute("bin"));
    assert!(!path_is_absolute(""));
    assert_eq!(path_parent("/"), None);
    assert_eq!(path_parent("/bash"), Some("/".to_string()));
    assert_eq!(path_parent("/usr/bin"), Some("/usr".to_string()));
    assert_eq!(path_parent("/usr/local/bin"), Some("/usr/local".to_string()));
}
