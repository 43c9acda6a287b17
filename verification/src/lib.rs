//! Remote process execution service: a client submits a command to a server
//! over a bidirectional stream of chunks; the server launches the process,
//! forwards the client's standard input to it, and streams the process's
//! standard output, standard error and eventual exit code back.
//!
//! This crate holds the verified core of the service: the wire message set,
//! the parse phase that turns the first request chunk into a runnable
//! command, the per-call state machine of the server, the teardown policy,
//! the chunking of the byte streams, and the client-side accumulation of the
//! response stream. The surrounding transport, process and terminal plumbing
//! is ordinary asynchronous code and lives outside the library.

use vstd::prelude::*;
use vstd::string::StringExecFns;

pub mod args;
pub mod client;
pub mod executor;
pub mod gen_cert;
pub mod path;
pub mod status;
pub mod transcript;
pub mod wire;

verus! {

/// Port the server binds to and the client dials when none is given.
pub const DEFAULT_PORT: u16 = 30521;

/// The configuration directory, derived from the user's home directory:
/// `<home>/.config/rex`. Reading the home directory from the environment is
/// the caller's business; this function only forms the path.
pub fn config_dir(home: &str) -> (r: String)
    ensures
        r@ == home@ + "/.config/rex"@,
{
    let mut dir = home.to_owned();
    dir.append("/.config/rex");
    dir
}

} // verus!
