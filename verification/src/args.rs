//! The values the command-line front-ends hand the library: the client's
//! and the certificate generator's arguments, and the fixed defaults of
//! the addresses. Parsing the command line itself is the front-ends'
//! business.

use vstd::prelude::*;
use vstd::string::StringExecFns;
use crate::DEFAULT_PORT;

verus! {

/// Arguments of the client subcommand.
#[derive(Debug, Clone)]
pub struct ClientArgs {
    /// Program name or path to run on the server.
    pub executable: String,
    /// Working directory of the executable; defaults to where the client
    /// runs.
    pub current_dir: Option<String>,
    /// The executable's arguments.
    pub args: Vec<String>,
    /// Address of the server to dial.
    pub server_address: String,
    /// Leak the child when the connection closes.
    pub leak: bool,
    /// Client and CA certificate directory; defaults to the configuration
    /// directory.
    pub cert_dir: Option<String>,
}

/// Arguments of the certificate generation subcommand.
#[derive(Debug, Clone)]
pub struct GenCertArgs {
    /// Certificate output directory; defaults to the configuration
    /// directory.
    pub output_path: Option<String>,
}

/// The character of one decimal digit.
pub open spec fn digit_char(d: nat) -> char {
    if d == 0 {
        '0'
    } else if d == 1 {
        '1'
    } else if d == 2 {
        '2'
    } else if d == 3 {
        '3'
    } else if d == 4 {
        '4'
    } else if d == 5 {
        '5'
    } else if d == 6 {
        '6'
    } else if d == 7 {
        '7'
    } else if d == 8 {
        '8'
    } else {
        '9'
    }
}

/// The decimal notation of a number, most significant digit first, without
/// leading zeroes (a single `'0'` for zero).
pub open spec fn dec_digits(n: nat) -> Seq<char>
    decreases n,
{
    if n < 10 {
        seq![digit_char(n)]
    } else {
        dec_digits(n / 10).push(digit_char(n % 10))
    }
}

/// One decimal digit, as a string.
fn digit_str(d: u16) -> (r: &'static str)
    requires
        d < 10,
    ensures
        r@ == seq![digit_char(d as nat)],
{
    proof {
        reveal_strlit("0");
        reveal_strlit("1");
        reveal_strlit("2");
        reveal_strlit("3");
        reveal_strlit("4");
        reveal_strlit("5");
        reveal_strlit("6");
        reveal_strlit("7");
        reveal_strlit("8");
        reveal_strlit("9");
    }
    let r = match d {
        0 => "0",
        1 => "1",
        2 => "2",
        3 => "3",
        4 => "4",
        5 => "5",
        6 => "6",
        7 => "7",
        8 => "8",
        _ => "9",
    };
    proof {
        assert(r@ =~= seq![digit_char(d as nat)]);
    }
    r
}

/// The decimal notation of a port number.
pub fn u16_to_string(n: u16) -> (r: String)
    ensures
        r@ == dec_digits(n as nat),
    decreases n,
{
    if n < 10 {
        digit_str(n).to_owned()
    } else {
        let mut s = u16_to_string(n / 10);
        s.append(digit_str(n % 10));
        proof {
            assert(s@ =~= dec_digits(n as nat));
        }
        s
    }
}

/// The address the client dials when none is given: the loopback server on
/// the default port.
pub fn default_server_address() -> (r: String)
    ensures
        r@ == "https://[::1]:"@ + dec_digits(DEFAULT_PORT as nat),
{
    let mut s = "https://[::1]:".to_owned();
    let port = u16_to_string(DEFAULT_PORT);
    s.append(port.as_str());
    s
}

/// The address the server binds when none is given: loopback, default
/// port.
pub fn default_bind_address() -> (r: String)
    ensures
        r@ == "[::1]:"@ + dec_digits(DEFAULT_PORT as nat),
{
    let mut s = "[::1]:".to_owned();
    let port = u16_to_string(DEFAULT_PORT);
    s.append(port.as_str());
    s
}

} // verus!
