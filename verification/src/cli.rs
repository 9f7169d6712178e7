//! The program's command line and settings.

use vstd::prelude::*;
use crate::text::{chars_equal, parse_u16_radix, parse_u16_spec, str_chars};

verus! {

/// The HTTP/WebSocket port when none is configured.
pub const DEFAULT_PORT: u16 = 8765;

/// The port to listen on: the `SWITCH_BT_WS_PORT` setting when it is a decimal
/// `u16`, 8765 otherwise.
pub fn server_port(setting: Option<&str>) -> (port: u16)
    ensures
        port == (match setting {
            Some(s) => match parse_u16_spec(s@, 10) {
                Some(p) => p,
                None => DEFAULT_PORT,
            },
            None => DEFAULT_PORT,
        }),
{
    match setting {
        Some(s) => match parse_u16_radix(&str_chars(s), 10) {
            Some(p) => p,
            None => DEFAULT_PORT,
        },
        None => DEFAULT_PORT,
    }
}

/// Whether the program runs as a worker: its first argument is `--worker`.
pub fn is_worker_invocation(args: &Vec<String>) -> (b: bool)
    ensures
        b == (args@.len() > 1 && args@[1]@ == "--worker"@),
{
    args.len() > 1 && chars_equal(&str_chars(args[1].as_str()), &str_chars("--worker"))
}

/// Whether some argument is exactly `flag`.
pub fn has_flag(args: &Vec<String>, flag: &str) -> (b: bool)
    ensures
        b == exists|i: int| 0 <= i < args@.len() && args@[i]@ == flag@,
{
    let f = str_chars(flag);
    let mut i: usize = 0;
    while i < args.len()
        invariant
            i <= args@.len(),
            f@ == flag@,
            forall|j: int| 0 <= j < i ==> args@[j]@ != flag@,
        decreases args@.len() - i,
    {
        if chars_equal(&str_chars(args[i].as_str()), &f) {
            return true;
        }
        i = i + 1;
    }
    false
}

/// Whether debug logging is asked for: some argument is `--debug`.
pub fn debug_requested(args: &Vec<String>) -> (b: bool)
    ensures
        b == exists|i: int| 0 <= i < args@.len() && args@[i]@ == "--debug"@,
{
    has_flag(args, "--debug")
}

/// Whether the third-party licences are asked for: some argument is
/// `--licenses` (the program then prints them and exits).
pub fn licenses_requested(args: &Vec<String>) -> (b: bool)
    ensures
        b == exists|i: int| 0 <= i < args@.len() && args@[i]@ == "--licenses"@,
{
    has_flag(args, "--licenses")
}

} // verus!
