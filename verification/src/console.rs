//! The console edge of the engine: the four standard-stream operations the
//! interpreter's I/O primitives rest on. Each is a trusted wrapper around
//! one std function; nothing is promised of any outcome.

use vstd::prelude::*;
use std::io::Write;

verus! {

/// Relies on `std::io::Write::write_fmt`, through the `write!` macro, on the
/// standard output stream: writes the string; whether it succeeded.
#[verifier::external_body]
pub fn write_stdout(s: &str) -> (r: bool) {
    write!(std::io::stdout(), "{}", s).is_ok()
}

/// Relies on `std::io::Write::write_fmt`, through the `write!` macro, on the
/// standard error stream: writes the string; whether it succeeded.
#[verifier::external_body]
pub fn write_stderr(s: &str) -> (r: bool) {
    write!(std::io::stderr(), "{}", s).is_ok()
}

/// Relies on `std::io::Write::flush` on the standard output stream.
#[verifier::external_body]
pub fn flush_stdout() -> (r: bool) {
    std::io::stdout().flush().is_ok()
}

/// Relies on `std::io::Stdin::read_line`: one line of input including its
/// line break, or `None` at end of input or on an error.
#[verifier::external_body]
pub fn read_stdin_line() -> (r: Option<String>) {
    let mut buf = String::new();
    match std::io::stdin().read_line(&mut buf) {
        Ok(0) => None,
        Ok(_) => Some(buf),
        Err(_) => None,
    }
}

} // verus!
