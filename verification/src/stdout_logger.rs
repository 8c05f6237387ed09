//! A logger that prints every message to standard output.

use vstd::prelude::*;
use std::io::Write;
use crate::logger::Logger;

verus! {

/// Relies on std::io::stdout from std: writes the message and a newline
/// to standard output, ignoring write errors (logging is best-effort).
#[verifier::external_body]
fn print_line(message: &str) {
    let _ = writeln!(std::io::stdout(), "{}", message);
}

/// Writes log messages, whatever their severity, to standard output.
pub struct StdoutLogger;

impl Logger for StdoutLogger {
    fn debug(&self, message: &str) {
        print_line(message);
    }

    fn info(&self, message: &str) {
        print_line(message);
    }

    fn warning(&self, message: &str) {
        print_line(message);
    }

    fn error(&self, message: &str) {
        print_line(message);
    }

    fn critical(&self, message: &str) {
        print_line(message);
    }
}

} // verus!
