use vstd::prelude::*;
use std::io::Write;

verus! {

/// Writes one leveled line to the standard error stream.
///
/// Relies on std::io::Stderr::write_fmt, reached through `writeln`: the
/// documented behavior is to write the formatted line, and the facade
/// discards the result, as logging has no failure mode visible to callers.
#[verifier::external_body]
fn emit(level: &str, message: &str) {
    let _ = writeln!(std::io::stderr(), "{} {}", level, message);
}

/// The logging facade the runtime core emits through: five leveled sink
/// calls, each taking a preformatted message string, fire-and-forget.
pub struct Logger;

impl Logger {
    pub fn trace(message: &str) {
        emit("[TRACE]", message);
    }

    pub fn debug(message: &str) {
        emit("[DEBUG]", message);
    }

    pub fn info(message: &str) {
        emit("[INFO]", message);
    }

    pub fn warn(message: &str) {
        emit("[WARN]", message);
    }

    pub fn error(message: &str) {
        emit("[ERROR]", message);
    }
}

} // verus!
