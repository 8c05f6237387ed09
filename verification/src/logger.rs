//! The logging interface the rest of the system writes to.

use vstd::prelude::*;

verus! {

/// A sink for log messages at the usual severities.  Logging is
/// best-effort: no caller depends on its effects.
pub trait Logger {
    fn debug(&self, message: &str);

    fn info(&self, message: &str);

    fn warning(&self, message: &str);

    fn error(&self, message: &str);

    fn critical(&self, message: &str);
}

} // verus!
