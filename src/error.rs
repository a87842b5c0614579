//! How serious an error is, and whether it reaches the operator.

use vstd::prelude::*;

verus! {

/// The severity of an error.
#[derive(Debug, Clone, Copy, PartialEq, Eq, Structural)]
pub enum ErrorSeverity {
    /// Monitoring stopped.
    Fatal,
    /// The operation failed; the application goes on.
    Recoverable,
    /// Worth a log line only.
    Minor,
}

impl ErrorSeverity {
    /// Fatal and recoverable errors are shown to the operator; minor ones are not.
    pub fn should_show_toast(&self) -> (r: bool)
        ensures
            r == (*self != ErrorSeverity::Minor),
    {
        match self {
            ErrorSeverity::Fatal => true,
            ErrorSeverity::Recoverable => true,
            ErrorSeverity::Minor => false,
        }
    }
}

} // verus!
