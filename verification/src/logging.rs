//! Log-record filtering for the platform logger.

use vstd::prelude::*;

verus! {

/// The severity of a log record, most severe first.
#[derive(Clone, Copy, Debug, PartialEq, Eq, Structural)]
pub enum LogLevel {
    /// An error.
    Error,
    /// A warning.
    Warn,
    /// Informational.
    Info,
    /// Debugging detail.
    Debug,
    /// Tracing detail.
    Trace,
}

/// Numeric severity rank: smaller is more severe.
pub open spec fn severity(l: LogLevel) -> int {
    match l {
        LogLevel::Error => 1,
        LogLevel::Warn => 2,
        LogLevel::Info => 3,
        LogLevel::Debug => 4,
        LogLevel::Trace => 5,
    }
}

/// Whether the platform logger emits a record: everything up to
/// informational severity is emitted, debugging and tracing detail is
/// not.
pub fn log_enabled(level: LogLevel) -> (r: bool)
    ensures
        r <==> severity(level) <= severity(LogLevel::Info),
{
    match level {
        LogLevel::Error => true,
        LogLevel::Warn => true,
        LogLevel::Info => true,
        LogLevel::Debug => false,
        LogLevel::Trace => false,
    }
}

} // verus!
