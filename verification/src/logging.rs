//! Severity levels for the log records the library asks its callers to emit.

use vstd::prelude::*;

verus! {

/// Severity of a log record, from the most to the least verbose.
#[derive(Debug, Clone, Copy, PartialEq, Eq, Structural)]
pub enum LogLevel {
    Trace,
    Debug,
    Info,
    Warn,
    Error,
}

} // verus!
