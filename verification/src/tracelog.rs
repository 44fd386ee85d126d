//! Trace log levels, ordered by priority; the windowing layer consumes
//! their numeric codes.

use vstd::prelude::*;

verus! {

/// Trace log level, organized by priority: `All` shows everything,
/// `Off` disables logging.
#[derive(Clone, Copy, Debug, Hash, PartialEq, Eq, Structural)]
pub enum TraceLogLevel {
    /// Display all logs.
    All,
    /// Trace logging, intended for internal use only.
    Trace,
    /// Debug logging, for internal debugging; disabled on release builds.
    Debug,
    /// Info logging, for program execution info (the default).
    Info,
    /// Warning logging, for recoverable failures.
    Warning,
    /// Error logging, for unrecoverable failures.
    Error,
    /// Fatal logging, used when aborting the program.
    Fatal,
    /// Disable logging.
    Off,
}

/// Numeric priority of a level, from 0 (`All`) to 7 (`Off`).
pub open spec fn level_code_s(l: TraceLogLevel) -> int {
    match l {
        TraceLogLevel::All => 0,
        TraceLogLevel::Trace => 1,
        TraceLogLevel::Debug => 2,
        TraceLogLevel::Info => 3,
        TraceLogLevel::Warning => 4,
        TraceLogLevel::Error => 5,
        TraceLogLevel::Fatal => 6,
        TraceLogLevel::Off => 7,
    }
}

impl TraceLogLevel {
    /// Returns the numeric code of the level.
    pub fn code(&self) -> (c: i32)
        ensures
            c == level_code_s(*self),
    {
        match self {
            TraceLogLevel::All => 0,
            TraceLogLevel::Trace => 1,
            TraceLogLevel::Debug => 2,
            TraceLogLevel::Info => 3,
            TraceLogLevel::Warning => 4,
            TraceLogLevel::Error => 5,
            TraceLogLevel::Fatal => 6,
            TraceLogLevel::Off => 7,
        }
    }
}

} // verus!
