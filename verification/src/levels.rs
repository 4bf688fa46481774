//! Log levels and their mapping to syslog-style priorities.
//!
//! The core never talks to a logger; it only resolves what verbosity the
//! kernel command line asked for and how a message level maps onto the
//! syslog priority scale the journal uses.

use vstd::prelude::*;

verus! {

/// Severity of one log message.
#[derive(Clone, Copy, PartialEq, Eq, Structural, Debug)]
pub enum LogLevel {
    Error,
    Warn,
    Info,
    Debug,
    Trace,
}

/// Maximum verbosity the process logs at; `Off` silences everything.
#[derive(Clone, Copy, PartialEq, Eq, Structural, Debug)]
pub enum LogFilter {
    Off,
    Error,
    Warn,
    Info,
    Debug,
    Trace,
}

/// Log priority levels, as on the syslog scale.
#[derive(Clone, Copy, PartialEq, Eq, Structural, Debug)]
pub enum Priority {
    Emergency,
    Alert,
    Critical,
    Error,
    Warning,
    Notice,
    Informational,
    Debug,
}

impl Priority {
    /// The numeric code of the priority on the syslog scale, `0` for
    /// `Emergency` down to `7` for `Debug`.
    pub fn code(&self) -> (n: u8)
        ensures
            *self == Priority::Emergency ==> n == 0,
            *self == Priority::Alert ==> n == 1,
            *self == Priority::Critical ==> n == 2,
            *self == Priority::Error ==> n == 3,
            *self == Priority::Warning ==> n == 4,
            *self == Priority::Notice ==> n == 5,
            *self == Priority::Informational ==> n == 6,
            *self == Priority::Debug ==> n == 7,
    {
        match self {
            Priority::Emergency => 0,
            Priority::Alert => 1,
            Priority::Critical => 2,
            Priority::Error => 3,
            Priority::Warning => 4,
            Priority::Notice => 5,
            Priority::Informational => 6,
            Priority::Debug => 7,
        }
    }
}

/// The syslog priority of a message level. Trace maps to `Debug` as well:
/// it is more verbose than debug, but debug is the lowest syslog priority.
pub open spec fn priority_of_level(level: LogLevel) -> Priority {
    match level {
        LogLevel::Error => Priority::Error,
        LogLevel::Warn => Priority::Warning,
        LogLevel::Info => Priority::Informational,
        LogLevel::Debug => Priority::Debug,
        LogLevel::Trace => Priority::Debug,
    }
}

impl From<LogLevel> for Priority {
    /// Maps a message level onto the syslog priority scale.
    fn from(level: LogLevel) -> (p: Priority)
        ensures
            p == priority_of_level(level),
    {
        match level {
            LogLevel::Error => Priority::Error,
            LogLevel::Warn => Priority::Warning,
            LogLevel::Info => Priority::Informational,
            LogLevel::Debug => Priority::Debug,
            LogLevel::Trace => Priority::Debug,
        }
    }
}

impl vstd::std_specs::convert::FromSpecImpl<LogLevel> for Priority {
    open spec fn obeys_from_spec() -> bool {
        true
    }

    open spec fn from_spec(level: LogLevel) -> Priority {
        priority_of_level(level)
    }
}

} // verus!
