//! Log severities, their names, and their conversions.
use vstd::prelude::*;

use crate::text::str_eq;

verus! {

#[verifier::external_type_specification]
#[verifier::external_body]
pub struct ExTracingLevel(tracing::Level);

/// Relies on `tracing::Level::as_str`, which names each of the five levels of
/// the tracing framework.
#[verifier::external_body]
fn tracing_label(level: &tracing::Level) -> (r: &'static str)
    ensures
        r@ == "ERROR"@ || r@ == "WARN"@ || r@ == "INFO"@ || r@ == "DEBUG"@ || r@ == "TRACE"@,
{
    level.as_str()
}

/// What `str::to_lowercase` makes of a string.
pub uninterp spec fn lowercase_of(s: Seq<char>) -> Seq<char>;

/// Relies on `str::to_lowercase`: the result depends on the characters alone.
#[verifier::external_body]
fn to_lowercase(s: &str) -> (r: String)
    ensures
        r@ == lowercase_of(s@),
{
    s.to_lowercase()
}

/// A log severity. `Off` disables logging; the others are ordered from the
/// most severe (`Error`) to the most verbose (`Trace`).
#[derive(Debug, Clone, Copy, PartialEq, Eq, Structural, PartialOrd, Ord, Hash)]
pub enum LogLevel {
    Off,
    Error,
    Warn,
    Info,
    Debug,
    Trace,
}

impl LogLevel {
    /// Position in the order Off < Error < Warn < Info < Debug < Trace; a
    /// filter set to level `f` lets an event of level `e` through when
    /// `e.verbosity() <= f.verbosity()`.
    pub open spec fn verbosity(self) -> nat {
        match self {
            LogLevel::Off => 0,
            LogLevel::Error => 1,
            LogLevel::Warn => 2,
            LogLevel::Info => 3,
            LogLevel::Debug => 4,
            LogLevel::Trace => 5,
        }
    }

    pub fn rank(self) -> (r: u8)
        ensures
            r as nat == self.verbosity(),
    {
        match self {
            LogLevel::Off => 0,
            LogLevel::Error => 1,
            LogLevel::Warn => 2,
            LogLevel::Info => 3,
            LogLevel::Debug => 4,
            LogLevel::Trace => 5,
        }
    }

    /// The level written by its lower-case name; `off` and anything else name none.
    pub open spec fn named(s: Seq<char>) -> Option<LogLevel> {
        if s == "error"@ {
            Some(LogLevel::Error)
        } else if s == "warn"@ {
            Some(LogLevel::Warn)
        } else if s == "info"@ {
            Some(LogLevel::Info)
        } else if s == "debug"@ {
            Some(LogLevel::Debug)
        } else if s == "trace"@ {
            Some(LogLevel::Trace)
        } else {
            None
        }
    }

    /// The lower-case name of a level; `Off` has none.
    pub open spec fn name(self) -> Option<Seq<char>> {
        match self {
            LogLevel::Off => None,
            LogLevel::Error => Some("error"@),
            LogLevel::Warn => Some("warn"@),
            LogLevel::Info => Some("info"@),
            LogLevel::Debug => Some("debug"@),
            LogLevel::Trace => Some("trace"@),
        }
    }

    /// The five-character column label of a level; `Off` has none.
    pub open spec fn label(self) -> Option<Seq<char>> {
        match self {
            LogLevel::Off => None,
            LogLevel::Error => Some("ERROR"@),
            LogLevel::Warn => Some("WARN "@),
            LogLevel::Info => Some("INFO "@),
            LogLevel::Debug => Some("DEBUG"@),
            LogLevel::Trace => Some("TRACE"@),
        }
    }

    /// The level that the tracing framework names by `s`.
    pub open spec fn tracing_named(s: Seq<char>) -> Option<LogLevel> {
        if s == "ERROR"@ {
            Some(LogLevel::Error)
        } else if s == "WARN"@ {
            Some(LogLevel::Warn)
        } else if s == "INFO"@ {
            Some(LogLevel::Info)
        } else if s == "DEBUG"@ {
            Some(LogLevel::Debug)
        } else if s == "TRACE"@ {
            Some(LogLevel::Trace)
        } else {
            None
        }
    }

    /// Parses a lower-case level name (`error`, `warn`, `info`, `debug`, `trace`).
    pub fn from_str(string: &str) -> (r: Option<Self>)
        ensures
            r == Self::named(string@),
    {
        if str_eq(string, "error") {
            Some(LogLevel::Error)
        } else if str_eq(string, "warn") {
            Some(LogLevel::Warn)
        } else if str_eq(string, "info") {
            Some(LogLevel::Info)
        } else if str_eq(string, "debug") {
            Some(LogLevel::Debug)
        } else if str_eq(string, "trace") {
            Some(LogLevel::Trace)
        } else {
            None
        }
    }

    /// Parses the upper-case name that the tracing framework gives its levels.
    pub fn from_label(label: &str) -> (r: Option<Self>)
        ensures
            r == Self::tracing_named(label@),
    {
        if str_eq(label, "ERROR") {
            Some(LogLevel::Error)
        } else if str_eq(label, "WARN") {
            Some(LogLevel::Warn)
        } else if str_eq(label, "INFO") {
            Some(LogLevel::Info)
        } else if str_eq(label, "DEBUG") {
            Some(LogLevel::Debug)
        } else if str_eq(label, "TRACE") {
            Some(LogLevel::Trace)
        } else {
            None
        }
    }

    /// The level of an event of the tracing framework; never `Off`.
    pub fn from_tracing_level(level: &tracing::Level) -> (r: Self)
        ensures
            r != LogLevel::Off,
    {
        let label = tracing_label(level);
        match Self::from_label(label) {
            Some(l) => l,
            None => LogLevel::Trace,
        }
    }

    /// The five-character column label (`ERROR`, `WARN `, `INFO `, `DEBUG`, `TRACE`).
    pub fn to_log_str(self) -> (r: Option<&'static str>)
        ensures
            r is None <==> self == LogLevel::Off,
            r matches Some(s) ==> self.label() == Some(s@),
    {
        match self {
            LogLevel::Off => None,
            LogLevel::Error => Some("ERROR"),
            LogLevel::Warn => Some("WARN "),
            LogLevel::Info => Some("INFO "),
            LogLevel::Debug => Some("DEBUG"),
            LogLevel::Trace => Some("TRACE"),
        }
    }

    /// The lower-case name (`error`, `warn`, `info`, `debug`, `trace`).
    pub fn to_str(self) -> (r: Option<&'static str>)
        ensures
            r is None <==> self == LogLevel::Off,
            r matches Some(s) ==> self.name() == Some(s@),
    {
        match self {
            LogLevel::Off => None,
            LogLevel::Error => Some("error"),
            LogLevel::Warn => Some("warn"),
            LogLevel::Info => Some("info"),
            LogLevel::Debug => Some("debug"),
            LogLevel::Trace => Some("trace"),
        }
    }
}

/// Reads a level name from an environment value, ignoring case.
pub fn get_env_var_level(value: &str) -> (r: Option<LogLevel>)
    ensures
        r == LogLevel::named(lowercase_of(value@)),
{
    let lower = to_lowercase(value);
    LogLevel::from_str(lower.as_str())
}

} // verus!
