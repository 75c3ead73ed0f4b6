//! One structured log record, and the recognition of its fields by name.
use vstd::prelude::*;

use crate::level::LogLevel;
use crate::text::{str_eq, to_uppercase, uppercase_of};

verus! {

/// A log record as kept in the buffer and in the day's log file.
#[derive(Debug, Clone, PartialEq, Eq)]
pub struct FileLog {
    /// Milliseconds since the Unix epoch.
    pub timestamp: i64,
    pub level: LogLevel,
    /// Short label, upper case.
    pub category: Option<String>,
    pub message: Option<String>,
    /// Rendered text of an attached error.
    pub error: Option<String>,
    /// Elapsed milliseconds of an attached stopwatch.
    pub ms: Option<u64>,
}

/// What a named field of an event fills in.
#[derive(Debug, Clone, Copy, PartialEq, Eq, Structural)]
pub enum FieldRole {
    Message,
    Category,
    Error,
    Elapsed,
    Ignored,
}

/// The role of a field by its name; short and long spellings are both recognized.
pub open spec fn role_of(name: Seq<char>) -> FieldRole {
    if name == "message"@ || name == "msg"@ {
        FieldRole::Message
    } else if name == "category"@ || name == "cat"@ {
        FieldRole::Category
    } else if name == "error"@ || name == "err"@ {
        FieldRole::Error
    } else if name == "ms"@ || name == "stopwatch"@ {
        FieldRole::Elapsed
    } else {
        FieldRole::Ignored
    }
}

pub fn field_role(name: &str) -> (r: FieldRole)
    ensures
        r == role_of(name@),
{
    if str_eq(name, "message") || str_eq(name, "msg") {
        FieldRole::Message
    } else if str_eq(name, "category") || str_eq(name, "cat") {
        FieldRole::Category
    } else if str_eq(name, "error") || str_eq(name, "err") {
        FieldRole::Error
    } else if str_eq(name, "ms") || str_eq(name, "stopwatch") {
        FieldRole::Elapsed
    } else {
        FieldRole::Ignored
    }
}

/// The fields extracted from one event.
#[derive(Debug, PartialEq, Eq)]
pub struct LogFields {
    pub message: Option<String>,
    pub category: Option<String>,
    pub ms: Option<u64>,
    pub error: Option<String>,
}

impl LogFields {
    pub fn new() -> (r: LogFields)
        ensures
            r.message is None,
            r.category is None,
            r.ms is None,
            r.error is None,
    {
        LogFields { message: None, category: None, ms: None, error: None }
    }

    /// Records a text field: a message or an error is kept as it is, a
    /// category in upper case; other names leave the fields unchanged.
    pub fn record_str(&mut self, field: &str, value: &str)
        ensures
            opt_view(final(self).message) == (if role_of(field@) == FieldRole::Message {
                Some(value@)
            } else {
                opt_view(old(self).message)
            }),
            opt_view(final(self).category) == (if role_of(field@) == FieldRole::Category {
                Some(uppercase_of(value@))
            } else {
                opt_view(old(self).category)
            }),
            opt_view(final(self).error) == (if role_of(field@) == FieldRole::Error {
                Some(value@)
            } else {
                opt_view(old(self).error)
            }),
            final(self).ms == old(self).ms,
    {
        match field_role(field) {
            FieldRole::Message => {
                self.message = Some(String::from_str(value));
            },
            FieldRole::Category => {
                self.category = Some(to_uppercase(value));
            },
            FieldRole::Error => {
                self.error = Some(String::from_str(value));
            },
            _ => {},
        }
    }

    /// Records a field given by its debug text: a message or an error is
    /// kept as that text; other names leave the fields unchanged.
    pub fn record_debug(&mut self, field: &str, text: &str)
        ensures
            opt_view(final(self).message) == (if role_of(field@) == FieldRole::Message {
                Some(text@)
            } else {
                opt_view(old(self).message)
            }),
            opt_view(final(self).error) == (if role_of(field@) == FieldRole::Error {
                Some(text@)
            } else {
                opt_view(old(self).error)
            }),
            final(self).category == old(self).category,
            final(self).ms == old(self).ms,
    {
        match field_role(field) {
            FieldRole::Message => {
                self.message = Some(String::from_str(text));
            },
            FieldRole::Error => {
                self.error = Some(String::from_str(text));
            },
            _ => {},
        }
    }

    /// Records a whole number of elapsed milliseconds.
    pub fn record_ms(&mut self, field: &str, value: u64)
        ensures
            final(self).ms == (if role_of(field@) == FieldRole::Elapsed {
                Some(value)
            } else {
                old(self).ms
            }),
            final(self).message == old(self).message,
            final(self).category == old(self).category,
            final(self).error == old(self).error,
    {
        match field_role(field) {
            FieldRole::Elapsed => {
                self.ms = Some(value);
            },
            _ => {},
        }
    }
}

/// The characters of an optional string.
pub open spec fn opt_view(o: Option<String>) -> Option<Seq<char>> {
    match o {
        Some(s) => Some(s@),
        None => None,
    }
}

} // verus!
