//! The handling of one emitted event: filter, render, and buffer.
use vstd::prelude::*;

use crate::buffer::LogBuffer;
use crate::clock::{clock_stamp, utc_clock_stamp};
use crate::entry::{FileLog, LogFields, opt_view};
use crate::filter::{EnvOverrides, LevelFilter};
use crate::level::LogLevel;
use crate::render::{line_of, render_line};

verus! {

/// A rendered line and the stream it goes to.
#[derive(Debug, PartialEq, Eq)]
pub struct ConsoleLine {
    /// Errors go to standard error, everything else to standard output.
    pub to_stderr: bool,
    pub text: String,
}

/// What became of an event.
pub enum Dispatch {
    /// The filter rejected it (or its level is `Off`); nothing was done.
    Skipped,
    /// It is to be written to the console; it was buffered if file logging is on.
    Written(ConsoleLine),
    /// Its timestamp lies outside the calendar range; nothing was done.
    Unstamped,
}

/// The characters of an optional text field, empty when absent.
pub open spec fn text_or_empty(o: Option<String>) -> Seq<char> {
    match o {
        Some(s) => s@,
        None => seq![],
    }
}

/// The record that an accepted event leaves in the buffer.
pub open spec fn entry_of(timestamp: i64, level: LogLevel, fields: LogFields) -> FileLog {
    FileLog {
        timestamp,
        level,
        category: fields.category,
        message: fields.message,
        error: fields.error,
        ms: fields.ms,
    }
}

fn text_or_empty_str(o: &Option<String>) -> (r: &str)
    ensures
        r@ == text_or_empty(*o),
{
    proof {
        reveal_strlit("");
    }
    match o {
        Some(s) => s.as_str(),
        None => "",
    }
}

/// The filter and the switch for file logging, fixed when the logger starts.
pub struct Dispatcher {
    pub filter: LevelFilter,
    pub file_logging: bool,
}

impl Dispatcher {
    /// Handles one event of `level` from `module`, stamped `timestamp`
    /// milliseconds after the epoch. A rejected event is not even rendered.
    /// An accepted one is rendered for the console (`color` selects the
    /// colored layout) and, with file logging on, appended to `buffer`.
    pub fn on_event(
        &self,
        buffer: &mut LogBuffer,
        module: Option<&str>,
        level: LogLevel,
        fields: LogFields,
        timestamp: i64,
        color: bool,
        env: &EnvOverrides,
    ) -> (r: Dispatch)
        ensures
            ({
                let admitted = level != LogLevel::Off && self.filter.admits(
                    match module {
                        Some(m) => Some(m@),
                        None => None,
                    },
                    level,
                    *env,
                );
                &&& !admitted ==> r is Skipped && *final(buffer) == *old(buffer)
                &&& admitted && utc_clock_stamp(timestamp as int) is None ==> r is Unstamped
                    && *final(buffer) == *old(buffer)
                &&& admitted && utc_clock_stamp(timestamp as int) is Some ==> {
                    &&& r matches Dispatch::Written(line) && line.to_stderr == (level
                        == LogLevel::Error) && line.text@ == line_of(
                        level,
                        utc_clock_stamp(timestamp as int).unwrap(),
                        text_or_empty(fields.category),
                        text_or_empty(fields.message),
                        fields.ms,
                        opt_view(fields.error),
                        color,
                    )
                    &&& final(buffer).entries@ == if self.file_logging {
                        old(buffer).entries@.push(entry_of(timestamp, level, fields))
                    } else {
                        old(buffer).entries@
                    }
                }
            }),
    {
        if level == LogLevel::Off {
            return Dispatch::Skipped;
        }
        if !self.filter.is_enabled(module, level, env) {
            return Dispatch::Skipped;
        }
        let stamp = match clock_stamp(timestamp) {
            Some(s) => s,
            None => {
                return Dispatch::Unstamped;
            },
        };
        let error = match &fields.error {
            Some(e) => Some(e.as_str()),
            None => None,
        };
        let text = render_line(
            level,
            stamp.as_str(),
            text_or_empty_str(&fields.category),
            text_or_empty_str(&fields.message),
            fields.ms,
            error,
            color,
        );
        if self.file_logging {
            buffer.append(
                FileLog {
                    timestamp,
                    level,
                    category: fields.category,
                    message: fields.message,
                    error: fields.error,
                    ms: fields.ms,
                },
            );
        }
        Dispatch::Written(ConsoleLine { to_stderr: level == LogLevel::Error, text })
    }
}

} // verus!
