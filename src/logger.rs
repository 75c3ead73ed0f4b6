//! The logger's configuration, set once before it starts.
use vstd::prelude::*;

use crate::dispatch::Dispatcher;
use crate::filter::{LevelFilter, override_of};
use crate::level::LogLevel;

verus! {

/// The directory of the log files when none is configured.
pub open spec fn default_log_dir() -> Seq<char> {
    "./logs"@
}

/// Whether records are also written to day files, and where.
pub struct LoggerFileLoggingBuilder {
    pub enabled: bool,
    pub path: Option<String>,
}

impl LoggerFileLoggingBuilder {
    /// The directory of the log files: the configured one, else `./logs`.
    pub fn dir(&self) -> (r: String)
        ensures
            r@ == match self.path {
                Some(p) => p@,
                None => default_log_dir(),
            },
    {
        match &self.path {
            Some(p) => p.clone(),
            None => String::from_str("./logs"),
        }
    }
}

/// Why a logger cannot start.
#[derive(Debug, Clone, Copy, PartialEq, Eq, Structural)]
pub enum InitError {
    /// The configured level is `Off`, so the logger would never log.
    LevelOff,
}

/// A logger configuration.
pub struct Logger {
    pub filter: LevelFilter,
    pub file_logging: LoggerFileLoggingBuilder,
}

/// Builds a logger configuration: level `Info`, no module overrides, file
/// logging off.
pub struct LoggerBuilder {
    inner: Logger,
}

impl LoggerBuilder {
    pub closed spec fn config(self) -> Logger {
        self.inner
    }

    pub fn new() -> (r: LoggerBuilder)
        ensures
            r.config().filter.level == LogLevel::Info,
            r.config().filter.module_filters@.len() == 0,
            !r.config().file_logging.enabled,
            r.config().file_logging.path is None,
    {
        LoggerBuilder {
            inner: Logger {
                filter: LevelFilter::new(LogLevel::Info),
                file_logging: LoggerFileLoggingBuilder { enabled: false, path: None },
            },
        }
    }

    /// Sets the global level.
    pub fn level(self, level: LogLevel) -> (r: LoggerBuilder)
        ensures
            r.config().filter.level == level,
            r.config().filter.module_filters == self.config().filter.module_filters,
            r.config().file_logging == self.config().file_logging,
    {
        let mut inner = self.inner;
        inner.filter.level = level;
        LoggerBuilder { inner }
    }

    /// Turns file logging on or off.
    pub fn file_logger(self, enable: bool) -> (r: LoggerBuilder)
        ensures
            r.config().filter == self.config().filter,
            r.config().file_logging.enabled == enable,
            r.config().file_logging.path == self.config().file_logging.path,
    {
        let mut inner = self.inner;
        inner.file_logging.enabled = enable;
        LoggerBuilder { inner }
    }

    /// Sets the directory of the log files.
    pub fn file_logger_path(self, path: &str) -> (r: LoggerBuilder)
        ensures
            r.config().filter == self.config().filter,
            r.config().file_logging.enabled == self.config().file_logging.enabled,
            r.config().file_logging.path matches Some(p) && p@ == path@,
    {
        let mut inner = self.inner;
        inner.file_logging.path = Some(String::from_str(path));
        LoggerBuilder { inner }
    }

    /// Sets the level of one module, replacing any level set for it before.
    pub fn module_filter(self, name: &str, level: LogLevel) -> (r: LoggerBuilder)
        ensures
            r.config().filter.level == self.config().filter.level,
            override_of(r.config().filter.module_filters@, name@) == Some(level),
            forall|m: Seq<char>|
                m != name@ ==> override_of(r.config().filter.module_filters@, m) == override_of(
                    self.config().filter.module_filters@,
                    m,
                ),
            r.config().file_logging == self.config().file_logging,
    {
        let inner = self.inner;
        let filter = inner.filter.module_filter(name, level);
        LoggerBuilder { inner: Logger { filter, file_logging: inner.file_logging } }
    }

    pub fn get(self) -> (r: Logger)
        ensures
            r == self.config(),
    {
        self.inner
    }
}

impl Logger {
    pub fn new() -> (r: LoggerBuilder)
        ensures
            r.config().filter.level == LogLevel::Info,
            r.config().filter.module_filters@.len() == 0,
            !r.config().file_logging.enabled,
            r.config().file_logging.path is None,
    {
        LoggerBuilder::new()
    }

    /// The event handler of this configuration; a logger whose level is
    /// `Off` cannot start.
    pub fn dispatcher(self) -> (r: Result<Dispatcher, InitError>)
        ensures
            self.filter.level == LogLevel::Off <==> r is Err,
            r matches Ok(d) ==> d.filter == self.filter && d.file_logging
                == self.file_logging.enabled,
    {
        if self.filter.level == LogLevel::Off {
            return Err(InitError::LevelOff);
        }
        Ok(Dispatcher { filter: self.filter, file_logging: self.file_logging.enabled })
    }
}

} // verus!
