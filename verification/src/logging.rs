//! The logging configuration: where log records go and from which level on.

use vstd::prelude::*;
use vstd::string::*;
use crate::text::opt_view;

verus! {

/// Log levels, from "log nothing" to "log everything".
#[derive(Clone, Copy, Debug, PartialEq, Eq, Structural)]
pub enum LogLevel {
    Off,
    Error,
    Warn,
    Info,
    Debug,
    Trace,
}

/// Where an appender writes.
#[derive(Clone, Debug, PartialEq, Eq)]
pub enum LogTarget {
    /// The standard error stream.
    Stderr,
    /// The file at this path.
    File(String),
}

/// A named destination of log records.
#[derive(Clone, Debug)]
pub struct Appender {
    pub name: String,
    pub target: LogTarget,
}

/// The root logger: its level and the appenders it writes to.
#[derive(Clone, Debug)]
pub struct Root {
    level: LogLevel,
    appenders: Vec<String>,
}

impl Root {
    pub closed spec fn spec_level(&self) -> LogLevel {
        self.level
    }

    pub closed spec fn spec_appenders(&self) -> Seq<Seq<char>> {
        self.appenders@.map_values(|a: String| a@)
    }

    /// The level from which records are logged.
    pub fn level(&self) -> (l: LogLevel)
        ensures
            l == self.spec_level(),
    {
        self.level
    }

    /// The names of the appenders the root logger writes to.
    pub fn appenders(&self) -> (a: &Vec<String>)
        ensures
            a@.map_values(|s: String| s@) == self.spec_appenders(),
    {
        &self.appenders
    }
}

/// A logging configuration: one appender and the root logger.
#[derive(Clone, Debug)]
pub struct LogConfig {
    appender: Appender,
    root: Root,
}

impl LogConfig {
    pub closed spec fn spec_appender(&self) -> Appender {
        self.appender
    }

    pub closed spec fn spec_root(&self) -> Root {
        self.root
    }

    /// The appender.
    pub fn appender(&self) -> (a: &Appender)
        ensures
            *a == self.spec_appender(),
    {
        &self.appender
    }

    /// The root logger.
    pub fn root(&self) -> (r: &Root)
        ensures
            *r == self.spec_root(),
    {
        &self.root
    }
}

/// The name of the appender that writes to a file.
pub open spec fn file_appender_name() -> Seq<char> {
    "logfile"@
}

/// The name of the appender that writes to standard error.
pub open spec fn stderr_appender_name() -> Seq<char> {
    "stderr"@
}

/// Logs to the file when a path is given, else to standard error, from the
/// given level on (Error when none is given); the root logger writes to
/// that one appender.
pub fn create_log_config(log_file: Option<String>, log_level: Option<LogLevel>) -> (c: LogConfig)
    ensures
        c.spec_root().spec_level() == match log_level {
            Some(l) => l,
            None => LogLevel::Error,
        },
        match opt_view(log_file) {
            Some(path) => c.spec_appender().name@ == file_appender_name() && (c.spec_appender().target
                matches LogTarget::File(p) && p@ == path),
            None => c.spec_appender().name@ == stderr_appender_name()
                && c.spec_appender().target == LogTarget::Stderr,
        },
        c.spec_root().spec_appenders() == seq![c.spec_appender().name@],
{
    let level = match log_level {
        Some(l) => l,
        None => LogLevel::Error,
    };
    let (name, target) = match log_file {
        Some(path) => (String::from_str("logfile"), LogTarget::File(path)),
        None => (String::from_str("stderr"), LogTarget::Stderr),
    };
    let mut appenders: Vec<String> = Vec::new();
    appenders.push(name.clone());
    assert(appenders@.map_values(|a: String| a@) =~= seq![name@]);
    LogConfig { appender: Appender { name, target }, root: Root { level, appenders } }
}

} // verus!
