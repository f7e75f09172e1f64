//! Log levels and how the command line and settings choose one.

use vstd::prelude::*;
use crate::text::{lower_of, lowercase, str_eq};

verus! {

/// Log levels, most verbose first.
#[derive(Debug, Clone, Copy, PartialEq, Eq, Structural)]
pub enum LogLevel {
    Trace,
    Debug,
    Info,
    Warn,
    Error,
}

/// The level a lower-case name denotes; anything unknown means info.
pub open spec fn level_of_name(s: Seq<char>) -> LogLevel {
    if s == "trace"@ { LogLevel::Trace }
    else if s == "debug"@ { LogLevel::Debug }
    else if s == "info"@ { LogLevel::Info }
    else if s == "warn"@ || s == "warning"@ { LogLevel::Warn }
    else if s == "error"@ { LogLevel::Error }
    else { LogLevel::Info }
}

/// The level a lower-case name denotes.
pub fn level_from_lower_name(s: &str) -> (r: LogLevel)
    ensures
        r == level_of_name(s@),
{
    if str_eq(s, "trace") { LogLevel::Trace }
    else if str_eq(s, "debug") { LogLevel::Debug }
    else if str_eq(s, "info") { LogLevel::Info }
    else if str_eq(s, "warn") || str_eq(s, "warning") { LogLevel::Warn }
    else if str_eq(s, "error") { LogLevel::Error }
    else { LogLevel::Info }
}

/// The level a name in any case denotes; anything unknown means info.
pub fn parse_level(level: &str) -> (r: LogLevel)
    ensures
        r == level_of_name(lower_of(level@)),
{
    let l = lowercase(level);
    level_from_lower_name(l.as_str())
}

/// The level in force: quiet means errors only; each `-v` raises the
/// verbosity over the configured level (one: debug, more: trace).
pub fn determine_level(settings: &crate::config::LoggingSettings, verbose: u8, quiet: bool) -> (r: LogLevel)
    ensures
        r == if quiet {
            LogLevel::Error
        } else if verbose == 0 {
            level_of_name(lower_of(settings.level@))
        } else if verbose == 1 {
            LogLevel::Debug
        } else {
            LogLevel::Trace
        },
{
    if quiet {
        return LogLevel::Error;
    }
    match verbose {
        0 => parse_level(settings.level.as_str()),
        1 => LogLevel::Debug,
        _ => LogLevel::Trace,
    }
}

impl LogLevel {
    pub open spec fn name_spec(self) -> Seq<char> {
        match self {
            LogLevel::Trace => "trace"@,
            LogLevel::Debug => "debug"@,
            LogLevel::Info => "info"@,
            LogLevel::Warn => "warn"@,
            LogLevel::Error => "error"@,
        }
    }

    /// The lower-case name of the level.
    pub fn as_str(&self) -> (r: &'static str)
        ensures
            r@ == self.name_spec(),
    {
        match self {
            LogLevel::Trace => "trace",
            LogLevel::Debug => "debug",
            LogLevel::Info => "info",
            LogLevel::Warn => "warn",
            LogLevel::Error => "error",
        }
    }
}

} // verus!
