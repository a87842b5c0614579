//! Log levels: parsing a configured level and naming one.

use vstd::prelude::*;
use crate::text::{lower_of, str_eq, to_lower};

verus! {

/// The most verbose level a log keeps.
#[derive(Debug, Clone, Copy, PartialEq, Eq, Structural)]
pub enum LevelFilter {
    Off,
    Error,
    Warn,
    Info,
    Debug,
    Trace,
}

/// The level a lower-case name selects; anything unrecognised selects `Info`.
pub open spec fn level_named(l: Seq<char>) -> LevelFilter {
    if l == "trace"@ {
        LevelFilter::Trace
    } else if l == "debug"@ {
        LevelFilter::Debug
    } else if l == "info"@ {
        LevelFilter::Info
    } else if l == "warn"@ || l == "warning"@ {
        LevelFilter::Warn
    } else if l == "error"@ {
        LevelFilter::Error
    } else if l == "off"@ {
        LevelFilter::Off
    } else {
        LevelFilter::Info
    }
}

/// The lower-case name of a level.
pub open spec fn level_name(level: LevelFilter) -> Seq<char> {
    match level {
        LevelFilter::Trace => "trace"@,
        LevelFilter::Debug => "debug"@,
        LevelFilter::Info => "info"@,
        LevelFilter::Warn => "warn"@,
        LevelFilter::Error => "error"@,
        LevelFilter::Off => "off"@,
    }
}

/// Parses a level name without regard to case; unknown names give `Info`.
pub fn parse_log_level(level_str: &str) -> (r: LevelFilter)
    ensures
        r == level_named(lower_of(level_str@)),
{
    let lower = to_lower(level_str);
    let l = lower.as_str();
    if str_eq(l, "trace") {
        LevelFilter::Trace
    } else if str_eq(l, "debug") {
        LevelFilter::Debug
    } else if str_eq(l, "info") {
        LevelFilter::Info
    } else if str_eq(l, "warn") || str_eq(l, "warning") {
        LevelFilter::Warn
    } else if str_eq(l, "error") {
        LevelFilter::Error
    } else if str_eq(l, "off") {
        LevelFilter::Off
    } else {
        LevelFilter::Info
    }
}

/// The lower-case name of a level.
pub fn log_level_to_string(level: LevelFilter) -> (r: &'static str)
    ensures
        r@ == level_name(level),
{
    match level {
        LevelFilter::Trace => "trace",
        LevelFilter::Debug => "debug",
        LevelFilter::Info => "info",
        LevelFilter::Warn => "warn",
        LevelFilter::Error => "error",
        LevelFilter::Off => "off",
    }
}

/// Where and how much the log keeps.
#[derive(Debug, Clone)]
pub struct LoggingConfig {
    pub level: LevelFilter,
    pub log_dir: String,
    /// A log beyond this many bytes is rotated.
    pub max_file_size: u64,
    /// How many rotated logs are kept.
    pub max_files: u32,
}

impl Default for LoggingConfig {
    fn default() -> (r: Self)
        ensures
            r.level == LevelFilter::Info,
            r.log_dir@ == "."@,
            r.max_file_size == 5 * 1024 * 1024,
            r.max_files == 3,
    {
        LoggingConfig {
            level: LevelFilter::Info,
            log_dir: String::from_str("."),
            max_file_size: 5 * 1024 * 1024,
            max_files: 3,
        }
    }
}

} // verus!
