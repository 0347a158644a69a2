//! Passing the client engine's trace levels to and from the Rust log
//! facility.

use vstd::prelude::*;

verus! {

/// The log target (module) for the engine's trace logs
pub const PAHO_C_LOG_TARGET: &'static str = "paho_mqtt_c";

/// The most verbose engine trace level.
pub const MQTTASYNC_TRACE_MAXIMUM: u32 = 1;

/// The medium engine trace level.
pub const MQTTASYNC_TRACE_MEDIUM: u32 = 2;

/// The minimum engine trace level.
pub const MQTTASYNC_TRACE_MINIMUM: u32 = 3;

/// The engine trace level for protocol events.
pub const MQTTASYNC_TRACE_PROTOCOL: u32 = 4;

/// The engine trace level for errors.
pub const MQTTASYNC_TRACE_ERROR: u32 = 5;

/// The engine trace level for severe errors.
pub const MQTTASYNC_TRACE_SEVERE: u32 = 6;

/// The engine trace level for fatal errors.
pub const MQTTASYNC_TRACE_FATAL: u32 = 7;

/// The levels of the Rust log facility, from the least to the most
/// verbose.
#[derive(Debug, Clone, Copy, PartialEq, Eq, Structural)]
pub enum LogLevel {
    /// Very serious errors.
    Error,
    /// Hazardous situations.
    Warn,
    /// Useful information.
    Info,
    /// Lower priority information.
    Debug,
    /// Very low priority, often extremely verbose, information.
    Trace,
}

/// The number of a log level in the log facility, from 1 (error) to 5
/// (trace); a filter of that number or more lets the level through.
pub open spec fn log_level_number(level: LogLevel) -> usize {
    match level {
        LogLevel::Error => 1,
        LogLevel::Warn => 2,
        LogLevel::Info => 3,
        LogLevel::Debug => 4,
        LogLevel::Trace => 5,
    }
}

/// The log level for an engine trace level.
pub open spec fn log_of_c_trace(level: u32) -> LogLevel {
    if level == MQTTASYNC_TRACE_FATAL || level == MQTTASYNC_TRACE_SEVERE {
        LogLevel::Error
    } else if level == MQTTASYNC_TRACE_ERROR {
        LogLevel::Warn
    } else if level == MQTTASYNC_TRACE_PROTOCOL {
        LogLevel::Info
    } else if level == MQTTASYNC_TRACE_MINIMUM || level == MQTTASYNC_TRACE_MEDIUM {
        LogLevel::Debug
    } else {
        LogLevel::Trace
    }
}

/// The most verbose engine trace level for a log level.
pub open spec fn c_trace_of_log(level: LogLevel) -> u32 {
    match level {
        LogLevel::Error => MQTTASYNC_TRACE_SEVERE,
        LogLevel::Warn => MQTTASYNC_TRACE_ERROR,
        LogLevel::Info => MQTTASYNC_TRACE_PROTOCOL,
        LogLevel::Debug => MQTTASYNC_TRACE_MEDIUM,
        LogLevel::Trace => MQTTASYNC_TRACE_MAXIMUM,
    }
}

impl LogLevel {
    /// Gets the number of the level in the log facility.
    pub fn value(self) -> (r: usize)
        ensures
            r == log_level_number(self),
    {
        match self {
            LogLevel::Error => 1,
            LogLevel::Warn => 2,
            LogLevel::Info => 3,
            LogLevel::Debug => 4,
            LogLevel::Trace => 5,
        }
    }
}

/// Converts an engine trace level into a Rust log level.
pub fn log_from_c_trace_level(level: u32) -> (r: LogLevel)
    ensures
        r == log_of_c_trace(level),
{
    if level == MQTTASYNC_TRACE_FATAL || level == MQTTASYNC_TRACE_SEVERE {
        LogLevel::Error
    } else if level == MQTTASYNC_TRACE_ERROR {
        LogLevel::Warn
    } else if level == MQTTASYNC_TRACE_PROTOCOL {
        LogLevel::Info
    } else if level == MQTTASYNC_TRACE_MINIMUM || level == MQTTASYNC_TRACE_MEDIUM {
        LogLevel::Debug
    } else {
        LogLevel::Trace
    }
}

/// Converts a Rust log level into an engine trace level.
/// This gives the most verbose engine trace level for the log level.
pub fn log_into_c_trace_level(level: LogLevel) -> (r: u32)
    ensures
        r == c_trace_of_log(level),
{
    match level {
        LogLevel::Error => MQTTASYNC_TRACE_SEVERE,
        LogLevel::Warn => MQTTASYNC_TRACE_ERROR,
        LogLevel::Info => MQTTASYNC_TRACE_PROTOCOL,
        LogLevel::Debug => MQTTASYNC_TRACE_MEDIUM,
        LogLevel::Trace => MQTTASYNC_TRACE_MAXIMUM,
    }
}

/// Reads `log::STATIC_MAX_LEVEL`, the level filter fixed when the log crate
/// was built, as its number (0 for off to 5 for trace). It depends on the
/// build, so nothing ties it to a value here.
#[verifier::external_body]
fn static_max_level() -> (r: usize)
    ensures
        r <= 5,
{
    log::STATIC_MAX_LEVEL as usize
}

/// Calls `log::max_level`, the level filter set at run time, as its number
/// (0 for off to 5 for trace). It is global state, so nothing ties it to a
/// value here.
#[verifier::external_body]
fn max_level() -> (r: usize)
    ensures
        r <= 5,
{
    log::max_level() as usize
}

/// Asks the installed logger, through `log::logger().enabled`, whether it
/// takes records of the level for the engine's log target. What the logger
/// answers is up to the application.
#[verifier::external_body]
fn logger_enabled(level: LogLevel) -> (r: bool) {
    let lvl = match level {
        LogLevel::Error => log::Level::Error,
        LogLevel::Warn => log::Level::Warn,
        LogLevel::Info => log::Level::Info,
        LogLevel::Debug => log::Level::Debug,
        LogLevel::Trace => log::Level::Trace,
    };
    log::logger().enabled(&log::Metadata::builder().level(lvl).target(PAHO_C_LOG_TARGET).build())
}

/// Whether a log level is enabled, given the build's level filter, the run
/// time level filter (as numbers) and the logger's answer: the level must
/// pass both filters and the logger.
pub fn level_enabled_with(level: LogLevel, static_max: usize, max: usize, logger_on: bool) -> (r:
    bool)
    ensures
        r == (log_level_number(level) <= static_max && log_level_number(level) <= max
            && logger_on),
{
    let n = level.value();
    n <= static_max && n <= max && logger_on
}

/// Whether the log facility takes records of the level for the engine's
/// log target.
fn level_enabled(level: LogLevel) -> (r: bool) {
    let n = level.value();
    let static_max = static_max_level();
    if n > static_max {
        return false;
    }
    let max = max_level();
    if n > max {
        return false;
    }
    level_enabled_with(level, static_max, max, logger_enabled(level))
}

/// The trace level to set in the engine, given which log levels are
/// enabled: the one for the most verbose enabled level, from trace down to
/// error; none when no level is enabled.
pub open spec fn trace_level_for(trace: bool, debug: bool, info: bool, warn: bool, error: bool) -> Option<u32> {
    if trace {
        Some(c_trace_of_log(LogLevel::Trace))
    } else if debug {
        Some(c_trace_of_log(LogLevel::Debug))
    } else if info {
        Some(c_trace_of_log(LogLevel::Info))
    } else if warn {
        Some(c_trace_of_log(LogLevel::Warn))
    } else if error {
        Some(c_trace_of_log(LogLevel::Error))
    } else {
        None
    }
}

/// The trace level to set in the engine, given which log levels are
/// enabled: the one for the most verbose enabled level, from trace down to
/// error; none when no level is enabled.
pub fn c_trace_level_for(trace: bool, debug: bool, info: bool, warn: bool, error: bool) -> (r: Option<u32>)
    ensures
        r == trace_level_for(trace, debug, info, warn, error),
{
    if trace {
        Some(log_into_c_trace_level(LogLevel::Trace))
    } else if debug {
        Some(log_into_c_trace_level(LogLevel::Debug))
    } else if info {
        Some(log_into_c_trace_level(LogLevel::Info))
    } else if warn {
        Some(log_into_c_trace_level(LogLevel::Warn))
    } else if error {
        Some(log_into_c_trace_level(LogLevel::Error))
    } else {
        None
    }
}

/// Gets the trace level, if any, to set in the engine: the one for the most
/// verbose log level that is enabled for the engine's log target, checked
/// from trace down to error. Which levels are enabled is up to the log
/// facility's state; the result is the one `c_trace_level_for` gives for
/// them.
pub fn c_trace_level() -> (r: Option<u32>)
    ensures
        exists|trace: bool, debug: bool, info: bool, warn: bool, error: bool|
            r == trace_level_for(trace, debug, info, warn, error),
{
    let trace = level_enabled(LogLevel::Trace);
    let debug = level_enabled(LogLevel::Debug);
    let info = level_enabled(LogLevel::Info);
    let warn = level_enabled(LogLevel::Warn);
    let error = level_enabled(LogLevel::Error);
    c_trace_level_for(trace, debug, info, warn, error)
}

/// Going from a log level to the engine's trace level and back gives the
/// same log level.
pub proof fn lemma_log_level_roundtrip(level: LogLevel)
    ensures
        log_of_c_trace(c_trace_of_log(level)) == level,
{
}


/// Log levels go to the engine's trace levels as the C library numbers
/// them (maximum 1, medium 2, minimum 3, protocol 4, error 5, severe 6,
/// fatal 7), and trace levels come back to the log level of the same
/// severity.
pub proof fn lemma_trace_levels_follow_c_library(level: u32)
    ensures
        c_trace_of_log(LogLevel::Trace) == 1,
        c_trace_of_log(LogLevel::Debug) == 2,
        c_trace_of_log(LogLevel::Info) == 4,
        c_trace_of_log(LogLevel::Warn) == 5,
        c_trace_of_log(LogLevel::Error) == 6,
        (level == 6 || level == 7) ==> log_of_c_trace(level) == LogLevel::Error,
        level == 5 ==> log_of_c_trace(level) == LogLevel::Warn,
        level == 4 ==> log_of_c_trace(level) == LogLevel::Info,
        (level == 2 || level == 3) ==> log_of_c_trace(level) == LogLevel::Debug,
        (level < 2 || level > 7) ==> log_of_c_trace(level) == LogLevel::Trace,
{
}

} // verus!
