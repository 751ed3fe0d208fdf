//! Log levels, log records and the logger's routing rule.
//!
//! The logger is an explicit context value rather than process-wide state: it
//! holds the threshold level and decides, for each record, whether it is
//! printed and whether it is handed to the registered handler.

use vstd::prelude::*;

verus! {

/// The severity of a log record, and the threshold of a logger.
#[derive(Clone, Copy, Debug, PartialEq, Eq, Structural)]
pub enum CLogLevel {
    Debug,
    Info,
    Warning,
    Error,
    /// As a threshold, turns logging off.
    Off,
}

pub open spec fn level_rank(l: CLogLevel) -> u8 {
    match l {
        CLogLevel::Debug => 0,
        CLogLevel::Info => 1,
        CLogLevel::Warning => 2,
        CLogLevel::Error => 3,
        CLogLevel::Off => 4,
    }
}

pub open spec fn level_text(l: CLogLevel) -> Seq<char> {
    match l {
        CLogLevel::Debug => "DEBUG"@,
        CLogLevel::Info => "INFO"@,
        CLogLevel::Warning => "WARNING"@,
        CLogLevel::Error => "ERROR"@,
        CLogLevel::Off => "OFF"@,
    }
}

impl CLogLevel {
    /// The level's name in capitals.
    pub fn as_string(&self) -> (r: String)
        ensures
            r@ == level_text(*self),
    {
        match self {
            CLogLevel::Debug => String::from_str("DEBUG"),
            CLogLevel::Info => String::from_str("INFO"),
            CLogLevel::Warning => String::from_str("WARNING"),
            CLogLevel::Error => String::from_str("ERROR"),
            CLogLevel::Off => String::from_str("OFF"),
        }
    }

    /// The level's rank, from 0 for `Debug` to 4 for `Off`.
    pub fn as_int(&self) -> (r: u8)
        ensures
            r == level_rank(*self),
    {
        match self {
            CLogLevel::Debug => 0,
            CLogLevel::Info => 1,
            CLogLevel::Warning => 2,
            CLogLevel::Error => 3,
            CLogLevel::Off => 4,
        }
    }
}

/// The text that a time stamp, in milliseconds since the Unix epoch in UTC,
/// shows in a log line.
pub uninterp spec fn log_time_text(ms: int, pattern: Seq<char>) -> Option<Seq<char>>;

/// Relies on chrono's `DateTime::from_timestamp_millis`, `StrftimeItems`
/// and `format_with_items`: the text of the time stamp, in UTC, laid out by
/// `pattern`; none where the time is out of range or the pattern is not a
/// valid strftime pattern. It depends on its arguments alone.
#[verifier::external_body]
fn format_time_stamp(ms: i64, pattern: &str) -> (r: Option<String>)
    ensures
        match r {
            Some(s) => log_time_text(ms as int, pattern@) == Some(s@),
            None => log_time_text(ms as int, pattern@) is None,
        },
{
    let t = chrono::DateTime::from_timestamp_millis(ms)?;
    let items = chrono::format::StrftimeItems::new(pattern).parse().ok()?;
    Some(t.format_with_items(items.iter()).to_string())
}

/// How a log line lays out its time stamp: year, abbreviated month, day,
/// then the time of day to the millisecond.
pub open spec fn log_time_pattern() -> Seq<char> {
    "%Y-%b-%d %H:%M:%S.%3f"@
}

/// The time stamp as a log line shows it; no text where it cannot be shown.
pub open spec fn time_stamp_text(ms: i64) -> Seq<char> {
    match log_time_text(ms as int, log_time_pattern()) {
        Some(t) => t,
        None => seq![],
    }
}

/// One logged event.
pub struct CLogRecord {
    time_stamp: i64,
    log_level: CLogLevel,
    data: String,
}

/// A record's log line: time stamp, level in brackets, then the data.
pub open spec fn record_line(time_stamp: i64, level: CLogLevel, data: Seq<char>) -> Seq<char> {
    time_stamp_text(time_stamp) + " ["@ + level_text(level) + "]: "@ + data
}

impl CLogRecord {
    /// A record of `data` at `log_level`, stamped `time_stamp` milliseconds
    /// after the Unix epoch.
    pub fn new(time_stamp: i64, log_level: CLogLevel, data: &str) -> (r: Self)
        ensures
            r.time_stamp_view() == time_stamp,
            r.log_level_view() == log_level,
            r.data_view() == data@,
    {
        CLogRecord { time_stamp, log_level, data: String::from_str(data) }
    }

    pub closed spec fn time_stamp_view(&self) -> i64 {
        self.time_stamp
    }

    pub closed spec fn log_level_view(&self) -> CLogLevel {
        self.log_level
    }

    pub closed spec fn data_view(&self) -> Seq<char> {
        self.data@
    }

    pub fn get_time_stamp(&self) -> (r: i64)
        ensures
            r == self.time_stamp_view(),
    {
        self.time_stamp
    }

    pub fn get_log_level(&self) -> (r: CLogLevel)
        ensures
            r == self.log_level_view(),
    {
        self.log_level
    }

    pub fn get_data(&self) -> (r: &str)
        ensures
            r@ == self.data_view(),
    {
        self.data.as_str()
    }

    /// The record's log line.
    pub fn as_string(&self) -> (r: String)
        ensures
            r@ == record_line(self.time_stamp_view(), self.log_level_view(), self.data_view()),
    {
        let mut line = match format_time_stamp(self.time_stamp, "%Y-%b-%d %H:%M:%S.%3f") {
            Some(t) => t,
            None => String::new(),
        };
        line.append(" [");
        let level = self.log_level.as_string();
        line.append(level.as_str());
        line.append("]: ");
        line.append(self.data.as_str());
        line
    }
}

/// Where a logged record goes.
#[derive(Clone, Copy, Debug, PartialEq, Eq, Structural)]
pub struct CLogRoute {
    /// Print the record's line to standard output.
    pub print: bool,
    /// Hand the record to the registered handler, if there is one.
    pub notify: bool,
}

/// The logger's settings.
pub struct CLogger {
    level: CLogLevel,
}

impl CLogger {
    pub closed spec fn level_view(&self) -> CLogLevel {
        self.level
    }

    /// A logger whose threshold is `Warning`.
    pub fn new() -> (r: Self)
        ensures
            r.level_view() == CLogLevel::Warning,
    {
        CLogger { level: CLogLevel::Warning }
    }
}

pub fn logger_get_log_level(logger: &CLogger) -> (r: CLogLevel)
    ensures
        r == logger.level_view(),
{
    logger.level
}

pub fn logger_set_log_level(logger: &mut CLogger, log_level: CLogLevel)
    ensures
        final(logger).level_view() == log_level,
{
    logger.level = log_level;
}

/// Routes a record of `level`: nothing goes anywhere while the logger is
/// off; otherwise the record is printed when its level reaches the threshold,
/// and is handed to the handler whatever its level.
pub fn logger_log(logger: &CLogger, level: CLogLevel) -> (r: CLogRoute)
    ensures
        r.notify == (logger.level_view() != CLogLevel::Off),
        r.print == (logger.level_view() != CLogLevel::Off && level_rank(level) >= level_rank(
            logger.level_view(),
        )),
{
    if logger.level == CLogLevel::Off {
        CLogRoute { print: false, notify: false }
    } else {
        CLogRoute { print: level.as_int() >= logger.level.as_int(), notify: true }
    }
}

} // verus!
