use codemelted::logger::{
    logger_get_log_level, logger_log, logger_set_log_level, CLogLevel, CLogRecord, CLogRoute,
    CLogger,
};

#[test]
fn log_level_names_and_ranks() {
    let all = [
        (CLogLevel::Debug, "DEBUG", 0),
        (CLogLevel::Info, "INFO", 1),
        (CLogLevel::Warning, "WARNING", 2),
        (CLogLevel::Error, "ERROR", 3),
        (CLogLevel::Off, "OFF", 4),
    ];
    for (level, name, rank) in all {
        assert_eq!(level.as_string(), name);
        assert_eq!(level.as_int(), rank);
    }
}

#[test]
fn logger_level_defaults_to_warning() {
    let mut logger = CLogger::new();
    assert_eq!(logger_get_log_level(&logger), CLogLevel::Warning);
    logger_set_log_level(&mut logger, CLogLevel::Debug);
    assert_eq!(logger_get_log_level(&logger), CLogLevel::Debug);
}

#[test]
fn logger_routes_by_threshold() {
    let mut logger = CLogger::new();
    assert_eq!(logger_log(&logger, CLogLevel::Info), CLogRoute { print: false, notify: true });
    assert_eq!(logger_log(&logger, CLogLevel::Warning), CLogRoute { print: true, notify: true });
    assert_eq!(logger_log(&logger, CLogLevel::Error), CLogRoute { print: true, notify: true });
    logger_set_log_level(&mut logger, CLogLevel::Off);
    assert_eq!(logger_log(&logger, CLogLevel::Error), CLogRoute { print: false, notify: false });
}

#[test]
fn log_record_line() {
    let r = CLogRecord::new(0, CLogLevel::Info, "started");
    assert_eq!(r.get_time_stamp(), 0);
    assert_eq!(r.get_log_level(), CLogLevel::Info);
    assert_eq!(r.get_data(), "started");
    assert_eq!(r.as_string(), "1970-Jan-01 00:00:00.000 [INFO]: started");
    let r = CLogRecord::new(1_700_000_000_123, CLogLevel::Error, "x");
    assert_eq!(r.as_string(), "2023-Nov-14 22:13:20.123 [ERROR]: x");
}
