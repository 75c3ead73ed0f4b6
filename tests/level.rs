use commonlib::level::{get_env_var_level, LogLevel};

#[test]
fn from_str_reads_lower_case_names() {
    assert_eq!(LogLevel::from_str("error"), Some(LogLevel::Error));
    assert_eq!(LogLevel::from_str("warn"), Some(LogLevel::Warn));
    assert_eq!(LogLevel::from_str("info"), Some(LogLevel::Info));
    assert_eq!(LogLevel::from_str("debug"), Some(LogLevel::Debug));
    assert_eq!(LogLevel::from_str("trace"), Some(LogLevel::Trace));
    assert_eq!(LogLevel::from_str("off"), None);
    assert_eq!(LogLevel::from_str("INFO"), None);
    assert_eq!(LogLevel::from_str(""), None);
}

#[test]
fn to_log_str_is_five_wide() {
    assert_eq!(LogLevel::Error.to_log_str(), Some("ERROR"));
    assert_eq!(LogLevel::Warn.to_log_str(), Some("WARN "));
    assert_eq!(LogLevel::Info.to_log_str(), Some("INFO "));
    assert_eq!(LogLevel::Debug.to_log_str(), Some("DEBUG"));
    assert_eq!(LogLevel::Trace.to_log_str(), Some("TRACE"));
    assert_eq!(LogLevel::Off.to_log_str(), None);
}

#[test]
fn to_str_gives_names() {
    assert_eq!(LogLevel::Warn.to_str(), Some("warn"));
    assert_eq!(LogLevel::Off.to_str(), None);
}

#[test]
fn rank_orders_levels() {
    assert_eq!(LogLevel::Off.rank(), 0);
    assert_eq!(LogLevel::Error.rank(), 1);
    assert_eq!(LogLevel::Trace.rank(), 5);
    assert!(LogLevel::Error < LogLevel::Trace);
}

#[test]
fn env_level_ignores_case() {
    assert_eq!(get_env_var_level("WARN"), Some(LogLevel::Warn));
    assert_eq!(get_env_var_level("Debug"), Some(LogLevel::Debug));
    assert_eq!(get_env_var_level("verbose"), None);
}

#[test]
fn tracing_levels_convert() {
    assert_eq!(LogLevel::from_tracing_level(&tracing::Level::ERROR), LogLevel::Error);
    assert_eq!(LogLevel::from_tracing_level(&tracing::Level::WARN), LogLevel::Warn);
    assert_eq!(LogLevel::from_tracing_level(&tracing::Level::INFO), LogLevel::Info);
    assert_eq!(LogLevel::from_tracing_level(&tracing::Level::DEBUG), LogLevel::Debug);
    assert_eq!(LogLevel::from_tracing_level(&tracing::Level::TRACE), LogLevel::Trace);
}

#[test]
fn from_label_reads_upper_case_names() {
    assert_eq!(LogLevel::from_label("WARN"), Some(LogLevel::Warn));
    assert_eq!(LogLevel::from_label("warn"), None);
}
