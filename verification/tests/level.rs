use tauri_log_plugin::LogLevel;

#[test]
fn level_codes_run_from_one_to_five() {
    assert_eq!(LogLevel::Trace.code(), 1);
    assert_eq!(LogLevel::Debug.code(), 2);
    assert_eq!(LogLevel::Info.code(), 3);
    assert_eq!(LogLevel::Warn.code(), 4);
    assert_eq!(LogLevel::Error.code(), 5);
}

#[test]
fn level_from_code_maps_one_to_five() {
    assert_eq!(LogLevel::from_code(1), Some(LogLevel::Trace));
    assert_eq!(LogLevel::from_code(2), Some(LogLevel::Debug));
    assert_eq!(LogLevel::from_code(3), Some(LogLevel::Info));
    assert_eq!(LogLevel::from_code(4), Some(LogLevel::Warn));
    assert_eq!(LogLevel::from_code(5), Some(LogLevel::Error));
}

#[test]
fn level_from_code_refuses_the_rest() {
    assert_eq!(LogLevel::from_code(0), None);
    assert_eq!(LogLevel::from_code(6), None);
    assert_eq!(LogLevel::from_code(9), None);
    assert_eq!(LogLevel::from_code(65537), None);
    assert_eq!(LogLevel::from_code(u64::MAX), None);
}

#[test]
fn level_code_round_trip() {
    let levels = vec![
        LogLevel::Trace,
        LogLevel::Debug,
        LogLevel::Info,
        LogLevel::Warn,
        LogLevel::Error,
    ];
    for level in levels {
        assert_eq!(LogLevel::from_code(u64::from(level.code())), Some(level));
    }
}

#[test]
fn level_names_are_upper_case() {
    assert_eq!(LogLevel::Trace.name(), "TRACE");
    assert_eq!(LogLevel::Debug.name(), "DEBUG");
    assert_eq!(LogLevel::Info.name(), "INFO");
    assert_eq!(LogLevel::Warn.name(), "WARN");
    assert_eq!(LogLevel::Error.name(), "ERROR");
}
