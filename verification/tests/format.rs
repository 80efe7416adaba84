use tauri_log_plugin::{format_line, LogLevel};

#[test]
fn line_has_stamp_target_level_and_message() {
    assert_eq!(
        format_line("[2024-01-05][13:04:09]", "app::window", LogLevel::Info, "hi"),
        "[2024-01-05][13:04:09][app::window][INFO] hi"
    );
}

#[test]
fn line_shows_each_level_by_name() {
    let stamp = "[2020-07-01][00:00:00]";
    assert_eq!(format_line(stamp, "t", LogLevel::Trace, "m"), "[2020-07-01][00:00:00][t][TRACE] m");
    assert_eq!(format_line(stamp, "t", LogLevel::Debug, "m"), "[2020-07-01][00:00:00][t][DEBUG] m");
    assert_eq!(format_line(stamp, "t", LogLevel::Warn, "m"), "[2020-07-01][00:00:00][t][WARN] m");
    assert_eq!(format_line(stamp, "t", LogLevel::Error, "m"), "[2020-07-01][00:00:00][t][ERROR] m");
}

#[test]
fn line_keeps_the_message_as_it_is() {
    assert_eq!(format_line("", "", LogLevel::Info, ""), "[][INFO] ");
    assert_eq!(
        format_line("[s]", "t", LogLevel::Info, "  two\nlines [x] \u{e9} "),
        "[s][t][INFO]   two\nlines [x] \u{e9} "
    );
}
