use tauri_log_plugin::{decode_command, decode_document, DecodeFault, LogCmd, LogLevel};

fn fault_of(payload: &str) -> DecodeFault {
    match decode_command(payload) {
        Ok(command) => panic!("decoded {:?}", command),
        Err(error) => error.fault,
    }
}

#[test]
fn decode_info_hi() {
    let decoded = decode_command(r#"{"cmd":"tauriPluginLog","level":3,"message":"hi"}"#);
    assert_eq!(
        decoded,
        Ok(LogCmd::TauriPluginLog { level: LogLevel::Info, message: "hi".to_string() })
    );
}

#[test]
fn decode_level_nine_is_an_error() {
    let decoded = decode_command(r#"{"cmd":"tauriPluginLog","level":9,"message":"x"}"#);
    match decoded {
        Ok(command) => panic!("decoded {:?}", command),
        Err(error) => {
            assert_eq!(error.fault, DecodeFault::InvalidLevel);
            assert_eq!(error.detail, "invalid level, expected one of: 1, 2, 3, 4, 5");
        }
    }
}

#[test]
fn decode_every_level() {
    let expected = vec![
        (1, LogLevel::Trace),
        (2, LogLevel::Debug),
        (3, LogLevel::Info),
        (4, LogLevel::Warn),
        (5, LogLevel::Error),
    ];
    for (code, level) in expected {
        let payload = format!(r#"{{"cmd":"tauriPluginLog","level":{},"message":"m"}}"#, code);
        assert_eq!(
            decode_command(&payload),
            Ok(LogCmd::TauriPluginLog { level, message: "m".to_string() })
        );
    }
}

#[test]
fn decode_keeps_the_message_as_sent() {
    let decoded =
        decode_command(r#"{"message":"a \"b\" é\n","level":5,"cmd":"tauriPluginLog"}"#);
    assert_eq!(
        decoded,
        Ok(LogCmd::TauriPluginLog { level: LogLevel::Error, message: "a \"b\" \u{e9}\n".to_string() })
    );
}

#[test]
fn decode_ignores_other_members() {
    let decoded =
        decode_command(r#"{"cmd":"tauriPluginLog","level":2,"message":"m","callback":"c"}"#);
    assert_eq!(
        decoded,
        Ok(LogCmd::TauriPluginLog { level: LogLevel::Debug, message: "m".to_string() })
    );
}

#[test]
fn decode_refuses_what_is_not_json() {
    assert_eq!(fault_of(""), DecodeFault::Syntax);
    assert_eq!(fault_of("{"), DecodeFault::Syntax);
    assert_eq!(fault_of(r#"{"cmd":"tauriPluginLog","level":3,"message":"hi""#), DecodeFault::Syntax);
    let error = decode_command("nonsense").unwrap_err();
    assert_eq!(error.fault, DecodeFault::Syntax);
    assert_eq!(error.detail, "expected ident at line 1 column 2");
}

#[test]
fn decode_refuses_a_document_without_cmd() {
    assert_eq!(fault_of(r#"{"level":3,"message":"hi"}"#), DecodeFault::MissingCommand);
    assert_eq!(fault_of(r#"{"cmd":7,"level":3,"message":"hi"}"#), DecodeFault::MissingCommand);
    assert_eq!(fault_of(r#"["tauriPluginLog",3,"hi"]"#), DecodeFault::MissingCommand);
    assert_eq!(fault_of("3"), DecodeFault::MissingCommand);
    let error = decode_command("{}").unwrap_err();
    assert_eq!(error.detail, "missing field `cmd`");
}

#[test]
fn decode_refuses_another_command() {
    let error = decode_command(r#"{"cmd":"myCustomCommand","argument":"a"}"#).unwrap_err();
    assert_eq!(error.fault, DecodeFault::UnknownCommand);
    assert_eq!(error.detail, "unknown variant, expected `tauriPluginLog`");
    assert!(error.detail.contains("unknown variant"));
    assert_eq!(
        fault_of(r#"{"cmd":"TauriPluginLog","level":3,"message":"hi"}"#),
        DecodeFault::UnknownCommand
    );
}

#[test]
fn decode_refuses_a_level_out_of_range() {
    assert_eq!(fault_of(r#"{"cmd":"tauriPluginLog","level":0,"message":"x"}"#), DecodeFault::InvalidLevel);
    assert_eq!(fault_of(r#"{"cmd":"tauriPluginLog","level":6,"message":"x"}"#), DecodeFault::InvalidLevel);
    assert_eq!(fault_of(r#"{"cmd":"tauriPluginLog","level":-1,"message":"x"}"#), DecodeFault::InvalidLevel);
    assert_eq!(
        fault_of(r#"{"cmd":"tauriPluginLog","level":65539,"message":"x"}"#),
        DecodeFault::InvalidLevel
    );
}

#[test]
fn decode_refuses_a_level_that_is_no_integer() {
    assert_eq!(fault_of(r#"{"cmd":"tauriPluginLog","level":3.0,"message":"x"}"#), DecodeFault::InvalidLevel);
    assert_eq!(fault_of(r#"{"cmd":"tauriPluginLog","level":"3","message":"x"}"#), DecodeFault::InvalidLevel);
    assert_eq!(fault_of(r#"{"cmd":"tauriPluginLog","level":null,"message":"x"}"#), DecodeFault::InvalidLevel);
    assert_eq!(fault_of(r#"{"cmd":"tauriPluginLog","message":"x"}"#), DecodeFault::InvalidLevel);
}

#[test]
fn decode_refuses_a_missing_message() {
    let error = decode_command(r#"{"cmd":"tauriPluginLog","level":3}"#).unwrap_err();
    assert_eq!(error.fault, DecodeFault::MissingMessage);
    assert_eq!(error.detail, "missing field `message`");
    assert_eq!(fault_of(r#"{"cmd":"tauriPluginLog","level":3,"message":4}"#), DecodeFault::MissingMessage);
    assert_eq!(
        fault_of(r#"{"cmd":"tauriPluginLog","level":3,"message":["hi"]}"#),
        DecodeFault::MissingMessage
    );
}

#[test]
fn decode_looks_at_the_level_before_the_message() {
    assert_eq!(fault_of(r#"{"cmd":"tauriPluginLog","level":9}"#), DecodeFault::InvalidLevel);
    assert_eq!(fault_of(r#"{"cmd":"other","level":9}"#), DecodeFault::UnknownCommand);
}

#[test]
fn decode_document_reads_a_built_value() {
    let mut members = serde_json::Map::new();
    members.insert("cmd".to_string(), serde_json::Value::String("tauriPluginLog".to_string()));
    members.insert("level".to_string(), serde_json::Value::from(4u64));
    members.insert("message".to_string(), serde_json::Value::String("careful".to_string()));
    let document = serde_json::Value::Object(members);
    assert_eq!(
        decode_document(&document),
        Ok(LogCmd::TauriPluginLog { level: LogLevel::Warn, message: "careful".to_string() })
    );
    let empty = serde_json::Value::Null;
    assert_eq!(decode_document(&empty).unwrap_err().fault, DecodeFault::MissingCommand);
}

#[test]
fn decode_takes_the_last_of_two_equal_members() {
    let decoded = decode_command(r#"{"cmd":"tauriPluginLog","level":1,"level":2,"message":"m"}"#);
    assert_eq!(
        decoded,
        Ok(LogCmd::TauriPluginLog { level: LogLevel::Debug, message: "m".to_string() })
    );
}
