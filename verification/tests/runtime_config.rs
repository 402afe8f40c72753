use vibeguard_runtime::runtime_config::{
    json_check_outcome, validate_runtime_config_file, ConfigRead, RuntimeConfigError,
};

#[test]
fn constructors_set_the_exit_codes() {
    let parse = RuntimeConfigError::config_parse_error("m".to_string());
    assert_eq!(parse, RuntimeConfigError { message: "m".to_string(), exit_code: 30 });
    let policy = RuntimeConfigError::policy_error("p".to_string());
    assert_eq!(policy, RuntimeConfigError { message: "p".to_string(), exit_code: 20 });
}

#[test]
fn empty_path_is_not_checked() {
    let r = validate_runtime_config_file("", ConfigRead::Contents("{".to_string()));
    assert_eq!(r, Ok(()));
    let r = validate_runtime_config_file("", ConfigRead::Unreadable("denied".to_string()));
    assert_eq!(r, Ok(()));
}

#[test]
fn missing_file_is_no_error() {
    assert_eq!(validate_runtime_config_file("/no/such/file.json", ConfigRead::NotAFile), Ok(()));
}

#[test]
fn valid_json_passes() {
    let r = validate_runtime_config_file(
        "cfg.json",
        ConfigRead::Contents(r#"{"write_mode": "strict", "n": [1, 2.5, null]}"#.to_string()),
    );
    assert_eq!(r, Ok(()));
    assert_eq!(validate_runtime_config_file("cfg.json", ConfigRead::Contents(" 3 ".to_string())), Ok(()));
}

#[test]
fn invalid_json_is_a_parse_error() {
    let r = validate_runtime_config_file(
        "bad-config.json",
        ConfigRead::Contents(r#"{"write_mode":"#.to_string()),
    );
    let err = r.unwrap_err();
    assert_eq!(err.exit_code, 30);
    assert!(err.message.starts_with("VibeGuard runtime config invalid JSON: bad-config.json: "));
    assert!(err.message.contains("EOF while parsing"));
}

#[test]
fn trailing_text_is_invalid_json() {
    let err = validate_runtime_config_file("c.json", ConfigRead::Contents("{} x".to_string())).unwrap_err();
    assert_eq!(err.exit_code, 30);
    assert!(err.message.contains("trailing characters"));
    let err = validate_runtime_config_file("c.json", ConfigRead::Contents(String::new())).unwrap_err();
    assert_eq!(err.exit_code, 30);
}

#[test]
fn invalid_utf8_is_a_parse_error() {
    let r = validate_runtime_config_file(
        "/tmp/u.json",
        ConfigRead::InvalidUtf8("stream did not contain valid UTF-8".to_string()),
    );
    assert_eq!(
        r,
        Err(RuntimeConfigError {
            message: "VibeGuard runtime config invalid UTF-8: /tmp/u.json: stream did not contain valid UTF-8"
                .to_string(),
            exit_code: 30,
        })
    );
}

#[test]
fn unreadable_file_is_a_policy_error() {
    let r = validate_runtime_config_file(
        "/tmp/d.json",
        ConfigRead::Unreadable("Permission denied (os error 13)".to_string()),
    );
    assert_eq!(
        r,
        Err(RuntimeConfigError {
            message: "VibeGuard runtime config cannot be read: /tmp/d.json: Permission denied (os error 13)"
                .to_string(),
            exit_code: 20,
        })
    );
}

#[test]
fn json_outcome_formats_the_error() {
    assert_eq!(json_check_outcome("p", None), Ok(()));
    assert_eq!(
        json_check_outcome("p", Some("EOF while parsing a value at line 1 column 14".to_string())),
        Err(RuntimeConfigError {
            message: "VibeGuard runtime config invalid JSON: p: EOF while parsing a value at line 1 column 14"
                .to_string(),
            exit_code: 30,
        })
    );
}
