use kmobile::errors::KMobileError;
use kmobile::utils::{
    common_tool_paths, format_duration, generate_device_id, parse_coordinates, resolve_tool_path,
    sanitize_filename, tool_availability, truncate_string, validate_app_path,
};

#[test]
fn test_parse_coordinates() {
    assert_eq!(parse_coordinates("100,200").unwrap(), (100, 200));
    assert_eq!(parse_coordinates("0,0").unwrap(), (0, 0));
    assert!(parse_coordinates("invalid").is_err());
    assert!(parse_coordinates("100").is_err());
}

#[test]
fn test_format_duration() {
    assert_eq!(format_duration(30), "30s");
    assert_eq!(format_duration(90), "1m 30s");
    assert_eq!(format_duration(3661), "1h 1m 1s");
}

#[test]
fn test_sanitize_filename() {
    assert_eq!(sanitize_filename("test:file<name>"), "test_file_name_");
    assert_eq!(sanitize_filename("normal_name.txt"), "normal_name.txt");
}

#[test]
fn test_truncate_string() {
    assert_eq!(truncate_string("short", 10), "short");
    assert_eq!(truncate_string("very long string", 10), "very lo...");
}

#[test]
fn parse_coordinates_trims_and_signs() {
    assert_eq!(parse_coordinates(" 12 , -7 ").unwrap(), (12, -7));
    assert_eq!(parse_coordinates("+3,4").unwrap(), (3, 4));
    assert_eq!(parse_coordinates("-2147483648,2147483647").unwrap(), (i32::MIN, i32::MAX));
    assert!(parse_coordinates("2147483648,0").is_err());
    assert!(parse_coordinates("1,2,3").is_err());
    assert!(parse_coordinates("").is_err());
}

#[test]
fn parse_coordinates_error_messages() {
    match parse_coordinates("oops") {
        Err(KMobileError::InvalidInput(m)) => {
            assert_eq!(m, "Invalid coordinate format. Expected 'x,y'")
        }
        other => panic!("unexpected: {:?}", other),
    }
    match parse_coordinates("x,2") {
        Err(KMobileError::InvalidInput(m)) => assert_eq!(m, "Invalid x coordinate"),
        other => panic!("unexpected: {:?}", other),
    }
    match parse_coordinates("1,y") {
        Err(KMobileError::InvalidInput(m)) => assert_eq!(m, "Invalid y coordinate"),
        other => panic!("unexpected: {:?}", other),
    }
}

#[test]
fn format_duration_edges() {
    assert_eq!(format_duration(0), "0s");
    assert_eq!(format_duration(60), "1m 0s");
    assert_eq!(format_duration(3600), "1h 0m 0s");
    assert_eq!(format_duration(7325), "2h 2m 5s");
}

#[test]
fn truncate_string_edges() {
    assert_eq!(truncate_string("abcdef", 6), "abcdef");
    assert_eq!(truncate_string("abcdefg", 6), "abc...");
    assert_eq!(truncate_string("abcdefg", 2), "...");
}

#[test]
fn generate_device_id_shape() {
    let id = generate_device_id();
    assert!(id.starts_with("kmobile-"));
    let digits = &id["kmobile-".len()..];
    assert!(!digits.is_empty());
    assert!(digits.chars().all(|c| c.is_ascii_digit()));
}

#[test]
fn validate_app_path_accepts_bundles() {
    assert!(validate_app_path("/tmp/demo.apk").is_ok());
    assert!(validate_app_path("demo.AAB").is_ok());
    assert!(validate_app_path("a/b/c/demo.ipa").is_ok());
    assert!(validate_app_path("Payload.app").is_ok());
}

#[test]
fn validate_app_path_rejects_others() {
    match validate_app_path("/tmp/demo.zip") {
        Err(KMobileError::InvalidInput(m)) => {
            assert_eq!(m, "Invalid app file extension: zip")
        }
        other => panic!("unexpected: {:?}", other),
    }
    match validate_app_path("/tmp/noext") {
        Err(KMobileError::InvalidInput(m)) => assert_eq!(m, "App file has no extension"),
        other => panic!("unexpected: {:?}", other),
    }
    assert!(validate_app_path("/tmp/.hidden").is_err());
}

#[test]
fn error_codes_and_recoverability() {
    assert_eq!(KMobileError::ConfigError(String::new()).error_code(), "CONFIG_ERROR");
    assert_eq!(KMobileError::TimeoutError(String::new()).error_code(), "TIMEOUT_ERROR");
    assert_eq!(KMobileError::Unknown(String::new()).error_code(), "UNKNOWN_ERROR");
    assert!(KMobileError::DeviceNotFound(String::new()).is_recoverable());
    assert!(KMobileError::NetworkError(String::new()).is_recoverable());
    assert!(!KMobileError::ConfigError(String::new()).is_recoverable());
    assert!(!KMobileError::InvalidInput(String::new()).is_recoverable());
}

#[test]
fn backoff_doubles_each_attempt() {
    let delays = kmobile::utils::backoff_delays(100, 4);
    assert_eq!(delays, vec![100, 200, 400, 800]);
    let clamped = kmobile::utils::backoff_delays(u64::MAX - 1, 3);
    assert_eq!(clamped, vec![u64::MAX - 1, u64::MAX, u64::MAX]);
    assert!(kmobile::utils::backoff_delays(7, 0).is_empty());
}

#[test]
fn tool_paths_resolve_by_the_documented_rule() {
    let fallbacks = common_tool_paths("adb");
    let mut exists = vec![false, false, false];

    // The lookup result wins when present.
    let r = resolve_tool_path("adb", Some("/custom/adb".to_string()), &fallbacks, &exists);
    assert_eq!(r.unwrap(), "/custom/adb");

    // Otherwise the first existing fallback.
    exists[1] = true;
    let r = resolve_tool_path("adb", None, &fallbacks, &exists);
    assert_eq!(r.unwrap(), "/opt/android-sdk/platform-tools/adb");

    // Otherwise the command error naming the tool.
    let none = vec![false, false, false];
    match resolve_tool_path("adb", None, &fallbacks, &none) {
        Err(KMobileError::CommandError(m)) => assert_eq!(m, "Tool adb not found"),
        other => panic!("unexpected: {:?}", other),
    }

    // The availability record: a version-probe failure reads as
    // unknown, never as an error.
    let info = tool_availability(
        "adb",
        Some("/custom/adb".to_string()),
        &fallbacks,
        &none,
        Some("Android Debug Bridge version 1.0.41"),
    )
    .unwrap();
    assert!(info.available);
    assert_eq!(info.path, "/custom/adb");
    assert_eq!(info.version, "1.0.41");
    let info = tool_availability("adb", Some("/custom/adb".to_string()), &fallbacks, &none, None)
        .unwrap();
    assert_eq!(info.version, "unknown");
    assert!(tool_availability("adb", None, &fallbacks, &none, None).is_err());
}
