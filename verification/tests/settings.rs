use lamplighter::settings::{ConfigError, Settings};

#[test]
fn parse_two_line_content() {
    let s = Settings::parse("someuser\n192.168.1.10").unwrap();
    assert_eq!(s.username(), "someuser");
    assert_eq!(s.bridge_ip(), "192.168.1.10");
}

#[test]
fn round_trip_two_line_file() {
    let content = "credential-string\n10.0.0.7";
    let s = Settings::parse(content).unwrap();
    assert_eq!(s.serialize(), content);
}

#[test]
fn round_trip_session_through_serialize_and_parse() {
    let s = Settings::new("alpha".to_string(), "192.168.0.2".to_string());
    let reloaded = Settings::parse(&s.serialize()).unwrap();
    assert_eq!(reloaded.username(), "alpha");
    assert_eq!(reloaded.bridge_ip(), "192.168.0.2");
}

#[test]
fn zero_line_file_fails() {
    assert!(matches!(Settings::parse(""), Err(ConfigError::InvalidFormat)));
}

#[test]
fn one_line_file_fails() {
    assert!(matches!(Settings::parse("onlyuser"), Err(ConfigError::InvalidFormat)));
    assert!(matches!(Settings::parse("onlyuser\n"), Err(ConfigError::InvalidFormat)));
}

#[test]
fn extra_lines_are_ignored() {
    let s = Settings::parse("user\nip\nextra\nmore").unwrap();
    assert_eq!(s.username(), "user");
    assert_eq!(s.bridge_ip(), "ip");
}

#[test]
fn trailing_newline_is_accepted() {
    let s = Settings::parse("user\n10.1.1.1\n").unwrap();
    assert_eq!(s.username(), "user");
    assert_eq!(s.bridge_ip(), "10.1.1.1");
}

#[test]
fn carriage_returns_are_stripped() {
    let s = Settings::parse("user\r\n10.1.1.1\r\n").unwrap();
    assert_eq!(s.username(), "user");
    assert_eq!(s.bridge_ip(), "10.1.1.1");
}

#[test]
fn empty_second_line_is_two_lines() {
    let s = Settings::parse("user\n\n").unwrap();
    assert_eq!(s.username(), "user");
    assert_eq!(s.bridge_ip(), "");
}

#[test]
fn new_and_getters() {
    let s = Settings::new("u".to_string(), "ip".to_string());
    assert_eq!(s.username(), "u");
    assert_eq!(s.bridge_ip(), "ip");
    assert_eq!(s.serialize(), "u\nip");
}
