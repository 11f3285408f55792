use world_monitor::logger::{decimal_string, format_log_line, Level, Log};

#[test]
fn decimal_renders_zero() {
    assert_eq!(decimal_string(0).as_str(), "0");
}

#[test]
fn decimal_renders_single_digits() {
    assert_eq!(decimal_string(7).as_str(), "7");
    assert_eq!(decimal_string(9).as_str(), "9");
}

#[test]
fn decimal_renders_multi_digits() {
    assert_eq!(decimal_string(10).as_str(), "10");
    assert_eq!(decimal_string(46123).as_str(), "46123");
    assert_eq!(decimal_string(1700000000).as_str(), "1700000000");
}

#[test]
fn decimal_renders_largest() {
    assert_eq!(decimal_string(u64::MAX).as_str(), "18446744073709551615");
}

#[test]
fn log_line_info_format() {
    let line = format_log_line(1700000000, Level::Info, "sidecar started pid=42");
    assert_eq!(line.as_str(), "[1700000000][INFO] sidecar started pid=42");
}

#[test]
fn log_line_error_format() {
    let line = format_log_line(0, Level::Error, "settings menu failed: boom");
    assert_eq!(line.as_str(), "[0][ERROR] settings menu failed: boom");
}

#[test]
fn log_line_empty_message() {
    let line = format_log_line(5, Level::Info, "");
    assert_eq!(line.as_str(), "[5][INFO] ");
}

#[test]
fn log_appends_rather_than_overwrites() {
    let mut log = Log::new();
    assert_eq!(log.len(), 0);
    log.append(1, Level::Info, "first");
    log.append(2, Level::Error, "second");
    log.append(3, Level::Info, "third");
    assert_eq!(log.len(), 3);
    assert_eq!(log.line_at(0).as_str(), "[1][INFO] first");
    assert_eq!(log.line_at(1).as_str(), "[2][ERROR] second");
    assert_eq!(log.line_at(2).as_str(), "[3][INFO] third");
}

#[test]
fn log_lines_match_expected_shape() {
    let mut log = Log::new();
    log.append(1234, Level::Info, "message body");
    let line = log.line_at(0);
    let rest = line.strip_prefix('[').expect("leading bracket");
    let (digits, rest) = rest.split_once("][").expect("digit run then ][");
    assert!(!digits.is_empty() && digits.chars().all(|c| c.is_ascii_digit()));
    let (tag, message) = rest.split_once("] ").expect("tag then space");
    assert!(!tag.is_empty() && tag.chars().all(|c| c.is_ascii_uppercase()));
    assert_eq!(message, "message body");
}
