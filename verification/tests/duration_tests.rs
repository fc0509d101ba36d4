use auth_core::duration::parse_duration;
use auth_core::errors::AuthError;

#[test]
fn parses_minutes() {
    assert_eq!(parse_duration("15m"), Ok(15 * 60));
}

#[test]
fn parses_hours() {
    assert_eq!(parse_duration("24h"), Ok(24 * 3600));
}

#[test]
fn parses_days() {
    assert_eq!(parse_duration("7d"), Ok(7 * 86400));
}

#[test]
fn rejects_empty_string() {
    assert_eq!(parse_duration(""), Err(AuthError::ConfigError));
}

#[test]
fn rejects_unknown_unit() {
    assert_eq!(parse_duration("10x"), Err(AuthError::ConfigError));
}

#[test]
fn rejects_negative_magnitude() {
    assert_eq!(parse_duration("-5m"), Err(AuthError::ConfigError));
}

#[test]
fn rejects_missing_magnitude() {
    assert_eq!(parse_duration("m"), Err(AuthError::ConfigError));
}

#[test]
fn rejects_missing_unit() {
    assert_eq!(parse_duration("15"), Err(AuthError::ConfigError));
}

#[test]
fn rejects_whitespace_only() {
    assert_eq!(parse_duration("   "), Err(AuthError::ConfigError));
}

#[test]
fn rejects_inner_whitespace() {
    assert_eq!(parse_duration("15 m"), Err(AuthError::ConfigError));
}

#[test]
fn accepts_surrounding_whitespace_and_upper_case() {
    assert_eq!(parse_duration("  15M  "), Ok(900));
    assert_eq!(parse_duration("\t2H\n"), Ok(7200));
    assert_eq!(parse_duration("1D"), Ok(86400));
}

#[test]
fn accepts_zero_magnitude() {
    assert_eq!(parse_duration("0m"), Ok(0));
}

#[test]
fn accepts_leading_zeros() {
    assert_eq!(parse_duration("007m"), Ok(420));
}

#[test]
fn rejects_overflowing_magnitude() {
    assert_eq!(
        parse_duration("99999999999999999999999m"),
        Err(AuthError::ConfigError)
    );
}

#[test]
fn rejects_seconds_overflow() {
    // 9223372036854775807 fits an i64, but not once scaled to seconds.
    assert_eq!(parse_duration("9223372036854775807d"), Err(AuthError::ConfigError));
}

#[test]
fn largest_representable_day_count() {
    let days: i64 = i64::MAX / 86400;
    let spec = format!("{}d", days);
    assert_eq!(parse_duration(&spec), Ok(days * 86400));
}
