use keytype::args::{parse_arg, parse_duration, parse_u64};
use keytype::config::DelayConfig;

fn strings(items: &[&str]) -> Vec<String> {
    let mut v: Vec<String> = Vec::new();
    for s in items {
        v.push(s.to_string());
    }
    v
}

#[test]
fn parse_arg_returns_value_of_first_match() {
    let args = strings(&["prog", "--input-delay=200", "--input-delay=300"]);
    assert_eq!(parse_arg(&args, "--input-delay="), Some("200"));
}

#[test]
fn parse_arg_ignores_other_arguments() {
    let args = strings(&["prog", "--verbose", "--character-delay=10"]);
    assert_eq!(parse_arg(&args, "--character-delay="), Some("10"));
    assert_eq!(parse_arg(&args, "--input-delay="), None);
}

#[test]
fn parse_arg_empty_value() {
    let args = strings(&["--input-delay="]);
    assert_eq!(parse_arg(&args, "--input-delay="), Some(""));
}

#[test]
fn parse_u64_plain_digits() {
    assert_eq!(parse_u64("0"), Some(0));
    assert_eq!(parse_u64("42"), Some(42));
    assert_eq!(parse_u64("1000"), Some(1000));
}

#[test]
fn parse_u64_accepts_leading_plus() {
    assert_eq!(parse_u64("+7"), Some(7));
    assert_eq!(parse_u64("+"), None);
}

#[test]
fn parse_u64_rejects_malformed() {
    assert_eq!(parse_u64(""), None);
    assert_eq!(parse_u64("12a"), None);
    assert_eq!(parse_u64("-5"), None);
    assert_eq!(parse_u64(" 5"), None);
}

#[test]
fn parse_u64_limit() {
    assert_eq!(parse_u64("18446744073709551615"), Some(u64::MAX));
    assert_eq!(parse_u64("18446744073709551616"), None);
}

#[test]
fn parse_duration_reads_milliseconds() {
    let args = strings(&["prog", "--input-delay=200"]);
    assert_eq!(parse_duration(&args, "--input-delay="), Some(200));
    assert_eq!(parse_duration(&args, "--character-delay="), None);
}

#[test]
fn parse_duration_malformed_value_is_none() {
    let args = strings(&["prog", "--input-delay=soon"]);
    assert_eq!(parse_duration(&args, "--input-delay="), None);
}

#[test]
fn config_defaults_when_no_overrides() {
    let args = strings(&["prog"]);
    let config = DelayConfig::from_args(&args);
    assert_eq!(config.input_delay_ms, 1000);
    assert_eq!(config.character_delay_ms, 50);
}

#[test]
fn config_takes_overrides() {
    let args = strings(&["prog", "--input-delay=200", "--character-delay=10"]);
    let config = DelayConfig::from_args(&args);
    assert_eq!(config.input_delay_ms, 200);
    assert_eq!(config.character_delay_ms, 10);
}

#[test]
fn config_ignores_malformed_override() {
    let args = strings(&["prog", "--input-delay=abc", "--character-delay=10"]);
    let config = DelayConfig::from_args(&args);
    assert_eq!(config.input_delay_ms, 1000);
    assert_eq!(config.character_delay_ms, 10);
}

#[test]
fn config_overrides_independent() {
    let args = strings(&["prog", "--character-delay=0"]);
    let config = DelayConfig::from_args(&args);
    assert_eq!(config.input_delay_ms, 1000);
    assert_eq!(config.character_delay_ms, 0);
}
