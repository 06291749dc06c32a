use voicebot::text::{find_space, first_token, has_prefix, parse_u64, str_eq, u64_to_string};

#[test]
fn str_eq_matches_exact_strings() {
    assert!(str_eq("pause", "pause"));
    assert!(!str_eq("pause", "Pause"));
    assert!(!str_eq("pause", "paus"));
    assert!(str_eq("", ""));
}

#[test]
fn has_prefix_checks_the_leading_characters() {
    assert!(has_prefix("http://x", "http"));
    assert!(has_prefix("!ping", "!"));
    assert!(!has_prefix("nothello", "http"));
    assert!(!has_prefix("ht", "http"));
}

#[test]
fn find_space_gives_first_space_or_length() {
    assert_eq!(find_space("play url"), 4);
    assert_eq!(find_space("  x"), 0);
    assert_eq!(find_space("ping"), 4);
    assert_eq!(find_space(""), 0);
}

#[test]
fn first_token_skips_leading_spaces() {
    assert_eq!(first_token("  hello world"), Some("hello".to_owned()));
    assert_eq!(first_token("one"), Some("one".to_owned()));
    assert_eq!(first_token("   "), None);
    assert_eq!(first_token(""), None);
}

#[test]
fn parse_u64_reads_digit_strings() {
    assert_eq!(parse_u64("0"), Some(0));
    assert_eq!(parse_u64("150"), Some(150));
    assert_eq!(parse_u64("18446744073709551615"), Some(u64::MAX));
}

#[test]
fn parse_u64_rejects_non_digits_and_overflow() {
    assert_eq!(parse_u64(""), None);
    assert_eq!(parse_u64("abc"), None);
    assert_eq!(parse_u64("-5"), None);
    assert_eq!(parse_u64("1.5"), None);
    assert_eq!(parse_u64("18446744073709551616"), None);
}

#[test]
fn u64_to_string_writes_decimal() {
    assert_eq!(u64_to_string(0), "0");
    assert_eq!(u64_to_string(7), "7");
    assert_eq!(u64_to_string(105), "105");
    assert_eq!(u64_to_string(u64::MAX), "18446744073709551615");
}
