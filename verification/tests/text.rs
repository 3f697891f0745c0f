use vrchat_photo_manager::text::{
    format_i64, format_usize, parse_i64, str_contains, str_is_blank, str_starts_with, trim_end_matches,
};

#[test]
fn formats_integers_in_decimal() {
    assert_eq!(format_usize(0), "0");
    assert_eq!(format_usize(1205), "1205");
    assert_eq!(format_i64(-15), "-15");
    assert_eq!(format_i64(i64::MIN), i64::MIN.to_string());
    assert_eq!(format_i64(i64::MAX), i64::MAX.to_string());
}

#[test]
fn parses_integers_as_std_does() {
    for text in [
        "15", "+7", "-7", "007", "", "+", "-", "+-1", " 1", "1 ", "1.5", "abc",
        "9223372036854775807", "9223372036854775808", "-9223372036854775808",
        "-9223372036854775809", "99999999999999999999", "١٢",
    ] {
        assert_eq!(parse_i64(text), text.parse::<i64>().ok(), "{text:?}");
    }
}

#[test]
fn formatted_integers_parse_back() {
    for n in [0, 1, -1, 42, i64::MIN, i64::MAX, 1_000_000_007] {
        assert_eq!(parse_i64(&format_i64(n)), Some(n));
    }
}

#[test]
fn substring_tests() {
    assert!(str_contains("VRChat 登录已过期，请重新登录", "登录已过期"));
    assert!(!str_contains("登录失败", "登录已过期"));
    assert!(str_contains("abc", ""));
    assert!(str_starts_with("usr_123", "usr_"));
    assert!(!str_starts_with("us", "usr_"));
}

#[test]
fn blank_means_only_whitespace() {
    assert!(str_is_blank(""));
    assert!(str_is_blank(" \t\n\u{3000}\u{a0}"));
    assert!(!str_is_blank(" a "));
    for text in ["", " ", "\u{2028}x", "\u{200b}", "\u{85}"] {
        assert_eq!(str_is_blank(text), text.trim().is_empty(), "{text:?}");
    }
}

#[test]
fn trims_every_trailing_pattern() {
    for (text, pattern) in [
        ("usr_friend_log_current", "_friend_log_current"),
        ("a_friend_log_current_friend_log_current", "_friend_log_current"),
        ("_friend_log_current", "_friend_log_current"),
        ("plain", "_friend_log_current"),
        ("aaa", "aa"),
        ("kept", ""),
        ("", ""),
    ] {
        assert_eq!(trim_end_matches(text, pattern), text.trim_end_matches(pattern));
    }
}
