use csf::nodes::metrics::format_uptime;
use csf::text::{i64_to_string, prefix_bytes, prefix_upto, trim_end_slash, u64_to_string};

#[test]
fn format_uptime_splits_days_hours_minutes() {
    assert_eq!(format_uptime(0), "0d 0h 0m");
    assert_eq!(format_uptime(90061), "1d 1h 1m");
    assert_eq!(format_uptime(86399), "0d 23h 59m");
}

#[test]
fn decimal_formatting_matches_display() {
    assert_eq!(u64_to_string(0), "0");
    assert_eq!(u64_to_string(u64::MAX), u64::MAX.to_string());
    assert_eq!(i64_to_string(-42), "-42");
    assert_eq!(i64_to_string(i64::MIN), i64::MIN.to_string());
}

#[test]
fn prefixes_are_taken_in_bytes() {
    assert_eq!(prefix_bytes("0123456789abcdef", 8), "01234567");
    assert_eq!(prefix_upto("2024-01-02T03:04:05Z", 16), "2024-01-02T03:04");
    assert_eq!(prefix_upto("short", 16), "short");
}

#[test]
fn trailing_slashes_are_trimmed() {
    assert_eq!(trim_end_slash("http://host:8000///"), "http://host:8000");
    assert_eq!(trim_end_slash("plain"), "plain");
}

#[test]
fn decimal_text_reads_back() {
    for n in [0u64, 7, 10, 99, 100, 12345, u64::MAX] {
        let t = u64_to_string(n);
        assert!(t.chars().all(|c| c.is_ascii_digit()));
        assert!(n == 0 || !t.starts_with('0'));
        assert_eq!(t.parse::<u64>().unwrap(), n);
    }
}

#[test]
fn padding_reaches_the_width() {
    assert_eq!(csf::text::padded("ab", 5), "ab   ");
    assert_eq!(csf::text::padded("abcdef", 3), "abcdef");
    assert_eq!(csf::text::padded("é", 2).chars().count(), 2);
}

#[test]
fn trimming_twice_changes_nothing() {
    let once = trim_end_slash("a/b//");
    assert_eq!(once, "a/b");
    assert_eq!(trim_end_slash(&once), once);
    assert_eq!(trim_end_slash("///"), "");
}

#[test]
fn prefixes_keep_whole_characters_by_bytes() {
    assert_eq!(prefix_bytes("héllo", 3), "hé");
    assert_eq!(prefix_bytes("héllo", 3).len(), 3);
    assert_eq!(prefix_upto("héllo", 16), "héllo");
    assert_eq!(prefix_bytes("abcdefghij", 8), "abcdefgh");
}

#[test]
fn byte_lengths_and_text_comparison() {
    assert_eq!(csf::text::utf8_len("héllo"), 6);
    assert!(csf::text::same_text("abc", "abc"));
    assert!(!csf::text::same_text("abc", "abd"));
    assert!(!csf::text::same_text("abc", "ab"));
    assert_eq!(csf::text::concat("ab", "cd"), "abcd");
    assert_eq!(csf::text::or_text(&None, "-"), "-");
    assert_eq!(csf::text::or_text(&Some("x".to_string()), "-"), "x");
    assert_eq!(csf::text::i64_div(-7, 2), -3);
    assert_eq!(csf::text::i64_div(7, 2), 3);
    assert_eq!(csf::text::i64_div(i64::MIN, 1), i64::MIN);
    assert_eq!(csf::text::repeat_text("─", 3), "───");
}
