use maboroshi::text::{
    i64_to_string, log_line_class, spinner_frame, str_ci_eq_range, str_contains, str_eq,
    trim_to_string, truncate_text, u64_to_string, LogClass,
};

#[test]
fn renders_decimal_digits() {
    assert_eq!(u64_to_string(0), "0");
    assert_eq!(u64_to_string(7), "7");
    assert_eq!(u64_to_string(10), "10");
    assert_eq!(u64_to_string(120450), "120450");
    assert_eq!(u64_to_string(u64::MAX), "18446744073709551615");
}

#[test]
fn renders_signed_decimal() {
    assert_eq!(i64_to_string(0), "0");
    assert_eq!(i64_to_string(42), "42");
    assert_eq!(i64_to_string(-5), "-5");
    assert_eq!(i64_to_string(-120), "-120");
}

#[test]
fn truncate_keeps_short_text() {
    assert_eq!(truncate_text("hello", 10), "hello");
    assert_eq!(truncate_text("hello", 5), "hello");
    assert_eq!(truncate_text("", 0), "");
}

#[test]
fn truncate_marks_elision() {
    assert_eq!(truncate_text("hello world", 5), "hell…");
    assert_eq!(truncate_text("hello", 1), "…");
    assert_eq!(truncate_text("hello", 0), "…");
}

#[test]
fn truncate_counts_characters_not_bytes() {
    assert_eq!(truncate_text("日本語のテスト", 4), "日本語…");
}

#[test]
fn spinner_advances_every_120_ms() {
    assert_eq!(spinner_frame(0), "⠋");
    assert_eq!(spinner_frame(119), "⠋");
    assert_eq!(spinner_frame(120), "⠙");
    assert_eq!(spinner_frame(7 * 120), "⠧");
    assert_eq!(spinner_frame(8 * 120), "⠋");
}

#[test]
fn substring_search() {
    assert!(str_contains("hello world", "lo wo"));
    assert!(str_contains("hello", ""));
    assert!(str_contains("hello", "hello"));
    assert!(!str_contains("hello", "hellos"));
    assert!(!str_contains("hello", "z"));
}

#[test]
fn string_equality_is_by_characters() {
    assert!(str_eq("abc", "abc"));
    assert!(!str_eq("abc", "abd"));
    assert!(!str_eq("abc", "ab"));
    assert!(str_eq("", ""));
}

#[test]
fn trimming_strips_blank_ends() {
    assert_eq!(trim_to_string("  hello \n"), "hello");
    assert_eq!(trim_to_string("\t\r\n "), "");
    assert_eq!(trim_to_string("a b"), "a b");
    assert_eq!(trim_to_string("x"), "x");
}

#[test]
fn case_insensitive_range_match() {
    assert!(str_ci_eq_range("  Shuffle ", 2, 9, "shuffle"));
    assert!(str_ci_eq_range("LOOP", 0, 4, "loop"));
    assert!(!str_ci_eq_range("loop", 0, 4, "list"));
    assert!(!str_ci_eq_range("loops", 0, 5, "loop"));
}

#[test]
fn log_lines_are_classified_by_markers() {
    assert_eq!(log_line_class("search failed: boom"), LogClass::Failure);
    assert_eq!(log_line_class("a protocol error happened"), LogClass::Failure);
    assert_eq!(log_line_class("❌ gone"), LogClass::Failure);
    assert_eq!(log_line_class("warning: socket not ready"), LogClass::Warning);
    assert_eq!(log_line_class("timed out after 30 s"), LogClass::Warning);
    assert_eq!(log_line_class("✓ cached URL used"), LogClass::Success);
    assert_eq!(log_line_class("socket ready"), LogClass::Success);
    assert_eq!(log_line_class("page 2 (from cache)"), LogClass::Info);
}
