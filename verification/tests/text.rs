use service_poller::text::{chars_of, contains, decimal};

#[test]
fn contains_finds_a_marker() {
    assert!(contains("fake_service is online", "online"));
    assert!(!contains("fake_service is online", "down"));
}

#[test]
fn contains_at_the_edges() {
    assert!(contains("online", "online"));
    assert!(contains("online now", "online"));
    assert!(contains("now online", "online"));
    assert!(!contains("onlin", "online"));
    assert!(!contains("", "online"));
    assert!(contains("online", ""));
    assert!(contains("", ""));
}

#[test]
fn contains_after_a_false_start() {
    assert!(contains("aaab", "aab"));
    assert!(contains("ononline", "online"));
    assert!(!contains("onlinonlin", "online"));
}

#[test]
fn contains_is_case_sensitive_and_reads_characters() {
    assert!(!contains("ONLINE", "online"));
    assert!(contains("service \u{e9}teint \u{1f4a4}", "\u{e9}teint"));
    assert!(contains("service \u{e9}teint \u{1f4a4}", "\u{1f4a4}"));
    assert!(!contains("service eteint", "\u{e9}teint"));
}

#[test]
fn chars_of_lists_the_characters() {
    assert_eq!(chars_of(""), Vec::<char>::new());
    assert_eq!(chars_of("a\u{e9}\u{1f4a4}z"), vec!['a', '\u{e9}', '\u{1f4a4}', 'z']);
}

#[test]
fn decimal_renders_numbers() {
    assert_eq!(decimal(0), "0");
    assert_eq!(decimal(9), "9");
    assert_eq!(decimal(10), "10");
    assert_eq!(decimal(1234567890), "1234567890");
    assert_eq!(decimal(1672531200), "1672531200");
    assert_eq!(decimal(u64::MAX), "18446744073709551615");
}
