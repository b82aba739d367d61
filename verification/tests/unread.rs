use whatsapp_linux::text::decimal_string;
use whatsapp_linux::unread::{parse_unread_count, MAX_UNREAD};

#[test]
fn parses_whatsapp_unread_titles() {
    assert_eq!(parse_unread_count("(1) WhatsApp"), 1);
    assert_eq!(parse_unread_count("(42) WhatsApp"), 42);
    assert_eq!(parse_unread_count("(3)   WhatsApp Web"), 3);
}

#[test]
fn resets_for_titles_without_a_valid_count() {
    for title in [
        "WhatsApp",
        "Chat name",
        "() WhatsApp",
        "(-1) WhatsApp",
        "(12 messages) WhatsApp",
        "(12) Not WhatsApp",
        "12) WhatsApp",
    ] {
        assert_eq!(parse_unread_count(title), 0, "{title}");
    }
}

#[test]
fn safely_bounds_excessive_counts() {
    assert_eq!(parse_unread_count("(10000) WhatsApp"), MAX_UNREAD);
    assert_eq!(
        parse_unread_count("(999999999999999999999999999) WhatsApp"),
        MAX_UNREAD
    );
}

#[test]
fn announced_counts_are_read_back() {
    for n in [0u32, 1, 9, 10, 99, 100, 4321, 9998, 9999] {
        let title = format!("({}) WhatsApp", decimal_string(n));
        assert_eq!(parse_unread_count(&title), n, "{title}");
    }
    for n in [10000u32, 65536, u32::MAX] {
        let title = format!("({}) WhatsApp", decimal_string(n));
        assert_eq!(parse_unread_count(&title), MAX_UNREAD, "{title}");
    }
}

#[test]
fn count_limit_is_exact() {
    assert_eq!(MAX_UNREAD, 9999);
    assert_eq!(parse_unread_count("(9999) WhatsApp"), 9999);
    assert_eq!(parse_unread_count("(4294967295) WhatsApp"), 9999);
    assert_eq!(parse_unread_count("(4294967296) WhatsApp"), 9999);
}

#[test]
fn leading_zeros_and_text_after_the_name() {
    assert_eq!(parse_unread_count("(007) WhatsApp"), 7);
    assert_eq!(parse_unread_count("(0) WhatsApp"), 0);
    assert_eq!(parse_unread_count("(5)WhatsApp"), 5);
    assert_eq!(parse_unread_count("(5) WhatsAppX"), 5);
}

#[test]
fn unicode_white_space_is_skipped_before_the_name() {
    assert_eq!(parse_unread_count("(8)\t\n WhatsApp"), 8);
    assert_eq!(parse_unread_count("(8)\u{3000}WhatsApp"), 8);
    assert_eq!(parse_unread_count("(8)\u{a0}WhatsApp"), 8);
    // A zero-width space is not white space.
    assert_eq!(parse_unread_count("(8)\u{200b}WhatsApp"), 0);
}

#[test]
fn malformed_titles_announce_nothing() {
    assert_eq!(parse_unread_count(""), 0);
    assert_eq!(parse_unread_count("("), 0);
    assert_eq!(parse_unread_count("(5"), 0);
    assert_eq!(parse_unread_count("(5)"), 0);
    assert_eq!(parse_unread_count("(5) Whats"), 0);
    assert_eq!(parse_unread_count(" (5) WhatsApp"), 0);
    assert_eq!(parse_unread_count("(5)) WhatsApp"), 0);
    assert_eq!(parse_unread_count("(+5) WhatsApp"), 0);
    assert_eq!(parse_unread_count("(\u{0663}) WhatsApp"), 0);
}

#[test]
fn decimal_strings_match_std() {
    for n in [0u32, 7, 10, 99, 100, 12345, u32::MAX] {
        assert_eq!(decimal_string(n), n.to_string());
    }
}
