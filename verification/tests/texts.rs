use video_service::text::{decimal_string, join, str_equal};

#[test]
fn decimal_string_writes_numbers_without_leading_zeros() {
    assert_eq!(decimal_string(0), "0");
    assert_eq!(decimal_string(7), "7");
    assert_eq!(decimal_string(10), "10");
    assert_eq!(decimal_string(300), "300");
    assert_eq!(decimal_string(1080), "1080");
    assert_eq!(decimal_string(1234567890), "1234567890");
    assert_eq!(decimal_string(u32::MAX), "4294967295");
}

#[test]
fn decimal_string_agrees_with_the_standard_rendering() {
    let mut n: u32 = 0;
    while n < 3000 {
        assert_eq!(decimal_string(n), n.to_string());
        n += 1;
    }
}

#[test]
fn str_equal_compares_character_by_character() {
    assert!(str_equal("", ""));
    assert!(str_equal("home", "home"));
    assert!(!str_equal("home", "Home"));
    assert!(!str_equal("home", "hom"));
    assert!(!str_equal("hom", "home"));
    assert!(!str_equal("home", "flash"));
    assert!(str_equal("caf\u{e9}", "caf\u{e9}"));
    assert!(!str_equal("caf\u{e9}", "cafe"));
}

#[test]
fn join_puts_one_text_after_the_other() {
    assert_eq!(join("", ""), "");
    assert_eq!(join("video", ".jpg"), "video.jpg");
    assert_eq!(join("", "x"), "x");
    assert_eq!(join("x", ""), "x");
}
