use koreanbots_rs::text::{decimal_text, join, text_equals};

#[test]
fn decimal_of_zero_is_a_single_digit() {
    assert_eq!(decimal_text(0), "0");
}

#[test]
fn decimal_of_single_digits() {
    let expected = ["0", "1", "2", "3", "4", "5", "6", "7", "8", "9"];
    for (n, text) in expected.iter().enumerate() {
        assert_eq!(decimal_text(n), *text);
    }
}

#[test]
fn decimal_has_no_leading_zeros() {
    assert_eq!(decimal_text(10), "10");
    assert_eq!(decimal_text(42), "42");
    assert_eq!(decimal_text(100), "100");
    assert_eq!(decimal_text(1009), "1009");
    assert_eq!(decimal_text(1234567890), "1234567890");
}

#[test]
fn decimal_of_the_largest_number() {
    assert_eq!(decimal_text(usize::MAX), usize::MAX.to_string());
}

#[test]
fn decimal_agrees_with_the_standard_rendering() {
    let mut n: usize = 0;
    while n < 5_000_000 {
        assert_eq!(decimal_text(n), n.to_string());
        n = n * 3 + 7;
    }
    for n in 0..2000usize {
        assert_eq!(decimal_text(n), n.to_string());
    }
}

#[test]
fn equal_texts_are_equal() {
    assert!(text_equals("", ""));
    assert!(text_equals("classic", "classic"));
    assert!(text_equals("원더봇", "원더봇"));
}

#[test]
fn different_texts_are_different() {
    assert!(!text_equals("classic", "classiC"));
    assert!(!text_equals("classic", "classi"));
    assert!(!text_equals("", "a"));
    assert!(!text_equals("flat", "classic"));
    assert!(!text_equals("원더봇", "원더봄"));
    assert!(!text_equals("abc", "xbc"));
}

#[test]
fn join_concatenates() {
    assert_eq!(join("bots/", "42"), "bots/42");
    assert_eq!(join("", "x"), "x");
    assert_eq!(join("x", ""), "x");
    assert_eq!(join("", ""), "");
}
