use ndc_clickhouse_core::lookup::find_key;
use ndc_clickhouse_core::text::{join3, number_text, text_eq};

#[test]
fn equal_texts_are_equal() {
    assert!(text_eq("", ""));
    assert!(text_eq("abc", "abc"));
    assert!(text_eq("héllo wörld ✓", "héllo wörld ✓"));
}

#[test]
fn different_texts_are_different() {
    assert!(!text_eq("abc", "abd"));
    assert!(!text_eq("abc", "ab"));
    assert!(!text_eq("", "a"));
    assert!(!text_eq("é", "e"));
}

#[test]
fn join3_keeps_the_order_of_its_pieces() {
    assert_eq!(join3("a", ".", "b"), "a.b");
    assert_eq!(join3("", "", ""), "");
    assert_eq!(join3("x", "", "y"), "xy");
}

#[test]
fn find_key_gives_the_first_place_of_a_name() {
    let entries = vec![
        ("a".to_string(), 1u8),
        ("b".to_string(), 2u8),
        ("a".to_string(), 3u8),
    ];
    assert_eq!(find_key(&entries, "a"), Some(0));
    assert_eq!(find_key(&entries, "b"), Some(1));
    assert_eq!(find_key(&entries, "c"), None);
    assert_eq!(find_key(&Vec::<(String, u8)>::new(), "a"), None);
}

#[test]
fn numbers_are_written_in_decimal_digits() {
    assert_eq!(number_text(0), "0");
    assert_eq!(number_text(7), "7");
    assert_eq!(number_text(10), "10");
    assert_eq!(number_text(109), "109");
    assert_eq!(number_text(1234567890), "1234567890");
    assert_eq!(number_text(u32::MAX), "4294967295");
}
