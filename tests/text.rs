use calliper::text::{chars_of, usize_to_decimal};

#[test]
fn numbers_are_written_in_decimal() {
    assert_eq!(usize_to_decimal(0), "0");
    assert_eq!(usize_to_decimal(7), "7");
    assert_eq!(usize_to_decimal(10), "10");
    assert_eq!(usize_to_decimal(4321), "4321");
    assert_eq!(usize_to_decimal(usize::MAX), usize::MAX.to_string());
}

#[test]
fn characters_are_collected_in_order() {
    assert_eq!(chars_of("a\u{3000}b"), vec!['a', '\u{3000}', 'b']);
    assert!(chars_of("").is_empty());
}
