use contract_lab::text::{byte_list_text, decimal_i64, decimal_u64, join};

#[test]
fn decimal_of_small_and_large_numbers() {
    assert_eq!(decimal_u64(0), "0");
    assert_eq!(decimal_u64(7), "7");
    assert_eq!(decimal_u64(10), "10");
    assert_eq!(decimal_u64(1234), "1234");
    assert_eq!(decimal_u64(1_000_000), "1000000");
    assert_eq!(decimal_u64(u64::MAX), "18446744073709551615");
}

#[test]
fn decimal_agrees_with_the_standard_rendering() {
    for n in (0..100_000u64).step_by(37) {
        assert_eq!(decimal_u64(n), n.to_string());
    }
    for n in (-50_000..50_000i64).step_by(41) {
        assert_eq!(decimal_i64(n), n.to_string());
    }
}

#[test]
fn decimal_of_signed_numbers() {
    assert_eq!(decimal_i64(0), "0");
    assert_eq!(decimal_i64(-1), "-1");
    assert_eq!(decimal_i64(42), "42");
    assert_eq!(decimal_i64(-2_147_483_648), "-2147483648");
    assert_eq!(decimal_i64(i64::MAX), "9223372036854775807");
    assert_eq!(decimal_i64(i64::MIN), "-9223372036854775808");
}

#[test]
fn join_puts_the_separator_between_neighbours() {
    let none: Vec<String> = Vec::new();
    assert_eq!(join(&none, ", "), "");
    assert_eq!(join(&vec!["one".to_string()], ", "), "one");
    assert_eq!(join(&vec!["one".to_string(), "two".to_string()], ", "), "one, two");
    assert_eq!(
        join(&vec!["a".to_string(), "".to_string(), "c".to_string()], "-"),
        "a--c"
    );
    assert_eq!(join(&vec!["a".to_string(), "b".to_string()], ""), "ab");
}

#[test]
fn byte_list_looks_like_a_debug_print() {
    assert_eq!(byte_list_text(&[]), "[]");
    assert_eq!(byte_list_text(&[0]), "[0]");
    assert_eq!(byte_list_text(&[1, 20, 255]), "[1, 20, 255]");
    let zeros = [0u8; 32];
    assert_eq!(byte_list_text(&zeros), format!("{:?}", zeros));
    let ones = [1u8; 32];
    assert_eq!(byte_list_text(&ones), format!("{:?}", ones));
}
