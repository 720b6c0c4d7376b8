use webpage_hit_counter::decimal::{i32_to_decimal, i64_to_decimal, u64_decimal_chars};

#[test]
fn i32_numerals_match_display() {
    for n in [0, 1, 9, 10, 11, 99, 100, 555555, -1, -10, i32::MAX, i32::MIN] {
        assert_eq!(i32_to_decimal(n), n.to_string());
    }
}

#[test]
fn i64_numerals_match_display() {
    for n in [0i64, 7, -7, 1234567890123, i64::MAX, i64::MIN] {
        assert_eq!(i64_to_decimal(n), n.to_string());
    }
}

#[test]
fn u64_digits_in_order() {
    assert_eq!(u64_decimal_chars(907), vec!['9', '0', '7']);
    assert_eq!(u64_decimal_chars(u64::MAX), u64::MAX.to_string().chars().collect::<Vec<char>>());
}
