use chat_analytics::decimal::i64_to_decimal;

#[test]
fn decimal_matches_display() {
    for n in [0i64, 1, 9, 10, 42, 99, 100, 1234567890, -1, -10, -987654321, i64::MAX, i64::MIN] {
        assert_eq!(i64_to_decimal(n), n.to_string());
    }
}

#[test]
fn decimal_exact_values() {
    assert_eq!(i64_to_decimal(0), "0");
    assert_eq!(i64_to_decimal(-5), "-5");
    assert_eq!(i64_to_decimal(1000), "1000");
    assert_eq!(i64_to_decimal(i64::MIN), "-9223372036854775808");
}
