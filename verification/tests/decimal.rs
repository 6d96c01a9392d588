use hero_api::decimal::decimal;

#[test]
fn single_digits() {
    let expected = ["0", "1", "2", "3", "4", "5", "6", "7", "8", "9"];
    for (value, text) in expected.iter().enumerate() {
        assert_eq!(decimal(value as u64), *text);
    }
}

#[test]
fn several_digits() {
    assert_eq!(decimal(10), "10");
    assert_eq!(decimal(99), "99");
    assert_eq!(decimal(100), "100");
    assert_eq!(decimal(1234567890), "1234567890");
    assert_eq!(decimal(9007199254740993), "9007199254740993");
}

#[test]
fn largest_value() {
    assert_eq!(decimal(u64::MAX), "18446744073709551615");
}

#[test]
fn agrees_with_std() {
    let mut value: u64 = 1;
    for _ in 0..64 {
        assert_eq!(decimal(value), value.to_string());
        assert_eq!(decimal(value - 1), (value - 1).to_string());
        value = value.wrapping_mul(2);
    }
}
