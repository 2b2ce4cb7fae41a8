use pet_ledger::response::decimal_string;

#[test]
fn decimal_of_single_digits() {
    assert_eq!(decimal_string(0), "0");
    assert_eq!(decimal_string(7), "7");
    assert_eq!(decimal_string(9), "9");
}

#[test]
fn decimal_of_several_digits() {
    assert_eq!(decimal_string(10), "10");
    assert_eq!(decimal_string(50), "50");
    assert_eq!(decimal_string(100), "100");
    assert_eq!(decimal_string(255), "255");
    assert_eq!(decimal_string(1_000_000), "1000000");
    assert_eq!(decimal_string(1234567890), "1234567890");
}

#[test]
fn decimal_of_the_largest_value() {
    assert_eq!(decimal_string(u128::MAX), u128::MAX.to_string());
    assert_eq!(decimal_string(u128::MAX), "340282366920938463463374607431768211455");
}

#[test]
fn decimal_agrees_with_the_standard_rendering() {
    for n in 0..2_000u128 {
        assert_eq!(decimal_string(n), n.to_string());
    }
}
