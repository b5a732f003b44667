use dungeon_crawler::utils::decimal::{
    decimal_string, push_decimal, push_signed_decimal, push_two_digits,
};

fn signed(v: i64) -> String {
    let mut out = String::new();
    push_signed_decimal(&mut out, v);
    out
}

fn padded(v: i64) -> String {
    let mut out = String::new();
    push_two_digits(&mut out, v);
    out
}

#[test]
fn decimal_of_zero_is_one_digit() {
    assert_eq!(decimal_string(0), "0");
}

#[test]
fn decimal_of_single_digits() {
    for n in 0..10u64 {
        assert_eq!(decimal_string(n), format!("{}", n));
    }
}

#[test]
fn decimal_of_round_numbers() {
    assert_eq!(decimal_string(10), "10");
    assert_eq!(decimal_string(100), "100");
    assert_eq!(decimal_string(1000), "1000");
    assert_eq!(decimal_string(1_000_000), "1000000");
}

#[test]
fn decimal_of_mixed_digits() {
    assert_eq!(decimal_string(12345), "12345");
    assert_eq!(decimal_string(9_876_543_210), "9876543210");
}

#[test]
fn decimal_of_largest_count() {
    assert_eq!(decimal_string(u64::MAX), "18446744073709551615");
}

#[test]
fn decimal_agrees_with_std_on_a_sweep() {
    let mut n: u64 = 1;
    while n < u64::MAX / 7 {
        assert_eq!(decimal_string(n), n.to_string());
        assert_eq!(decimal_string(n - 1), (n - 1).to_string());
        n = n * 7 + 3;
    }
}

#[test]
fn push_decimal_appends_to_what_is_there() {
    let mut out = String::from("Monster ");
    push_decimal(&mut out, 42);
    assert_eq!(out, "Monster 42");
    push_decimal(&mut out, 0);
    assert_eq!(out, "Monster 420");
}

#[test]
fn signed_decimal_of_positive_and_zero() {
    assert_eq!(signed(0), "0");
    assert_eq!(signed(7), "7");
    assert_eq!(signed(2024), "2024");
    assert_eq!(signed(i64::MAX), "9223372036854775807");
}

#[test]
fn signed_decimal_of_negative() {
    assert_eq!(signed(-1), "-1");
    assert_eq!(signed(-65), "-65");
    assert_eq!(signed(-9_000_000_000), "-9000000000");
}

#[test]
fn signed_decimal_of_most_negative() {
    assert_eq!(signed(i64::MIN), "-9223372036854775808");
}

#[test]
fn signed_decimal_agrees_with_std_on_a_sweep() {
    let mut v: i64 = -1_000_003;
    while v < 1_000_003 {
        assert_eq!(signed(v), v.to_string());
        v += 7919;
    }
}

#[test]
fn two_digits_pads_zero_to_nine() {
    assert_eq!(padded(0), "00");
    assert_eq!(padded(1), "01");
    assert_eq!(padded(5), "05");
    assert_eq!(padded(9), "09");
}

#[test]
fn two_digits_leaves_ten_and_more_alone() {
    assert_eq!(padded(10), "10");
    assert_eq!(padded(59), "59");
    assert_eq!(padded(99), "99");
    assert_eq!(padded(100), "100");
    assert_eq!(padded(123456), "123456");
}

#[test]
fn two_digits_does_not_pad_negative_values() {
    assert_eq!(padded(-1), "-1");
    assert_eq!(padded(-9), "-9");
    assert_eq!(padded(-10), "-10");
}

#[test]
fn two_digits_appends_to_what_is_there() {
    let mut out = String::from("x");
    push_two_digits(&mut out, 3);
    push_two_digits(&mut out, 30);
    assert_eq!(out, "x0330");
}
