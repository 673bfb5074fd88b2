use fittrack::text::{digit_str, push_decimal, push_zero_padded};

fn decimal(n: u64) -> String {
    let mut out = String::new();
    push_decimal(&mut out, n);
    out
}

fn padded(n: u64, width: u32) -> String {
    let mut out = String::new();
    push_zero_padded(&mut out, n, width);
    out
}

#[test]
fn digits_are_single_characters() {
    assert_eq!(digit_str(0), "0");
    assert_eq!(digit_str(5), "5");
    assert_eq!(digit_str(9), "9");
}

#[test]
fn decimal_has_no_leading_zeros() {
    assert_eq!(decimal(0), "0");
    assert_eq!(decimal(7), "7");
    assert_eq!(decimal(10), "10");
    assert_eq!(decimal(5432), "5432");
    assert_eq!(decimal(u64::MAX), "18446744073709551615");
}

#[test]
fn decimal_is_appended() {
    let mut out = String::from("port ");
    push_decimal(&mut out, 8080);
    assert_eq!(out, "port 8080");
}

#[test]
fn padding_fills_up_with_zeros() {
    assert_eq!(padded(5, 2), "05");
    assert_eq!(padded(12, 2), "12");
    assert_eq!(padded(123, 2), "123");
    assert_eq!(padded(7, 4), "0007");
    assert_eq!(padded(0, 4), "0000");
    assert_eq!(padded(2024, 4), "2024");
    assert_eq!(padded(0, 0), "0");
    assert_eq!(padded(42, 1), "42");
}
