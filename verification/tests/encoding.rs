use address_gen::encode::{decimal, hex_digit_char, hex_encode, push_decimal, push_hex};

#[test]
fn hex_of_no_bytes_is_empty() {
    assert_eq!(hex_encode(&Vec::new()), "");
}

#[test]
fn hex_is_lowercase_and_high_half_first() {
    assert_eq!(hex_encode(&vec![0x00, 0x0f, 0xa5, 0xff, 0x10]), "000fa5ff10");
}

#[test]
fn hex_digits_run_from_zero_to_f() {
    let digits: String = (0u8..16).map(hex_digit_char).collect();
    assert_eq!(digits, "0123456789abcdef");
}

#[test]
fn push_hex_keeps_what_was_there() {
    let mut out = String::from("0x");
    push_hex(&mut out, &vec![0xde, 0xad]);
    assert_eq!(out, "0xdead");
}

#[test]
fn decimal_of_small_and_large_numbers() {
    assert_eq!(decimal(0), "0");
    assert_eq!(decimal(7), "7");
    assert_eq!(decimal(10), "10");
    assert_eq!(decimal(1905), "1905");
    assert_eq!(decimal(usize::MAX), usize::MAX.to_string());
}

#[test]
fn push_decimal_keeps_what_was_there() {
    let mut out = String::from("Index: ");
    push_decimal(&mut out, 42);
    assert_eq!(out, "Index: 42");
}
