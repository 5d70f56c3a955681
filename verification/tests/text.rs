use orkestra::models::session::{Endpoint, HostAddr};
use orkestra::text::{decimal_text, digit, join_code_text, push_decimal, zero_padded_text};

#[test]
fn digits_are_the_ten_ascii_digits() {
    let expected = ['0', '1', '2', '3', '4', '5', '6', '7', '8', '9'];
    for d in 0u8..10 {
        assert_eq!(digit(d), expected[d as usize]);
    }
}

#[test]
fn decimal_text_of_zero_is_one_digit() {
    assert_eq!(decimal_text(0), "0");
}

#[test]
fn decimal_text_has_no_leading_zeros() {
    assert_eq!(decimal_text(7), "7");
    assert_eq!(decimal_text(10), "10");
    assert_eq!(decimal_text(100), "100");
    assert_eq!(decimal_text(65535), "65535");
    assert_eq!(decimal_text(1_000_000), "1000000");
}

#[test]
fn decimal_text_of_the_largest_value() {
    assert_eq!(decimal_text(u64::MAX), "18446744073709551615");
}

#[test]
fn push_decimal_appends_to_what_is_there() {
    let mut out = String::from("-Port=");
    push_decimal(&mut out, 7777);
    assert_eq!(out, "-Port=7777");
    push_decimal(&mut out, 0);
    assert_eq!(out, "-Port=77770");
}

#[test]
fn zero_padded_text_fills_up_to_the_width() {
    assert_eq!(zero_padded_text(42, 6), "000042");
    assert_eq!(zero_padded_text(0, 3), "000");
    assert_eq!(zero_padded_text(5, 2), "05");
}

#[test]
fn zero_padded_text_leaves_long_numerals_alone() {
    assert_eq!(zero_padded_text(123456, 6), "123456");
    assert_eq!(zero_padded_text(1234567, 6), "1234567");
    assert_eq!(zero_padded_text(9, 1), "9");
    assert_eq!(zero_padded_text(9, 0), "9");
}

#[test]
fn join_codes_have_six_digits() {
    assert_eq!(join_code_text(0), "000000");
    assert_eq!(join_code_text(1), "000001");
    assert_eq!(join_code_text(2), "000002");
    assert_eq!(join_code_text(999_999), "999999");
}

#[test]
fn join_codes_beyond_six_digits_grow() {
    assert_eq!(join_code_text(1_000_000), "1000000");
    assert_eq!(join_code_text(u32::MAX), "4294967295");
}

#[test]
fn join_codes_of_different_counters_differ() {
    let mut seen: Vec<String> = Vec::new();
    for n in [0u32, 1, 9, 10, 11, 99, 100, 101, 99_999, 100_000, 999_999, 1_000_000] {
        let code = join_code_text(n);
        assert!(!seen.contains(&code));
        seen.push(code);
    }
}

#[test]
fn endpoint_text_is_host_colon_port() {
    let addr = Endpoint { host: HostAddr { a: 127, b: 0, c: 0, d: 1 }, port: 7777 };
    assert_eq!(addr.to_text(), "127.0.0.1:7777");
}

#[test]
fn endpoint_text_at_the_bounds() {
    let low = Endpoint { host: HostAddr { a: 0, b: 0, c: 0, d: 0 }, port: 0 };
    assert_eq!(low.to_text(), "0.0.0.0:0");
    let high = Endpoint { host: HostAddr { a: 255, b: 255, c: 255, d: 255 }, port: 65535 };
    assert_eq!(high.to_text(), "255.255.255.255:65535");
}
