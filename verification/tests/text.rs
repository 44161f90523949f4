use iron_planet::text::{append_decimal, join};

fn decimal_of(n: u32) -> String {
    let mut out = String::new();
    append_decimal(&mut out, n);
    out
}

#[test]
fn decimal_of_zero_is_one_digit() {
    assert_eq!(decimal_of(0), "0");
}

#[test]
fn decimal_of_single_digits() {
    assert_eq!(decimal_of(7), "7");
    assert_eq!(decimal_of(9), "9");
}

#[test]
fn decimal_of_ten_has_two_digits() {
    assert_eq!(decimal_of(10), "10");
}

#[test]
fn decimal_has_no_leading_zeros_and_keeps_inner_zeros() {
    assert_eq!(decimal_of(1005), "1005");
    assert_eq!(decimal_of(24772), "24772");
}

#[test]
fn decimal_of_the_largest_number() {
    assert_eq!(decimal_of(u32::MAX), "4294967295");
}

#[test]
fn decimal_agrees_with_the_standard_rendering() {
    for n in [1u32, 11, 99, 100, 101, 4096, 65535, 65536, 999_999_999, 1_000_000_000] {
        assert_eq!(decimal_of(n), n.to_string());
    }
}

#[test]
fn append_decimal_keeps_what_was_there() {
    let mut out = String::from("shift/");
    append_decimal(&mut out, 42211);
    assert_eq!(out, "shift/42211");
}

#[test]
fn join_puts_second_behind_first() {
    assert_eq!(join("ab", "cd"), "abcd");
    assert_eq!(join("", "cd"), "cd");
    assert_eq!(join("ab", ""), "ab");
}
