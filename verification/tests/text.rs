use pta_generator::text::{
    int_width, matches_ignoring_case, push_decimal, push_int, push_zero_padded, same_text,
};

fn digits(n: u64) -> String {
    let mut out = String::new();
    push_decimal(&mut out, n);
    out
}

fn appended(n: i64) -> String {
    let mut out = String::from("x");
    push_int(&mut out, n);
    out
}

fn padded(n: i64, width: usize) -> String {
    let mut out = String::new();
    push_zero_padded(&mut out, n, width);
    out
}

#[test]
fn decimal_digits() {
    assert_eq!(digits(0), "0");
    assert_eq!(digits(7), "7");
    assert_eq!(digits(10), "10");
    assert_eq!(digits(999), "999");
    assert_eq!(digits(1_000_000), "1000000");
    assert_eq!(digits(u64::MAX), "18446744073709551615");
    for n in [1u64, 9, 10, 11, 99, 100, 101, 12_345, 4_294_967_295] {
        assert_eq!(digits(n), n.to_string());
    }
}

#[test]
fn integers_are_appended() {
    assert_eq!(appended(0), "x0");
    assert_eq!(appended(31), "x31");
    assert_eq!(appended(-5), "x-5");
    assert_eq!(appended(i64::MAX), "x9223372036854775807");
    assert_eq!(appended(i64::MIN), "x-9223372036854775808");
}

#[test]
fn width_of_an_integer() {
    assert_eq!(int_width(0), 1);
    assert_eq!(int_width(9), 1);
    assert_eq!(int_width(10), 2);
    assert_eq!(int_width(-1), 2);
    assert_eq!(int_width(-10), 3);
    assert_eq!(int_width(i64::MAX), 19);
    assert_eq!(int_width(i64::MIN), 20);
}

#[test]
fn zero_padding() {
    assert_eq!(padded(999, 7), "0000999");
    assert_eq!(padded(0, 2), "00");
    assert_eq!(padded(4, 2), "04");
    assert_eq!(padded(12, 2), "12");
    assert_eq!(padded(123, 2), "123");
    assert_eq!(padded(2024, 4), "2024");
    assert_eq!(padded(1, 0), "1");
    assert_eq!(padded(-5, 4), "00-5");
    assert_eq!(padded(-2024, 4), "-2024");
    for (n, width) in [(0i64, 4usize), (7, 4), (-7, 4), (12_345, 4), (-1, 2), (31, 2)] {
        assert_eq!(padded(n, width), format!("{:0>width$}", n, width = width));
    }
}

#[test]
fn texts_are_compared() {
    assert!(same_text("single", "single"));
    assert!(!same_text("single", "Single"));
    assert!(!same_text("single", "singl"));
    assert!(same_text("", ""));
    assert!(matches_ignoring_case("1E3", "1e3"));
    assert!(matches_ignoring_case("1e3", "1e3"));
    assert!(!matches_ignoring_case("1e3", "1e4"));
    assert!(!matches_ignoring_case("1e33", "1e3"));
    assert!(!matches_ignoring_case("", "1e3"));
    assert!(matches_ignoring_case("ABC", "abc"));
    assert!(!matches_ignoring_case("abc", "ABC"));
    assert!(!matches_ignoring_case("\u{212a}", "k"));
}
