use mini_fisher::text::{decimal, digit, str_eq, tenths};

#[test]
fn decimal_writes_numerals() {
    assert_eq!(decimal(0), "0");
    assert_eq!(decimal(7), "7");
    assert_eq!(decimal(10), "10");
    assert_eq!(decimal(12_345), "12345");
    assert_eq!(decimal(1_000_000), "1000000");
    assert_eq!(decimal(u64::MAX), "18446744073709551615");
}

#[test]
fn digit_writes_each_digit() {
    let all: Vec<&str> = (0..10u8).map(digit).collect();
    assert_eq!(all, vec!["0", "1", "2", "3", "4", "5", "6", "7", "8", "9"]);
    assert_eq!(digit(10), "9");
    assert_eq!(digit(u8::MAX), "9");
}

#[test]
fn tenths_drops_a_zero_decimal() {
    assert_eq!(tenths(120), "12");
    assert_eq!(tenths(125), "12.5");
    assert_eq!(tenths(5), "0.5");
    assert_eq!(tenths(0), "0");
    assert_eq!(tenths(10_001), "1000.1");
}

#[test]
fn str_eq_compares_characters() {
    assert!(str_eq("Trout", "Trout"));
    assert!(str_eq("", ""));
    assert!(!str_eq("Trout", "trout"));
    assert!(!str_eq("Trout", "Trou"));
}
