use rust_intro::ownership::{format_borrowed_string, format_string, format_u16, single_owner};
use rust_intro::text::push_decimal;

#[test]
fn u16_lines() {
    assert_eq!(format_u16(42), "number: 42");
    assert_eq!(format_u16(0), "number: 0");
    assert_eq!(format_u16(10), "number: 10");
    assert_eq!(format_u16(u16::MAX), "number: 65535");
}

#[test]
fn string_lines() {
    assert_eq!(format_string("Hello".to_string()), "number: Hello");
    let s = "Hello".to_string();
    assert_eq!(format_borrowed_string(&s), "number: Hello");
    assert_eq!(format_borrowed_string(&s), "number: Hello");
    assert_eq!(format_string(String::new()), "number: ");
}

#[test]
fn decimal_digits() {
    let mut s = "x=".to_string();
    push_decimal(&mut s, 1234567890);
    assert_eq!(s, "x=1234567890");
    let mut s = String::new();
    push_decimal(&mut s, u64::MAX);
    assert_eq!(s, "18446744073709551615");
}

#[test]
fn single_owner_lines() {
    let h = "number: Hello".to_string();
    let n = "number: 42".to_string();
    assert_eq!(
        single_owner(),
        vec![h.clone(), h.clone(), h.clone(), n.clone(), n.clone(), n, h.clone(), h]
    );
}
