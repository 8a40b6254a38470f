use ptyx::text::push_decimal;
use ptyx::text::push_decimal_i32;

#[test]
fn decimal_of_unsigned() {
    let mut s = String::from("n=");
    push_decimal(&mut s, 0);
    assert_eq!(s, "n=0");
    let mut s = String::new();
    push_decimal(&mut s, 1234567890);
    assert_eq!(s, "1234567890");
}

#[test]
fn decimal_of_signed() {
    let mut s = String::new();
    push_decimal_i32(&mut s, -42);
    assert_eq!(s, "-42");
    let mut s = String::new();
    push_decimal_i32(&mut s, i32::MIN);
    assert_eq!(s, "-2147483648");
    let mut s = String::new();
    push_decimal_i32(&mut s, i32::MAX);
    assert_eq!(s, "2147483647");
}
