use actix_learn::text::{push_decimal, push_signed_decimal};

fn dec(n: u64) -> String {
    let mut s = String::from("#");
    push_decimal(&mut s, n);
    s
}

fn sdec(n: i32) -> String {
    let mut s = String::new();
    push_signed_decimal(&mut s, n);
    s
}

#[test]
fn decimal_of_unsigned() {
    assert_eq!(dec(0), "#0");
    assert_eq!(dec(7), "#7");
    assert_eq!(dec(10), "#10");
    assert_eq!(dec(1234567890), "#1234567890");
    assert_eq!(dec(u64::MAX), "#18446744073709551615");
}

#[test]
fn decimal_of_signed() {
    assert_eq!(sdec(0), "0");
    assert_eq!(sdec(-42), "-42");
    assert_eq!(sdec(i32::MAX), "2147483647");
    assert_eq!(sdec(i32::MIN), "-2147483648");
}
