use daily_server::text::{int_to_string, push_nat_text};

#[test]
fn decimal_text_of_integers() {
    assert_eq!(int_to_string(0), "0");
    assert_eq!(int_to_string(7), "7");
    assert_eq!(int_to_string(10), "10");
    assert_eq!(int_to_string(1234567890), "1234567890");
    assert_eq!(int_to_string(-42), "-42");
    assert_eq!(int_to_string(i64::MAX), "9223372036854775807");
    assert_eq!(int_to_string(i64::MIN), "-9223372036854775808");
}

#[test]
fn decimal_text_appends() {
    let mut s = String::from("n=");
    push_nat_text(&mut s, u64::MAX);
    assert_eq!(s, "n=18446744073709551615");
}
