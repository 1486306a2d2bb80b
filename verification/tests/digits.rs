use rvhwfuzzer::digits::{push_digits, push_padded_digits, push_repeated, push_signed_decimal};

#[test]
fn digits_in_bases() {
    let mut s = String::new();
    push_digits(&mut s, 0, 10);
    assert_eq!(s, "0");
    let mut s = String::from("x=");
    push_digits(&mut s, 1234567890, 10);
    assert_eq!(s, "x=1234567890");
    let mut s = String::new();
    push_digits(&mut s, 0b1011, 2);
    assert_eq!(s, "1011");
    let mut s = String::new();
    push_digits(&mut s, 0xDEAD_BEEF, 16);
    assert_eq!(s, "deadbeef");
    let mut s = String::new();
    push_digits(&mut s, u64::MAX, 16);
    assert_eq!(s, "ffffffffffffffff");
}

#[test]
fn signed_and_padded() {
    let mut s = String::new();
    push_signed_decimal(&mut s, -42);
    assert_eq!(s, "-42");
    let mut s = String::new();
    push_signed_decimal(&mut s, i64::MIN);
    assert_eq!(s, "-9223372036854775808");
    let mut s = String::new();
    push_signed_decimal(&mut s, 7);
    assert_eq!(s, "7");
    let mut s = String::new();
    push_padded_digits(&mut s, 5, 2, 8);
    assert_eq!(s, "00000101");
    let mut s = String::new();
    push_padded_digits(&mut s, 255, 2, 4);
    assert_eq!(s, "11111111");
    let mut s = String::new();
    push_repeated(&mut s, '1', 3);
    assert_eq!(s, "111");
}
