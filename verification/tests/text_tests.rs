use drifter::digest::md5_hex;
use drifter::text::{push_decimal, push_lower_hex, push_signed_decimal, push_zero_padded_decimal};

#[test]
fn decimal_and_hex_writing() {
    let mut v = Vec::new();
    push_decimal(0, &mut v);
    push_decimal(1234567890, &mut v);
    assert_eq!(v.iter().collect::<String>(), "01234567890");
    let mut v = Vec::new();
    push_signed_decimal(-42, &mut v);
    assert_eq!(v.iter().collect::<String>(), "-42");
    let mut v = Vec::new();
    push_zero_padded_decimal(7, 3, &mut v);
    assert_eq!(v.iter().collect::<String>(), "007");
    let mut v = Vec::new();
    push_lower_hex(&[0x00, 0xab, 0x0f], &mut v);
    assert_eq!(v.iter().collect::<String>(), "00ab0f");
    assert_eq!(md5_hex(b""), "d41d8cd98f00b204e9800998ecf8427e");
}
