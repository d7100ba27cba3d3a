use promptline::wire::{
    bg_escape_bytes, fg_escape_bytes, push_decimal, push_signed_decimal, push_str,
    reset_escape_bytes, separator_bytes,
};
use promptline::Color;

fn decimal(n: u32) -> Vec<u8> {
    let mut buf = Vec::new();
    push_decimal(&mut buf, n);
    buf
}

fn signed(n: i32) -> Vec<u8> {
    let mut buf = Vec::new();
    push_signed_decimal(&mut buf, n);
    buf
}

#[test]
fn decimal_of_one_digit() {
    assert_eq!(decimal(0), b"0".to_vec());
    assert_eq!(decimal(7), b"7".to_vec());
    assert_eq!(decimal(9), b"9".to_vec());
}

#[test]
fn decimal_of_many_digits() {
    assert_eq!(decimal(10), b"10".to_vec());
    assert_eq!(decimal(255), b"255".to_vec());
    assert_eq!(decimal(1000), b"1000".to_vec());
    assert_eq!(decimal(u32::MAX), b"4294967295".to_vec());
}

#[test]
fn decimal_is_appended() {
    let mut buf = b"n=".to_vec();
    push_decimal(&mut buf, 42);
    assert_eq!(buf, b"n=42".to_vec());
}

#[test]
fn decimal_agrees_with_the_standard_library() {
    for n in 0..2000u32 {
        assert_eq!(decimal(n), format!("{}", n).into_bytes());
    }
}

#[test]
fn signed_decimal_of_negative_numbers() {
    assert_eq!(signed(-1), b"-1".to_vec());
    assert_eq!(signed(-127), b"-127".to_vec());
    assert_eq!(signed(i32::MIN), b"-2147483648".to_vec());
}

#[test]
fn signed_decimal_of_numbers_that_are_not_negative() {
    assert_eq!(signed(0), b"0".to_vec());
    assert_eq!(signed(130), b"130".to_vec());
    assert_eq!(signed(i32::MAX), b"2147483647".to_vec());
}

#[test]
fn text_is_appended_in_utf8() {
    let mut buf = Vec::new();
    push_str(&mut buf, "a");
    push_str(&mut buf, "\u{2620}");
    push_str(&mut buf, "");
    assert_eq!(buf, vec![0x61, 0xe2, 0x98, 0xa0]);
}

#[test]
fn foreground_escape_is_bit_for_bit() {
    assert_eq!(
        fg_escape_bytes(Color::from_rgb(80, 80, 80)),
        b"\x01\x1b[38;2;80;80;80m\x02".to_vec()
    );
    assert_eq!(
        fg_escape_bytes(Color::from_rgb(0, 7, 255)),
        vec![
            0x01, 0x1b, b'[', b'3', b'8', b';', b'2', b';', b'0', b';', b'7', b';', b'2', b'5',
            b'5', b'm', 0x02
        ]
    );
}

#[test]
fn background_escape_is_bit_for_bit() {
    assert_eq!(
        bg_escape_bytes(Color::from_rgb(30, 30, 255)),
        b"\x01\x1b[48;2;30;30;255m\x02".to_vec()
    );
}

#[test]
fn reset_escape_is_bit_for_bit() {
    assert_eq!(reset_escape_bytes(), vec![0x01, 0x1b, b'[', b'0', b'm', 0x02]);
}

#[test]
fn separator_is_the_arrow() {
    assert_eq!(separator_bytes(), "\u{e0b0}".as_bytes().to_vec());
}

#[test]
fn colours_are_equal_by_value() {
    assert_eq!(Color::from_rgb(1, 2, 3), Color { r: 1, g: 2, b: 3 });
    assert_ne!(Color::from_rgb(1, 2, 3), Color::from_rgb(1, 2, 4));
}
