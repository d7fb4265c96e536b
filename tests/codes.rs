use rdev::{code_from_key, key_from_code, Button, Key};
use rdev::codec::button_from_code;

#[test]
fn every_code_round_trips() {
    for c in 0..=u16::MAX {
        let key = key_from_code(c);
        assert_eq!(code_from_key(key), Some(c));
        assert_eq!(key_from_code(code_from_key(key).unwrap()), key);
        assert_eq!(key_from_code(c), key);
    }
}

#[test]
fn named_codes() {
    assert_eq!(key_from_code(0x41), Key::KeyA);
    assert_eq!(key_from_code(0x5A), Key::KeyZ);
    assert_eq!(key_from_code(0x09), Key::Tab);
    assert_eq!(key_from_code(0x0D), Key::Return);
    assert_eq!(key_from_code(0x70), Key::F1);
    assert_eq!(key_from_code(0x7B), Key::F12);
    assert_eq!(key_from_code(0x30), Key::Num0);
    assert_eq!(key_from_code(0x60), Key::Kp0);
    assert_eq!(key_from_code(0xA0), Key::ShiftLeft);
    assert_eq!(code_from_key(Key::Escape), Some(27));
    assert_eq!(code_from_key(Key::Space), Some(32));
}

#[test]
fn unmapped_codes_are_unknown() {
    assert_eq!(key_from_code(0xFF), Key::Unknown(0xFF));
    assert_eq!(key_from_code(0), Key::Unknown(0));
    assert_eq!(key_from_code(0x1234), Key::Unknown(0x1234));
    assert_eq!(code_from_key(Key::Unknown(0x1234)), Some(0x1234));
}

#[test]
fn keys_without_native_code() {
    assert_eq!(code_from_key(Key::Function), None);
    assert_eq!(code_from_key(Key::KpReturn), None);
    assert_eq!(code_from_key(Key::Unknown(0x1_0000)), None);
}

#[test]
fn extended_button_codes() {
    assert_eq!(button_from_code(0x01), Button::Forward);
    assert_eq!(button_from_code(0x02), Button::Backward);
    assert_eq!(button_from_code(0x00), Button::Unknown(0));
    assert_eq!(button_from_code(0x03), Button::Unknown(3));
    assert_eq!(button_from_code(0xFF), Button::Unknown(0xFF));
}
