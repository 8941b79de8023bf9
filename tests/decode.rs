use ps2_input::decode::{decode, DecodeError};
use ps2_input::key::{InputEvent, Key, KeyStatus};

#[test]
fn press_codes_decode_to_presses() {
    assert_eq!(decode(0x1E), Ok(InputEvent::KeyBoard(Key::A, KeyStatus::Pressed)));
    assert_eq!(decode(0x01), Ok(InputEvent::KeyBoard(Key::ESC, KeyStatus::Pressed)));
    assert_eq!(decode(0x00), Ok(InputEvent::KeyBoard(Key::Reserved, KeyStatus::Pressed)));
    assert_eq!(decode(0x7D), Ok(InputEvent::KeyBoard(Key::LeftMeta, KeyStatus::Pressed)));
}

#[test]
fn release_codes_decode_to_releases() {
    assert_eq!(decode(0x9E), Ok(InputEvent::KeyBoard(Key::A, KeyStatus::Released)));
    assert_eq!(decode(0xAA), Ok(InputEvent::KeyBoard(Key::LeftShift, KeyStatus::Released)));
    assert_eq!(decode(0xD8), Ok(InputEvent::KeyBoard(Key::F12, KeyStatus::Released)));
}

#[test]
fn unknown_codes_are_errors() {
    assert_eq!(decode(0x80), Err(DecodeError::UnknownKey));
    assert_eq!(decode(0x54), Err(DecodeError::UnknownKey));
    assert_eq!(decode(0x80 + 0x54), Err(DecodeError::UnknownKey));
}

#[test]
fn extended_prefix_and_out_of_range_bytes_are_errors() {
    assert_eq!(decode(0xE0), Err(DecodeError::Extended));
    assert_eq!(decode(0xD9), Err(DecodeError::Unsupported));
    assert_eq!(decode(0xFF), Err(DecodeError::Unsupported));
}

#[test]
fn every_byte_decodes_by_its_range() {
    for b in 0u16..=255 {
        let b = b as u8;
        match decode(b) {
            Ok(InputEvent::KeyBoard(k, KeyStatus::Pressed)) => {
                assert!(b <= 0x80);
                assert_eq!(k.code(), b as u16);
            }
            Ok(InputEvent::KeyBoard(k, KeyStatus::Released)) => {
                assert!(b > 0x80 && b <= 0xD8);
                assert_eq!(k.code(), (b - 0x80) as u16);
            }
            Err(DecodeError::UnknownKey) => assert!(b <= 0xD8),
            Err(DecodeError::Extended) => assert_eq!(b, 0xE0),
            Err(DecodeError::Unsupported) => assert!(b > 0xD8 && b != 0xE0),
        }
    }
}

#[test]
fn key_codes_round_trip() {
    for c in 0u16..200 {
        if let Some(k) = Key::from_code(c) {
            assert_eq!(k.code(), c);
        }
    }
    assert_eq!(Key::from_code(84), None);
    assert_eq!(Key::from_code(126), None);
    assert_eq!(Key::from_code(103), Some(Key::Up));
}
