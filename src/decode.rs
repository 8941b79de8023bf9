//! Decoding of raw scancode bytes into key events.

use vstd::prelude::*;
use crate::key::{is_key_code, InputEvent, Key, KeyStatus};

verus! {

/// Why a byte did not decode.
#[derive(Clone, Copy, Debug, PartialEq, Eq, Structural)]
pub enum DecodeError {
    /// The byte is in a press or release range, but no key carries its code.
    UnknownKey,
    /// The extended-code prefix `0xE0`, which this decoder does not handle.
    Extended,
    /// A byte outside every range of the scheme.
    Unsupported,
}

/// The highest byte that reports a press.
pub const LAST_PRESS: u8 = 0x80;

/// The highest byte that reports a release.
pub const LAST_RELEASE: u8 = 0xD8;

/// The prefix of an extended scancode.
pub const EXTENDED_PREFIX: u8 = 0xE0;

/// Decodes one raw byte: up to `0x80` a press of the key with that code,
/// up to `0xD8` a release of the key with the byte's code less `0x80`.
pub fn decode(b: u8) -> (r: Result<InputEvent, DecodeError>)
    ensures
        b <= LAST_PRESS ==> (r is Ok <==> is_key_code(b as u16)),
        b <= LAST_PRESS ==> (r matches Ok(InputEvent::KeyBoard(k, s)) ==> k.spec_code() == b as u16
            && s == KeyStatus::Pressed),
        LAST_PRESS < b <= LAST_RELEASE ==> (r is Ok <==> is_key_code((b - LAST_PRESS) as u16)),
        LAST_PRESS < b <= LAST_RELEASE ==> (r matches Ok(InputEvent::KeyBoard(k, s))
            ==> k.spec_code() == (b - LAST_PRESS) as u16 && s == KeyStatus::Released),
        (b <= LAST_RELEASE && r is Err) ==> r == Err::<InputEvent, DecodeError>(
            DecodeError::UnknownKey,
        ),
        b == EXTENDED_PREFIX ==> r == Err::<InputEvent, DecodeError>(DecodeError::Extended),
        (b > LAST_RELEASE && b != EXTENDED_PREFIX) ==> r == Err::<InputEvent, DecodeError>(
            DecodeError::Unsupported,
        ),
{
    if b <= LAST_PRESS {
        match Key::from_code(b as u16) {
            Some(k) => Ok(InputEvent::KeyBoard(k, KeyStatus::Pressed)),
            None => Err(DecodeError::UnknownKey),
        }
    } else if b <= LAST_RELEASE {
        match Key::from_code((b - LAST_PRESS) as u16) {
            Some(k) => Ok(InputEvent::KeyBoard(k, KeyStatus::Released)),
            None => Err(DecodeError::UnknownKey),
        }
    } else if b == EXTENDED_PREFIX {
        Err(DecodeError::Extended)
    } else {
        Err(DecodeError::Unsupported)
    }
}

} // verus!
