use ps2_input::key::{InputEvent, Key, KeyStatus};
use ps2_input::translate::KeyToAscii;

fn press(t: &mut KeyToAscii, k: Key) -> Option<[u8; 4]> {
    t.input(InputEvent::KeyBoard(k, KeyStatus::Pressed))
}

fn release(t: &mut KeyToAscii, k: Key) -> Option<[u8; 4]> {
    t.input(InputEvent::KeyBoard(k, KeyStatus::Released))
}

#[test]
fn plain_letter_is_lower_case() {
    let mut t = KeyToAscii::new();
    assert_eq!(press(&mut t, Key::Q), Some([b'q', 0, 0, 0]));
    assert_eq!(release(&mut t, Key::Q), None);
}

#[test]
fn shift_press_release_leaves_letters_unshifted() {
    let mut t = KeyToAscii::new();
    assert_eq!(press(&mut t, Key::LeftShift), None);
    assert_eq!(release(&mut t, Key::LeftShift), None);
    assert_eq!(press(&mut t, Key::A), Some([b'a', 0, 0, 0]));
}

#[test]
fn shift_held_gives_upper_case_and_symbols() {
    let mut t = KeyToAscii::new();
    assert_eq!(press(&mut t, Key::RightShift), None);
    assert_eq!(press(&mut t, Key::A), Some([b'A', 0, 0, 0]));
    assert_eq!(press(&mut t, Key::One), Some([b'!', 0, 0, 0]));
    assert_eq!(press(&mut t, Key::Slash), Some([b'?', 0, 0, 0]));
    assert_eq!(press(&mut t, Key::Grave), Some([b'~', 0, 0, 0]));
    assert_eq!(press(&mut t, Key::Apostrophe), Some([b'"', 0, 0, 0]));
}

#[test]
fn modifier_release_emits_nothing() {
    let mut t = KeyToAscii::new();
    for k in [Key::LeftShift, Key::RightShift, Key::LeftCtrl, Key::RightCtrl, Key::Capslock] {
        assert_eq!(press(&mut t, k), None);
        assert_eq!(release(&mut t, k), None);
    }
}

#[test]
fn caps_lock_twice_restores_case() {
    let mut t = KeyToAscii::new();
    press(&mut t, Key::Capslock);
    release(&mut t, Key::Capslock);
    assert_eq!(press(&mut t, Key::B), Some([b'B', 0, 0, 0]));
    press(&mut t, Key::Capslock);
    release(&mut t, Key::Capslock);
    assert_eq!(press(&mut t, Key::B), Some([b'b', 0, 0, 0]));
}

#[test]
fn caps_lock_with_shift_gives_lower_case() {
    let mut t = KeyToAscii::new();
    press(&mut t, Key::Capslock);
    press(&mut t, Key::LeftShift);
    assert_eq!(press(&mut t, Key::M), Some([b'm', 0, 0, 0]));
    assert_eq!(press(&mut t, Key::Two), Some([b'@', 0, 0, 0]));
}

#[test]
fn ctrl_chords_give_control_codes() {
    let mut t = KeyToAscii::new();
    press(&mut t, Key::LeftCtrl);
    assert_eq!(press(&mut t, Key::C), Some([3, 0, 0, 0]));
    assert_eq!(press(&mut t, Key::LeftBrace), Some([0x1B, 0, 0, 0]));
    assert_eq!(press(&mut t, Key::BackSlash), Some([0x1C, 0, 0, 0]));
    assert_eq!(press(&mut t, Key::RightBrace), Some([0x1D, 0, 0, 0]));
    assert_eq!(press(&mut t, Key::Six), Some([0x1E, 0, 0, 0]));
    assert_eq!(press(&mut t, Key::Minus), Some([0x1F, 0, 0, 0]));
    assert_eq!(press(&mut t, Key::Z), Some([26, 0, 0, 0]));
    assert_eq!(press(&mut t, Key::Comma), Some([b',', 0, 0, 0]));
    release(&mut t, Key::LeftCtrl);
    assert_eq!(press(&mut t, Key::C), Some([b'c', 0, 0, 0]));
}

#[test]
fn right_ctrl_with_caps_lock_still_gives_etx() {
    let mut t = KeyToAscii::new();
    press(&mut t, Key::Capslock);
    press(&mut t, Key::RightCtrl);
    assert_eq!(press(&mut t, Key::C), Some([3, 0, 0, 0]));
}

#[test]
fn shift_takes_precedence_over_ctrl() {
    let mut t = KeyToAscii::new();
    press(&mut t, Key::LeftCtrl);
    press(&mut t, Key::LeftShift);
    assert_eq!(press(&mut t, Key::C), Some([b'C', 0, 0, 0]));
}

#[test]
fn arrow_keys_give_escape_sequences() {
    let mut t = KeyToAscii::new();
    assert_eq!(press(&mut t, Key::Up), Some([0x1B, b'[', b'A', 0]));
    assert_eq!(press(&mut t, Key::Down), Some([0x1B, b'[', b'B', 0]));
    assert_eq!(press(&mut t, Key::Right), Some([0x1B, b'[', b'C', 0]));
    assert_eq!(press(&mut t, Key::Left), Some([0x1B, b'[', b'D', 0]));
    press(&mut t, Key::LeftShift);
    assert_eq!(press(&mut t, Key::Left), Some([0x1B, b'[', b'D', 0]));
    assert_eq!(release(&mut t, Key::Up), None);
}

#[test]
fn keypad_ignores_modifiers() {
    let mut t = KeyToAscii::new();
    press(&mut t, Key::LeftShift);
    press(&mut t, Key::LeftCtrl);
    assert_eq!(press(&mut t, Key::KpMinus), Some([b'-', 0, 0, 0]));
    assert_eq!(press(&mut t, Key::KpAsterisk), Some([b'*', 0, 0, 0]));
    assert_eq!(press(&mut t, Key::KpSlash), Some([b'/', 0, 0, 0]));
    assert_eq!(press(&mut t, Key::Kp7), Some([b'7', 0, 0, 0]));
    assert_eq!(press(&mut t, Key::Kp0), Some([b'0', 0, 0, 0]));
    assert_eq!(press(&mut t, Key::KpEnter), None);
}

#[test]
fn special_keys_map_to_control_bytes() {
    let mut t = KeyToAscii::new();
    assert_eq!(press(&mut t, Key::Enter), Some([b'\r', 0, 0, 0]));
    assert_eq!(press(&mut t, Key::Tab), Some([b'\t', 0, 0, 0]));
    assert_eq!(press(&mut t, Key::BackSpace), Some([8, 0, 0, 0]));
    assert_eq!(press(&mut t, Key::Space), Some([b' ', 0, 0, 0]));
    assert_eq!(press(&mut t, Key::F1), None);
    assert_eq!(press(&mut t, Key::ESC), None);
}
