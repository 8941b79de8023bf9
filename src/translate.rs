//! Modifier-aware translation of key events into ASCII bytes.

use vstd::prelude::*;
use crate::key::{InputEvent, Key, KeyStatus};

verus! {

/// The byte that starts an escape sequence.
pub const ESC: u8 = 27;

/// What the translator remembers between events: each side's shift and
/// ctrl key, and the caps-lock toggle.
pub struct ModifierView {
    pub left_shift: bool,
    pub right_shift: bool,
    pub left_ctrl: bool,
    pub right_ctrl: bool,
    pub caps_lock: bool,
}

impl ModifierView {
    pub open spec fn shift(self) -> bool {
        self.left_shift || self.right_shift
    }

    pub open spec fn ctrl(self) -> bool {
        self.left_ctrl || self.right_ctrl
    }

    /// No key held and caps lock off.
    pub open spec fn is_initial(self) -> bool {
        !self.left_shift && !self.right_shift && !self.left_ctrl && !self.right_ctrl
            && !self.caps_lock
    }
}

/// The modifier state after one event.
pub open spec fn next_modifiers(m: ModifierView, key: Key, status: KeyStatus) -> ModifierView {
    let down = status == KeyStatus::Pressed;
    match key {
        Key::LeftShift => ModifierView { left_shift: down, ..m },
        Key::RightShift => ModifierView { right_shift: down, ..m },
        Key::LeftCtrl => ModifierView { left_ctrl: down, ..m },
        Key::RightCtrl => ModifierView { right_ctrl: down, ..m },
        Key::Capslock => if down {
            ModifierView { caps_lock: !m.caps_lock, ..m }
        } else {
            m
        },
        _ => m,
    }
}

/// Keys whose events only change the modifier state.
pub open spec fn is_modifier(key: Key) -> bool {
    key == Key::LeftShift || key == Key::RightShift || key == Key::LeftCtrl
        || key == Key::RightCtrl || key == Key::Capslock
}

/// Keypad keys, which ignore every modifier.
pub open spec fn is_keypad(key: Key) -> bool {
    match key {
        Key::Kp0 | Key::Kp1 | Key::Kp2 | Key::Kp3 | Key::Kp4 | Key::Kp5 | Key::Kp6 | Key::Kp7 | Key::Kp8 | Key::Kp9 | Key::KpAsterisk | Key::KpDot | Key::KpEnter | Key::KpMinus | Key::KpPlus | Key::KpSlash => true,
        _ => false,
    }
}

/// The unmodified ASCII byte of a key, if it has one.
pub open spec fn base_ascii(key: Key) -> Option<u8> {
    match key {
        Key::Enter => Some(13),
        Key::Tab => Some(9),
        Key::BackSpace => Some(8),
        Key::Space => Some(32),  //  
        Key::Apostrophe => Some(39),  // '
        Key::KpAsterisk => Some(42),  // *
        Key::KpPlus => Some(43),  // +
        Key::Comma => Some(44),  // ,
        Key::KpMinus => Some(45),  // -
        Key::Minus => Some(45),  // -
        Key::KpDot => Some(46),  // .
        Key::Dot => Some(46),  // .
        Key::KpSlash => Some(47),  // /
        Key::Slash => Some(47),  // /
        Key::LeftBrace => Some(91),  // [
        Key::RightBrace => Some(93),  // ]
        Key::BackSlash => Some(92),  // \
        Key::Kp0 => Some(48),  // 0
        Key::Kp1 => Some(49),  // 1
        Key::Kp2 => Some(50),  // 2
        Key::Kp3 => Some(51),  // 3
        Key::Kp4 => Some(52),  // 4
        Key::Kp5 => Some(53),  // 5
        Key::Kp6 => Some(54),  // 6
        Key::Kp7 => Some(55),  // 7
        Key::Kp8 => Some(56),  // 8
        Key::Kp9 => Some(57),  // 9
        Key::Zero => Some(48),  // 0
        Key::One => Some(49),  // 1
        Key::Two => Some(50),  // 2
        Key::Three => Some(51),  // 3
        Key::Four => Some(52),  // 4
        Key::Five => Some(53),  // 5
        Key::Six => Some(54),  // 6
        Key::Seven => Some(55),  // 7
        Key::Eight => Some(56),  // 8
        Key::Nine => Some(57),  // 9
        Key::SemiColon => Some(59),  // ;
        Key::Equal => Some(61),  // =
        Key::Grave => Some(96),  // `
        Key::A => Some(97),  // a
        Key::B => Some(98),  // b
        Key::C => Some(99),  // c
        Key::D => Some(100),  // d
        Key::E => Some(101),  // e
        Key::F => Some(102),  // f
        Key::G => Some(103),  // g
        Key::H => Some(104),  // h
        Key::I => Some(105),  // i
        Key::J => Some(106),  // j
        Key::K => Some(107),  // k
        Key::L => Some(108),  // l
        Key::M => Some(109),  // m
        Key::N => Some(110),  // n
        Key::O => Some(111),  // o
        Key::P => Some(112),  // p
        Key::Q => Some(113),  // q
        Key::R => Some(114),  // r
        Key::S => Some(115),  // s
        Key::T => Some(116),  // t
        Key::U => Some(117),  // u
        Key::V => Some(118),  // v
        Key::W => Some(119),  // w
        Key::X => Some(120),  // x
        Key::Y => Some(121),  // y
        Key::Z => Some(122),  // z
        _ => None,
    }
}

pub open spec fn is_lower(c: u8) -> bool {
    97 <= c <= 122  // a z
}

pub open spec fn is_upper(c: u8) -> bool {
    65 <= c <= 90  // A Z
}

pub open spec fn to_upper(c: u8) -> u8 {
    if is_lower(c) { (c - 32) as u8 } else { c }
}

/// Swaps the case of a letter; other bytes stay.
pub open spec fn flip_case(c: u8) -> u8 {
    if is_lower(c) {
        (c - 32) as u8
    } else if is_upper(c) {
        (c + 32) as u8
    } else {
        c
    }
}

/// The symbol that shift puts on a digit or punctuation key of a US layout.
pub open spec fn shift_symbol(c: u8) -> u8 {
    match c {
        96 => 126,  // ` ~
        49 => 33,  // 1 !
        50 => 64,  // 2 @
        51 => 35,  // 3 #
        52 => 36,  // 4 $
        53 => 37,  // 5 %
        54 => 94,  // 6 ^
        55 => 38,  // 7 &
        56 => 42,  // 8 *
        57 => 40,  // 9 (
        48 => 41,  // 0 )
        45 => 95,  // - _
        61 => 43,  // = +
        91 => 123,  // [ {
        93 => 125,  // ] }
        92 => 124,  // \ |
        59 => 58,  // ; :
        39 => 34,  // ' "
        44 => 60,  // , <
        46 => 62,  // . >
        47 => 63,  // / ?
        _ => c,
    }
}

/// The control code that ctrl makes of a letter or of `[ \ ] 6 -`.
pub open spec fn ctrl_code(c: u8) -> u8 {
    if is_upper(c) {
        (c - 65 + 1) as u8  // A
    } else if is_lower(c) {
        (c - 97 + 1) as u8  // a
    } else {
        match c {
            91 => 27,  // [
            92 => 28,  // \
            93 => 29,  // ]
            54 => 30,  // 6
            45 => 31,  // -
            _ => c,
        }
    }
}

/// A non-keypad byte after caps lock, then shift or else ctrl.
pub open spec fn modified(m: ModifierView, c: u8) -> u8 {
    let c1 = if m.caps_lock { to_upper(c) } else { c };
    if m.shift() {
        shift_symbol(flip_case(c1))
    } else if m.ctrl() {
        ctrl_code(c1)
    } else {
        c1
    }
}

/// The escape sequence of an arrow key: `ESC [ A` up to `ESC [ D`, null-padded.
pub open spec fn arrow_sequence(key: Key) -> Option<Seq<u8>> {
    match key {
        Key::Up => Some(seq![ESC, 91, 65, 0u8]),  // [ A
        Key::Down => Some(seq![ESC, 91, 66, 0u8]),  // [ B
        Key::Right => Some(seq![ESC, 91, 67, 0u8]),  // [ C
        Key::Left => Some(seq![ESC, 91, 68, 0u8]),  // [ D
        _ => None,
    }
}

/// What one event emits in modifier state `m`: up to four bytes, null-padded.
pub open spec fn output_of(m: ModifierView, key: Key, status: KeyStatus) -> Option<Seq<u8>> {
    if is_modifier(key) || status == KeyStatus::Released {
        None
    } else if arrow_sequence(key).is_some() {
        arrow_sequence(key)
    } else {
        match base_ascii(key) {
            None => None,
            Some(c) => if is_keypad(key) {
                Some(seq![c, 0u8, 0u8, 0u8])
            } else {
                Some(seq![modified(m, c), 0u8, 0u8, 0u8])
            },
        }
    }
}

/// An executable output agrees with its model.
pub open spec fn output_matches(r: Option<[u8; 4]>, s: Option<Seq<u8>>) -> bool {
    match (r, s) {
        (Some(a), Some(t)) => a@ == t,
        (None, None) => true,
        _ => false,
    }
}

fn base_ascii_of(key: Key) -> (r: Option<u8>)
    ensures
        r == base_ascii(key),
{
    match key {
        Key::Enter => Some(13),
        Key::Tab => Some(9),
        Key::BackSpace => Some(8),
        Key::Space => Some(32),  //  
        Key::Apostrophe => Some(39),  // '
        Key::KpAsterisk => Some(42),  // *
        Key::KpPlus => Some(43),  // +
        Key::Comma => Some(44),  // ,
        Key::KpMinus => Some(45),  // -
        Key::Minus => Some(45),  // -
        Key::KpDot => Some(46),  // .
        Key::Dot => Some(46),  // .
        Key::KpSlash => Some(47),  // /
        Key::Slash => Some(47),  // /
        Key::LeftBrace => Some(91),  // [
        Key::RightBrace => Some(93),  // ]
        Key::BackSlash => Some(92),  // \
        Key::Kp0 => Some(48),  // 0
        Key::Kp1 => Some(49),  // 1
        Key::Kp2 => Some(50),  // 2
        Key::Kp3 => Some(51),  // 3
        Key::Kp4 => Some(52),  // 4
        Key::Kp5 => Some(53),  // 5
        Key::Kp6 => Some(54),  // 6
        Key::Kp7 => Some(55),  // 7
        Key::Kp8 => Some(56),  // 8
        Key::Kp9 => Some(57),  // 9
        Key::Zero => Some(48),  // 0
        Key::One => Some(49),  // 1
        Key::Two => Some(50),  // 2
        Key::Three => Some(51),  // 3
        Key::Four => Some(52),  // 4
        Key::Five => Some(53),  // 5
        Key::Six => Some(54),  // 6
        Key::Seven => Some(55),  // 7
        Key::Eight => Some(56),  // 8
        Key::Nine => Some(57),  // 9
        Key::SemiColon => Some(59),  // ;
        Key::Equal => Some(61),  // =
        Key::Grave => Some(96),  // `
        Key::A => Some(97),  // a
        Key::B => Some(98),  // b
        Key::C => Some(99),  // c
        Key::D => Some(100),  // d
        Key::E => Some(101),  // e
        Key::F => Some(102),  // f
        Key::G => Some(103),  // g
        Key::H => Some(104),  // h
        Key::I => Some(105),  // i
        Key::J => Some(106),  // j
        Key::K => Some(107),  // k
        Key::L => Some(108),  // l
        Key::M => Some(109),  // m
        Key::N => Some(110),  // n
        Key::O => Some(111),  // o
        Key::P => Some(112),  // p
        Key::Q => Some(113),  // q
        Key::R => Some(114),  // r
        Key::S => Some(115),  // s
        Key::T => Some(116),  // t
        Key::U => Some(117),  // u
        Key::V => Some(118),  // v
        Key::W => Some(119),  // w
        Key::X => Some(120),  // x
        Key::Y => Some(121),  // y
        Key::Z => Some(122),  // z
        _ => None,
    }
}

fn shift_symbol_of(c: u8) -> (r: u8)
    ensures
        r == shift_symbol(c),
{
    match c {
        96 => 126,  // ` ~
        49 => 33,  // 1 !
        50 => 64,  // 2 @
        51 => 35,  // 3 #
        52 => 36,  // 4 $
        53 => 37,  // 5 %
        54 => 94,  // 6 ^
        55 => 38,  // 7 &
        56 => 42,  // 8 *
        57 => 40,  // 9 (
        48 => 41,  // 0 )
        45 => 95,  // - _
        61 => 43,  // = +
        91 => 123,  // [ {
        93 => 125,  // ] }
        92 => 124,  // \ |
        59 => 58,  // ; :
        39 => 34,  // ' "
        44 => 60,  // , <
        46 => 62,  // . >
        47 => 63,  // / ?
        _ => c,
    }
}

fn ctrl_code_of(c: u8) -> (r: u8)
    ensures
        r == ctrl_code(c),
{
    if 65 <= c && c <= 90 {  // A Z
        c - 65 + 1  // A
    } else if 97 <= c && c <= 122 {  // a z
        c - 97 + 1  // a
    } else {
        match c {
            91 => 27,  // [
            92 => 28,  // \
            93 => 29,  // ]
            54 => 30,  // 6
            45 => 31,  // -
            _ => c,
        }
    }
}

/// Converts keyboard input to ASCII, such as Ctrl+C to byte 3.
pub struct KeyToAscii {
    /// Left ctrl, right ctrl status
    ctrl_status: [KeyStatus; 2],
    /// Left shift, right shift status
    shift_status: [KeyStatus; 2],
    /// Caps lock toggle
    caps_lock_status: KeyStatus,
}

impl View for KeyToAscii {
    type V = ModifierView;

    closed spec fn view(&self) -> ModifierView {
        ModifierView {
            left_shift: self.shift_status@[0] == KeyStatus::Pressed,
            right_shift: self.shift_status@[1] == KeyStatus::Pressed,
            left_ctrl: self.ctrl_status@[0] == KeyStatus::Pressed,
            right_ctrl: self.ctrl_status@[1] == KeyStatus::Pressed,
            caps_lock: self.caps_lock_status == KeyStatus::Pressed,
        }
    }
}

fn is_pressed(s: KeyStatus) -> (r: bool)
    ensures
        r == (s == KeyStatus::Pressed),
{
    match s {
        KeyStatus::Pressed => true,
        KeyStatus::Released => false,
    }
}

impl KeyToAscii {
    /// A translator with no key held and caps lock off.
    pub fn new() -> (r: Self)
        ensures
            r@.is_initial(),
    {
        Self {
            ctrl_status: [KeyStatus::Released, KeyStatus::Released],
            shift_status: [KeyStatus::Released, KeyStatus::Released],
            caps_lock_status: KeyStatus::Released,
        }
    }

    /// Converts one input event to ASCII. Modifier events, releases and keys
    /// without a mapping give `None`.
    pub fn input(&mut self, event: InputEvent) -> (r: Option<[u8; 4]>)
        ensures
            ({
                let InputEvent::KeyBoard(key, status) = event;
                &&& final(self)@ == next_modifiers(old(self)@, key, status)
                &&& output_matches(r, output_of(old(self)@, key, status))
            }),
    {
        let InputEvent::KeyBoard(key, status) = event;
        match key {
            Key::LeftShift => {
                self.shift_status = [status, self.shift_status[1]];
                return None;
            },
            Key::RightShift => {
                self.shift_status = [self.shift_status[0], status];
                return None;
            },
            Key::LeftCtrl => {
                self.ctrl_status = [status, self.ctrl_status[1]];
                return None;
            },
            Key::RightCtrl => {
                self.ctrl_status = [self.ctrl_status[0], status];
                return None;
            },
            Key::Capslock => {
                if is_pressed(status) {
                    self.caps_lock_status = match self.caps_lock_status {
                        KeyStatus::Pressed => KeyStatus::Released,
                        KeyStatus::Released => KeyStatus::Pressed,
                    };
                }
                return None;
            },
            _ => {},
        }
        if !is_pressed(status) {
            return None;
        }
        let arrow = match key {
            Key::Up => Some(65),  // A
            Key::Down => Some(66),  // B
            Key::Right => Some(67),  // C
            Key::Left => Some(68),  // D
            _ => None,
        };
        if let Some(letter) = arrow {
            let seq_out = [ESC, 91, letter, 0];  // [
            assert(seq_out@ =~= arrow_sequence(key).unwrap());
            return Some(seq_out);
        }
        let keypad = match key {
            Key::Kp0 | Key::Kp1 | Key::Kp2 | Key::Kp3 | Key::Kp4 | Key::Kp5 | Key::Kp6 | Key::Kp7 | Key::Kp8 | Key::Kp9 | Key::KpAsterisk | Key::KpDot | Key::KpEnter | Key::KpMinus | Key::KpPlus | Key::KpSlash => true,
            _ => false,
        };
        let mut ascii = match base_ascii_of(key) {
            Some(c) => c,
            None => return None,
        };
        if keypad {
            let out = [ascii, 0, 0, 0];
            assert(out@ =~= seq![ascii, 0u8, 0u8, 0u8]);
            return Some(out);
        }
        // caps lock upper-cases letters
        if is_pressed(self.caps_lock_status) && 97 <= ascii && ascii <= 122 {  // a z
            ascii = ascii - 32;
        }
        if is_pressed(self.shift_status[0]) || is_pressed(self.shift_status[1]) {
            if 97 <= ascii && ascii <= 122 {  // a z
                ascii = ascii - 32;
            } else if 65 <= ascii && ascii <= 90 {  // A Z
                ascii = ascii + 32;
            }
            ascii = shift_symbol_of(ascii);
        } else if is_pressed(self.ctrl_status[0]) || is_pressed(self.ctrl_status[1]) {
            ascii = ctrl_code_of(ascii);
        }
        let out = [ascii, 0, 0, 0];
        assert(out@ =~= seq![ascii, 0u8, 0u8, 0u8]);
        Some(out)
    }
}

/// A key whose unmodified byte is a lower-case letter.
pub open spec fn is_letter_key(key: Key) -> bool {
    base_ascii(key) matches Some(c) && is_lower(c)
}

/// Pressing and releasing a shift key that was up leaves the state as it
/// was, so a following letter comes out unshifted; pressing shift alone makes
/// it upper case; and no modifier event emits anything.
pub proof fn lemma_shift_press_release(m: ModifierView, shift: Key, key: Key)
    requires
        shift == Key::LeftShift || shift == Key::RightShift,
        m.is_initial(),
        is_letter_key(key),
    ensures
        next_modifiers(next_modifiers(m, shift, KeyStatus::Pressed), shift, KeyStatus::Released)
            == m,
        output_of(
            next_modifiers(next_modifiers(m, shift, KeyStatus::Pressed), shift, KeyStatus::Released),
            key,
            KeyStatus::Pressed,
        ) == Some(seq![base_ascii(key).unwrap(), 0u8, 0u8, 0u8]),
        output_of(next_modifiers(m, shift, KeyStatus::Pressed), key, KeyStatus::Pressed) == Some(
            seq![(base_ascii(key).unwrap() - 32) as u8, 0u8, 0u8, 0u8],
        ),
{
}

/// A modifier event, press or release, emits nothing.
pub proof fn lemma_modifier_silent(m: ModifierView, key: Key, status: KeyStatus)
    requires
        is_modifier(key),
    ensures
        output_of(m, key, status).is_none(),
{
}

/// Two caps-lock presses in a row restore the modifier state, and with it
/// the output of every later event.
pub proof fn lemma_caps_lock_twice(m: ModifierView, key: Key, status: KeyStatus)
    ensures
        next_modifiers(next_modifiers(m, Key::Capslock, KeyStatus::Pressed), Key::Capslock, KeyStatus::Pressed) == m,
        output_of(
            next_modifiers(next_modifiers(m, Key::Capslock, KeyStatus::Pressed), Key::Capslock, KeyStatus::Pressed),
            key,
            status,
        ) == output_of(m, key, status),
{
}

/// With no shift held, ctrl with C gives ETX (3) and ctrl with `[` gives ESC,
/// whatever caps lock says.
pub proof fn lemma_ctrl_chords(m: ModifierView, ctrl: Key)
    requires
        ctrl == Key::LeftCtrl || ctrl == Key::RightCtrl,
        !m.shift(),
    ensures
        output_of(next_modifiers(m, ctrl, KeyStatus::Pressed), Key::C, KeyStatus::Pressed) == Some(
            seq![3u8, 0u8, 0u8, 0u8],
        ),
        output_of(next_modifiers(m, ctrl, KeyStatus::Pressed), Key::LeftBrace, KeyStatus::Pressed)
            == Some(seq![ESC, 0u8, 0u8, 0u8]),
{
}

/// Arrow keys give their escape sequences in every modifier state.
pub proof fn lemma_arrow_keys(m: ModifierView)
    ensures
        output_of(m, Key::Up, KeyStatus::Pressed) == Some(seq![ESC, 91u8, 65u8, 0u8]),
        output_of(m, Key::Down, KeyStatus::Pressed) == Some(seq![ESC, 91u8, 66u8, 0u8]),
        output_of(m, Key::Right, KeyStatus::Pressed) == Some(seq![ESC, 91u8, 67u8, 0u8]),
        output_of(m, Key::Left, KeyStatus::Pressed) == Some(seq![ESC, 91u8, 68u8, 0u8]),
{
}

} // verus!
