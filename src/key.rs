//! Key identities and their numeric codes.

use vstd::prelude::*;

verus! {

/// A named key identity, as reported by the scancode decoder.
#[derive(Clone, Copy, Debug, PartialEq, Eq, Structural)]
pub enum Key {
    Reserved,
    ESC,
    One,
    Two,
    Three,
    Four,
    Five,
    Six,
    Seven,
    Eight,
    Nine,
    Zero,
    Minus,
    Equal,
    BackSpace,
    Tab,
    Q,
    W,
    E,
    R,
    T,
    Y,
    U,
    I,
    O,
    P,
    /// Symbol: [
    LeftBrace,
    /// Symbol: ]
    RightBrace,
    Enter,
    LeftCtrl,
    A,
    S,
    D,
    F,
    G,
    H,
    J,
    K,
    L,
    /// Symbol: ;
    SemiColon,
    /// Symbol: '
    Apostrophe,
    /// Symbol: `
    Grave,
    LeftShift,
    /// Symbol: \
    BackSlash,
    Z,
    X,
    C,
    V,
    B,
    N,
    M,
    Comma,
    Dot,
    /// Symbol: /
    Slash,
    RightShift,
    /// Keypad asterisk, Symbol: *
    KpAsterisk,
    LeftAlt,
    Space,
    Capslock,
    F1,
    F2,
    F3,
    F4,
    F5,
    F6,
    F7,
    F8,
    F9,
    F10,
    NumLock,
    ScrollLock,
    Kp7,
    Kp8,
    Kp9,
    KpMinus,
    Kp4,
    Kp5,
    Kp6,
    KpPlus,
    Kp1,
    Kp2,
    Kp3,
    Kp0,
    KpDot,
    F11,
    F12,
    KpEnter,
    RightCtrl,
    KpSlash,
    RightAlt,
    LineFeed,
    Home,
    Up,
    PageUp,
    Left,
    Right,
    End,
    Down,
    PageDown,
    Insert,
    Delete,
    LeftMeta,
}

impl Key {
    /// The fixed code bound to each key.
    pub open spec fn spec_code(self) -> u16 {
        match self {
            Key::Reserved => 0,
            Key::ESC => 1,
            Key::One => 2,
            Key::Two => 3,
            Key::Three => 4,
            Key::Four => 5,
            Key::Five => 6,
            Key::Six => 7,
            Key::Seven => 8,
            Key::Eight => 9,
            Key::Nine => 10,
            Key::Zero => 11,
            Key::Minus => 12,
            Key::Equal => 13,
            Key::BackSpace => 14,
            Key::Tab => 15,
            Key::Q => 16,
            Key::W => 17,
            Key::E => 18,
            Key::R => 19,
            Key::T => 20,
            Key::Y => 21,
            Key::U => 22,
            Key::I => 23,
            Key::O => 24,
            Key::P => 25,
            Key::LeftBrace => 26,
            Key::RightBrace => 27,
            Key::Enter => 28,
            Key::LeftCtrl => 29,
            Key::A => 30,
            Key::S => 31,
            Key::D => 32,
            Key::F => 33,
            Key::G => 34,
            Key::H => 35,
            Key::J => 36,
            Key::K => 37,
            Key::L => 38,
            Key::SemiColon => 39,
            Key::Apostrophe => 40,
            Key::Grave => 41,
            Key::LeftShift => 42,
            Key::BackSlash => 43,
            Key::Z => 44,
            Key::X => 45,
            Key::C => 46,
            Key::V => 47,
            Key::B => 48,
            Key::N => 49,
            Key::M => 50,
            Key::Comma => 51,
            Key::Dot => 52,
            Key::Slash => 53,
            Key::RightShift => 54,
            Key::KpAsterisk => 55,
            Key::LeftAlt => 56,
            Key::Space => 57,
            Key::Capslock => 58,
            Key::F1 => 59,
            Key::F2 => 60,
            Key::F3 => 61,
            Key::F4 => 62,
            Key::F5 => 63,
            Key::F6 => 64,
            Key::F7 => 65,
            Key::F8 => 66,
            Key::F9 => 67,
            Key::F10 => 68,
            Key::NumLock => 69,
            Key::ScrollLock => 70,
            Key::Kp7 => 71,
            Key::Kp8 => 72,
            Key::Kp9 => 73,
            Key::KpMinus => 74,
            Key::Kp4 => 75,
            Key::Kp5 => 76,
            Key::Kp6 => 77,
            Key::KpPlus => 78,
            Key::Kp1 => 79,
            Key::Kp2 => 80,
            Key::Kp3 => 81,
            Key::Kp0 => 82,
            Key::KpDot => 83,
            Key::F11 => 87,
            Key::F12 => 88,
            Key::KpEnter => 96,
            Key::RightCtrl => 97,
            Key::KpSlash => 98,
            Key::RightAlt => 100,
            Key::LineFeed => 101,
            Key::Home => 102,
            Key::Up => 103,
            Key::PageUp => 104,
            Key::Left => 105,
            Key::Right => 106,
            Key::End => 107,
            Key::Down => 108,
            Key::PageDown => 109,
            Key::Insert => 110,
            Key::Delete => 111,
            Key::LeftMeta => 125,
        }
    }

    /// The code bound to this key.
    pub fn code(&self) -> (r: u16)
        ensures
            r == self.spec_code(),
    {
        match self {
            Key::Reserved => 0,
            Key::ESC => 1,
            Key::One => 2,
            Key::Two => 3,
            Key::Three => 4,
            Key::Four => 5,
            Key::Five => 6,
            Key::Six => 7,
            Key::Seven => 8,
            Key::Eight => 9,
            Key::Nine => 10,
            Key::Zero => 11,
            Key::Minus => 12,
            Key::Equal => 13,
            Key::BackSpace => 14,
            Key::Tab => 15,
            Key::Q => 16,
            Key::W => 17,
            Key::E => 18,
            Key::R => 19,
            Key::T => 20,
            Key::Y => 21,
            Key::U => 22,
            Key::I => 23,
            Key::O => 24,
            Key::P => 25,
            Key::LeftBrace => 26,
            Key::RightBrace => 27,
            Key::Enter => 28,
            Key::LeftCtrl => 29,
            Key::A => 30,
            Key::S => 31,
            Key::D => 32,
            Key::F => 33,
            Key::G => 34,
            Key::H => 35,
            Key::J => 36,
            Key::K => 37,
            Key::L => 38,
            Key::SemiColon => 39,
            Key::Apostrophe => 40,
            Key::Grave => 41,
            Key::LeftShift => 42,
            Key::BackSlash => 43,
            Key::Z => 44,
            Key::X => 45,
            Key::C => 46,
            Key::V => 47,
            Key::B => 48,
            Key::N => 49,
            Key::M => 50,
            Key::Comma => 51,
            Key::Dot => 52,
            Key::Slash => 53,
            Key::RightShift => 54,
            Key::KpAsterisk => 55,
            Key::LeftAlt => 56,
            Key::Space => 57,
            Key::Capslock => 58,
            Key::F1 => 59,
            Key::F2 => 60,
            Key::F3 => 61,
            Key::F4 => 62,
            Key::F5 => 63,
            Key::F6 => 64,
            Key::F7 => 65,
            Key::F8 => 66,
            Key::F9 => 67,
            Key::F10 => 68,
            Key::NumLock => 69,
            Key::ScrollLock => 70,
            Key::Kp7 => 71,
            Key::Kp8 => 72,
            Key::Kp9 => 73,
            Key::KpMinus => 74,
            Key::Kp4 => 75,
            Key::Kp5 => 76,
            Key::Kp6 => 77,
            Key::KpPlus => 78,
            Key::Kp1 => 79,
            Key::Kp2 => 80,
            Key::Kp3 => 81,
            Key::Kp0 => 82,
            Key::KpDot => 83,
            Key::F11 => 87,
            Key::F12 => 88,
            Key::KpEnter => 96,
            Key::RightCtrl => 97,
            Key::KpSlash => 98,
            Key::RightAlt => 100,
            Key::LineFeed => 101,
            Key::Home => 102,
            Key::Up => 103,
            Key::PageUp => 104,
            Key::Left => 105,
            Key::Right => 106,
            Key::End => 107,
            Key::Down => 108,
            Key::PageDown => 109,
            Key::Insert => 110,
            Key::Delete => 111,
            Key::LeftMeta => 125,
        }
    }

    /// Looks a key up by its code; `None` for a code that no key carries.
    pub fn from_code(code: u16) -> (r: Option<Key>)
        ensures
            r.is_some() <==> is_key_code(code),
            r matches Some(k) ==> k.spec_code() == code,
    {
        match code {
            0 => Some(Key::Reserved),
            1 => Some(Key::ESC),
            2 => Some(Key::One),
            3 => Some(Key::Two),
            4 => Some(Key::Three),
            5 => Some(Key::Four),
            6 => Some(Key::Five),
            7 => Some(Key::Six),
            8 => Some(Key::Seven),
            9 => Some(Key::Eight),
            10 => Some(Key::Nine),
            11 => Some(Key::Zero),
            12 => Some(Key::Minus),
            13 => Some(Key::Equal),
            14 => Some(Key::BackSpace),
            15 => Some(Key::Tab),
            16 => Some(Key::Q),
            17 => Some(Key::W),
            18 => Some(Key::E),
            19 => Some(Key::R),
            20 => Some(Key::T),
            21 => Some(Key::Y),
            22 => Some(Key::U),
            23 => Some(Key::I),
            24 => Some(Key::O),
            25 => Some(Key::P),
            26 => Some(Key::LeftBrace),
            27 => Some(Key::RightBrace),
            28 => Some(Key::Enter),
            29 => Some(Key::LeftCtrl),
            30 => Some(Key::A),
            31 => Some(Key::S),
            32 => Some(Key::D),
            33 => Some(Key::F),
            34 => Some(Key::G),
            35 => Some(Key::H),
            36 => Some(Key::J),
            37 => Some(Key::K),
            38 => Some(Key::L),
            39 => Some(Key::SemiColon),
            40 => Some(Key::Apostrophe),
            41 => Some(Key::Grave),
            42 => Some(Key::LeftShift),
            43 => Some(Key::BackSlash),
            44 => Some(Key::Z),
            45 => Some(Key::X),
            46 => Some(Key::C),
            47 => Some(Key::V),
            48 => Some(Key::B),
            49 => Some(Key::N),
            50 => Some(Key::M),
            51 => Some(Key::Comma),
            52 => Some(Key::Dot),
            53 => Some(Key::Slash),
            54 => Some(Key::RightShift),
            55 => Some(Key::KpAsterisk),
            56 => Some(Key::LeftAlt),
            57 => Some(Key::Space),
            58 => Some(Key::Capslock),
            59 => Some(Key::F1),
            60 => Some(Key::F2),
            61 => Some(Key::F3),
            62 => Some(Key::F4),
            63 => Some(Key::F5),
            64 => Some(Key::F6),
            65 => Some(Key::F7),
            66 => Some(Key::F8),
            67 => Some(Key::F9),
            68 => Some(Key::F10),
            69 => Some(Key::NumLock),
            70 => Some(Key::ScrollLock),
            71 => Some(Key::Kp7),
            72 => Some(Key::Kp8),
            73 => Some(Key::Kp9),
            74 => Some(Key::KpMinus),
            75 => Some(Key::Kp4),
            76 => Some(Key::Kp5),
            77 => Some(Key::Kp6),
            78 => Some(Key::KpPlus),
            79 => Some(Key::Kp1),
            80 => Some(Key::Kp2),
            81 => Some(Key::Kp3),
            82 => Some(Key::Kp0),
            83 => Some(Key::KpDot),
            87 => Some(Key::F11),
            88 => Some(Key::F12),
            96 => Some(Key::KpEnter),
            97 => Some(Key::RightCtrl),
            98 => Some(Key::KpSlash),
            100 => Some(Key::RightAlt),
            101 => Some(Key::LineFeed),
            102 => Some(Key::Home),
            103 => Some(Key::Up),
            104 => Some(Key::PageUp),
            105 => Some(Key::Left),
            106 => Some(Key::Right),
            107 => Some(Key::End),
            108 => Some(Key::Down),
            109 => Some(Key::PageDown),
            110 => Some(Key::Insert),
            111 => Some(Key::Delete),
            125 => Some(Key::LeftMeta),
            _ => None,
        }
    }
}

/// The codes that some key carries.
pub open spec fn is_key_code(code: u16) -> bool {
    code <= 83 || code == 87 || code == 88 || (96 <= code <= 98) || (100 <= code <= 111)
        || code == 125
}

/// Whether a key is pressed or released.
#[derive(Clone, Copy, Debug, PartialEq, Eq, Structural)]
pub enum KeyStatus {
    Pressed,
    Released,
}

/// A decoded input event.
#[derive(Clone, Copy, Debug, PartialEq, Eq, Structural)]
pub enum InputEvent {
    KeyBoard(Key, KeyStatus),
}

} // verus!
