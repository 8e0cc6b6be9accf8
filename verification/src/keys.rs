//! The key vocabulary of the keypad: every key and modifier the device can
//! emit, together with the 16-bit code that stands for it on the wire.
//!
//! Key codes carry the marker `0xF000` in their high nibble and modifier
//! codes carry `0xE000`, so the two families can never be confused.
use vstd::prelude::*;

verus! {

/// Number of keys in the vocabulary.
pub const KEY_COUNT: usize = 110;

/// Marker carried by the high nibble of every key code.
pub const KEY_TAG: u16 = 0xF000;

/// Marker carried by the high nibble of every modifier code.
pub const MODIFIER_TAG: u16 = 0xE000;

/// A modifier flag of the wire vocabulary.
#[derive(Clone, Copy, Debug, PartialEq, Eq, Structural)]
pub enum ModifierKey {
    LeftCtrl,
    LeftShift,
    LeftAlt,
    LeftGui,
    RightCtrl,
    RightShift,
    RightAlt,
    RightGui,
}

/// A physical key the keypad can emit.
#[derive(Clone, Copy, Debug, PartialEq, Eq, Structural)]
pub enum Key {
    A,
    B,
    C,
    D,
    E,
    F,
    G,
    H,
    I,
    J,
    K,
    L,
    M,
    N,
    O,
    P,
    Q,
    R,
    S,
    T,
    U,
    V,
    W,
    X,
    Y,
    Z,
    Key1,
    Key2,
    Key3,
    Key4,
    Key5,
    Key6,
    Key7,
    Key8,
    Key9,
    Key0,
    Enter,
    Esc,
    Backspace,
    Tab,
    Space,
    Minus,
    Equal,
    LeftBrace,
    RightBrace,
    Backslash,
    NonUsNum,
    Semicolon,
    Guote,
    Tilde,
    Comma,
    Period,
    Slash,
    CapsLock,
    F1,
    F2,
    F3,
    F4,
    F5,
    F6,
    F7,
    F8,
    F9,
    F10,
    F11,
    F12,
    PrintScreen,
    ScrollLock,
    Pause,
    Insert,
    Home,
    PageUp,
    Delete,
    End,
    PageDown,
    Right,
    Left,
    Down,
    Up,
    NumLock,
    KeyPadSlash,
    KeyPadAsterix,
    KeyPadMinus,
    KeyPadPlus,
    KeyPadEnter,
    KeyPad1,
    KeyPad2,
    KeyPad3,
    KeyPad4,
    KeyPad5,
    KeyPad6,
    KeyPad7,
    KeyPad8,
    KeyPad9,
    KeyPad0,
    KeyPadPeriod,
    NonUsBs,
    Menu,
    F13,
    F14,
    F15,
    F16,
    F17,
    F18,
    F19,
    F20,
    F21,
    F22,
    F23,
    F24,
}

/// Whether `code` carries the key marker in its high nibble.
pub open spec fn has_key_tag(code: u16) -> bool {
    code & 0xF000 == KEY_TAG
}

/// Whether `code` carries the modifier marker in its high nibble.
pub open spec fn has_modifier_tag(code: u16) -> bool {
    code & 0xF000 == MODIFIER_TAG
}

impl ModifierKey {
    /// The wire code of this modifier: its flag bit under the modifier marker.
    pub open spec fn spec_code(self) -> u16 {
        match self {
            ModifierKey::LeftCtrl => 0xE001,
            ModifierKey::LeftShift => 0xE002,
            ModifierKey::LeftAlt => 0xE004,
            ModifierKey::LeftGui => 0xE008,
            ModifierKey::RightCtrl => 0xE010,
            ModifierKey::RightShift => 0xE020,
            ModifierKey::RightAlt => 0xE040,
            ModifierKey::RightGui => 0xE080,
        }
    }

    /// The modifier that `code` stands for, if there is one.
    pub open spec fn spec_from_u16(code: u16) -> Option<ModifierKey> {
        if exists|m: ModifierKey| m.spec_code() == code {
            Some(choose|m: ModifierKey| m.spec_code() == code)
        } else {
            None
        }
    }

    /// Position of this modifier in declaration order.
    pub open spec fn ordinal(self) -> int {
        match self {
            ModifierKey::LeftCtrl => 0,
            ModifierKey::LeftShift => 1,
            ModifierKey::LeftAlt => 2,
            ModifierKey::LeftGui => 3,
            ModifierKey::RightCtrl => 4,
            ModifierKey::RightShift => 5,
            ModifierKey::RightAlt => 6,
            ModifierKey::RightGui => 7,
        }
    }

    /// The wire code of this modifier.
    pub fn code(self) -> (c: u16)
        ensures
            c == self.spec_code(),
    {
        match self {
            ModifierKey::LeftCtrl => 0xE001,
            ModifierKey::LeftShift => 0xE002,
            ModifierKey::LeftAlt => 0xE004,
            ModifierKey::LeftGui => 0xE008,
            ModifierKey::RightCtrl => 0xE010,
            ModifierKey::RightShift => 0xE020,
            ModifierKey::RightAlt => 0xE040,
            ModifierKey::RightGui => 0xE080,
        }
    }

    /// Looks a wire code up in the modifier vocabulary. Only an exact match
    /// yields a modifier; nothing is substituted for an unknown code.
    pub fn from_u16(code: u16) -> (r: Option<ModifierKey>)
        ensures
            r == ModifierKey::spec_from_u16(code),
            r matches Some(m) ==> m.spec_code() == code,
            r is None ==> forall|m: ModifierKey| m.spec_code() != code,
    {
        let r = match code {
            0xE001 => Some(ModifierKey::LeftCtrl),
            0xE002 => Some(ModifierKey::LeftShift),
            0xE004 => Some(ModifierKey::LeftAlt),
            0xE008 => Some(ModifierKey::LeftGui),
            0xE010 => Some(ModifierKey::RightCtrl),
            0xE020 => Some(ModifierKey::RightShift),
            0xE040 => Some(ModifierKey::RightAlt),
            0xE080 => Some(ModifierKey::RightGui),
            _ => None,
        };
        proof {
            if let Some(m) = r {
                assert(m.spec_code() == code);
                ModifierKey::lemma_code_injective(m, choose|x: ModifierKey| x.spec_code() == code);
            }
        }
        r
    }

    /// All modifiers, in declaration order.
    pub fn all() -> (v: Vec<ModifierKey>)
        ensures
            v@.len() == 8,
            forall|i: int| 0 <= i < 8 ==> (#[trigger] v@[i]).ordinal() == i,
    {
        vec![
            ModifierKey::LeftCtrl,
            ModifierKey::LeftShift,
            ModifierKey::LeftAlt,
            ModifierKey::LeftGui,
            ModifierKey::RightCtrl,
            ModifierKey::RightShift,
            ModifierKey::RightAlt,
            ModifierKey::RightGui,
        ]
    }

    /// Two modifiers with the same wire code are the same modifier.
    pub proof fn lemma_code_injective(a: ModifierKey, b: ModifierKey)
        requires
            a.spec_code() == b.spec_code(),
        ensures
            a == b,
    {
    }

    /// Every modifier code carries the modifier marker, and none carries the
    /// key marker.
    pub proof fn lemma_code_tagged(m: ModifierKey)
        ensures
            has_modifier_tag(m.spec_code()),
            !has_key_tag(m.spec_code()),
    {
        let c = m.spec_code();
        assert(0xE000 <= c < 0xF000 ==> (c & 0xF000 == 0xE000)) by (bit_vector);
    }
}

impl Key {
    /// The wire code of this key: its usage number under the key marker.
    pub open spec fn spec_code(self) -> u16 {
        match self {
            Key::A => 0xF004,
            Key::B => 0xF005,
            Key::C => 0xF006,
            Key::D => 0xF007,
            Key::E => 0xF008,
            Key::F => 0xF009,
            Key::G => 0xF00A,
            Key::H => 0xF00B,
            Key::I => 0xF00C,
            Key::J => 0xF00D,
            Key::K => 0xF00E,
            Key::L => 0xF00F,
            Key::M => 0xF010,
            Key::N => 0xF011,
            Key::O => 0xF012,
            Key::P => 0xF013,
            Key::Q => 0xF014,
            Key::R => 0xF015,
            Key::S => 0xF016,
            Key::T => 0xF017,
            Key::U => 0xF018,
            Key::V => 0xF019,
            Key::W => 0xF01A,
            Key::X => 0xF01B,
            Key::Y => 0xF01C,
            Key::Z => 0xF01D,
            Key::Key1 => 0xF01E,
            Key::Key2 => 0xF01F,
            Key::Key3 => 0xF020,
            Key::Key4 => 0xF021,
            Key::Key5 => 0xF022,
            Key::Key6 => 0xF023,
            Key::Key7 => 0xF024,
            Key::Key8 => 0xF025,
            Key::Key9 => 0xF026,
            Key::Key0 => 0xF027,
            Key::Enter => 0xF028,
            Key::Esc => 0xF029,
            Key::Backspace => 0xF02A,
            Key::Tab => 0xF02B,
            Key::Space => 0xF02C,
            Key::Minus => 0xF02D,
            Key::Equal => 0xF02E,
            Key::LeftBrace => 0xF02F,
            Key::RightBrace => 0xF030,
            Key::Backslash => 0xF031,
            Key::NonUsNum => 0xF032,
            Key::Semicolon => 0xF033,
            Key::Guote => 0xF034,
            Key::Tilde => 0xF035,
            Key::Comma => 0xF036,
            Key::Period => 0xF037,
            Key::Slash => 0xF038,
            Key::CapsLock => 0xF039,
            Key::F1 => 0xF03A,
            Key::F2 => 0xF03B,
            Key::F3 => 0xF03C,
            Key::F4 => 0xF03D,
            Key::F5 => 0xF03E,
            Key::F6 => 0xF03F,
            Key::F7 => 0xF040,
            Key::F8 => 0xF041,
            Key::F9 => 0xF042,
            Key::F10 => 0xF043,
            Key::F11 => 0xF044,
            Key::F12 => 0xF045,
            Key::PrintScreen => 0xF046,
            Key::ScrollLock => 0xF047,
            Key::Pause => 0xF048,
            Key::Insert => 0xF049,
            Key::Home => 0xF04A,
            Key::PageUp => 0xF04B,
            Key::Delete => 0xF04C,
            Key::End => 0xF04D,
            Key::PageDown => 0xF04E,
            Key::Right => 0xF04F,
            Key::Left => 0xF050,
            Key::Down => 0xF051,
            Key::Up => 0xF052,
            Key::NumLock => 0xF053,
            Key::KeyPadSlash => 0xF054,
            Key::KeyPadAsterix => 0xF055,
            Key::KeyPadMinus => 0xF056,
            Key::KeyPadPlus => 0xF057,
            Key::KeyPadEnter => 0xF058,
            Key::KeyPad1 => 0xF059,
            Key::KeyPad2 => 0xF05A,
            Key::KeyPad3 => 0xF05B,
            Key::KeyPad4 => 0xF05C,
            Key::KeyPad5 => 0xF05D,
            Key::KeyPad6 => 0xF05E,
            Key::KeyPad7 => 0xF05F,
            Key::KeyPad8 => 0xF060,
            Key::KeyPad9 => 0xF061,
            Key::KeyPad0 => 0xF062,
            Key::KeyPadPeriod => 0xF063,
            Key::NonUsBs => 0xF064,
            Key::Menu => 0xF065,
            Key::F13 => 0xF068,
            Key::F14 => 0xF069,
            Key::F15 => 0xF06A,
            Key::F16 => 0xF06B,
            Key::F17 => 0xF06C,
            Key::F18 => 0xF06D,
            Key::F19 => 0xF06E,
            Key::F20 => 0xF06F,
            Key::F21 => 0xF070,
            Key::F22 => 0xF071,
            Key::F23 => 0xF072,
            Key::F24 => 0xF073,
        }
    }

    /// Position of this key in declaration order.
    pub open spec fn ordinal(self) -> int {
        match self {
            Key::A => 0,
            Key::B => 1,
            Key::C => 2,
            Key::D => 3,
            Key::E => 4,
            Key::F => 5,
            Key::G => 6,
            Key::H => 7,
            Key::I => 8,
            Key::J => 9,
            Key::K => 10,
            Key::L => 11,
            Key::M => 12,
            Key::N => 13,
            Key::O => 14,
            Key::P => 15,
            Key::Q => 16,
            Key::R => 17,
            Key::S => 18,
            Key::T => 19,
            Key::U => 20,
            Key::V => 21,
            Key::W => 22,
            Key::X => 23,
            Key::Y => 24,
            Key::Z => 25,
            Key::Key1 => 26,
            Key::Key2 => 27,
            Key::Key3 => 28,
            Key::Key4 => 29,
            Key::Key5 => 30,
            Key::Key6 => 31,
            Key::Key7 => 32,
            Key::Key8 => 33,
            Key::Key9 => 34,
            Key::Key0 => 35,
            Key::Enter => 36,
            Key::Esc => 37,
            Key::Backspace => 38,
            Key::Tab => 39,
            Key::Space => 40,
            Key::Minus => 41,
            Key::Equal => 42,
            Key::LeftBrace => 43,
            Key::RightBrace => 44,
            Key::Backslash => 45,
            Key::NonUsNum => 46,
            Key::Semicolon => 47,
            Key::Guote => 48,
            Key::Tilde => 49,
            Key::Comma => 50,
            Key::Period => 51,
            Key::Slash => 52,
            Key::CapsLock => 53,
            Key::F1 => 54,
            Key::F2 => 55,
            Key::F3 => 56,
            Key::F4 => 57,
            Key::F5 => 58,
            Key::F6 => 59,
            Key::F7 => 60,
            Key::F8 => 61,
            Key::F9 => 62,
            Key::F10 => 63,
            Key::F11 => 64,
            Key::F12 => 65,
            Key::PrintScreen => 66,
            Key::ScrollLock => 67,
            Key::Pause => 68,
            Key::Insert => 69,
            Key::Home => 70,
            Key::PageUp => 71,
            Key::Delete => 72,
            Key::End => 73,
            Key::PageDown => 74,
            Key::Right => 75,
            Key::Left => 76,
            Key::Down => 77,
            Key::Up => 78,
            Key::NumLock => 79,
            Key::KeyPadSlash => 80,
            Key::KeyPadAsterix => 81,
            Key::KeyPadMinus => 82,
            Key::KeyPadPlus => 83,
            Key::KeyPadEnter => 84,
            Key::KeyPad1 => 85,
            Key::KeyPad2 => 86,
            Key::KeyPad3 => 87,
            Key::KeyPad4 => 88,
            Key::KeyPad5 => 89,
            Key::KeyPad6 => 90,
            Key::KeyPad7 => 91,
            Key::KeyPad8 => 92,
            Key::KeyPad9 => 93,
            Key::KeyPad0 => 94,
            Key::KeyPadPeriod => 95,
            Key::NonUsBs => 96,
            Key::Menu => 97,
            Key::F13 => 98,
            Key::F14 => 99,
            Key::F15 => 100,
            Key::F16 => 101,
            Key::F17 => 102,
            Key::F18 => 103,
            Key::F19 => 104,
            Key::F20 => 105,
            Key::F21 => 106,
            Key::F22 => 107,
            Key::F23 => 108,
            Key::F24 => 109,
        }
    }

    /// The key at position `idx` in declaration order.
    pub open spec fn at(idx: int) -> Key
        recommends
            0 <= idx < KEY_COUNT,
    {
        choose|k: Key| k.ordinal() == idx
    }

    /// The key that `code` stands for, if there is one.
    pub open spec fn spec_from_u16(code: u16) -> Option<Key> {
        if exists|k: Key| k.spec_code() == code {
            Some(choose|k: Key| k.spec_code() == code)
        } else {
            None
        }
    }

    /// The wire code of this key.
    pub fn code(self) -> (c: u16)
        ensures
            c == self.spec_code(),
    {
        match self {
            Key::A => 0xF004,
            Key::B => 0xF005,
            Key::C => 0xF006,
            Key::D => 0xF007,
            Key::E => 0xF008,
            Key::F => 0xF009,
            Key::G => 0xF00A,
            Key::H => 0xF00B,
            Key::I => 0xF00C,
            Key::J => 0xF00D,
            Key::K => 0xF00E,
            Key::L => 0xF00F,
            Key::M => 0xF010,
            Key::N => 0xF011,
            Key::O => 0xF012,
            Key::P => 0xF013,
            Key::Q => 0xF014,
            Key::R => 0xF015,
            Key::S => 0xF016,
            Key::T => 0xF017,
            Key::U => 0xF018,
            Key::V => 0xF019,
            Key::W => 0xF01A,
            Key::X => 0xF01B,
            Key::Y => 0xF01C,
            Key::Z => 0xF01D,
            Key::Key1 => 0xF01E,
            Key::Key2 => 0xF01F,
            Key::Key3 => 0xF020,
            Key::Key4 => 0xF021,
            Key::Key5 => 0xF022,
            Key::Key6 => 0xF023,
            Key::Key7 => 0xF024,
            Key::Key8 => 0xF025,
            Key::Key9 => 0xF026,
            Key::Key0 => 0xF027,
            Key::Enter => 0xF028,
            Key::Esc => 0xF029,
            Key::Backspace => 0xF02A,
            Key::Tab => 0xF02B,
            Key::Space => 0xF02C,
            Key::Minus => 0xF02D,
            Key::Equal => 0xF02E,
            Key::LeftBrace => 0xF02F,
            Key::RightBrace => 0xF030,
            Key::Backslash => 0xF031,
            Key::NonUsNum => 0xF032,
            Key::Semicolon => 0xF033,
            Key::Guote => 0xF034,
            Key::Tilde => 0xF035,
            Key::Comma => 0xF036,
            Key::Period => 0xF037,
            Key::Slash => 0xF038,
            Key::CapsLock => 0xF039,
            Key::F1 => 0xF03A,
            Key::F2 => 0xF03B,
            Key::F3 => 0xF03C,
            Key::F4 => 0xF03D,
            Key::F5 => 0xF03E,
            Key::F6 => 0xF03F,
            Key::F7 => 0xF040,
            Key::F8 => 0xF041,
            Key::F9 => 0xF042,
            Key::F10 => 0xF043,
            Key::F11 => 0xF044,
            Key::F12 => 0xF045,
            Key::PrintScreen => 0xF046,
            Key::ScrollLock => 0xF047,
            Key::Pause => 0xF048,
            Key::Insert => 0xF049,
            Key::Home => 0xF04A,
            Key::PageUp => 0xF04B,
            Key::Delete => 0xF04C,
            Key::End => 0xF04D,
            Key::PageDown => 0xF04E,
            Key::Right => 0xF04F,
            Key::Left => 0xF050,
            Key::Down => 0xF051,
            Key::Up => 0xF052,
            Key::NumLock => 0xF053,
            Key::KeyPadSlash => 0xF054,
            Key::KeyPadAsterix => 0xF055,
            Key::KeyPadMinus => 0xF056,
            Key::KeyPadPlus => 0xF057,
            Key::KeyPadEnter => 0xF058,
            Key::KeyPad1 => 0xF059,
            Key::KeyPad2 => 0xF05A,
            Key::KeyPad3 => 0xF05B,
            Key::KeyPad4 => 0xF05C,
            Key::KeyPad5 => 0xF05D,
            Key::KeyPad6 => 0xF05E,
            Key::KeyPad7 => 0xF05F,
            Key::KeyPad8 => 0xF060,
            Key::KeyPad9 => 0xF061,
            Key::KeyPad0 => 0xF062,
            Key::KeyPadPeriod => 0xF063,
            Key::NonUsBs => 0xF064,
            Key::Menu => 0xF065,
            Key::F13 => 0xF068,
            Key::F14 => 0xF069,
            Key::F15 => 0xF06A,
            Key::F16 => 0xF06B,
            Key::F17 => 0xF06C,
            Key::F18 => 0xF06D,
            Key::F19 => 0xF06E,
            Key::F20 => 0xF06F,
            Key::F21 => 0xF070,
            Key::F22 => 0xF071,
            Key::F23 => 0xF072,
            Key::F24 => 0xF073,
        }
    }

    /// Looks a wire code up in the key vocabulary. Only an exact match yields
    /// a key: a code without the key marker, or with a usage number that no
    /// key has, yields `None`, never a stand-in key.
    pub fn from_u16(code: u16) -> (r: Option<Key>)
        ensures
            r == Key::spec_from_u16(code),
            r matches Some(k) ==> k.spec_code() == code,
            r is None ==> forall|k: Key| k.spec_code() != code,
            !has_key_tag(code) ==> r is None,
    {
        let r = match code {
            0xF004 => Some(Key::A),
            0xF005 => Some(Key::B),
            0xF006 => Some(Key::C),
            0xF007 => Some(Key::D),
            0xF008 => Some(Key::E),
            0xF009 => Some(Key::F),
            0xF00A => Some(Key::G),
            0xF00B => Some(Key::H),
            0xF00C => Some(Key::I),
            0xF00D => Some(Key::J),
            0xF00E => Some(Key::K),
            0xF00F => Some(Key::L),
            0xF010 => Some(Key::M),
            0xF011 => Some(Key::N),
            0xF012 => Some(Key::O),
            0xF013 => Some(Key::P),
            0xF014 => Some(Key::Q),
            0xF015 => Some(Key::R),
            0xF016 => Some(Key::S),
            0xF017 => Some(Key::T),
            0xF018 => Some(Key::U),
            0xF019 => Some(Key::V),
            0xF01A => Some(Key::W),
            0xF01B => Some(Key::X),
            0xF01C => Some(Key::Y),
            0xF01D => Some(Key::Z),
            0xF01E => Some(Key::Key1),
            0xF01F => Some(Key::Key2),
            0xF020 => Some(Key::Key3),
            0xF021 => Some(Key::Key4),
            0xF022 => Some(Key::Key5),
            0xF023 => Some(Key::Key6),
            0xF024 => Some(Key::Key7),
            0xF025 => Some(Key::Key8),
            0xF026 => Some(Key::Key9),
            0xF027 => Some(Key::Key0),
            0xF028 => Some(Key::Enter),
            0xF029 => Some(Key::Esc),
            0xF02A => Some(Key::Backspace),
            0xF02B => Some(Key::Tab),
            0xF02C => Some(Key::Space),
            0xF02D => Some(Key::Minus),
            0xF02E => Some(Key::Equal),
            0xF02F => Some(Key::LeftBrace),
            0xF030 => Some(Key::RightBrace),
            0xF031 => Some(Key::Backslash),
            0xF032 => Some(Key::NonUsNum),
            0xF033 => Some(Key::Semicolon),
            0xF034 => Some(Key::Guote),
            0xF035 => Some(Key::Tilde),
            0xF036 => Some(Key::Comma),
            0xF037 => Some(Key::Period),
            0xF038 => Some(Key::Slash),
            0xF039 => Some(Key::CapsLock),
            0xF03A => Some(Key::F1),
            0xF03B => Some(Key::F2),
            0xF03C => Some(Key::F3),
            0xF03D => Some(Key::F4),
            0xF03E => Some(Key::F5),
            0xF03F => Some(Key::F6),
            0xF040 => Some(Key::F7),
            0xF041 => Some(Key::F8),
            0xF042 => Some(Key::F9),
            0xF043 => Some(Key::F10),
            0xF044 => Some(Key::F11),
            0xF045 => Some(Key::F12),
            0xF046 => Some(Key::PrintScreen),
            0xF047 => Some(Key::ScrollLock),
            0xF048 => Some(Key::Pause),
            0xF049 => Some(Key::Insert),
            0xF04A => Some(Key::Home),
            0xF04B => Some(Key::PageUp),
            0xF04C => Some(Key::Delete),
            0xF04D => Some(Key::End),
            0xF04E => Some(Key::PageDown),
            0xF04F => Some(Key::Right),
            0xF050 => Some(Key::Left),
            0xF051 => Some(Key::Down),
            0xF052 => Some(Key::Up),
            0xF053 => Some(Key::NumLock),
            0xF054 => Some(Key::KeyPadSlash),
            0xF055 => Some(Key::KeyPadAsterix),
            0xF056 => Some(Key::KeyPadMinus),
            0xF057 => Some(Key::KeyPadPlus),
            0xF058 => Some(Key::KeyPadEnter),
            0xF059 => Some(Key::KeyPad1),
            0xF05A => Some(Key::KeyPad2),
            0xF05B => Some(Key::KeyPad3),
            0xF05C => Some(Key::KeyPad4),
            0xF05D => Some(Key::KeyPad5),
            0xF05E => Some(Key::KeyPad6),
            0xF05F => Some(Key::KeyPad7),
            0xF060 => Some(Key::KeyPad8),
            0xF061 => Some(Key::KeyPad9),
            0xF062 => Some(Key::KeyPad0),
            0xF063 => Some(Key::KeyPadPeriod),
            0xF064 => Some(Key::NonUsBs),
            0xF065 => Some(Key::Menu),
            0xF068 => Some(Key::F13),
            0xF069 => Some(Key::F14),
            0xF06A => Some(Key::F15),
            0xF06B => Some(Key::F16),
            0xF06C => Some(Key::F17),
            0xF06D => Some(Key::F18),
            0xF06E => Some(Key::F19),
            0xF06F => Some(Key::F20),
            0xF070 => Some(Key::F21),
            0xF071 => Some(Key::F22),
            0xF072 => Some(Key::F23),
            0xF073 => Some(Key::F24),
            _ => None,
        };
        proof {
            if let Some(k) = r {
                assert(k.spec_code() == code);
                Key::lemma_code_injective(k, choose|x: Key| x.spec_code() == code);
                Key::lemma_code_tagged(k);
            }
        }
        r
    }

    /// The name this key is shown by.
    pub open spec fn spec_name(self) -> Seq<char> {
        match self {
            Key::A => "A"@,
            Key::B => "B"@,
            Key::C => "C"@,
            Key::D => "D"@,
            Key::E => "E"@,
            Key::F => "F"@,
            Key::G => "G"@,
            Key::H => "H"@,
            Key::I => "I"@,
            Key::J => "J"@,
            Key::K => "K"@,
            Key::L => "L"@,
            Key::M => "M"@,
            Key::N => "N"@,
            Key::O => "O"@,
            Key::P => "P"@,
            Key::Q => "Q"@,
            Key::R => "R"@,
            Key::S => "S"@,
            Key::T => "T"@,
            Key::U => "U"@,
            Key::V => "V"@,
            Key::W => "W"@,
            Key::X => "X"@,
            Key::Y => "Y"@,
            Key::Z => "Z"@,
            Key::Key1 => "Key1"@,
            Key::Key2 => "Key2"@,
            Key::Key3 => "Key3"@,
            Key::Key4 => "Key4"@,
            Key::Key5 => "Key5"@,
            Key::Key6 => "Key6"@,
            Key::Key7 => "Key7"@,
            Key::Key8 => "Key8"@,
            Key::Key9 => "Key9"@,
            Key::Key0 => "Key0"@,
            Key::Enter => "Enter"@,
            Key::Esc => "Esc"@,
            Key::Backspace => "Backspace"@,
            Key::Tab => "Tab"@,
            Key::Space => "Space"@,
            Key::Minus => "Minus"@,
            Key::Equal => "Equal"@,
            Key::LeftBrace => "LeftBrace"@,
            Key::RightBrace => "RightBrace"@,
            Key::Backslash => "Backslash"@,
            Key::NonUsNum => "NonUsNum"@,
            Key::Semicolon => "Semicolon"@,
            Key::Guote => "Guote"@,
            Key::Tilde => "Tilde"@,
            Key::Comma => "Comma"@,
            Key::Period => "Period"@,
            Key::Slash => "Slash"@,
            Key::CapsLock => "CapsLock"@,
            Key::F1 => "F1"@,
            Key::F2 => "F2"@,
            Key::F3 => "F3"@,
            Key::F4 => "F4"@,
            Key::F5 => "F5"@,
            Key::F6 => "F6"@,
            Key::F7 => "F7"@,
            Key::F8 => "F8"@,
            Key::F9 => "F9"@,
            Key::F10 => "F10"@,
            Key::F11 => "F11"@,
            Key::F12 => "F12"@,
            Key::PrintScreen => "PrintScreen"@,
            Key::ScrollLock => "ScrollLock"@,
            Key::Pause => "Pause"@,
            Key::Insert => "Insert"@,
            Key::Home => "Home"@,
            Key::PageUp => "PageUp"@,
            Key::Delete => "Delete"@,
            Key::End => "End"@,
            Key::PageDown => "PageDown"@,
            Key::Right => "Right"@,
            Key::Left => "Left"@,
            Key::Down => "Down"@,
            Key::Up => "Up"@,
            Key::NumLock => "NumLock"@,
            Key::KeyPadSlash => "KeyPadSlash"@,
            Key::KeyPadAsterix => "KeyPadAsterix"@,
            Key::KeyPadMinus => "KeyPadMinus"@,
            Key::KeyPadPlus => "KeyPadPlus"@,
            Key::KeyPadEnter => "KeyPadEnter"@,
            Key::KeyPad1 => "KeyPad1"@,
            Key::KeyPad2 => "KeyPad2"@,
            Key::KeyPad3 => "KeyPad3"@,
            Key::KeyPad4 => "KeyPad4"@,
            Key::KeyPad5 => "KeyPad5"@,
            Key::KeyPad6 => "KeyPad6"@,
            Key::KeyPad7 => "KeyPad7"@,
            Key::KeyPad8 => "KeyPad8"@,
            Key::KeyPad9 => "KeyPad9"@,
            Key::KeyPad0 => "KeyPad0"@,
            Key::KeyPadPeriod => "KeyPadPeriod"@,
            Key::NonUsBs => "NonUsBs"@,
            Key::Menu => "Menu"@,
            Key::F13 => "F13"@,
            Key::F14 => "F14"@,
            Key::F15 => "F15"@,
            Key::F16 => "F16"@,
            Key::F17 => "F17"@,
            Key::F18 => "F18"@,
            Key::F19 => "F19"@,
            Key::F20 => "F20"@,
            Key::F21 => "F21"@,
            Key::F22 => "F22"@,
            Key::F23 => "F23"@,
            Key::F24 => "F24"@,
        }
    }

    /// The name this key is shown by.
    pub fn name(self) -> (name: &'static str)
        ensures
            name@ == self.spec_name(),
    {
        match self {
            Key::A => "A",
            Key::B => "B",
            Key::C => "C",
            Key::D => "D",
            Key::E => "E",
            Key::F => "F",
            Key::G => "G",
            Key::H => "H",
            Key::I => "I",
            Key::J => "J",
            Key::K => "K",
            Key::L => "L",
            Key::M => "M",
            Key::N => "N",
            Key::O => "O",
            Key::P => "P",
            Key::Q => "Q",
            Key::R => "R",
            Key::S => "S",
            Key::T => "T",
            Key::U => "U",
            Key::V => "V",
            Key::W => "W",
            Key::X => "X",
            Key::Y => "Y",
            Key::Z => "Z",
            Key::Key1 => "Key1",
            Key::Key2 => "Key2",
            Key::Key3 => "Key3",
            Key::Key4 => "Key4",
            Key::Key5 => "Key5",
            Key::Key6 => "Key6",
            Key::Key7 => "Key7",
            Key::Key8 => "Key8",
            Key::Key9 => "Key9",
            Key::Key0 => "Key0",
            Key::Enter => "Enter",
            Key::Esc => "Esc",
            Key::Backspace => "Backspace",
            Key::Tab => "Tab",
            Key::Space => "Space",
            Key::Minus => "Minus",
            Key::Equal => "Equal",
            Key::LeftBrace => "LeftBrace",
            Key::RightBrace => "RightBrace",
            Key::Backslash => "Backslash",
            Key::NonUsNum => "NonUsNum",
            Key::Semicolon => "Semicolon",
            Key::Guote => "Guote",
            Key::Tilde => "Tilde",
            Key::Comma => "Comma",
            Key::Period => "Period",
            Key::Slash => "Slash",
            Key::CapsLock => "CapsLock",
            Key::F1 => "F1",
            Key::F2 => "F2",
            Key::F3 => "F3",
            Key::F4 => "F4",
            Key::F5 => "F5",
            Key::F6 => "F6",
            Key::F7 => "F7",
            Key::F8 => "F8",
            Key::F9 => "F9",
            Key::F10 => "F10",
            Key::F11 => "F11",
            Key::F12 => "F12",
            Key::PrintScreen => "PrintScreen",
            Key::ScrollLock => "ScrollLock",
            Key::Pause => "Pause",
            Key::Insert => "Insert",
            Key::Home => "Home",
            Key::PageUp => "PageUp",
            Key::Delete => "Delete",
            Key::End => "End",
            Key::PageDown => "PageDown",
            Key::Right => "Right",
            Key::Left => "Left",
            Key::Down => "Down",
            Key::Up => "Up",
            Key::NumLock => "NumLock",
            Key::KeyPadSlash => "KeyPadSlash",
            Key::KeyPadAsterix => "KeyPadAsterix",
            Key::KeyPadMinus => "KeyPadMinus",
            Key::KeyPadPlus => "KeyPadPlus",
            Key::KeyPadEnter => "KeyPadEnter",
            Key::KeyPad1 => "KeyPad1",
            Key::KeyPad2 => "KeyPad2",
            Key::KeyPad3 => "KeyPad3",
            Key::KeyPad4 => "KeyPad4",
            Key::KeyPad5 => "KeyPad5",
            Key::KeyPad6 => "KeyPad6",
            Key::KeyPad7 => "KeyPad7",
            Key::KeyPad8 => "KeyPad8",
            Key::KeyPad9 => "KeyPad9",
            Key::KeyPad0 => "KeyPad0",
            Key::KeyPadPeriod => "KeyPadPeriod",
            Key::NonUsBs => "NonUsBs",
            Key::Menu => "Menu",
            Key::F13 => "F13",
            Key::F14 => "F14",
            Key::F15 => "F15",
            Key::F16 => "F16",
            Key::F17 => "F17",
            Key::F18 => "F18",
            Key::F19 => "F19",
            Key::F20 => "F20",
            Key::F21 => "F21",
            Key::F22 => "F22",
            Key::F23 => "F23",
            Key::F24 => "F24",
        }
    }

    /// The position of this key in declaration order.
    pub fn index(self) -> (i: usize)
        ensures
            i == self.ordinal(),
            i < KEY_COUNT,
    {
        match self {
            Key::A => 0,
            Key::B => 1,
            Key::C => 2,
            Key::D => 3,
            Key::E => 4,
            Key::F => 5,
            Key::G => 6,
            Key::H => 7,
            Key::I => 8,
            Key::J => 9,
            Key::K => 10,
            Key::L => 11,
            Key::M => 12,
            Key::N => 13,
            Key::O => 14,
            Key::P => 15,
            Key::Q => 16,
            Key::R => 17,
            Key::S => 18,
            Key::T => 19,
            Key::U => 20,
            Key::V => 21,
            Key::W => 22,
            Key::X => 23,
            Key::Y => 24,
            Key::Z => 25,
            Key::Key1 => 26,
            Key::Key2 => 27,
            Key::Key3 => 28,
            Key::Key4 => 29,
            Key::Key5 => 30,
            Key::Key6 => 31,
            Key::Key7 => 32,
            Key::Key8 => 33,
            Key::Key9 => 34,
            Key::Key0 => 35,
            Key::Enter => 36,
            Key::Esc => 37,
            Key::Backspace => 38,
            Key::Tab => 39,
            Key::Space => 40,
            Key::Minus => 41,
            Key::Equal => 42,
            Key::LeftBrace => 43,
            Key::RightBrace => 44,
            Key::Backslash => 45,
            Key::NonUsNum => 46,
            Key::Semicolon => 47,
            Key::Guote => 48,
            Key::Tilde => 49,
            Key::Comma => 50,
            Key::Period => 51,
            Key::Slash => 52,
            Key::CapsLock => 53,
            Key::F1 => 54,
            Key::F2 => 55,
            Key::F3 => 56,
            Key::F4 => 57,
            Key::F5 => 58,
            Key::F6 => 59,
            Key::F7 => 60,
            Key::F8 => 61,
            Key::F9 => 62,
            Key::F10 => 63,
            Key::F11 => 64,
            Key::F12 => 65,
            Key::PrintScreen => 66,
            Key::ScrollLock => 67,
            Key::Pause => 68,
            Key::Insert => 69,
            Key::Home => 70,
            Key::PageUp => 71,
            Key::Delete => 72,
            Key::End => 73,
            Key::PageDown => 74,
            Key::Right => 75,
            Key::Left => 76,
            Key::Down => 77,
            Key::Up => 78,
            Key::NumLock => 79,
            Key::KeyPadSlash => 80,
            Key::KeyPadAsterix => 81,
            Key::KeyPadMinus => 82,
            Key::KeyPadPlus => 83,
            Key::KeyPadEnter => 84,
            Key::KeyPad1 => 85,
            Key::KeyPad2 => 86,
            Key::KeyPad3 => 87,
            Key::KeyPad4 => 88,
            Key::KeyPad5 => 89,
            Key::KeyPad6 => 90,
            Key::KeyPad7 => 91,
            Key::KeyPad8 => 92,
            Key::KeyPad9 => 93,
            Key::KeyPad0 => 94,
            Key::KeyPadPeriod => 95,
            Key::NonUsBs => 96,
            Key::Menu => 97,
            Key::F13 => 98,
            Key::F14 => 99,
            Key::F15 => 100,
            Key::F16 => 101,
            Key::F17 => 102,
            Key::F18 => 103,
            Key::F19 => 104,
            Key::F20 => 105,
            Key::F21 => 106,
            Key::F22 => 107,
            Key::F23 => 108,
            Key::F24 => 109,
        }
    }

    /// All keys, in declaration order.
    pub fn all() -> (v: Vec<Key>)
        ensures
            v@.len() == KEY_COUNT,
            forall|i: int| 0 <= i < KEY_COUNT ==> #[trigger] v@[i] == Key::at(i),
    {
        let mut v: Vec<Key> = Vec::new();
        let mut i: usize = 0;
        while i < KEY_COUNT
            invariant
                i <= KEY_COUNT,
                v@.len() == i,
                forall|j: int| 0 <= j < i ==> #[trigger] v@[j] == Key::at(j),
            decreases KEY_COUNT - i,
        {
            v.push(index_to_key(i));
            i += 1;
        }
        v
    }

    /// Two keys with the same wire code are the same key.
    pub proof fn lemma_code_injective(a: Key, b: Key)
        requires
            a.spec_code() == b.spec_code(),
        ensures
            a == b,
    {
    }

    /// Two keys at the same position are the same key.
    pub proof fn lemma_ordinal_injective(a: Key, b: Key)
        requires
            a.ordinal() == b.ordinal(),
        ensures
            a == b,
    {
    }

    /// The key at the position of a key is that key.
    pub proof fn lemma_at_ordinal(k: Key)
        ensures
            0 <= k.ordinal() < KEY_COUNT,
            Key::at(k.ordinal()) == k,
    {
        Key::lemma_ordinal_injective(k, Key::at(k.ordinal()));
    }

    /// Every key code carries the key marker and is nonzero.
    pub proof fn lemma_code_tagged(k: Key)
        ensures
            has_key_tag(k.spec_code()),
            k.spec_code() >= 0xF000,
    {
        let c = k.spec_code();
        assert(c >= 0xF000 ==> (c & 0xF000 == 0xF000)) by (bit_vector);
    }

    /// Looking up the code of a key gives that key back.
    pub proof fn lemma_from_code(k: Key)
        ensures
            Key::spec_from_u16(k.spec_code()) == Some(k),
    {
        Key::lemma_code_injective(k, choose|x: Key| x.spec_code() == k.spec_code());
    }
}

/// The key at position `idx` of the vocabulary, in declaration order.
pub fn index_to_key(idx: usize) -> (k: Key)
    requires
        idx < KEY_COUNT,
    ensures
        k.ordinal() == idx,
        k == Key::at(idx as int),
{
    let k = match idx {
        0 => Key::A,
        1 => Key::B,
        2 => Key::C,
        3 => Key::D,
        4 => Key::E,
        5 => Key::F,
        6 => Key::G,
        7 => Key::H,
        8 => Key::I,
        9 => Key::J,
        10 => Key::K,
        11 => Key::L,
        12 => Key::M,
        13 => Key::N,
        14 => Key::O,
        15 => Key::P,
        16 => Key::Q,
        17 => Key::R,
        18 => Key::S,
        19 => Key::T,
        20 => Key::U,
        21 => Key::V,
        22 => Key::W,
        23 => Key::X,
        24 => Key::Y,
        25 => Key::Z,
        26 => Key::Key1,
        27 => Key::Key2,
        28 => Key::Key3,
        29 => Key::Key4,
        30 => Key::Key5,
        31 => Key::Key6,
        32 => Key::Key7,
        33 => Key::Key8,
        34 => Key::Key9,
        35 => Key::Key0,
        36 => Key::Enter,
        37 => Key::Esc,
        38 => Key::Backspace,
        39 => Key::Tab,
        40 => Key::Space,
        41 => Key::Minus,
        42 => Key::Equal,
        43 => Key::LeftBrace,
        44 => Key::RightBrace,
        45 => Key::Backslash,
        46 => Key::NonUsNum,
        47 => Key::Semicolon,
        48 => Key::Guote,
        49 => Key::Tilde,
        50 => Key::Comma,
        51 => Key::Period,
        52 => Key::Slash,
        53 => Key::CapsLock,
        54 => Key::F1,
        55 => Key::F2,
        56 => Key::F3,
        57 => Key::F4,
        58 => Key::F5,
        59 => Key::F6,
        60 => Key::F7,
        61 => Key::F8,
        62 => Key::F9,
        63 => Key::F10,
        64 => Key::F11,
        65 => Key::F12,
        66 => Key::PrintScreen,
        67 => Key::ScrollLock,
        68 => Key::Pause,
        69 => Key::Insert,
        70 => Key::Home,
        71 => Key::PageUp,
        72 => Key::Delete,
        73 => Key::End,
        74 => Key::PageDown,
        75 => Key::Right,
        76 => Key::Left,
        77 => Key::Down,
        78 => Key::Up,
        79 => Key::NumLock,
        80 => Key::KeyPadSlash,
        81 => Key::KeyPadAsterix,
        82 => Key::KeyPadMinus,
        83 => Key::KeyPadPlus,
        84 => Key::KeyPadEnter,
        85 => Key::KeyPad1,
        86 => Key::KeyPad2,
        87 => Key::KeyPad3,
        88 => Key::KeyPad4,
        89 => Key::KeyPad5,
        90 => Key::KeyPad6,
        91 => Key::KeyPad7,
        92 => Key::KeyPad8,
        93 => Key::KeyPad9,
        94 => Key::KeyPad0,
        95 => Key::KeyPadPeriod,
        96 => Key::NonUsBs,
        97 => Key::Menu,
        98 => Key::F13,
        99 => Key::F14,
        100 => Key::F15,
        101 => Key::F16,
        102 => Key::F17,
        103 => Key::F18,
        104 => Key::F19,
        105 => Key::F20,
        106 => Key::F21,
        107 => Key::F22,
        108 => Key::F23,
        _ => Key::F24,
    };
    proof {
        Key::lemma_at_ordinal(k);
    }
    k
}

} // verus!
