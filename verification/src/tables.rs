//! The per-platform keycode tables: bidirectional maps between the symbolic
//! model and each OS family's native numeric codes. All platform variance
//! lives here; the event model, the codec and the pipeline never see a
//! native code.
//!
//! `to_*` is total: every symbolic value has a native code on every
//! platform. `from_*` is partial: unknown native codes yield `None` and are
//! silently dropped at capture time. Modifier translation is bitwise and
//! position-independent, so the four semantic bits may sit at arbitrary
//! native bit positions.

use vstd::prelude::*;

use crate::event::Key;
use crate::event::MODS_ALT;
use crate::event::MODS_CTRL;
use crate::event::MODS_SHIFT;
use crate::event::MODS_SUPER;
use crate::event::Mods;
use crate::event::Mouse;
use crate::event::Scroll;

verus! {

impl Key {
    /// The native X11 code of each symbolic value (the key table).
    pub open spec fn to_x11_spec(self) -> u32 {
        match self {
            Key::A => 38u32,
            Key::B => 56u32,
            Key::C => 54u32,
            Key::D => 40u32,
            Key::E => 26u32,
            Key::F => 41u32,
            Key::G => 42u32,
            Key::H => 43u32,
            Key::I => 31u32,
            Key::J => 44u32,
            Key::K => 45u32,
            Key::L => 46u32,
            Key::M => 58u32,
            Key::N => 57u32,
            Key::O => 32u32,
            Key::P => 33u32,
            Key::Q => 24u32,
            Key::R => 27u32,
            Key::S => 39u32,
            Key::T => 28u32,
            Key::U => 30u32,
            Key::V => 55u32,
            Key::W => 25u32,
            Key::X => 53u32,
            Key::Y => 29u32,
            Key::Z => 52u32,
            Key::Num1 => 10u32,
            Key::Num2 => 11u32,
            Key::Num3 => 12u32,
            Key::Num4 => 13u32,
            Key::Num5 => 14u32,
            Key::Num6 => 15u32,
            Key::Num7 => 16u32,
            Key::Num8 => 17u32,
            Key::Num9 => 18u32,
            Key::Num0 => 19u32,
            Key::Left => 113u32,
            Key::Up => 111u32,
            Key::Right => 114u32,
            Key::Down => 116u32,
            Key::Enter => 36u32,
            Key::Esc => 9u32,
            Key::Backspace => 22u32,
            Key::Tab => 23u32,
            Key::Space => 65u32,
            Key::Minus => 20u32,
            Key::Equal => 21u32,
            Key::LeftBrace => 34u32,
            Key::RightBrace => 35u32,
            Key::Backslash => 51u32,
            Key::SemiColon => 47u32,
            Key::Apostrophe => 48u32,
            Key::Grave => 49u32,
            Key::Comma => 59u32,
            Key::Dot => 60u32,
            Key::Slash => 61u32,
            Key::CapsLock => 66u32,
            Key::ScrollLock => 78u32,
            Key::Pause => 127u32,
            Key::Print => 107u32,
            Key::Insert => 118u32,
            Key::Delete => 119u32,
            Key::Home => 110u32,
            Key::End => 115u32,
            Key::PageUp => 112u32,
            Key::PageDown => 117u32,
            Key::F1 => 67u32,
            Key::F2 => 68u32,
            Key::F3 => 69u32,
            Key::F4 => 70u32,
            Key::F5 => 71u32,
            Key::F6 => 72u32,
            Key::F7 => 73u32,
            Key::F8 => 74u32,
            Key::F9 => 75u32,
            Key::F10 => 76u32,
            Key::F11 => 95u32,
            Key::F12 => 96u32,
        }
    }

    /// The symbolic value behind a native X11 code, if the table
    /// knows the code.
    pub open spec fn from_x11_spec(code: u32) -> Option<Key> {
        if code == 38 {
            Some(Key::A)
        } else if code == 56 {
            Some(Key::B)
        } else if code == 54 {
            Some(Key::C)
        } else if code == 40 {
            Some(Key::D)
        } else if code == 26 {
            Some(Key::E)
        } else if code == 41 {
            Some(Key::F)
        } else if code == 42 {
            Some(Key::G)
        } else if code == 43 {
            Some(Key::H)
        } else if code == 31 {
            Some(Key::I)
        } else if code == 44 {
            Some(Key::J)
        } else if code == 45 {
            Some(Key::K)
        } else if code == 46 {
            Some(Key::L)
        } else if code == 58 {
            Some(Key::M)
        } else if code == 57 {
            Some(Key::N)
        } else if code == 32 {
            Some(Key::O)
        } else if code == 33 {
            Some(Key::P)
        } else if code == 24 {
            Some(Key::Q)
        } else if code == 27 {
            Some(Key::R)
        } else if code == 39 {
            Some(Key::S)
        } else if code == 28 {
            Some(Key::T)
        } else if code == 30 {
            Some(Key::U)
        } else if code == 55 {
            Some(Key::V)
        } else if code == 25 {
            Some(Key::W)
        } else if code == 53 {
            Some(Key::X)
        } else if code == 29 {
            Some(Key::Y)
        } else if code == 52 {
            Some(Key::Z)
        } else if code == 10 {
            Some(Key::Num1)
        } else if code == 11 {
            Some(Key::Num2)
        } else if code == 12 {
            Some(Key::Num3)
        } else if code == 13 {
            Some(Key::Num4)
        } else if code == 14 {
            Some(Key::Num5)
        } else if code == 15 {
            Some(Key::Num6)
        } else if code == 16 {
            Some(Key::Num7)
        } else if code == 17 {
            Some(Key::Num8)
        } else if code == 18 {
            Some(Key::Num9)
        } else if code == 19 {
            Some(Key::Num0)
        } else if code == 113 {
            Some(Key::Left)
        } else if code == 111 {
            Some(Key::Up)
        } else if code == 114 {
            Some(Key::Right)
        } else if code == 116 {
            Some(Key::Down)
        } else if code == 36 {
            Some(Key::Enter)
        } else if code == 9 {
            Some(Key::Esc)
        } else if code == 22 {
            Some(Key::Backspace)
        } else if code == 23 {
            Some(Key::Tab)
        } else if code == 65 {
            Some(Key::Space)
        } else if code == 20 {
            Some(Key::Minus)
        } else if code == 21 {
            Some(Key::Equal)
        } else if code == 34 {
            Some(Key::LeftBrace)
        } else if code == 35 {
            Some(Key::RightBrace)
        } else if code == 51 {
            Some(Key::Backslash)
        } else if code == 47 {
            Some(Key::SemiColon)
        } else if code == 48 {
            Some(Key::Apostrophe)
        } else if code == 49 {
            Some(Key::Grave)
        } else if code == 59 {
            Some(Key::Comma)
        } else if code == 60 {
            Some(Key::Dot)
        } else if code == 61 {
            Some(Key::Slash)
        } else if code == 66 {
            Some(Key::CapsLock)
        } else if code == 78 {
            Some(Key::ScrollLock)
        } else if code == 127 {
            Some(Key::Pause)
        } else if code == 107 {
            Some(Key::Print)
        } else if code == 118 {
            Some(Key::Insert)
        } else if code == 119 {
            Some(Key::Delete)
        } else if code == 110 {
            Some(Key::Home)
        } else if code == 115 {
            Some(Key::End)
        } else if code == 112 {
            Some(Key::PageUp)
        } else if code == 117 {
            Some(Key::PageDown)
        } else if code == 67 {
            Some(Key::F1)
        } else if code == 68 {
            Some(Key::F2)
        } else if code == 69 {
            Some(Key::F3)
        } else if code == 70 {
            Some(Key::F4)
        } else if code == 71 {
            Some(Key::F5)
        } else if code == 72 {
            Some(Key::F6)
        } else if code == 73 {
            Some(Key::F7)
        } else if code == 74 {
            Some(Key::F8)
        } else if code == 75 {
            Some(Key::F9)
        } else if code == 76 {
            Some(Key::F10)
        } else if code == 95 {
            Some(Key::F11)
        } else if code == 96 {
            Some(Key::F12)
        } else {
            None
        }
    }

    /// The native X11 code for this value; total, every value has one.
    pub fn to_x11(self) -> (code: u32)
        ensures
            code == self.to_x11_spec(),
    {
        match self {
            Key::A => 38u32,
            Key::B => 56u32,
            Key::C => 54u32,
            Key::D => 40u32,
            Key::E => 26u32,
            Key::F => 41u32,
            Key::G => 42u32,
            Key::H => 43u32,
            Key::I => 31u32,
            Key::J => 44u32,
            Key::K => 45u32,
            Key::L => 46u32,
            Key::M => 58u32,
            Key::N => 57u32,
            Key::O => 32u32,
            Key::P => 33u32,
            Key::Q => 24u32,
            Key::R => 27u32,
            Key::S => 39u32,
            Key::T => 28u32,
            Key::U => 30u32,
            Key::V => 55u32,
            Key::W => 25u32,
            Key::X => 53u32,
            Key::Y => 29u32,
            Key::Z => 52u32,
            Key::Num1 => 10u32,
            Key::Num2 => 11u32,
            Key::Num3 => 12u32,
            Key::Num4 => 13u32,
            Key::Num5 => 14u32,
            Key::Num6 => 15u32,
            Key::Num7 => 16u32,
            Key::Num8 => 17u32,
            Key::Num9 => 18u32,
            Key::Num0 => 19u32,
            Key::Left => 113u32,
            Key::Up => 111u32,
            Key::Right => 114u32,
            Key::Down => 116u32,
            Key::Enter => 36u32,
            Key::Esc => 9u32,
            Key::Backspace => 22u32,
            Key::Tab => 23u32,
            Key::Space => 65u32,
            Key::Minus => 20u32,
            Key::Equal => 21u32,
            Key::LeftBrace => 34u32,
            Key::RightBrace => 35u32,
            Key::Backslash => 51u32,
            Key::SemiColon => 47u32,
            Key::Apostrophe => 48u32,
            Key::Grave => 49u32,
            Key::Comma => 59u32,
            Key::Dot => 60u32,
            Key::Slash => 61u32,
            Key::CapsLock => 66u32,
            Key::ScrollLock => 78u32,
            Key::Pause => 127u32,
            Key::Print => 107u32,
            Key::Insert => 118u32,
            Key::Delete => 119u32,
            Key::Home => 110u32,
            Key::End => 115u32,
            Key::PageUp => 112u32,
            Key::PageDown => 117u32,
            Key::F1 => 67u32,
            Key::F2 => 68u32,
            Key::F3 => 69u32,
            Key::F4 => 70u32,
            Key::F5 => 71u32,
            Key::F6 => 72u32,
            Key::F7 => 73u32,
            Key::F8 => 74u32,
            Key::F9 => 75u32,
            Key::F10 => 76u32,
            Key::F11 => 95u32,
            Key::F12 => 96u32,
        }
    }

    /// Maps a native X11 code back to its symbolic value; codes
    /// outside the table yield `None` and are dropped at capture time.
    pub fn from_x11(code: u32) -> (r: Option<Key>)
        ensures
            r == Key::from_x11_spec(code),
    {
        match code {
            38 => Some(Key::A),
            56 => Some(Key::B),
            54 => Some(Key::C),
            40 => Some(Key::D),
            26 => Some(Key::E),
            41 => Some(Key::F),
            42 => Some(Key::G),
            43 => Some(Key::H),
            31 => Some(Key::I),
            44 => Some(Key::J),
            45 => Some(Key::K),
            46 => Some(Key::L),
            58 => Some(Key::M),
            57 => Some(Key::N),
            32 => Some(Key::O),
            33 => Some(Key::P),
            24 => Some(Key::Q),
            27 => Some(Key::R),
            39 => Some(Key::S),
            28 => Some(Key::T),
            30 => Some(Key::U),
            55 => Some(Key::V),
            25 => Some(Key::W),
            53 => Some(Key::X),
            29 => Some(Key::Y),
            52 => Some(Key::Z),
            10 => Some(Key::Num1),
            11 => Some(Key::Num2),
            12 => Some(Key::Num3),
            13 => Some(Key::Num4),
            14 => Some(Key::Num5),
            15 => Some(Key::Num6),
            16 => Some(Key::Num7),
            17 => Some(Key::Num8),
            18 => Some(Key::Num9),
            19 => Some(Key::Num0),
            113 => Some(Key::Left),
            111 => Some(Key::Up),
            114 => Some(Key::Right),
            116 => Some(Key::Down),
            36 => Some(Key::Enter),
            9 => Some(Key::Esc),
            22 => Some(Key::Backspace),
            23 => Some(Key::Tab),
            65 => Some(Key::Space),
            20 => Some(Key::Minus),
            21 => Some(Key::Equal),
            34 => Some(Key::LeftBrace),
            35 => Some(Key::RightBrace),
            51 => Some(Key::Backslash),
            47 => Some(Key::SemiColon),
            48 => Some(Key::Apostrophe),
            49 => Some(Key::Grave),
            59 => Some(Key::Comma),
            60 => Some(Key::Dot),
            61 => Some(Key::Slash),
            66 => Some(Key::CapsLock),
            78 => Some(Key::ScrollLock),
            127 => Some(Key::Pause),
            107 => Some(Key::Print),
            118 => Some(Key::Insert),
            119 => Some(Key::Delete),
            110 => Some(Key::Home),
            115 => Some(Key::End),
            112 => Some(Key::PageUp),
            117 => Some(Key::PageDown),
            67 => Some(Key::F1),
            68 => Some(Key::F2),
            69 => Some(Key::F3),
            70 => Some(Key::F4),
            71 => Some(Key::F5),
            72 => Some(Key::F6),
            73 => Some(Key::F7),
            74 => Some(Key::F8),
            75 => Some(Key::F9),
            76 => Some(Key::F10),
            95 => Some(Key::F11),
            96 => Some(Key::F12),
            _ => None,
        }
    }
}

/// The X11 key table round-trips: every symbolic value comes
/// back from its own native code.
pub proof fn lemma_key_x11_roundtrip(v: Key)
    ensures
        Key::from_x11_spec(v.to_x11_spec()) == Some(v),
{
}

/// The X11 key table is injective: two symbolic values with
/// the same native code are the same value.
pub proof fn lemma_key_x11_injective(a: Key, b: Key)
    requires
        a.to_x11_spec() == b.to_x11_spec(),
    ensures
        a == b,
{
    lemma_key_x11_roundtrip(a);
    lemma_key_x11_roundtrip(b);
}

impl Key {
    /// The native macOS code of each symbolic value (the key table).
    pub open spec fn to_macos_spec(self) -> u32 {
        match self {
            Key::A => 0u32,
            Key::B => 11u32,
            Key::C => 8u32,
            Key::D => 2u32,
            Key::E => 14u32,
            Key::F => 3u32,
            Key::G => 5u32,
            Key::H => 4u32,
            Key::I => 34u32,
            Key::J => 38u32,
            Key::K => 40u32,
            Key::L => 37u32,
            Key::M => 46u32,
            Key::N => 45u32,
            Key::O => 31u32,
            Key::P => 35u32,
            Key::Q => 12u32,
            Key::R => 15u32,
            Key::S => 1u32,
            Key::T => 17u32,
            Key::U => 32u32,
            Key::V => 9u32,
            Key::W => 13u32,
            Key::X => 7u32,
            Key::Y => 16u32,
            Key::Z => 6u32,
            Key::Num1 => 18u32,
            Key::Num2 => 19u32,
            Key::Num3 => 20u32,
            Key::Num4 => 21u32,
            Key::Num5 => 23u32,
            Key::Num6 => 22u32,
            Key::Num7 => 26u32,
            Key::Num8 => 28u32,
            Key::Num9 => 25u32,
            Key::Num0 => 29u32,
            Key::Left => 123u32,
            Key::Up => 126u32,
            Key::Right => 124u32,
            Key::Down => 125u32,
            Key::Enter => 36u32,
            Key::Esc => 53u32,
            Key::Backspace => 51u32,
            Key::Tab => 48u32,
            Key::Space => 49u32,
            Key::Minus => 27u32,
            Key::Equal => 24u32,
            Key::LeftBrace => 33u32,
            Key::RightBrace => 30u32,
            Key::Backslash => 42u32,
            Key::SemiColon => 41u32,
            Key::Apostrophe => 39u32,
            Key::Grave => 50u32,
            Key::Comma => 43u32,
            Key::Dot => 47u32,
            Key::Slash => 44u32,
            Key::CapsLock => 57u32,
            Key::ScrollLock => 107u32,
            Key::Pause => 113u32,
            Key::Print => 105u32,
            Key::Insert => 114u32,
            Key::Delete => 117u32,
            Key::Home => 115u32,
            Key::End => 119u32,
            Key::PageUp => 116u32,
            Key::PageDown => 121u32,
            Key::F1 => 122u32,
            Key::F2 => 120u32,
            Key::F3 => 99u32,
            Key::F4 => 118u32,
            Key::F5 => 96u32,
            Key::F6 => 97u32,
            Key::F7 => 98u32,
            Key::F8 => 100u32,
            Key::F9 => 101u32,
            Key::F10 => 109u32,
            Key::F11 => 103u32,
            Key::F12 => 111u32,
        }
    }

    /// The symbolic value behind a native macOS code, if the table
    /// knows the code.
    pub open spec fn from_macos_spec(code: u32) -> Option<Key> {
        if code == 0 {
            Some(Key::A)
        } else if code == 11 {
            Some(Key::B)
        } else if code == 8 {
            Some(Key::C)
        } else if code == 2 {
            Some(Key::D)
        } else if code == 14 {
            Some(Key::E)
        } else if code == 3 {
            Some(Key::F)
        } else if code == 5 {
            Some(Key::G)
        } else if code == 4 {
            Some(Key::H)
        } else if code == 34 {
            Some(Key::I)
        } else if code == 38 {
            Some(Key::J)
        } else if code == 40 {
            Some(Key::K)
        } else if code == 37 {
            Some(Key::L)
        } else if code == 46 {
            Some(Key::M)
        } else if code == 45 {
            Some(Key::N)
        } else if code == 31 {
            Some(Key::O)
        } else if code == 35 {
            Some(Key::P)
        } else if code == 12 {
            Some(Key::Q)
        } else if code == 15 {
            Some(Key::R)
        } else if code == 1 {
            Some(Key::S)
        } else if code == 17 {
            Some(Key::T)
        } else if code == 32 {
            Some(Key::U)
        } else if code == 9 {
            Some(Key::V)
        } else if code == 13 {
            Some(Key::W)
        } else if code == 7 {
            Some(Key::X)
        } else if code == 16 {
            Some(Key::Y)
        } else if code == 6 {
            Some(Key::Z)
        } else if code == 18 {
            Some(Key::Num1)
        } else if code == 19 {
            Some(Key::Num2)
        } else if code == 20 {
            Some(Key::Num3)
        } else if code == 21 {
            Some(Key::Num4)
        } else if code == 23 {
            Some(Key::Num5)
        } else if code == 22 {
            Some(Key::Num6)
        } else if code == 26 {
            Some(Key::Num7)
        } else if code == 28 {
            Some(Key::Num8)
        } else if code == 25 {
            Some(Key::Num9)
        } else if code == 29 {
            Some(Key::Num0)
        } else if code == 123 {
            Some(Key::Left)
        } else if code == 126 {
            Some(Key::Up)
        } else if code == 124 {
            Some(Key::Right)
        } else if code == 125 {
            Some(Key::Down)
        } else if code == 36 {
            Some(Key::Enter)
        } else if code == 53 {
            Some(Key::Esc)
        } else if code == 51 {
            Some(Key::Backspace)
        } else if code == 48 {
            Some(Key::Tab)
        } else if code == 49 {
            Some(Key::Space)
        } else if code == 27 {
            Some(Key::Minus)
        } else if code == 24 {
            Some(Key::Equal)
        } else if code == 33 {
            Some(Key::LeftBrace)
        } else if code == 30 {
            Some(Key::RightBrace)
        } else if code == 42 {
            Some(Key::Backslash)
        } else if code == 41 {
            Some(Key::SemiColon)
        } else if code == 39 {
            Some(Key::Apostrophe)
        } else if code == 50 {
            Some(Key::Grave)
        } else if code == 43 {
            Some(Key::Comma)
        } else if code == 47 {
            Some(Key::Dot)
        } else if code == 44 {
            Some(Key::Slash)
        } else if code == 57 {
            Some(Key::CapsLock)
        } else if code == 107 {
            Some(Key::ScrollLock)
        } else if code == 113 {
            Some(Key::Pause)
        } else if code == 105 {
            Some(Key::Print)
        } else if code == 114 {
            Some(Key::Insert)
        } else if code == 117 {
            Some(Key::Delete)
        } else if code == 115 {
            Some(Key::Home)
        } else if code == 119 {
            Some(Key::End)
        } else if code == 116 {
            Some(Key::PageUp)
        } else if code == 121 {
            Some(Key::PageDown)
        } else if code == 122 {
            Some(Key::F1)
        } else if code == 120 {
            Some(Key::F2)
        } else if code == 99 {
            Some(Key::F3)
        } else if code == 118 {
            Some(Key::F4)
        } else if code == 96 {
            Some(Key::F5)
        } else if code == 97 {
            Some(Key::F6)
        } else if code == 98 {
            Some(Key::F7)
        } else if code == 100 {
            Some(Key::F8)
        } else if code == 101 {
            Some(Key::F9)
        } else if code == 109 {
            Some(Key::F10)
        } else if code == 103 {
            Some(Key::F11)
        } else if code == 111 {
            Some(Key::F12)
        } else {
            None
        }
    }

    /// The native macOS code for this value; total, every value has one.
    pub fn to_macos(self) -> (code: u32)
        ensures
            code == self.to_macos_spec(),
    {
        match self {
            Key::A => 0u32,
            Key::B => 11u32,
            Key::C => 8u32,
            Key::D => 2u32,
            Key::E => 14u32,
            Key::F => 3u32,
            Key::G => 5u32,
            Key::H => 4u32,
            Key::I => 34u32,
            Key::J => 38u32,
            Key::K => 40u32,
            Key::L => 37u32,
            Key::M => 46u32,
            Key::N => 45u32,
            Key::O => 31u32,
            Key::P => 35u32,
            Key::Q => 12u32,
            Key::R => 15u32,
            Key::S => 1u32,
            Key::T => 17u32,
            Key::U => 32u32,
            Key::V => 9u32,
            Key::W => 13u32,
            Key::X => 7u32,
            Key::Y => 16u32,
            Key::Z => 6u32,
            Key::Num1 => 18u32,
            Key::Num2 => 19u32,
            Key::Num3 => 20u32,
            Key::Num4 => 21u32,
            Key::Num5 => 23u32,
            Key::Num6 => 22u32,
            Key::Num7 => 26u32,
            Key::Num8 => 28u32,
            Key::Num9 => 25u32,
            Key::Num0 => 29u32,
            Key::Left => 123u32,
            Key::Up => 126u32,
            Key::Right => 124u32,
            Key::Down => 125u32,
            Key::Enter => 36u32,
            Key::Esc => 53u32,
            Key::Backspace => 51u32,
            Key::Tab => 48u32,
            Key::Space => 49u32,
            Key::Minus => 27u32,
            Key::Equal => 24u32,
            Key::LeftBrace => 33u32,
            Key::RightBrace => 30u32,
            Key::Backslash => 42u32,
            Key::SemiColon => 41u32,
            Key::Apostrophe => 39u32,
            Key::Grave => 50u32,
            Key::Comma => 43u32,
            Key::Dot => 47u32,
            Key::Slash => 44u32,
            Key::CapsLock => 57u32,
            Key::ScrollLock => 107u32,
            Key::Pause => 113u32,
            Key::Print => 105u32,
            Key::Insert => 114u32,
            Key::Delete => 117u32,
            Key::Home => 115u32,
            Key::End => 119u32,
            Key::PageUp => 116u32,
            Key::PageDown => 121u32,
            Key::F1 => 122u32,
            Key::F2 => 120u32,
            Key::F3 => 99u32,
            Key::F4 => 118u32,
            Key::F5 => 96u32,
            Key::F6 => 97u32,
            Key::F7 => 98u32,
            Key::F8 => 100u32,
            Key::F9 => 101u32,
            Key::F10 => 109u32,
            Key::F11 => 103u32,
            Key::F12 => 111u32,
        }
    }

    /// Maps a native macOS code back to its symbolic value; codes
    /// outside the table yield `None` and are dropped at capture time.
    pub fn from_macos(code: u32) -> (r: Option<Key>)
        ensures
            r == Key::from_macos_spec(code),
    {
        match code {
            0 => Some(Key::A),
            11 => Some(Key::B),
            8 => Some(Key::C),
            2 => Some(Key::D),
            14 => Some(Key::E),
            3 => Some(Key::F),
            5 => Some(Key::G),
            4 => Some(Key::H),
            34 => Some(Key::I),
            38 => Some(Key::J),
            40 => Some(Key::K),
            37 => Some(Key::L),
            46 => Some(Key::M),
            45 => Some(Key::N),
            31 => Some(Key::O),
            35 => Some(Key::P),
            12 => Some(Key::Q),
            15 => Some(Key::R),
            1 => Some(Key::S),
            17 => Some(Key::T),
            32 => Some(Key::U),
            9 => Some(Key::V),
            13 => Some(Key::W),
            7 => Some(Key::X),
            16 => Some(Key::Y),
            6 => Some(Key::Z),
            18 => Some(Key::Num1),
            19 => Some(Key::Num2),
            20 => Some(Key::Num3),
            21 => Some(Key::Num4),
            23 => Some(Key::Num5),
            22 => Some(Key::Num6),
            26 => Some(Key::Num7),
            28 => Some(Key::Num8),
            25 => Some(Key::Num9),
            29 => Some(Key::Num0),
            123 => Some(Key::Left),
            126 => Some(Key::Up),
            124 => Some(Key::Right),
            125 => Some(Key::Down),
            36 => Some(Key::Enter),
            53 => Some(Key::Esc),
            51 => Some(Key::Backspace),
            48 => Some(Key::Tab),
            49 => Some(Key::Space),
            27 => Some(Key::Minus),
            24 => Some(Key::Equal),
            33 => Some(Key::LeftBrace),
            30 => Some(Key::RightBrace),
            42 => Some(Key::Backslash),
            41 => Some(Key::SemiColon),
            39 => Some(Key::Apostrophe),
            50 => Some(Key::Grave),
            43 => Some(Key::Comma),
            47 => Some(Key::Dot),
            44 => Some(Key::Slash),
            57 => Some(Key::CapsLock),
            107 => Some(Key::ScrollLock),
            113 => Some(Key::Pause),
            105 => Some(Key::Print),
            114 => Some(Key::Insert),
            117 => Some(Key::Delete),
            115 => Some(Key::Home),
            119 => Some(Key::End),
            116 => Some(Key::PageUp),
            121 => Some(Key::PageDown),
            122 => Some(Key::F1),
            120 => Some(Key::F2),
            99 => Some(Key::F3),
            118 => Some(Key::F4),
            96 => Some(Key::F5),
            97 => Some(Key::F6),
            98 => Some(Key::F7),
            100 => Some(Key::F8),
            101 => Some(Key::F9),
            109 => Some(Key::F10),
            103 => Some(Key::F11),
            111 => Some(Key::F12),
            _ => None,
        }
    }
}

/// The macOS key table round-trips: every symbolic value comes
/// back from its own native code.
pub proof fn lemma_key_macos_roundtrip(v: Key)
    ensures
        Key::from_macos_spec(v.to_macos_spec()) == Some(v),
{
}

/// The macOS key table is injective: two symbolic values with
/// the same native code are the same value.
pub proof fn lemma_key_macos_injective(a: Key, b: Key)
    requires
        a.to_macos_spec() == b.to_macos_spec(),
    ensures
        a == b,
{
    lemma_key_macos_roundtrip(a);
    lemma_key_macos_roundtrip(b);
}

impl Mouse {
    /// The native X11 code of each symbolic value (the mouse table).
    pub open spec fn to_x11_spec(self) -> u32 {
        match self {
            Mouse::Left => 1u32,
            Mouse::Right => 3u32,
            Mouse::Middle => 2u32,
        }
    }

    /// The symbolic value behind a native X11 code, if the table
    /// knows the code.
    pub open spec fn from_x11_spec(code: u32) -> Option<Mouse> {
        if code == 1 {
            Some(Mouse::Left)
        } else if code == 3 {
            Some(Mouse::Right)
        } else if code == 2 {
            Some(Mouse::Middle)
        } else {
            None
        }
    }

    /// The native X11 code for this value; total, every value has one.
    pub fn to_x11(self) -> (code: u32)
        ensures
            code == self.to_x11_spec(),
    {
        match self {
            Mouse::Left => 1u32,
            Mouse::Right => 3u32,
            Mouse::Middle => 2u32,
        }
    }

    /// Maps a native X11 code back to its symbolic value; codes
    /// outside the table yield `None` and are dropped at capture time.
    pub fn from_x11(code: u32) -> (r: Option<Mouse>)
        ensures
            r == Mouse::from_x11_spec(code),
    {
        match code {
            1 => Some(Mouse::Left),
            3 => Some(Mouse::Right),
            2 => Some(Mouse::Middle),
            _ => None,
        }
    }
}

/// The X11 mouse table round-trips: every symbolic value comes
/// back from its own native code.
pub proof fn lemma_mouse_x11_roundtrip(v: Mouse)
    ensures
        Mouse::from_x11_spec(v.to_x11_spec()) == Some(v),
{
}

/// The X11 mouse table is injective: two symbolic values with
/// the same native code are the same value.
pub proof fn lemma_mouse_x11_injective(a: Mouse, b: Mouse)
    requires
        a.to_x11_spec() == b.to_x11_spec(),
    ensures
        a == b,
{
    lemma_mouse_x11_roundtrip(a);
    lemma_mouse_x11_roundtrip(b);
}

impl Mouse {
    /// The native macOS code of each symbolic value (the mouse table).
    pub open spec fn to_macos_spec(self) -> u32 {
        match self {
            Mouse::Left => 1u32,
            Mouse::Right => 3u32,
            Mouse::Middle => 2u32,
        }
    }

    /// The symbolic value behind a native macOS code, if the table
    /// knows the code.
    pub open spec fn from_macos_spec(code: u32) -> Option<Mouse> {
        if code == 1 {
            Some(Mouse::Left)
        } else if code == 3 {
            Some(Mouse::Right)
        } else if code == 2 {
            Some(Mouse::Middle)
        } else {
            None
        }
    }

    /// The native macOS code for this value; total, every value has one.
    pub fn to_macos(self) -> (code: u32)
        ensures
            code == self.to_macos_spec(),
    {
        match self {
            Mouse::Left => 1u32,
            Mouse::Right => 3u32,
            Mouse::Middle => 2u32,
        }
    }

    /// Maps a native macOS code back to its symbolic value; codes
    /// outside the table yield `None` and are dropped at capture time.
    pub fn from_macos(code: u32) -> (r: Option<Mouse>)
        ensures
            r == Mouse::from_macos_spec(code),
    {
        match code {
            1 => Some(Mouse::Left),
            3 => Some(Mouse::Right),
            2 => Some(Mouse::Middle),
            _ => None,
        }
    }
}

/// The macOS mouse table round-trips: every symbolic value comes
/// back from its own native code.
pub proof fn lemma_mouse_macos_roundtrip(v: Mouse)
    ensures
        Mouse::from_macos_spec(v.to_macos_spec()) == Some(v),
{
}

/// The macOS mouse table is injective: two symbolic values with
/// the same native code are the same value.
pub proof fn lemma_mouse_macos_injective(a: Mouse, b: Mouse)
    requires
        a.to_macos_spec() == b.to_macos_spec(),
    ensures
        a == b,
{
    lemma_mouse_macos_roundtrip(a);
    lemma_mouse_macos_roundtrip(b);
}

impl Scroll {
    /// The native X11 code of each symbolic value (the scroll table).
    pub open spec fn to_x11_spec(self) -> u32 {
        match self {
            Scroll::Up => 5u32,
            Scroll::Down => 4u32,
            Scroll::Left => 6u32,
            Scroll::Right => 7u32,
        }
    }

    /// The symbolic value behind a native X11 code, if the table
    /// knows the code.
    pub open spec fn from_x11_spec(code: u32) -> Option<Scroll> {
        if code == 5 {
            Some(Scroll::Up)
        } else if code == 4 {
            Some(Scroll::Down)
        } else if code == 6 {
            Some(Scroll::Left)
        } else if code == 7 {
            Some(Scroll::Right)
        } else {
            None
        }
    }

    /// The native X11 code for this value; total, every value has one.
    pub fn to_x11(self) -> (code: u32)
        ensures
            code == self.to_x11_spec(),
    {
        match self {
            Scroll::Up => 5u32,
            Scroll::Down => 4u32,
            Scroll::Left => 6u32,
            Scroll::Right => 7u32,
        }
    }

    /// Maps a native X11 code back to its symbolic value; codes
    /// outside the table yield `None` and are dropped at capture time.
    pub fn from_x11(code: u32) -> (r: Option<Scroll>)
        ensures
            r == Scroll::from_x11_spec(code),
    {
        match code {
            5 => Some(Scroll::Up),
            4 => Some(Scroll::Down),
            6 => Some(Scroll::Left),
            7 => Some(Scroll::Right),
            _ => None,
        }
    }
}

/// The X11 scroll table round-trips: every symbolic value comes
/// back from its own native code.
pub proof fn lemma_scroll_x11_roundtrip(v: Scroll)
    ensures
        Scroll::from_x11_spec(v.to_x11_spec()) == Some(v),
{
}

/// The X11 scroll table is injective: two symbolic values with
/// the same native code are the same value.
pub proof fn lemma_scroll_x11_injective(a: Scroll, b: Scroll)
    requires
        a.to_x11_spec() == b.to_x11_spec(),
    ensures
        a == b,
{
    lemma_scroll_x11_roundtrip(a);
    lemma_scroll_x11_roundtrip(b);
}

impl Scroll {
    /// The native macOS code of each symbolic value (the scroll table).
    pub open spec fn to_macos_spec(self) -> u32 {
        match self {
            Scroll::Up => 3u32,
            Scroll::Down => 2u32,
            Scroll::Left => 1u32,
            Scroll::Right => 4u32,
        }
    }

    /// The symbolic value behind a native macOS code, if the table
    /// knows the code.
    pub open spec fn from_macos_spec(code: u32) -> Option<Scroll> {
        if code == 3 {
            Some(Scroll::Up)
        } else if code == 2 {
            Some(Scroll::Down)
        } else if code == 1 {
            Some(Scroll::Left)
        } else if code == 4 {
            Some(Scroll::Right)
        } else {
            None
        }
    }

    /// The native macOS code for this value; total, every value has one.
    pub fn to_macos(self) -> (code: u32)
        ensures
            code == self.to_macos_spec(),
    {
        match self {
            Scroll::Up => 3u32,
            Scroll::Down => 2u32,
            Scroll::Left => 1u32,
            Scroll::Right => 4u32,
        }
    }

    /// Maps a native macOS code back to its symbolic value; codes
    /// outside the table yield `None` and are dropped at capture time.
    pub fn from_macos(code: u32) -> (r: Option<Scroll>)
        ensures
            r == Scroll::from_macos_spec(code),
    {
        match code {
            3 => Some(Scroll::Up),
            2 => Some(Scroll::Down),
            1 => Some(Scroll::Left),
            4 => Some(Scroll::Right),
            _ => None,
        }
    }
}

/// The macOS scroll table round-trips: every symbolic value comes
/// back from its own native code.
pub proof fn lemma_scroll_macos_roundtrip(v: Scroll)
    ensures
        Scroll::from_macos_spec(v.to_macos_spec()) == Some(v),
{
}

/// The macOS scroll table is injective: two symbolic values with
/// the same native code are the same value.
pub proof fn lemma_scroll_macos_injective(a: Scroll, b: Scroll)
    requires
        a.to_macos_spec() == b.to_macos_spec(),
    ensures
        a == b,
{
    lemma_scroll_macos_roundtrip(a);
    lemma_scroll_macos_roundtrip(b);
}

/// The native X11 modifier mask holding every native bit whose
/// semantic modifier is set in `bits`.
pub open spec fn mods_to_x11_bits(bits: u8) -> u32 {
    (if bits & MODS_SHIFT != 0 { 1u32 } else { 0u32 }) | (if bits & MODS_CTRL != 0 {
        4u32
    } else { 0u32 }) | (if bits & MODS_ALT != 0 { 8u32 } else { 0u32 }) | (if bits
        & MODS_SUPER != 0 { 64u32 } else { 0u32 })
}

/// The semantic modifier byte holding every semantic bit whose native
/// X11 bit is set in `code`.
pub open spec fn mods_from_x11_bits(code: u32) -> u8 {
    (if code & 1 != 0 { MODS_SHIFT } else { 0u8 }) | (if code & 4 != 0 {
        MODS_CTRL
    } else { 0u8 }) | (if code & 8 != 0 { MODS_ALT } else { 0u8 }) | (if code & 64
        != 0 { MODS_SUPER } else { 0u8 })
}

impl Mods {
    /// The native X11 modifier mask for this modifier set.
    pub fn to_x11(self) -> (code: u32)
        ensures
            code == mods_to_x11_bits(self.bits),
    {
        (if self.bits & MODS_SHIFT != 0 { 1u32 } else { 0u32 }) | (if self.bits
            & MODS_CTRL != 0 { 4u32 } else { 0u32 }) | (if self.bits & MODS_ALT != 0 {
            8u32
        } else { 0u32 }) | (if self.bits & MODS_SUPER != 0 { 64u32 } else { 0u32 })
    }

    /// The modifier set read off a native X11 modifier mask; native
    /// bits outside the four known ones are ignored.
    pub fn from_x11(code: u32) -> (m: Mods)
        ensures
            m.bits == mods_from_x11_bits(code),
            m.wf(),
    {
        proof {
            assert(mods_from_x11_bits(code) < 16) by (bit_vector);
        }
        Mods {
            bits: (if code & 1 != 0 { MODS_SHIFT } else { 0u8 }) | (if code & 4
                != 0 { MODS_CTRL } else { 0u8 }) | (if code & 8 != 0 {
                MODS_ALT
            } else { 0u8 }) | (if code & 64 != 0 { MODS_SUPER } else { 0u8 }),
        }
    }
}

/// The X11 modifier translation round-trips: a well-formed modifier
/// set comes back unchanged from its native mask. In particular each of the
/// four modifiers alone survives the trip.
pub proof fn lemma_mods_x11_roundtrip(bits: u8)
    requires
        bits < 16,
    ensures
        mods_from_x11_bits(mods_to_x11_bits(bits)) == bits,
{
    assert(mods_from_x11_bits(mods_to_x11_bits(bits)) == bits) by (bit_vector)
        requires
            bits < 16,
    ;
}

/// The native macOS modifier mask holding every native bit whose
/// semantic modifier is set in `bits`.
pub open spec fn mods_to_macos_bits(bits: u8) -> u32 {
    (if bits & MODS_SHIFT != 0 { 0x2_0000u32 } else { 0u32 }) | (if bits & MODS_CTRL != 0 {
        0x4_0000u32
    } else { 0u32 }) | (if bits & MODS_ALT != 0 { 0x8_0000u32 } else { 0u32 }) | (if bits
        & MODS_SUPER != 0 { 0x10_0000u32 } else { 0u32 })
}

/// The semantic modifier byte holding every semantic bit whose native
/// macOS bit is set in `code`.
pub open spec fn mods_from_macos_bits(code: u32) -> u8 {
    (if code & 0x2_0000 != 0 { MODS_SHIFT } else { 0u8 }) | (if code & 0x4_0000 != 0 {
        MODS_CTRL
    } else { 0u8 }) | (if code & 0x8_0000 != 0 { MODS_ALT } else { 0u8 }) | (if code & 0x10_0000
        != 0 { MODS_SUPER } else { 0u8 })
}

impl Mods {
    /// The native macOS modifier mask for this modifier set.
    pub fn to_macos(self) -> (code: u32)
        ensures
            code == mods_to_macos_bits(self.bits),
    {
        (if self.bits & MODS_SHIFT != 0 { 0x2_0000u32 } else { 0u32 }) | (if self.bits
            & MODS_CTRL != 0 { 0x4_0000u32 } else { 0u32 }) | (if self.bits & MODS_ALT != 0 {
            0x8_0000u32
        } else { 0u32 }) | (if self.bits & MODS_SUPER != 0 { 0x10_0000u32 } else { 0u32 })
    }

    /// The modifier set read off a native macOS modifier mask; native
    /// bits outside the four known ones are ignored.
    pub fn from_macos(code: u32) -> (m: Mods)
        ensures
            m.bits == mods_from_macos_bits(code),
            m.wf(),
    {
        proof {
            assert(mods_from_macos_bits(code) < 16) by (bit_vector);
        }
        Mods {
            bits: (if code & 0x2_0000 != 0 { MODS_SHIFT } else { 0u8 }) | (if code & 0x4_0000
                != 0 { MODS_CTRL } else { 0u8 }) | (if code & 0x8_0000 != 0 {
                MODS_ALT
            } else { 0u8 }) | (if code & 0x10_0000 != 0 { MODS_SUPER } else { 0u8 }),
        }
    }
}

/// The macOS modifier translation round-trips: a well-formed modifier
/// set comes back unchanged from its native mask. In particular each of the
/// four modifiers alone survives the trip.
pub proof fn lemma_mods_macos_roundtrip(bits: u8)
    requires
        bits < 16,
    ensures
        mods_from_macos_bits(mods_to_macos_bits(bits)) == bits,
{
    assert(mods_from_macos_bits(mods_to_macos_bits(bits)) == bits) by (bit_vector)
        requires
            bits < 16,
    ;
}

} // verus!
