//! The fixed-size wire codec: every event travels as exactly three bytes,
//! byte 0 a tag in 1..=7, bytes 1 and 2 the payload. Decoding an untrusted
//! packet bounds-checks every ordinal before it becomes an enum value.

use vstd::prelude::*;

use crate::event::Event;
use crate::event::Key;
use crate::event::MODS_ALL;
use crate::event::Mods;
use crate::event::Mouse;

verus! {

/// How many symbolic keys exist; a decoded key ordinal must lie below it.
pub const KEY_COUNT: u8 = 78;

/// How many mouse buttons exist; a decoded button ordinal must lie below it.
pub const BUTTON_COUNT: u8 = 3;

/// Every packet is exactly this many bytes: no length prefix, no framing.
pub const PACKET_SIZE: usize = 3;

/// Why an incoming packet was rejected.
#[derive(Clone, Copy, Debug, PartialEq, Eq, Structural)]
pub enum DecodeError {
    /// Byte 0 is outside the tag range 1..=7.
    UnknownTag,
    /// A key packet carries an ordinal at or above `KEY_COUNT`.
    InvalidKey,
    /// A button packet carries an ordinal at or above `BUTTON_COUNT`.
    InvalidButton,
}

impl Key {
    /// The key's stable ordinal: its position in the declaration order,
    /// used as the wire value.
    pub open spec fn ord_spec(self) -> u8 {
        match self {
            Key::A => 0u8,
            Key::B => 1u8,
            Key::C => 2u8,
            Key::D => 3u8,
            Key::E => 4u8,
            Key::F => 5u8,
            Key::G => 6u8,
            Key::H => 7u8,
            Key::I => 8u8,
            Key::J => 9u8,
            Key::K => 10u8,
            Key::L => 11u8,
            Key::M => 12u8,
            Key::N => 13u8,
            Key::O => 14u8,
            Key::P => 15u8,
            Key::Q => 16u8,
            Key::R => 17u8,
            Key::S => 18u8,
            Key::T => 19u8,
            Key::U => 20u8,
            Key::V => 21u8,
            Key::W => 22u8,
            Key::X => 23u8,
            Key::Y => 24u8,
            Key::Z => 25u8,
            Key::Num1 => 26u8,
            Key::Num2 => 27u8,
            Key::Num3 => 28u8,
            Key::Num4 => 29u8,
            Key::Num5 => 30u8,
            Key::Num6 => 31u8,
            Key::Num7 => 32u8,
            Key::Num8 => 33u8,
            Key::Num9 => 34u8,
            Key::Num0 => 35u8,
            Key::Left => 36u8,
            Key::Up => 37u8,
            Key::Right => 38u8,
            Key::Down => 39u8,
            Key::Enter => 40u8,
            Key::Esc => 41u8,
            Key::Backspace => 42u8,
            Key::Tab => 43u8,
            Key::Space => 44u8,
            Key::Minus => 45u8,
            Key::Equal => 46u8,
            Key::LeftBrace => 47u8,
            Key::RightBrace => 48u8,
            Key::Backslash => 49u8,
            Key::SemiColon => 50u8,
            Key::Apostrophe => 51u8,
            Key::Grave => 52u8,
            Key::Comma => 53u8,
            Key::Dot => 54u8,
            Key::Slash => 55u8,
            Key::CapsLock => 56u8,
            Key::ScrollLock => 57u8,
            Key::Pause => 58u8,
            Key::Print => 59u8,
            Key::Insert => 60u8,
            Key::Delete => 61u8,
            Key::Home => 62u8,
            Key::End => 63u8,
            Key::PageUp => 64u8,
            Key::PageDown => 65u8,
            Key::F1 => 66u8,
            Key::F2 => 67u8,
            Key::F3 => 68u8,
            Key::F4 => 69u8,
            Key::F5 => 70u8,
            Key::F6 => 71u8,
            Key::F7 => 72u8,
            Key::F8 => 73u8,
            Key::F9 => 74u8,
            Key::F10 => 75u8,
            Key::F11 => 76u8,
            Key::F12 => 77u8,
        }
    }

    /// The key holding a given ordinal, if the ordinal is in range.
    pub open spec fn from_ord_spec(byte: u8) -> Option<Key> {
        if byte == 0 {
            Some(Key::A)
        } else if byte == 1 {
            Some(Key::B)
        } else if byte == 2 {
            Some(Key::C)
        } else if byte == 3 {
            Some(Key::D)
        } else if byte == 4 {
            Some(Key::E)
        } else if byte == 5 {
            Some(Key::F)
        } else if byte == 6 {
            Some(Key::G)
        } else if byte == 7 {
            Some(Key::H)
        } else if byte == 8 {
            Some(Key::I)
        } else if byte == 9 {
            Some(Key::J)
        } else if byte == 10 {
            Some(Key::K)
        } else if byte == 11 {
            Some(Key::L)
        } else if byte == 12 {
            Some(Key::M)
        } else if byte == 13 {
            Some(Key::N)
        } else if byte == 14 {
            Some(Key::O)
        } else if byte == 15 {
            Some(Key::P)
        } else if byte == 16 {
            Some(Key::Q)
        } else if byte == 17 {
            Some(Key::R)
        } else if byte == 18 {
            Some(Key::S)
        } else if byte == 19 {
            Some(Key::T)
        } else if byte == 20 {
            Some(Key::U)
        } else if byte == 21 {
            Some(Key::V)
        } else if byte == 22 {
            Some(Key::W)
        } else if byte == 23 {
            Some(Key::X)
        } else if byte == 24 {
            Some(Key::Y)
        } else if byte == 25 {
            Some(Key::Z)
        } else if byte == 26 {
            Some(Key::Num1)
        } else if byte == 27 {
            Some(Key::Num2)
        } else if byte == 28 {
            Some(Key::Num3)
        } else if byte == 29 {
            Some(Key::Num4)
        } else if byte == 30 {
            Some(Key::Num5)
        } else if byte == 31 {
            Some(Key::Num6)
        } else if byte == 32 {
            Some(Key::Num7)
        } else if byte == 33 {
            Some(Key::Num8)
        } else if byte == 34 {
            Some(Key::Num9)
        } else if byte == 35 {
            Some(Key::Num0)
        } else if byte == 36 {
            Some(Key::Left)
        } else if byte == 37 {
            Some(Key::Up)
        } else if byte == 38 {
            Some(Key::Right)
        } else if byte == 39 {
            Some(Key::Down)
        } else if byte == 40 {
            Some(Key::Enter)
        } else if byte == 41 {
            Some(Key::Esc)
        } else if byte == 42 {
            Some(Key::Backspace)
        } else if byte == 43 {
            Some(Key::Tab)
        } else if byte == 44 {
            Some(Key::Space)
        } else if byte == 45 {
            Some(Key::Minus)
        } else if byte == 46 {
            Some(Key::Equal)
        } else if byte == 47 {
            Some(Key::LeftBrace)
        } else if byte == 48 {
            Some(Key::RightBrace)
        } else if byte == 49 {
            Some(Key::Backslash)
        } else if byte == 50 {
            Some(Key::SemiColon)
        } else if byte == 51 {
            Some(Key::Apostrophe)
        } else if byte == 52 {
            Some(Key::Grave)
        } else if byte == 53 {
            Some(Key::Comma)
        } else if byte == 54 {
            Some(Key::Dot)
        } else if byte == 55 {
            Some(Key::Slash)
        } else if byte == 56 {
            Some(Key::CapsLock)
        } else if byte == 57 {
            Some(Key::ScrollLock)
        } else if byte == 58 {
            Some(Key::Pause)
        } else if byte == 59 {
            Some(Key::Print)
        } else if byte == 60 {
            Some(Key::Insert)
        } else if byte == 61 {
            Some(Key::Delete)
        } else if byte == 62 {
            Some(Key::Home)
        } else if byte == 63 {
            Some(Key::End)
        } else if byte == 64 {
            Some(Key::PageUp)
        } else if byte == 65 {
            Some(Key::PageDown)
        } else if byte == 66 {
            Some(Key::F1)
        } else if byte == 67 {
            Some(Key::F2)
        } else if byte == 68 {
            Some(Key::F3)
        } else if byte == 69 {
            Some(Key::F4)
        } else if byte == 70 {
            Some(Key::F5)
        } else if byte == 71 {
            Some(Key::F6)
        } else if byte == 72 {
            Some(Key::F7)
        } else if byte == 73 {
            Some(Key::F8)
        } else if byte == 74 {
            Some(Key::F9)
        } else if byte == 75 {
            Some(Key::F10)
        } else if byte == 76 {
            Some(Key::F11)
        } else if byte == 77 {
            Some(Key::F12)
        } else {
            None
        }
    }

    /// The key's stable ordinal, the value carried on the wire.
    pub fn ord(self) -> (byte: u8)
        ensures
            byte == self.ord_spec(),
    {
        match self {
            Key::A => 0u8,
            Key::B => 1u8,
            Key::C => 2u8,
            Key::D => 3u8,
            Key::E => 4u8,
            Key::F => 5u8,
            Key::G => 6u8,
            Key::H => 7u8,
            Key::I => 8u8,
            Key::J => 9u8,
            Key::K => 10u8,
            Key::L => 11u8,
            Key::M => 12u8,
            Key::N => 13u8,
            Key::O => 14u8,
            Key::P => 15u8,
            Key::Q => 16u8,
            Key::R => 17u8,
            Key::S => 18u8,
            Key::T => 19u8,
            Key::U => 20u8,
            Key::V => 21u8,
            Key::W => 22u8,
            Key::X => 23u8,
            Key::Y => 24u8,
            Key::Z => 25u8,
            Key::Num1 => 26u8,
            Key::Num2 => 27u8,
            Key::Num3 => 28u8,
            Key::Num4 => 29u8,
            Key::Num5 => 30u8,
            Key::Num6 => 31u8,
            Key::Num7 => 32u8,
            Key::Num8 => 33u8,
            Key::Num9 => 34u8,
            Key::Num0 => 35u8,
            Key::Left => 36u8,
            Key::Up => 37u8,
            Key::Right => 38u8,
            Key::Down => 39u8,
            Key::Enter => 40u8,
            Key::Esc => 41u8,
            Key::Backspace => 42u8,
            Key::Tab => 43u8,
            Key::Space => 44u8,
            Key::Minus => 45u8,
            Key::Equal => 46u8,
            Key::LeftBrace => 47u8,
            Key::RightBrace => 48u8,
            Key::Backslash => 49u8,
            Key::SemiColon => 50u8,
            Key::Apostrophe => 51u8,
            Key::Grave => 52u8,
            Key::Comma => 53u8,
            Key::Dot => 54u8,
            Key::Slash => 55u8,
            Key::CapsLock => 56u8,
            Key::ScrollLock => 57u8,
            Key::Pause => 58u8,
            Key::Print => 59u8,
            Key::Insert => 60u8,
            Key::Delete => 61u8,
            Key::Home => 62u8,
            Key::End => 63u8,
            Key::PageUp => 64u8,
            Key::PageDown => 65u8,
            Key::F1 => 66u8,
            Key::F2 => 67u8,
            Key::F3 => 68u8,
            Key::F4 => 69u8,
            Key::F5 => 70u8,
            Key::F6 => 71u8,
            Key::F7 => 72u8,
            Key::F8 => 73u8,
            Key::F9 => 74u8,
            Key::F10 => 75u8,
            Key::F11 => 76u8,
            Key::F12 => 77u8,
        }
    }

    /// Maps a wire ordinal back to its key; ordinals at or above
    /// `KEY_COUNT` yield `None`.
    pub fn from_ord(byte: u8) -> (r: Option<Key>)
        ensures
            r == Key::from_ord_spec(byte),
    {
        match byte {
            0 => Some(Key::A),
            1 => Some(Key::B),
            2 => Some(Key::C),
            3 => Some(Key::D),
            4 => Some(Key::E),
            5 => Some(Key::F),
            6 => Some(Key::G),
            7 => Some(Key::H),
            8 => Some(Key::I),
            9 => Some(Key::J),
            10 => Some(Key::K),
            11 => Some(Key::L),
            12 => Some(Key::M),
            13 => Some(Key::N),
            14 => Some(Key::O),
            15 => Some(Key::P),
            16 => Some(Key::Q),
            17 => Some(Key::R),
            18 => Some(Key::S),
            19 => Some(Key::T),
            20 => Some(Key::U),
            21 => Some(Key::V),
            22 => Some(Key::W),
            23 => Some(Key::X),
            24 => Some(Key::Y),
            25 => Some(Key::Z),
            26 => Some(Key::Num1),
            27 => Some(Key::Num2),
            28 => Some(Key::Num3),
            29 => Some(Key::Num4),
            30 => Some(Key::Num5),
            31 => Some(Key::Num6),
            32 => Some(Key::Num7),
            33 => Some(Key::Num8),
            34 => Some(Key::Num9),
            35 => Some(Key::Num0),
            36 => Some(Key::Left),
            37 => Some(Key::Up),
            38 => Some(Key::Right),
            39 => Some(Key::Down),
            40 => Some(Key::Enter),
            41 => Some(Key::Esc),
            42 => Some(Key::Backspace),
            43 => Some(Key::Tab),
            44 => Some(Key::Space),
            45 => Some(Key::Minus),
            46 => Some(Key::Equal),
            47 => Some(Key::LeftBrace),
            48 => Some(Key::RightBrace),
            49 => Some(Key::Backslash),
            50 => Some(Key::SemiColon),
            51 => Some(Key::Apostrophe),
            52 => Some(Key::Grave),
            53 => Some(Key::Comma),
            54 => Some(Key::Dot),
            55 => Some(Key::Slash),
            56 => Some(Key::CapsLock),
            57 => Some(Key::ScrollLock),
            58 => Some(Key::Pause),
            59 => Some(Key::Print),
            60 => Some(Key::Insert),
            61 => Some(Key::Delete),
            62 => Some(Key::Home),
            63 => Some(Key::End),
            64 => Some(Key::PageUp),
            65 => Some(Key::PageDown),
            66 => Some(Key::F1),
            67 => Some(Key::F2),
            68 => Some(Key::F3),
            69 => Some(Key::F4),
            70 => Some(Key::F5),
            71 => Some(Key::F6),
            72 => Some(Key::F7),
            73 => Some(Key::F8),
            74 => Some(Key::F9),
            75 => Some(Key::F10),
            76 => Some(Key::F11),
            77 => Some(Key::F12),
            _ => None,
        }
    }
}

/// Every key ordinal lies below `KEY_COUNT`.
pub proof fn lemma_key_ord_bound(k: Key)
    ensures
        k.ord_spec() < KEY_COUNT,
{
}

/// A key's ordinal maps back to the key itself.
pub proof fn lemma_key_ord_roundtrip(k: Key)
    ensures
        Key::from_ord_spec(k.ord_spec()) == Some(k),
{
}

/// An ordinal decodes to some key exactly when it lies below `KEY_COUNT`,
/// and the decoded key carries that ordinal.
pub proof fn lemma_key_from_ord_total(byte: u8)
    ensures
        Key::from_ord_spec(byte) is Some <==> byte < KEY_COUNT,
        Key::from_ord_spec(byte) matches Some(k) ==> k.ord_spec() == byte,
{
}

impl Mouse {
    /// The button's stable ordinal: its position in the declaration order,
    /// used as the wire value.
    pub open spec fn ord_spec(self) -> u8 {
        match self {
            Mouse::Left => 0u8,
            Mouse::Right => 1u8,
            Mouse::Middle => 2u8,
        }
    }

    /// The button holding a given ordinal, if the ordinal is in range.
    pub open spec fn from_ord_spec(byte: u8) -> Option<Mouse> {
        if byte == 0 {
            Some(Mouse::Left)
        } else if byte == 1 {
            Some(Mouse::Right)
        } else if byte == 2 {
            Some(Mouse::Middle)
        } else {
            None
        }
    }

    /// The button's stable ordinal, the value carried on the wire.
    pub fn ord(self) -> (byte: u8)
        ensures
            byte == self.ord_spec(),
    {
        match self {
            Mouse::Left => 0u8,
            Mouse::Right => 1u8,
            Mouse::Middle => 2u8,
        }
    }

    /// Maps a wire ordinal back to its button; ordinals at or above
    /// `BUTTON_COUNT` yield `None`.
    pub fn from_ord(byte: u8) -> (r: Option<Mouse>)
        ensures
            r == Mouse::from_ord_spec(byte),
    {
        match byte {
            0 => Some(Mouse::Left),
            1 => Some(Mouse::Right),
            2 => Some(Mouse::Middle),
            _ => None,
        }
    }
}

/// Every button ordinal lies below `BUTTON_COUNT`.
pub proof fn lemma_mouse_ord_bound(b: Mouse)
    ensures
        b.ord_spec() < BUTTON_COUNT,
{
}

/// A button's ordinal maps back to the button itself.
pub proof fn lemma_mouse_ord_roundtrip(b: Mouse)
    ensures
        Mouse::from_ord_spec(b.ord_spec()) == Some(b),
{
}

/// An ordinal decodes to some button exactly when it lies below
/// `BUTTON_COUNT`, and the decoded button carries that ordinal.
pub proof fn lemma_mouse_from_ord_total(byte: u8)
    ensures
        Mouse::from_ord_spec(byte) is Some <==> byte < BUTTON_COUNT,
        Mouse::from_ord_spec(byte) matches Some(b) ==> b.ord_spec() == byte,
{
}

/// The two's-complement byte that carries a signed delta on the wire.
pub open spec fn delta_to_byte(d: i8) -> u8 {
    if d >= 0 {
        d as u8
    } else {
        (d + 256) as u8
    }
}

/// The signed delta carried by a packet byte.
pub open spec fn byte_to_delta(byte: u8) -> i8 {
    if byte < 128 {
        byte as i8
    } else {
        (byte - 256) as i8
    }
}

/// Reading a delta byte back gives the delta that produced it.
pub proof fn lemma_delta_roundtrip(d: i8)
    ensures
        byte_to_delta(delta_to_byte(d)) == d,
{
}

fn encode_delta(d: i8) -> (byte: u8)
    ensures
        byte == delta_to_byte(d),
{
    if d >= 0 {
        d as u8
    } else {
        ((d as i16) + 256) as u8
    }
}

fn decode_delta(byte: u8) -> (d: i8)
    ensures
        d == byte_to_delta(byte),
{
    if byte < 128 {
        byte as i8
    } else {
        ((byte as i16) - 256) as i8
    }
}

/// The 3-byte packet that carries an event: the tag, then the payload.
/// Single-field variants put the field in byte 1 and reserve byte 2 as 0;
/// the two delta variants put `dx` in byte 1 and `dy` in byte 2.
pub open spec fn encode_spec(e: Event) -> Seq<u8> {
    match e {
        Event::KeyDown(k) => seq![1u8, k.ord_spec(), 0u8],
        Event::KeyUp(k) => seq![2u8, k.ord_spec(), 0u8],
        Event::Mods(m) => seq![3u8, m.bits, 0u8],
        Event::MouseDown(b) => seq![4u8, b.ord_spec(), 0u8],
        Event::MouseUp(b) => seq![5u8, b.ord_spec(), 0u8],
        Event::MouseMove { dx, dy } => seq![6u8, delta_to_byte(dx), delta_to_byte(dy)],
        Event::Scroll { dx, dy } => seq![7u8, delta_to_byte(dx), delta_to_byte(dy)],
    }
}

/// What a 3-byte packet decodes to: the event, or the exact error.
/// Key and button ordinals are bounds-checked; a modifier byte is masked
/// to the four defined bits; delta bytes are read back as signed values.
pub open spec fn decode_spec(p: Seq<u8>) -> Result<Event, DecodeError>
    recommends
        p.len() == 3,
{
    if p[0] == 1 {
        match Key::from_ord_spec(p[1]) {
            Some(k) => Ok(Event::KeyDown(k)),
            None => Err(DecodeError::InvalidKey),
        }
    } else if p[0] == 2 {
        match Key::from_ord_spec(p[1]) {
            Some(k) => Ok(Event::KeyUp(k)),
            None => Err(DecodeError::InvalidKey),
        }
    } else if p[0] == 3 {
        Ok(Event::Mods(Mods { bits: p[1] & MODS_ALL }))
    } else if p[0] == 4 {
        match Mouse::from_ord_spec(p[1]) {
            Some(b) => Ok(Event::MouseDown(b)),
            None => Err(DecodeError::InvalidButton),
        }
    } else if p[0] == 5 {
        match Mouse::from_ord_spec(p[1]) {
            Some(b) => Ok(Event::MouseUp(b)),
            None => Err(DecodeError::InvalidButton),
        }
    } else if p[0] == 6 {
        Ok(Event::MouseMove { dx: byte_to_delta(p[1]), dy: byte_to_delta(p[2]) })
    } else if p[0] == 7 {
        Ok(Event::Scroll { dx: byte_to_delta(p[1]), dy: byte_to_delta(p[2]) })
    } else {
        Err(DecodeError::UnknownTag)
    }
}

impl Event {
    /// Encodes the event as its 3-byte packet.
    pub fn encode(self) -> (p: [u8; PACKET_SIZE])
        ensures
            p@ == encode_spec(self),
    {
        let p = match self {
            Event::KeyDown(k) => [1u8, k.ord(), 0u8],
            Event::KeyUp(k) => [2u8, k.ord(), 0u8],
            Event::Mods(m) => [3u8, m.bits, 0u8],
            Event::MouseDown(b) => [4u8, b.ord(), 0u8],
            Event::MouseUp(b) => [5u8, b.ord(), 0u8],
            Event::MouseMove { dx, dy } => [6u8, encode_delta(dx), encode_delta(dy)],
            Event::Scroll { dx, dy } => [7u8, encode_delta(dx), encode_delta(dy)],
        };
        proof {
            assert(p@ =~= encode_spec(self));
        }
        p
    }

    /// Decodes a 3-byte packet, rejecting unknown tags and out-of-range
    /// ordinals with the exact error each deserves.
    pub fn decode(packet: &[u8; PACKET_SIZE]) -> (r: Result<Event, DecodeError>)
        ensures
            r == decode_spec(packet@),
            r matches Ok(e) ==> e.wf(),
            r == Err::<Event, DecodeError>(DecodeError::UnknownTag) <==> (packet@[0] == 0
                || packet@[0] >= 8),
            r == Err::<Event, DecodeError>(DecodeError::InvalidKey) <==> ((packet@[0] == 1
                || packet@[0] == 2) && packet@[1] >= KEY_COUNT),
            r == Err::<Event, DecodeError>(DecodeError::InvalidButton) <==> ((packet@[0] == 4
                || packet@[0] == 5) && packet@[1] >= BUTTON_COUNT),
    {
        let tag = packet[0];
        let b1 = packet[1];
        let b2 = packet[2];
        proof {
            lemma_key_from_ord_total(b1);
            lemma_mouse_from_ord_total(b1);
        }
        match tag {
            1 => match Key::from_ord(b1) {
                Some(k) => Ok(Event::KeyDown(k)),
                None => Err(DecodeError::InvalidKey),
            },
            2 => match Key::from_ord(b1) {
                Some(k) => Ok(Event::KeyUp(k)),
                None => Err(DecodeError::InvalidKey),
            },
            3 => Ok(Event::Mods(Mods::from_bits_truncate(b1))),
            4 => match Mouse::from_ord(b1) {
                Some(b) => Ok(Event::MouseDown(b)),
                None => Err(DecodeError::InvalidButton),
            },
            5 => match Mouse::from_ord(b1) {
                Some(b) => Ok(Event::MouseUp(b)),
                None => Err(DecodeError::InvalidButton),
            },
            6 => Ok(Event::MouseMove { dx: decode_delta(b1), dy: decode_delta(b2) }),
            7 => Ok(Event::Scroll { dx: decode_delta(b1), dy: decode_delta(b2) }),
            _ => Err(DecodeError::UnknownTag),
        }
    }
}

/// The round-trip law: decoding the packet of any well-formed event yields
/// exactly that event back.
pub proof fn lemma_decode_encode(e: Event)
    requires
        e.wf(),
    ensures
        decode_spec(encode_spec(e)) == Ok::<Event, DecodeError>(e),
{
    match e {
        Event::KeyDown(k) => lemma_key_ord_roundtrip(k),
        Event::KeyUp(k) => lemma_key_ord_roundtrip(k),
        Event::Mods(m) => {
            let bits = m.bits;
            assert(bits < 16 ==> bits & MODS_ALL == bits) by (bit_vector);
        },
        Event::MouseDown(b) => lemma_mouse_ord_roundtrip(b),
        Event::MouseUp(b) => lemma_mouse_ord_roundtrip(b),
        Event::MouseMove { dx, dy } => {
            lemma_delta_roundtrip(dx);
            lemma_delta_roundtrip(dy);
        },
        Event::Scroll { dx, dy } => {
            lemma_delta_roundtrip(dx);
            lemma_delta_roundtrip(dy);
        },
    }
}

} // verus!
