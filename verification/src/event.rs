//! The symbolic input-event model shared by the capturing and the injecting
//! host: keys, modifier sets, mouse buttons, scroll directions, and the
//! `Event` union that travels over the wire.

use vstd::prelude::*;

verus! {

/// The symbolic keyboard keys. The declaration order fixes each key's
/// ordinal, which is the value carried on the wire; it must stay in step
/// with [`crate::proto::KEY_COUNT`].
#[derive(Clone, Copy, Debug, PartialEq, Eq, Structural)]
pub enum Key {
    A, B, C, D, E, F, G, H, I, J, K, L, M,
    N, O, P, Q, R, S, T, U, V, W, X, Y, Z,

    Num1, Num2, Num3, Num4, Num5,
    Num6, Num7, Num8, Num9, Num0,

    Left,       Up,         Right,      Down,      Enter,
    Esc,        Backspace,  Tab,        Space,     Minus,
    Equal,      LeftBrace,  RightBrace, Backslash, SemiColon,
    Apostrophe, Grave,      Comma,      Dot,       Slash,
    CapsLock,   ScrollLock, Pause,      Print,     Insert,
    Delete,     Home,       End,        PageUp,    PageDown,

    F1, F2, F3, F4,  F5,  F6,
    F7, F8, F9, F10, F11, F12,
}

/// The mouse buttons. The declaration order fixes each button's ordinal;
/// it must stay in step with [`crate::proto::BUTTON_COUNT`].
#[derive(Clone, Copy, Debug, PartialEq, Eq, Structural)]
pub enum Mouse {
    Left,
    Right,
    Middle,
}

/// A scroll-wheel direction. Never transmitted directly: it only arises when
/// a signed scroll delta is decomposed into unit clicks at injection time.
#[derive(Clone, Copy, Debug, PartialEq, Eq, Structural)]
pub enum Scroll {
    Up,
    Down,
    Left,
    Right,
}

/// The modifier bit for the Shift key.
pub const MODS_SHIFT: u8 = 1;
/// The modifier bit for the Control key.
pub const MODS_CTRL: u8 = 2;
/// The modifier bit for the Alt key.
pub const MODS_ALT: u8 = 4;
/// The modifier bit for the Super key.
pub const MODS_SUPER: u8 = 8;
/// All four modifier bits at once: holding these keys together is the
/// escape combo that shuts the capture pipeline down.
pub const MODS_ALL: u8 = 15;

/// A set of held modifier keys, stored as the four low bits of a byte
/// (`MODS_SHIFT | MODS_CTRL | MODS_ALT | MODS_SUPER`). Every value built
/// through the public constructors keeps the four high bits clear.
#[derive(Clone, Copy, Debug, PartialEq, Eq, Structural)]
pub struct Mods {
    pub bits: u8,
}

impl Mods {
    /// A modifier set is well formed when only the four defined bits are set.
    pub open spec fn wf(&self) -> bool {
        self.bits < 16
    }

    /// The empty modifier set.
    pub fn empty() -> (m: Mods)
        ensures
            m.bits == 0,
            m.wf(),
    {
        Mods { bits: 0 }
    }

    /// The set of all four modifiers.
    pub fn all() -> (m: Mods)
        ensures
            m.bits == MODS_ALL,
            m.wf(),
    {
        Mods { bits: MODS_ALL }
    }

    /// Builds a modifier set from a raw byte, silently dropping any bit
    /// outside the four defined ones.
    pub fn from_bits_truncate(bits: u8) -> (m: Mods)
        ensures
            m.bits == bits & MODS_ALL,
            m.wf(),
    {
        proof {
            assert(bits & MODS_ALL < 16) by (bit_vector);
        }
        Mods { bits: bits & MODS_ALL }
    }

    /// Whether every modifier of `other` is also in `self`.
    pub fn contains(&self, other: Mods) -> (r: bool)
        ensures
            r == (self.bits & other.bits == other.bits),
    {
        self.bits & other.bits == other.bits
    }

    /// Whether all four defined modifiers are held: the escape combo.
    pub fn is_all(&self) -> (r: bool)
        ensures
            r == (self.bits & MODS_ALL == MODS_ALL),
    {
        self.bits & MODS_ALL == MODS_ALL
    }
}

/// One symbolic input event. Events are ephemeral: captured, transported
/// once as a 3-byte packet, and consumed immediately by injection.
/// `dx`/`dy` are signed 8-bit deltas covering their full range.
#[derive(Clone, Copy, Debug, PartialEq, Eq, Structural)]
pub enum Event {
    KeyDown(Key),
    KeyUp(Key),
    Mods(Mods),

    MouseDown(Mouse),
    MouseUp(Mouse),
    MouseMove { dx: i8, dy: i8 },
    Scroll { dx: i8, dy: i8 },
}

impl Event {
    /// An event is well formed when any modifier set it carries is.
    /// Every event built from the public constructors satisfies this.
    pub open spec fn wf(&self) -> bool {
        self matches Event::Mods(m) ==> m.wf()
    }
}

} // verus!
