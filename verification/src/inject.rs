//! The consumer side's platform-free logic: the exact sequence of native
//! X11 operations that one decoded event demands, with scroll deltas
//! decomposed into unit wheel clicks; and a recording injector that stands
//! in for the real one where no display is available.
//!
//! The X11 injector itself (the XTest calls that synthesize input) is an
//! external capability: it performs the operations this module computes.

use vstd::prelude::*;

use crate::event::Event;
use crate::event::Scroll;
use crate::tables::mods_to_x11_bits;

verus! {

/// One primitive operation of the X11 injector. Each is fire-and-forget
/// and side-effecting on the shared OS input state.
#[derive(Clone, Copy, Debug, PartialEq, Eq, Structural)]
pub enum X11Op {
    /// Press (`press` true) or release a key, by native keycode.
    KeyEvent { code: u32, press: bool },
    /// Press or release a mouse button, by native button number.
    ButtonEvent { code: u32, press: bool },
    /// Move the pointer by a relative offset.
    RelativeMotion { dx: i32, dy: i32 },
    /// Set the absolute modifier-lock state from a native modifier mask
    /// (a level-set operation, not edge-triggered).
    LockMods { mask: u32 },
}

/// The magnitude of a signed delta: how many unit clicks it decomposes into.
pub open spec fn delta_abs(d: i8) -> nat {
    if d >= 0 {
        d as nat
    } else {
        (-(d as int)) as nat
    }
}

/// One unit wheel click: press then release of a direction's native button.
pub open spec fn click(code: u32) -> Seq<X11Op> {
    seq![X11Op::ButtonEvent { code, press: true }, X11Op::ButtonEvent { code, press: false }]
}

/// `n` unit wheel clicks of the same direction.
pub open spec fn clicks(code: u32, n: nat) -> Seq<X11Op>
    decreases n,
{
    if n == 0 {
        Seq::empty()
    } else {
        clicks(code, (n - 1) as nat) + click(code)
    }
}

/// The horizontal scroll direction given by the sign of `dx`.
pub open spec fn h_dir(dx: i8) -> Scroll {
    if dx > 0 {
        Scroll::Right
    } else {
        Scroll::Left
    }
}

/// The vertical scroll direction given by the sign of `dy`.
pub open spec fn v_dir(dy: i8) -> Scroll {
    if dy > 0 {
        Scroll::Up
    } else {
        Scroll::Down
    }
}

/// A scroll event decomposed into unit clicks: `|dx|` clicks in the
/// horizontal direction of `dx`'s sign, then `|dy|` clicks in the vertical
/// direction of `dy`'s sign; the two axes are independent.
pub open spec fn scroll_ops(dx: i8, dy: i8) -> Seq<X11Op> {
    clicks(h_dir(dx).to_x11_spec(), delta_abs(dx)) + clicks(v_dir(dy).to_x11_spec(), delta_abs(dy))
}

/// The exact operations the X11 injector performs for one event, in order.
pub open spec fn x11_ops_spec(e: Event) -> Seq<X11Op> {
    match e {
        Event::KeyDown(k) => seq![X11Op::KeyEvent { code: k.to_x11_spec(), press: true }],
        Event::KeyUp(k) => seq![X11Op::KeyEvent { code: k.to_x11_spec(), press: false }],
        Event::Mods(m) => seq![X11Op::LockMods { mask: mods_to_x11_bits(m.bits) }],
        Event::MouseDown(b) => seq![X11Op::ButtonEvent { code: b.to_x11_spec(), press: true }],
        Event::MouseUp(b) => seq![X11Op::ButtonEvent { code: b.to_x11_spec(), press: false }],
        Event::MouseMove { dx, dy } => seq![
            X11Op::RelativeMotion { dx: dx as i32, dy: dy as i32 },
        ],
        Event::Scroll { dx, dy } => scroll_ops(dx, dy),
    }
}

/// The number of unit clicks a signed delta stands for.
fn click_count(d: i8) -> (n: u8)
    ensures
        n as nat == delta_abs(d),
{
    if d >= 0 {
        d as u8
    } else {
        (-(d as i16)) as u8
    }
}

/// Appends `n` unit clicks of one direction's native button.
fn push_clicks(ops: &mut Vec<X11Op>, code: u32, n: u8)
    ensures
        final(ops)@ == old(ops)@ + clicks(code, n as nat),
{
    let mut i: u8 = 0;
    proof {
        assert(ops@ =~= old(ops)@ + clicks(code, 0));
    }
    while i < n
        invariant
            i <= n,
            ops@ == old(ops)@ + clicks(code, i as nat),
        decreases n - i,
    {
        ops.push(X11Op::ButtonEvent { code, press: true });
        ops.push(X11Op::ButtonEvent { code, press: false });
        i = i + 1;
        proof {
            assert(ops@ =~= old(ops)@ + clicks(code, i as nat));
        }
    }
}

/// Computes the operation sequence the X11 injector must perform for one
/// event: a key or button transition, a modifier-lock update, a relative
/// motion, or a scroll decomposed into unit wheel clicks.
pub fn x11_ops(e: Event) -> (ops: Vec<X11Op>)
    ensures
        ops@ == x11_ops_spec(e),
{
    let mut ops: Vec<X11Op> = Vec::new();
    match e {
        Event::KeyDown(k) => ops.push(X11Op::KeyEvent { code: k.to_x11(), press: true }),
        Event::KeyUp(k) => ops.push(X11Op::KeyEvent { code: k.to_x11(), press: false }),
        Event::Mods(m) => ops.push(X11Op::LockMods { mask: m.to_x11() }),
        Event::MouseDown(b) => ops.push(X11Op::ButtonEvent { code: b.to_x11(), press: true }),
        Event::MouseUp(b) => ops.push(X11Op::ButtonEvent { code: b.to_x11(), press: false }),
        Event::MouseMove { dx, dy } => ops.push(
            X11Op::RelativeMotion { dx: dx as i32, dy: dy as i32 },
        ),
        Event::Scroll { dx, dy } => {
            let h = if dx > 0 {
                Scroll::Right
            } else {
                Scroll::Left
            };
            let v = if dy > 0 {
                Scroll::Up
            } else {
                Scroll::Down
            };
            push_clicks(&mut ops, h.to_x11(), click_count(dx));
            push_clicks(&mut ops, v.to_x11(), click_count(dy));
        },
    }
    proof {
        assert(ops@ =~= x11_ops_spec(e));
    }
    ops
}

/// A recording injector: keeps the events it was asked to emulate, in
/// arrival order. It plays the role of the display-bound injector on hosts
/// that have none, and lets tests observe a connection's injection stream.
pub struct Dummy {
    log: Vec<Event>,
}

impl View for Dummy {
    type V = Seq<Event>;

    closed spec fn view(&self) -> Seq<Event> {
        self.log@
    }
}

impl Dummy {
    /// A fresh injector with an empty log.
    pub fn new() -> (d: Dummy)
        ensures
            d@ == Seq::<Event>::empty(),
    {
        Dummy { log: Vec::new() }
    }

    /// Records one event as emulated; never fails.
    pub fn emulate(&mut self, e: Event) -> (r: Result<(), String>)
        ensures
            final(self)@ == old(self)@.push(e),
            r is Ok,
    {
        self.log.push(e);
        Ok(())
    }

    /// The events emulated so far, in arrival order.
    pub fn log(&self) -> (log: &Vec<Event>)
        ensures
            log@ == self@,
    {
        &self.log
    }
}

} // verus!
