//! The producer side's platform-free logic: the decision the forwarding
//! loop takes on each captured event, and a scripted capturer that stands in
//! for the OS capture hook where none is available.
//!
//! The OS capturer itself (the blocking event tap that intercepts real input
//! and suppresses it locally) is an external capability; it hands this module
//! plain `Event` values.

use vstd::prelude::*;

use crate::event::Event;
use crate::event::MODS_ALL;
use crate::proto::PACKET_SIZE;
use crate::proto::encode_spec;

verus! {

/// Whether an event is the escape combo: a modifier state holding all four
/// modifiers at once. It is the only graceful shutdown path of the pipeline.
pub open spec fn is_escape(e: Event) -> bool {
    e matches Event::Mods(m) && m.bits & MODS_ALL == MODS_ALL
}

/// What the forwarding loop does with one captured event.
#[derive(Clone, Copy, Debug, PartialEq, Eq)]
pub enum Step {
    /// Stop the capturer, restore the cursor, and exit cleanly.
    Shutdown,
    /// Write this packet to the outbound connection.
    Send([u8; PACKET_SIZE]),
}

/// Decides the fate of one captured event: the all-modifiers escape combo
/// shuts the pipeline down, independent of any network state; every other
/// event is encoded and forwarded.
pub fn forward_step(e: Event) -> (s: Step)
    ensures
        is_escape(e) ==> s == Step::Shutdown,
        !is_escape(e) ==> (s matches Step::Send(p) && p@ == encode_spec(e)),
{
    if let Event::Mods(m) = e {
        if m.is_all() {
            return Step::Shutdown;
        }
    }
    Step::Send(e.encode())
}

/// A scripted capturer: hands out a fixed queue of events in capture order.
/// It plays the role of the platform capture hook on hosts that have none,
/// and drives the pipeline deterministically in tests.
pub struct Dummy {
    script: Vec<Event>,
}

impl View for Dummy {
    type V = Seq<Event>;

    closed spec fn view(&self) -> Seq<Event> {
        self.script@
    }
}

impl Dummy {
    /// A capturer that will produce exactly the given events, in order.
    pub fn new(script: Vec<Event>) -> (d: Dummy)
        ensures
            d@ == script@,
    {
        Dummy { script }
    }

    /// Produces the next scripted event.
    pub fn capture(&mut self) -> (e: Event)
        requires
            old(self)@.len() > 0,
        ensures
            e == old(self)@[0],
            final(self)@ == old(self)@.skip(1),
    {
        let e = self.script.remove(0);
        proof {
            assert(self@ =~= old(self)@.skip(1));
        }
        e
    }

    /// How many scripted events are still to come.
    pub fn remaining(&self) -> (n: usize)
        ensures
            n == self@.len(),
    {
        self.script.len()
    }
}

} // verus!
