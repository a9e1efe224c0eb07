//! A software KVM core: input captured on one host is mirrored to another.
//!
//! The library holds everything that is platform- and I/O-free: the symbolic
//! event model, the fixed 3-byte wire codec, the per-platform keycode tables,
//! and the decision logic of the capture pipeline and of the injection side.
//! The thin OS shims that physically intercept or synthesize input live
//! outside it and talk to it in plain values.

pub mod capture;
pub mod event;
pub mod inject;
pub mod proto;
pub mod tables;

pub use event::Event;
pub use event::Key;
pub use event::Mods;
pub use event::Mouse;
pub use event::Scroll;
