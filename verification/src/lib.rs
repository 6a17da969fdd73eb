//! Traffic-activated lifecycle control.
//!
//! The crate watches for packets addressed to a set of ports and decides when
//! an external service should be started and when it may be stopped again.
//! Everything here works on plain values: frames are byte slices, instants are
//! millisecond counts, commands are strings. Capturing packets, sleeping and
//! launching processes are left to the caller.

pub mod controller;
pub mod identity;
pub mod laws;
pub mod ports;
pub mod relay;
pub mod resolve;
pub mod senders;
pub mod text;
