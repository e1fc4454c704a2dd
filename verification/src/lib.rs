//! A single-instance heartbeat liveness detector.
//!
//! Given a stream of timestamped "heartbeat seen / not seen" signals for one
//! monitored peer, the detector decides whether that peer is currently
//! `Unknown`, `Alive`, or `Dead`, using a fixed timeout and bounded clock
//! tolerance. It protects itself against clock corruption (backward jumps or
//! overflowed ages) and against concurrent re-entry into its own transition
//! function by latching to a sticky `Dead` fault state.

pub mod pulse;
