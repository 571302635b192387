//! Register-level model of a single-board computer's GPIO subsystem and its
//! free-running microsecond timer.
//!
//! The crate verifies the logic that drives the hardware: translating a
//! logical pin number into a function-select bank, bit shift and level mask,
//! performing the read-modify-write that configuration requires, reassembling
//! the 64-bit counter from its two 32-bit words, and busy-waiting with a
//! saturating deadline. Register state is held as plain values so that every
//! update is checked; the thin layer that performs the actual volatile
//! accesses on hardware lives outside the verified core and reuses the same
//! address and bit arithmetic.

pub mod delay;
pub mod driver;
pub mod gpio;
pub mod regmap;
pub mod timer;
