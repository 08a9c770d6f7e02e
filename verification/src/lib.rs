//! Verified core of a synchronous ultrasonic ranging channel.
//!
//! The library models the timed ranging protocol of a single-shot
//! ultrasonic distance sensor: arm a free-running pulse timer, emit a
//! fixed-width trigger pulse, wait (with a hard timeout) for the echo line
//! to rise, wait (unbounded) for it to fall, and convert the elapsed tick
//! count into a bounded, saturating reading. Pin setup, display and serial
//! output, and the outer dispatch loop are platform glue and live outside
//! this crate; the protocol here runs against deterministic stand-ins for
//! the counter and the two digital lines, so every phase of the cycle is
//! stated and proved.

pub mod ranging;
pub mod sim;
