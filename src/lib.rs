//! A thermal controller for a fan driven through an embedded controller.
//!
//! `control` turns temperature samples into a command byte, with hysteresis
//! and a throttle window; command byte 0x00 asks for the strongest cooling
//! and 0xff switches cooling off. `port` runs the register handshakes with
//! the embedded controller as a state machine: it hands out one byte read,
//! byte write or pause at a time, and the caller reports what came of it.

pub mod control;
pub mod port;
