//! Driver logic for the TSL2591 ambient-light sensor.
//!
//! The sensor is configured and read over a register-addressable two-wire
//! bus.  This crate holds everything about that protocol that can be stated
//! and proved: command-byte framing, the gain and integration-time bit
//! fields of the control register, the power-state register values, the
//! channel-count registers, and the saturation check that guards the lux
//! conversion.  The driver is verified against a register-level model of
//! the device (`SimBus`); a hardware transport can reuse every framing and
//! decoding function exported here.

pub mod bus;
pub mod config;
pub mod errors;
pub mod registers;
pub mod sensor;
