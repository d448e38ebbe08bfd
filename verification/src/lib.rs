//! Core of an electronic-paper weather station: a bit-packed monochrome
//! framebuffer and the command-level driver protocol for the panel.
//!
//! The framebuffer packs 8 horizontally contiguous pixels per byte, most
//! significant bit first, and enforces a configurable bounds policy. The
//! driver is modelled as a state machine that records the exact sequence of
//! bus operations (command/data transfers, reset pulses, delays, busy waits)
//! that each lifecycle request must put on the wire; an unverified executor
//! replays those operations against the hardware.

pub mod bme68x;
pub mod command;
pub mod driver;
pub mod framebuffer;
pub mod http;
pub mod icons;
pub mod layout;
pub mod model;
pub mod physical;
pub mod station;
