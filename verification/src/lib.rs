//! Verified protocol core for the LED controls of a flight-simulation
//! throttle peripheral.
//!
//! The library models the device's fixed-offset packet layout, the LED
//! bit-set, the interrupt-endpoint classification over plain descriptor
//! data, and the claim/read/write/release session as a state machine.
//! All device I/O is performed by the surrounding program, which drives
//! the session machine with plain events and carries out the actions it
//! returns.

pub mod codec;
pub mod endpoints;
pub mod session;
pub mod warthog;
