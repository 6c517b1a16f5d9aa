//! Verified core of a power-meter gateway.
//!
//! The library holds the pure heart of the gateway: the register codec,
//! the exponentially smoothed reading, the endpoint parser, the acquisition
//! state machine, and the shared-state gateway that hands consistent
//! snapshots to concurrent readers. Network I/O, the web front end and the
//! floating-point blend itself live outside, around these contracts.

pub mod codec;
pub mod endpoint;
pub mod errors;
pub mod fsm;
pub mod gateway;
pub mod transport;
pub mod reading;
