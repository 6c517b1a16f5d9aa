//! Error taxonomy of the gateway core.
//!
//! A malformed endpoint is fatal before the loop starts; everything else is
//! recoverable and absorbed inside the acquisition loop.

use vstd::prelude::*;

verus! {

/// Fatal at startup: the configured endpoint cannot be parsed.
#[derive(Clone, Copy, Debug, PartialEq, Eq, Structural)]
pub enum ConfigError {
    /// The endpoint is not of the form `host:port` with a valid port.
    BadEndpoint,
}

/// Recoverable: the transport could not be reached or its endpoint refused.
#[derive(Clone, Copy, Debug, PartialEq, Eq, Structural)]
pub enum ConnectError {
    /// The endpoint could not be resolved to an address.
    Unresolvable,
    /// The transport session could not be established.
    Unreachable,
}

/// Recoverable: a register read failed on an established session.
#[derive(Clone, Copy, Debug, PartialEq, Eq, Structural)]
pub enum TransportError {
    /// The connection was closed or dropped mid-poll.
    ConnectionClosed,
    /// The device did not answer in time.
    Timeout,
    /// The response did not carry the expected number of registers.
    MalformedResponse,
}

} // verus!
