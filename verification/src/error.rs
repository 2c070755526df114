//! The error taxonomy shared by every operation of the core.

use vstd::prelude::*;

verus! {

/// The failure kinds that any operation of this core can surface.
///
/// Every engine-level result collapses to one of these at the boundary:
/// validation failures become `BadParameters`, capacity failures become
/// `MaxSessionsExceeded` or `DuplicatedSessionId`, timing failures become
/// `Timeout`, the transient radio status becomes `CommandRetry`, and any
/// radio-reported failure without a dedicated kind becomes `ProtocolSpecific`
/// or `Unknown`.
#[derive(Clone, Copy, Debug, PartialEq, Eq, Structural)]
pub enum Error {
    /// A malformed argument was rejected before any bytes were sent.
    BadParameters,
    /// The radio cannot hold another session.
    MaxSessionsExceeded,
    /// The radio gave up after its configured number of ranging-round retries.
    MaxRrRetryReached,
    /// A protocol-level failure reported by the radio.
    ProtocolSpecific,
    /// The remote peer initiated the request that caused the failure.
    RemoteRequest,
    /// No response arrived within the bounded wait.
    Timeout,
    /// The transient retry status was still being reported when the retry
    /// bound was exhausted.
    CommandRetry,
    /// A session id was re-used while a session with that id was still live.
    DuplicatedSessionId,
    /// Any failure kind without a dedicated value.
    Unknown,
}

} // verus!
