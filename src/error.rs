//! Why an exchange failed.
use vstd::prelude::*;

verus! {

/// The ways one exchange can fail. Each aborts that exchange only, and no
/// counter moves for it.
#[derive(Clone, Copy, Debug, PartialEq, Eq, Structural)]
pub enum PingError {
    /// The connection could not be established or accepted.
    Connection,
    /// No bidirectional stream could be opened or accepted.
    Stream,
    /// Writing the payload or ending the send side failed.
    Write,
    /// Reading the peer's payload failed.
    Read,
    /// The peer's payload was not the one the protocol prescribes.
    ProtocolViolation,
    /// The remote peer's identity was not available.
    PeerIdentity,
}

} // verus!
