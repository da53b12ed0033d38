//! What can go wrong while syncing.
use vstd::prelude::*;

verus! {

/// A peer.
#[derive(Clone, Debug, PartialEq, Eq)]
pub struct PeerId(pub Vec<u8>);

/// Why syncing failed.
#[derive(Clone, Debug, PartialEq, Eq)]
pub enum SyncError {
    /// A header that the peer sent does not continue the chain.
    Discontinuity(PeerId),
    /// The events that the peer sent do not match the commitment in the header.
    EventCommitmentMismatch(PeerId),
    /// Anything that is no fault of a peer.
    Other(String),
}

} // verus!
