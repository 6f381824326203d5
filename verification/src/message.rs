//! Messages as the harness logic sees them: plain values on both sides of
//! the broker.

use vstd::prelude::*;

verus! {

/// A message on its way to the broker.
#[derive(Clone, Debug, PartialEq, Eq)]
pub struct OutgoingMessage {
    /// The identifier chosen by the client; zero leaves the choice to the
    /// broker.
    pub id: u128,
    /// The opaque payload.
    pub payload: Vec<u8>,
}

/// A message as a poll returned it.
#[derive(Clone, Debug, PartialEq, Eq)]
pub struct PolledMessage {
    /// The position that the broker assigned within the partition.
    pub offset: u64,
    /// The opaque payload.
    pub payload: Vec<u8>,
}

} // verus!
