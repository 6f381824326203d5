//! Why a harness stops.

use vstd::prelude::*;

verus! {

/// The reasons for which a configuration is refused or a harness ends its
/// loop.
#[derive(Clone, Copy, Debug, PartialEq, Eq, Structural)]
pub enum HarnessError {
    /// The stream identifier is zero, which the broker's client refuses.
    InvalidStreamId,
    /// The topic identifier is zero, which the broker's client refuses.
    InvalidTopicId,
    /// A batch size of zero was asked for: nothing could ever be published.
    EmptyBatch,
    /// The connection to the broker could not be established.
    ConnectionFailed,
    /// The broker refused the credentials.
    AuthenticationFailed,
    /// The broker's client refused to build a message from a payload.
    RejectedPayload,
    /// A batch could not be published.
    PublishFailed,
    /// A poll request failed.
    PollFailed,
    /// A polled payload is not UTF-8 text.
    UndecodablePayload,
    /// The message counter cannot grow by another batch.
    CounterExhausted,
    /// The cursor cannot advance past the polled batch.
    OffsetExhausted,
    /// The harness was handed an event that answers no action it asked for.
    UnexpectedEvent,
}

} // verus!
