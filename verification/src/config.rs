//! The settings a harness is started with.

use crate::broker::accepts_numeric_identifier;
use crate::error::HarnessError;
use vstd::prelude::*;

verus! {

/// The stream that the harnesses use unless told otherwise.
pub const DEFAULT_STREAM_ID: u32 = 1;

/// The topic that the harnesses use unless told otherwise.
pub const DEFAULT_TOPIC_ID: u32 = 1;

/// The partition that the harnesses use unless told otherwise.
pub const DEFAULT_PARTITION_ID: u32 = 1;

/// How many messages make up a batch unless told otherwise.
pub const DEFAULT_BATCH_SIZE: u32 = 10;

/// The pause between two iterations, in milliseconds, unless told otherwise.
pub const DEFAULT_INTERVAL_MS: u64 = 500;

/// How many partitions a topic is created with.
pub const TOPIC_PARTITIONS: u32 = 1;

/// The name that the stream is created under.
pub const STREAM_NAME: &'static str = "sample-stream";

/// The name that the topic is created under.
pub const TOPIC_NAME: &'static str = "sample-topic";

/// The user that both harnesses sign in as.
pub const USERNAME: &'static str = "iggy";

/// The password that both harnesses sign in with.
pub const PASSWORD: &'static str = "iggy";

/// The endpoint of a harness and the pace of its loop, fixed at startup.
#[derive(Clone, Copy, Debug, PartialEq, Eq, Structural)]
pub struct HarnessConfig {
    /// The numeric identifier of the stream.
    pub stream_id: u32,
    /// The numeric identifier of the topic within the stream.
    pub topic_id: u32,
    /// The partition that batches are published to and polled from.
    pub partition_id: u32,
    /// How many messages a published batch holds, and how many a poll asks
    /// for at most.
    pub batch_size: u32,
    /// The pause between two iterations, in milliseconds.
    pub interval_ms: u64,
}

impl HarnessConfig {
    /// A configuration is usable when the broker's client accepts both
    /// identifiers and a batch holds at least one message.
    pub open spec fn wf(&self) -> bool {
        &&& self.stream_id != 0
        &&& self.topic_id != 0
        &&& self.batch_size >= 1
    }

    /// Checks the settings and keeps them. The stream identifier is checked
    /// first, then the topic identifier, then the batch size.
    pub fn new(
        stream_id: u32,
        topic_id: u32,
        partition_id: u32,
        batch_size: u32,
        interval_ms: u64,
    ) -> (made: Result<HarnessConfig, HarnessError>)
        ensures
            made matches Ok(config) ==> {
                &&& config.wf()
                &&& config == (HarnessConfig {
                    stream_id,
                    topic_id,
                    partition_id,
                    batch_size,
                    interval_ms,
                })
            },
            made is Ok <==> stream_id != 0 && topic_id != 0 && batch_size >= 1,
            made == Err::<HarnessConfig, HarnessError>(HarnessError::InvalidStreamId)
                <==> stream_id == 0,
            made == Err::<HarnessConfig, HarnessError>(HarnessError::InvalidTopicId)
                <==> stream_id != 0 && topic_id == 0,
            made == Err::<HarnessConfig, HarnessError>(HarnessError::EmptyBatch)
                <==> stream_id != 0 && topic_id != 0 && batch_size == 0,
    {
        if !accepts_numeric_identifier(stream_id) {
            Err(HarnessError::InvalidStreamId)
        } else if !accepts_numeric_identifier(topic_id) {
            Err(HarnessError::InvalidTopicId)
        } else if batch_size == 0 {
            Err(HarnessError::EmptyBatch)
        } else {
            Ok(HarnessConfig { stream_id, topic_id, partition_id, batch_size, interval_ms })
        }
    }

    /// The settings that the harnesses use unless told otherwise: stream 1,
    /// topic 1, partition 1, batches of 10, half a second between iterations.
    pub fn standard() -> (config: HarnessConfig)
        ensures
            config.wf(),
            config == (HarnessConfig {
                stream_id: 1,
                topic_id: 1,
                partition_id: 1,
                batch_size: 10,
                interval_ms: 500,
            }),
    {
        HarnessConfig {
            stream_id: DEFAULT_STREAM_ID,
            topic_id: DEFAULT_TOPIC_ID,
            partition_id: DEFAULT_PARTITION_ID,
            batch_size: DEFAULT_BATCH_SIZE,
            interval_ms: DEFAULT_INTERVAL_MS,
        }
    }
}

impl Default for HarnessConfig {
    fn default() -> (config: HarnessConfig)
        ensures
            config == (HarnessConfig {
                stream_id: 1,
                topic_id: 1,
                partition_id: 1,
                batch_size: 10,
                interval_ms: 500,
            }),
    {
        HarnessConfig::standard()
    }
}

} // verus!
