//! What the harnesses report while they run. The logic hands these records
//! out as values; whoever drives the harness decides where to write them.

use crate::text::decimal_chars;
use crate::text::decimal_string;
use vstd::prelude::*;

verus! {

/// How much attention a record asks for.
#[derive(Clone, Copy, Debug, PartialEq, Eq, Structural)]
pub enum Severity {
    /// The harness did what it was meant to do.
    Info,
    /// The harness went on although a request was refused.
    Warning,
}

/// One line of the harness's report.
#[derive(Clone, Debug, PartialEq, Eq)]
pub enum LogRecord {
    /// The broker created the stream.
    StreamCreated,
    /// The broker refused to create the stream.
    StreamNotCreated,
    /// The broker created the topic.
    TopicCreated,
    /// The broker refused to create the topic.
    TopicNotCreated,
    /// The producer is about to publish to this endpoint at this pace.
    PublishingTo { stream_id: u32, topic_id: u32, partition_id: u32, interval_ms: u64 },
    /// A batch of `count` messages was published.
    BatchSent { count: u32 },
    /// The consumer is about to poll this endpoint.
    ConsumingFrom { stream_id: u32, topic_id: u32, partition_id: u32 },
    /// A poll returned nothing.
    NoMessages,
    /// The consumer took the message at `offset`, whose payload reads as
    /// `payload`.
    Handling { offset: u64, payload: String },
}

impl LogRecord {
    /// Whether this record reports the handling of a polled message.
    pub open spec fn is_handling(&self) -> bool {
        self is Handling
    }

    /// Refused provisioning requests are warnings; everything else is
    /// information.
    pub open spec fn spec_severity(&self) -> Severity {
        match self {
            LogRecord::StreamNotCreated | LogRecord::TopicNotCreated => Severity::Warning,
            _ => Severity::Info,
        }
    }

    /// The line of text that this record stands for.
    pub open spec fn spec_text(&self) -> Seq<char> {
        match self {
            LogRecord::StreamCreated => "Stream was created."@,
            LogRecord::StreamNotCreated => "Stream already exists and was not recreated."@,
            LogRecord::TopicCreated => "Topic was created."@,
            LogRecord::TopicNotCreated => "Topic already exists and was not recreated."@,
            LogRecord::PublishingTo { stream_id, topic_id, partition_id, interval_ms } => {
                "Messages will be sent to stream: "@ + decimal_chars(*stream_id as nat)
                    + ", topic: "@ + decimal_chars(*topic_id as nat) + ", partition: "@
                    + decimal_chars(*partition_id as nat) + " with interval "@ + decimal_chars(
                    *interval_ms as nat,
                ) + " ms."@
            },
            LogRecord::BatchSent { count } => {
                "Sent "@ + decimal_chars(*count as nat) + " message(s)."@
            },
            LogRecord::ConsumingFrom { stream_id, topic_id, partition_id } => {
                "Message will be consumed from stream: "@ + decimal_chars(*stream_id as nat)
                    + ", topic: "@ + decimal_chars(*topic_id as nat) + " and partition: "@
                    + decimal_chars(*partition_id as nat)
            },
            LogRecord::NoMessages => "No messages found."@,
            LogRecord::Handling { offset, payload } => {
                "Handling message at offset: "@ + decimal_chars(*offset as nat) + ", payload: "@
                    + payload@ + " ..."@
            },
        }
    }

    /// How much attention this record asks for.
    pub fn severity(&self) -> (level: Severity)
        ensures
            level == self.spec_severity(),
    {
        match self {
            LogRecord::StreamNotCreated => Severity::Warning,
            LogRecord::TopicNotCreated => Severity::Warning,
            _ => Severity::Info,
        }
    }

    /// Writes the record as the line of text it stands for.
    pub fn text(&self) -> (line: String)
        ensures
            line@ == self.spec_text(),
    {
        match self {
            LogRecord::StreamCreated => "Stream was created.".to_owned(),
            LogRecord::StreamNotCreated => "Stream already exists and was not recreated.".to_owned(),
            LogRecord::TopicCreated => "Topic was created.".to_owned(),
            LogRecord::TopicNotCreated => "Topic already exists and was not recreated.".to_owned(),
            LogRecord::PublishingTo { stream_id, topic_id, partition_id, interval_ms } => {
                let mut line = "Messages will be sent to stream: ".to_owned();
                line.append(decimal_string(*stream_id as u64).as_str());
                line.append(", topic: ");
                line.append(decimal_string(*topic_id as u64).as_str());
                line.append(", partition: ");
                line.append(decimal_string(*partition_id as u64).as_str());
                line.append(" with interval ");
                line.append(decimal_string(*interval_ms).as_str());
                line.append(" ms.");
                line
            },
            LogRecord::BatchSent { count } => {
                let mut line = "Sent ".to_owned();
                line.append(decimal_string(*count as u64).as_str());
                line.append(" message(s).");
                line
            },
            LogRecord::ConsumingFrom { stream_id, topic_id, partition_id } => {
                let mut line = "Message will be consumed from stream: ".to_owned();
                line.append(decimal_string(*stream_id as u64).as_str());
                line.append(", topic: ");
                line.append(decimal_string(*topic_id as u64).as_str());
                line.append(" and partition: ");
                line.append(decimal_string(*partition_id as u64).as_str());
                line
            },
            LogRecord::NoMessages => "No messages found.".to_owned(),
            LogRecord::Handling { offset, payload } => {
                let mut line = "Handling message at offset: ".to_owned();
                line.append(decimal_string(*offset).as_str());
                line.append(", payload: ");
                line.append(payload.as_str());
                line.append(" ...");
                line
            },
        }
    }
}

} // verus!
