//! The consumer harness as a state machine: it is told what became of the
//! action it last asked for, and answers with what to report and what to do
//! next. The cursor lives in memory only and starts from zero.

use crate::broker::text_from_utf8;
use crate::config::HarnessConfig;
use crate::error::HarnessError;
use crate::message::PolledMessage;
use crate::record::LogRecord;
use vstd::prelude::*;
use vstd::utf8::decode_utf8;
use vstd::utf8::valid_utf8;

verus! {

/// Where the consumer stands in its run.
#[derive(Clone, Copy, Debug, PartialEq, Eq, Structural)]
pub enum ConsumerPhase {
    /// Waiting for the connection to the broker.
    Connecting,
    /// Waiting for the broker to accept the credentials.
    Authenticating,
    /// Waiting for the answer to a poll.
    Polling,
    /// Waiting for the pause between two polls to end.
    Pausing,
    /// The loop has ended for the given reason.
    Stopped(HarnessError),
}

/// What became of the action that the consumer asked for.
#[derive(Clone, Debug, PartialEq, Eq)]
pub enum ConsumerEvent {
    /// The action succeeded and brought nothing back.
    Completed,
    /// The action failed.
    Failed,
    /// A poll succeeded and returned these messages, in this order.
    Polled(Vec<PolledMessage>),
}

/// What the consumer asks its driver to do.
#[derive(Clone, Copy, Debug, PartialEq, Eq, Structural)]
pub enum ConsumerAction {
    /// Connect to the broker.
    Connect,
    /// Present the credentials.
    Authenticate,
    /// Poll up to `count` messages of the partition, starting at `offset`.
    Poll { stream_id: u32, topic_id: u32, partition_id: u32, offset: u64, count: u32, auto_commit: bool },
    /// Wait for `millis` milliseconds.
    Sleep { millis: u64 },
    /// End the loop and report `error`.
    Stop { error: HarnessError },
}

/// The answer to an event: what to report, then what to do.
#[derive(Clone, Debug, PartialEq, Eq)]
pub struct ConsumerStep {
    /// The records to write, in this order.
    pub records: Vec<LogRecord>,
    /// The action to perform once they are written.
    pub action: ConsumerAction,
}

/// The consumer's state.
#[derive(Clone, Copy, Debug, PartialEq, Eq, Structural)]
pub struct Consumer {
    /// The settings it was started with.
    pub config: HarnessConfig,
    /// Where it stands in its run.
    pub phase: ConsumerPhase,
    /// The cursor: the offset that the next poll starts at.
    pub offset: u64,
}

/// Whether the payload of `message` is text.
pub open spec fn readable(message: PolledMessage) -> bool {
    valid_utf8(message.payload@)
}

/// Whether every message of the batch carries text.
pub open spec fn all_readable(messages: Seq<PolledMessage>) -> bool {
    forall|i: int| 0 <= i < messages.len() ==> readable(#[trigger] messages[i])
}

/// Whether `count` is how many messages of the batch are handled: all of
/// them, or those in front of the first one whose payload is not text.
pub open spec fn is_handled_count(messages: Seq<PolledMessage>, count: int) -> bool {
    &&& 0 <= count <= messages.len()
    &&& forall|i: int| 0 <= i < count ==> readable(#[trigger] messages[i])
    &&& count < messages.len() ==> !readable(messages[count])
}

/// Whether `record` reports the handling of `message`: its offset and its
/// payload read as text.
pub open spec fn handles(record: LogRecord, message: PolledMessage) -> bool {
    &&& record matches LogRecord::Handling { offset, payload }
    &&& offset == message.offset
    &&& payload@ == decode_utf8(message.payload@)
}

/// Whether `records` report the handling of a polled batch: one record for
/// each handled message, in the order of the batch.
pub open spec fn handles_batch(records: Seq<LogRecord>, messages: Seq<PolledMessage>) -> bool {
    &&& is_handled_count(messages, records.len() as int)
    &&& forall|i: int| 0 <= i < records.len() ==> handles(#[trigger] records[i], messages[i])
}

/// Reads one polled message and reports it, or refuses a payload that is
/// not text.
pub fn handle_message(message: &PolledMessage) -> (handled: Result<LogRecord, HarnessError>)
    ensures
        handled is Ok <==> readable(*message),
        handled matches Ok(record) ==> handles(record, *message),
        handled matches Err(error) ==> error == HarnessError::UndecodablePayload,
{
    match text_from_utf8(message.payload.as_slice()) {
        Some(text) => Ok(LogRecord::Handling { offset: message.offset, payload: text.to_owned() }),
        None => Err(HarnessError::UndecodablePayload),
    }
}

/// Handles a polled batch front to back and stops at the first payload that
/// is not text: the records of the messages in front of it are kept.
pub fn handle_batch(messages: &Vec<PolledMessage>) -> (handled: (Vec<LogRecord>, Result<(), HarnessError>))
    ensures
        handles_batch(handled.0@, messages@),
        handled.1 is Ok <==> all_readable(messages@),
        handled.1 is Ok <==> handled.0@.len() == messages@.len(),
        handled.1 matches Err(error) ==> error == HarnessError::UndecodablePayload,
{
    let mut records: Vec<LogRecord> = Vec::new();
    let mut index: usize = 0;
    while index < messages.len()
        invariant
            index <= messages.len(),
            records@.len() == index,
            forall|i: int| 0 <= i < index ==> readable(#[trigger] messages@[i]),
            forall|i: int| 0 <= i < index ==> handles(#[trigger] records@[i], messages@[i]),
        decreases messages.len() - index,
    {
        match handle_message(&messages[index]) {
            Ok(record) => {
                records.push(record);
            },
            Err(error) => {
                return (records, Err(error));
            },
        }
        index = index + 1;
    }
    (records, Ok(()))
}

impl Consumer {
    /// A consumer is usable when its settings are.
    pub open spec fn wf(&self) -> bool {
        self.config.wf()
    }

    /// The poll that the consumer issues from its cursor: one batch at most,
    /// from the configured partition, without committing the progress to
    /// the broker.
    pub open spec fn spec_poll(&self) -> ConsumerAction {
        ConsumerAction::Poll {
            stream_id: self.config.stream_id,
            topic_id: self.config.topic_id,
            partition_id: self.config.partition_id,
            offset: self.offset,
            count: self.config.batch_size,
            auto_commit: false,
        }
    }

    /// The action that the consumer is waiting on in its phase.
    pub open spec fn spec_pending(&self) -> ConsumerAction {
        match self.phase {
            ConsumerPhase::Connecting => ConsumerAction::Connect,
            ConsumerPhase::Authenticating => ConsumerAction::Authenticate,
            ConsumerPhase::Polling => self.spec_poll(),
            ConsumerPhase::Pausing => ConsumerAction::Sleep { millis: self.config.interval_ms },
            ConsumerPhase::Stopped(error) => ConsumerAction::Stop { error },
        }
    }

    /// The same consumer in another phase.
    pub open spec fn in_phase(self, phase: ConsumerPhase) -> Consumer {
        Consumer { phase, ..self }
    }

    /// The state after a poll returned `messages`. An empty batch leaves the
    /// cursor where it is. Any other batch moves the cursor forward by its
    /// length before its messages are handled; the loop ends where the
    /// cursor cannot move that far or where a payload is not text.
    pub open spec fn after_poll(self, messages: Seq<PolledMessage>) -> Consumer {
        if messages.len() == 0 {
            self.in_phase(ConsumerPhase::Pausing)
        } else if self.offset + messages.len() > u64::MAX {
            self.in_phase(ConsumerPhase::Stopped(HarnessError::OffsetExhausted))
        } else {
            Consumer {
                offset: (self.offset + messages.len()) as u64,
                phase: if all_readable(messages) {
                    ConsumerPhase::Pausing
                } else {
                    ConsumerPhase::Stopped(HarnessError::UndecodablePayload)
                },
                ..self
            }
        }
    }

    /// The state that `event` leads to. A failed action ends the loop; so
    /// does an event that the phase was not waiting for; a stopped consumer
    /// stays as it is.
    pub open spec fn spec_next(self, event: ConsumerEvent) -> Consumer {
        match (self.phase, event) {
            (ConsumerPhase::Stopped(_), _) => self,
            (ConsumerPhase::Connecting, ConsumerEvent::Completed) => self.in_phase(
                ConsumerPhase::Authenticating,
            ),
            (ConsumerPhase::Connecting, ConsumerEvent::Failed) => self.in_phase(
                ConsumerPhase::Stopped(HarnessError::ConnectionFailed),
            ),
            (ConsumerPhase::Authenticating, ConsumerEvent::Completed) => self.in_phase(
                ConsumerPhase::Polling,
            ),
            (ConsumerPhase::Authenticating, ConsumerEvent::Failed) => self.in_phase(
                ConsumerPhase::Stopped(HarnessError::AuthenticationFailed),
            ),
            (ConsumerPhase::Polling, ConsumerEvent::Polled(messages)) => self.after_poll(messages@),
            (ConsumerPhase::Polling, ConsumerEvent::Failed) => self.in_phase(
                ConsumerPhase::Stopped(HarnessError::PollFailed),
            ),
            (ConsumerPhase::Pausing, ConsumerEvent::Completed) => self.in_phase(
                ConsumerPhase::Polling,
            ),
            _ => self.in_phase(ConsumerPhase::Stopped(HarnessError::UnexpectedEvent)),
        }
    }

    /// Whether `records` are what the consumer reports on `event`: its
    /// endpoint once the broker has accepted the credentials, that nothing
    /// was found after an empty poll, the handled messages after any other
    /// poll whose length the cursor can move by, and nothing otherwise.
    pub open spec fn spec_reports(self, event: ConsumerEvent, records: Seq<LogRecord>) -> bool {
        match (self.phase, event) {
            (ConsumerPhase::Authenticating, ConsumerEvent::Completed) => {
                records == seq![
                    LogRecord::ConsumingFrom {
                        stream_id: self.config.stream_id,
                        topic_id: self.config.topic_id,
                        partition_id: self.config.partition_id,
                    },
                ]
            },
            (ConsumerPhase::Polling, ConsumerEvent::Polled(messages)) => {
                if messages@.len() == 0 {
                    records == seq![LogRecord::NoMessages]
                } else if self.offset + messages@.len() > u64::MAX {
                    records.len() == 0
                } else {
                    handles_batch(records, messages@)
                }
            },
            _ => records.len() == 0,
        }
    }

    /// A consumer that has done nothing yet: it waits to connect and its
    /// cursor is zero.
    pub fn new(config: HarnessConfig) -> (consumer: Consumer)
        requires
            config.wf(),
        ensures
            consumer.wf(),
            consumer == (Consumer { config, phase: ConsumerPhase::Connecting, offset: 0 }),
            consumer.spec_pending() == ConsumerAction::Connect,
    {
        Consumer { config, phase: ConsumerPhase::Connecting, offset: 0 }
    }

    /// The action that the consumer is waiting on.
    pub fn pending(&self) -> (action: ConsumerAction)
        ensures
            action == self.spec_pending(),
    {
        match self.phase {
            ConsumerPhase::Connecting => ConsumerAction::Connect,
            ConsumerPhase::Authenticating => ConsumerAction::Authenticate,
            ConsumerPhase::Polling => ConsumerAction::Poll {
                stream_id: self.config.stream_id,
                topic_id: self.config.topic_id,
                partition_id: self.config.partition_id,
                offset: self.offset,
                count: self.config.batch_size,
                auto_commit: false,
            },
            ConsumerPhase::Pausing => ConsumerAction::Sleep { millis: self.config.interval_ms },
            ConsumerPhase::Stopped(error) => ConsumerAction::Stop { error },
        }
    }

    /// Takes the answer to a poll: moves the cursor and handles the batch.
    fn take_polled(&mut self, messages: Vec<PolledMessage>) -> (records: Vec<LogRecord>)
        requires
            old(self).phase == ConsumerPhase::Polling,
        ensures
            *final(self) == old(self).after_poll(messages@),
            old(self).spec_reports(ConsumerEvent::Polled(messages), records@),
    {
        let mut records: Vec<LogRecord> = Vec::new();
        if messages.len() == 0 {
            records.push(LogRecord::NoMessages);
            self.phase = ConsumerPhase::Pausing;
            assert(records@ =~= seq![LogRecord::NoMessages]);
            return records;
        }
        match self.offset.checked_add(messages.len() as u64) {
            None => {
                self.phase = ConsumerPhase::Stopped(HarnessError::OffsetExhausted);
                records
            },
            Some(moved) => {
                self.offset = moved;
                let (handled, outcome) = handle_batch(&messages);
                match outcome {
                    Ok(()) => {
                        self.phase = ConsumerPhase::Pausing;
                    },
                    Err(error) => {
                        self.phase = ConsumerPhase::Stopped(error);
                    },
                }
                handled
            },
        }
    }

    /// Tells the consumer what became of the action it was waiting on. The
    /// consumer moves to the state that the event leads to, and answers with
    /// the records to write and the action it waits on from then on.
    pub fn step(&mut self, event: ConsumerEvent) -> (step: ConsumerStep)
        requires
            old(self).wf(),
        ensures
            final(self).wf(),
            *final(self) == old(self).spec_next(event),
            step.action == final(self).spec_pending(),
            old(self).spec_reports(event, step.records@),
    {
        let mut records: Vec<LogRecord> = Vec::new();
        match self.phase {
            ConsumerPhase::Stopped(_) => {},
            ConsumerPhase::Connecting => {
                match event {
                    ConsumerEvent::Completed => {
                        self.phase = ConsumerPhase::Authenticating;
                    },
                    ConsumerEvent::Failed => {
                        self.phase = ConsumerPhase::Stopped(HarnessError::ConnectionFailed);
                    },
                    ConsumerEvent::Polled(_) => {
                        self.phase = ConsumerPhase::Stopped(HarnessError::UnexpectedEvent);
                    },
                }
            },
            ConsumerPhase::Authenticating => {
                match event {
                    ConsumerEvent::Completed => {
                        records.push(
                            LogRecord::ConsumingFrom {
                                stream_id: self.config.stream_id,
                                topic_id: self.config.topic_id,
                                partition_id: self.config.partition_id,
                            },
                        );
                        assert(records@ =~= seq![
                            LogRecord::ConsumingFrom {
                                stream_id: self.config.stream_id,
                                topic_id: self.config.topic_id,
                                partition_id: self.config.partition_id,
                            },
                        ]);
                        self.phase = ConsumerPhase::Polling;
                    },
                    ConsumerEvent::Failed => {
                        self.phase = ConsumerPhase::Stopped(HarnessError::AuthenticationFailed);
                    },
                    ConsumerEvent::Polled(_) => {
                        self.phase = ConsumerPhase::Stopped(HarnessError::UnexpectedEvent);
                    },
                }
            },
            ConsumerPhase::Polling => {
                match event {
                    ConsumerEvent::Polled(messages) => {
                        records = self.take_polled(messages);
                    },
                    ConsumerEvent::Failed => {
                        self.phase = ConsumerPhase::Stopped(HarnessError::PollFailed);
                    },
                    ConsumerEvent::Completed => {
                        self.phase = ConsumerPhase::Stopped(HarnessError::UnexpectedEvent);
                    },
                }
            },
            ConsumerPhase::Pausing => {
                match event {
                    ConsumerEvent::Completed => {
                        self.phase = ConsumerPhase::Polling;
                    },
                    _ => {
                        self.phase = ConsumerPhase::Stopped(HarnessError::UnexpectedEvent);
                    },
                }
            },
        }
        let action = self.pending();
        ConsumerStep { records, action }
    }
}

/// A poll that returns messages moves the cursor forward by exactly their
/// number, wherever the cursor can move that far, whether or not their
/// payloads are text.
pub proof fn lemma_poll_advances_cursor(consumer: Consumer, messages: Vec<PolledMessage>)
    requires
        consumer.wf(),
        consumer.phase == ConsumerPhase::Polling,
        messages@.len() > 0,
        consumer.offset + messages@.len() <= u64::MAX,
    ensures
        consumer.spec_next(ConsumerEvent::Polled(messages)).offset == consumer.offset
            + messages@.len(),
        all_readable(messages@) ==> consumer.spec_next(ConsumerEvent::Polled(messages)).phase
            == ConsumerPhase::Pausing,
{
}

/// The records of a polled batch follow the order of the batch: where all
/// payloads are text there is one record for each message, and the record
/// at each position is that of the message at the same position.
pub proof fn lemma_batch_is_reported_in_order(
    consumer: Consumer,
    messages: Vec<PolledMessage>,
    records: Seq<LogRecord>,
    i: int,
)
    requires
        consumer.wf(),
        consumer.phase == ConsumerPhase::Polling,
        messages@.len() > 0,
        consumer.offset + messages@.len() <= u64::MAX,
        all_readable(messages@),
        consumer.spec_reports(ConsumerEvent::Polled(messages), records),
        0 <= i < messages@.len(),
    ensures
        records.len() == messages@.len(),
        handles(records[i], messages@[i]),
{
}

/// An empty poll leaves the cursor where it is and reports the handling of
/// no message; the consumer pauses.
pub proof fn lemma_empty_poll_changes_nothing(
    consumer: Consumer,
    messages: Vec<PolledMessage>,
    records: Seq<LogRecord>,
)
    requires
        consumer.wf(),
        consumer.phase == ConsumerPhase::Polling,
        messages@.len() == 0,
        consumer.spec_reports(ConsumerEvent::Polled(messages), records),
    ensures
        consumer.spec_next(ConsumerEvent::Polled(messages)) == consumer.in_phase(
            ConsumerPhase::Pausing,
        ),
        consumer.spec_next(ConsumerEvent::Polled(messages)).offset == consumer.offset,
        forall|i: int| 0 <= i < records.len() ==> !(#[trigger] records[i]).is_handling(),
{
}

/// After an empty poll the consumer asks for one pause of the configured
/// length, and once the pause is over for the very poll it had asked for
/// before: same endpoint, same offset, same count.
pub proof fn lemma_empty_poll_is_retried(consumer: Consumer, messages: Vec<PolledMessage>)
    requires
        consumer.wf(),
        consumer.phase == ConsumerPhase::Polling,
        messages@.len() == 0,
    ensures
        consumer.spec_next(ConsumerEvent::Polled(messages)).spec_pending() == (
        ConsumerAction::Sleep { millis: consumer.config.interval_ms }),
        consumer.spec_next(ConsumerEvent::Polled(messages)).spec_next(ConsumerEvent::Completed)
            == consumer,
        consumer.spec_next(ConsumerEvent::Polled(messages)).spec_next(
            ConsumerEvent::Completed,
        ).spec_pending() == consumer.spec_pending(),
{
}

/// No event moves the cursor back or changes the settings that the consumer
/// was started with.
pub proof fn lemma_cursor_never_decreases(consumer: Consumer, event: ConsumerEvent)
    requires
        consumer.wf(),
    ensures
        consumer.spec_next(event).offset >= consumer.offset,
        consumer.spec_next(event).config == consumer.config,
        consumer.spec_next(event).wf(),
{
}

/// A stopped consumer stays stopped: no event leads back into the loop.
pub proof fn lemma_stopped_consumer_stays(consumer: Consumer, event: ConsumerEvent)
    requires
        consumer.phase is Stopped,
    ensures
        consumer.spec_next(event) == consumer,
{
}

} // verus!
