//! The producer harness as a state machine: it is told what became of the
//! action it last asked for, and answers with what to report and what to do
//! next. Its counter is the number of the last message that was published.

use crate::config::HarnessConfig;
use crate::config::TOPIC_PARTITIONS;
use crate::error::HarnessError;
use crate::label::build_batch;
use crate::label::is_batch;
use crate::label::label_number;
use crate::label::lemma_batch_numbers;
use crate::label::lemma_payloads_differ;
use crate::label::payload_of;
use crate::message::OutgoingMessage;
use crate::record::LogRecord;
use vstd::prelude::*;

verus! {

/// Where the producer stands in its run.
#[derive(Clone, Copy, Debug, PartialEq, Eq, Structural)]
pub enum ProducerPhase {
    /// Waiting for the connection to the broker.
    Connecting,
    /// Waiting for the broker to accept the credentials.
    Authenticating,
    /// Waiting for the answer to the request that creates the stream.
    CreatingStream,
    /// Waiting for the answer to the request that creates the topic.
    CreatingTopic,
    /// Waiting for the answer to the publication of the next batch.
    Publishing,
    /// Waiting for the pause between two batches to end.
    Pausing,
    /// The loop has ended for the given reason.
    Stopped(HarnessError),
}

/// What became of the action that the producer asked for.
#[derive(Clone, Copy, Debug, PartialEq, Eq, Structural)]
pub enum ProducerEvent {
    /// The action succeeded.
    Completed,
    /// The action failed.
    Failed,
}

/// What the producer asks its driver to do.
#[derive(Clone, Debug, PartialEq, Eq)]
pub enum ProducerAction {
    /// Connect to the broker.
    Connect,
    /// Present the credentials.
    Authenticate,
    /// Ask the broker to create the stream.
    CreateStream { stream_id: u32 },
    /// Ask the broker to create the topic, with this many partitions and
    /// with messages that expire after `message_expiry` seconds, or never.
    CreateTopic { stream_id: u32, topic_id: u32, partitions_count: u32, message_expiry: Option<u32> },
    /// Publish `messages` as one request to the given partition.
    Publish { stream_id: u32, topic_id: u32, partition_id: u32, messages: Vec<OutgoingMessage> },
    /// Wait for `millis` milliseconds.
    Sleep { millis: u64 },
    /// End the loop and report `error`.
    Stop { error: HarnessError },
}

/// The answer to an event: what to report, then what to do.
#[derive(Clone, Debug, PartialEq, Eq)]
pub struct ProducerStep {
    /// The records to write, in this order.
    pub records: Vec<LogRecord>,
    /// The action to perform once they are written.
    pub action: ProducerAction,
}

/// The producer's state.
#[derive(Clone, Copy, Debug, PartialEq, Eq, Structural)]
pub struct Producer {
    /// The settings it was started with.
    pub config: HarnessConfig,
    /// Where it stands in its run.
    pub phase: ProducerPhase,
    /// The number of the last message that was published; zero at first.
    pub counter: u64,
}

impl Producer {
    /// A producer is usable when its settings are, and while it publishes
    /// the numbers of the batch under way fit its counter.
    pub open spec fn wf(&self) -> bool {
        &&& self.config.wf()
        &&& self.phase == ProducerPhase::Publishing ==> self.counter + self.config.batch_size
            <= u64::MAX
    }

    /// The same producer in another phase.
    pub open spec fn in_phase(self, phase: ProducerPhase) -> Producer {
        Producer { phase, ..self }
    }

    /// The producer as it turns to its next batch: it publishes if its
    /// counter has room for the batch, and ends its loop if not.
    pub open spec fn turned_to_next_batch(self) -> Producer {
        if self.counter + self.config.batch_size <= u64::MAX {
            self.in_phase(ProducerPhase::Publishing)
        } else {
            self.in_phase(ProducerPhase::Stopped(HarnessError::CounterExhausted))
        }
    }

    /// The state that `event` leads to. Whether the broker creates the
    /// stream and the topic or refuses to makes no difference; every other
    /// failed action ends the loop; a published batch moves the counter
    /// forward by its size; a stopped producer stays as it is.
    pub open spec fn spec_next(self, event: ProducerEvent) -> Producer {
        match (self.phase, event) {
            (ProducerPhase::Stopped(_), _) => self,
            (ProducerPhase::Connecting, ProducerEvent::Completed) => self.in_phase(
                ProducerPhase::Authenticating,
            ),
            (ProducerPhase::Connecting, ProducerEvent::Failed) => self.in_phase(
                ProducerPhase::Stopped(HarnessError::ConnectionFailed),
            ),
            (ProducerPhase::Authenticating, ProducerEvent::Completed) => self.in_phase(
                ProducerPhase::CreatingStream,
            ),
            (ProducerPhase::Authenticating, ProducerEvent::Failed) => self.in_phase(
                ProducerPhase::Stopped(HarnessError::AuthenticationFailed),
            ),
            (ProducerPhase::CreatingStream, _) => self.in_phase(ProducerPhase::CreatingTopic),
            (ProducerPhase::CreatingTopic, _) => self.turned_to_next_batch(),
            (ProducerPhase::Publishing, ProducerEvent::Completed) => Producer {
                counter: (self.counter + self.config.batch_size) as u64,
                phase: ProducerPhase::Pausing,
                ..self
            },
            (ProducerPhase::Publishing, ProducerEvent::Failed) => self.in_phase(
                ProducerPhase::Stopped(HarnessError::PublishFailed),
            ),
            (ProducerPhase::Pausing, ProducerEvent::Completed) => self.turned_to_next_batch(),
            (ProducerPhase::Pausing, ProducerEvent::Failed) => self.in_phase(
                ProducerPhase::Stopped(HarnessError::UnexpectedEvent),
            ),
        }
    }

    /// The record that announces the endpoint and the pace.
    pub open spec fn spec_announcement(self) -> LogRecord {
        LogRecord::PublishingTo {
            stream_id: self.config.stream_id,
            topic_id: self.config.topic_id,
            partition_id: self.config.partition_id,
            interval_ms: self.config.interval_ms,
        }
    }

    /// What the producer reports on `event`: how each provisioning request
    /// went, its endpoint once provisioning is over, and the size of each
    /// batch that was published.
    pub open spec fn spec_records(self, event: ProducerEvent) -> Seq<LogRecord> {
        match (self.phase, event) {
            (ProducerPhase::CreatingStream, ProducerEvent::Completed) => seq![
                LogRecord::StreamCreated,
            ],
            (ProducerPhase::CreatingStream, ProducerEvent::Failed) => seq![
                LogRecord::StreamNotCreated,
            ],
            (ProducerPhase::CreatingTopic, ProducerEvent::Completed) => seq![
                LogRecord::TopicCreated,
                self.spec_announcement(),
            ],
            (ProducerPhase::CreatingTopic, ProducerEvent::Failed) => seq![
                LogRecord::TopicNotCreated,
                self.spec_announcement(),
            ],
            (ProducerPhase::Publishing, ProducerEvent::Completed) => seq![
                LogRecord::BatchSent { count: self.config.batch_size },
            ],
            _ => Seq::empty(),
        }
    }

    /// Whether `action` is what the producer is waiting on in its phase.
    /// While it publishes, that is the publication of the batch that
    /// follows its counter, to the configured partition.
    pub open spec fn spec_asks(self, action: ProducerAction) -> bool {
        match self.phase {
            ProducerPhase::Connecting => action == ProducerAction::Connect,
            ProducerPhase::Authenticating => action == ProducerAction::Authenticate,
            ProducerPhase::CreatingStream => action == (ProducerAction::CreateStream {
                stream_id: self.config.stream_id,
            }),
            ProducerPhase::CreatingTopic => action == (ProducerAction::CreateTopic {
                stream_id: self.config.stream_id,
                topic_id: self.config.topic_id,
                partitions_count: 1,
                message_expiry: None,
            }),
            ProducerPhase::Publishing => {
                &&& action matches ProducerAction::Publish {
                    stream_id,
                    topic_id,
                    partition_id,
                    messages,
                }
                &&& stream_id == self.config.stream_id
                &&& topic_id == self.config.topic_id
                &&& partition_id == self.config.partition_id
                &&& is_batch(messages@, self.counter as nat, self.config.batch_size as nat)
            },
            ProducerPhase::Pausing => action == (ProducerAction::Sleep {
                millis: self.config.interval_ms,
            }),
            ProducerPhase::Stopped(error) => action == (ProducerAction::Stop { error }),
        }
    }

    /// A producer that has done nothing yet: it waits to connect and has
    /// published no message.
    pub fn new(config: HarnessConfig) -> (producer: Producer)
        requires
            config.wf(),
        ensures
            producer.wf(),
            producer == (Producer { config, phase: ProducerPhase::Connecting, counter: 0 }),
    {
        Producer { config, phase: ProducerPhase::Connecting, counter: 0 }
    }

    /// The action that the producer is waiting on.
    pub fn pending(&self) -> (action: ProducerAction)
        requires
            self.wf(),
        ensures
            self.spec_asks(action),
    {
        match self.phase {
            ProducerPhase::Connecting => ProducerAction::Connect,
            ProducerPhase::Authenticating => ProducerAction::Authenticate,
            ProducerPhase::CreatingStream => ProducerAction::CreateStream {
                stream_id: self.config.stream_id,
            },
            ProducerPhase::CreatingTopic => ProducerAction::CreateTopic {
                stream_id: self.config.stream_id,
                topic_id: self.config.topic_id,
                partitions_count: TOPIC_PARTITIONS,
                message_expiry: None,
            },
            ProducerPhase::Publishing => {
                match build_batch(self.counter, self.config.batch_size) {
                    Ok(messages) => ProducerAction::Publish {
                        stream_id: self.config.stream_id,
                        topic_id: self.config.topic_id,
                        partition_id: self.config.partition_id,
                        messages,
                    },
                    Err(error) => ProducerAction::Stop { error },
                }
            },
            ProducerPhase::Pausing => ProducerAction::Sleep { millis: self.config.interval_ms },
            ProducerPhase::Stopped(error) => ProducerAction::Stop { error },
        }
    }

    /// Turns to the next batch: publishing if the counter has room for it.
    fn turn_to_next_batch(&mut self)
        ensures
            *final(self) == old(self).turned_to_next_batch(),
    {
        match self.counter.checked_add(self.config.batch_size as u64) {
            Some(_) => {
                self.phase = ProducerPhase::Publishing;
            },
            None => {
                self.phase = ProducerPhase::Stopped(HarnessError::CounterExhausted);
            },
        }
    }

    /// The record that announces the endpoint and the pace.
    fn announcement(&self) -> (record: LogRecord)
        ensures
            record == self.spec_announcement(),
    {
        LogRecord::PublishingTo {
            stream_id: self.config.stream_id,
            topic_id: self.config.topic_id,
            partition_id: self.config.partition_id,
            interval_ms: self.config.interval_ms,
        }
    }

    /// Tells the producer what became of the action it was waiting on. The
    /// producer moves to the state that the event leads to, and answers with
    /// the records to write and the action it waits on from then on.
    pub fn step(&mut self, event: ProducerEvent) -> (step: ProducerStep)
        requires
            old(self).wf(),
        ensures
            final(self).wf(),
            *final(self) == old(self).spec_next(event),
            step.records@ == old(self).spec_records(event),
            final(self).spec_asks(step.action),
    {
        let mut records: Vec<LogRecord> = Vec::new();
        let succeeded = match event {
            ProducerEvent::Completed => true,
            ProducerEvent::Failed => false,
        };
        match self.phase {
            ProducerPhase::Stopped(_) => {},
            ProducerPhase::Connecting => {
                if succeeded {
                    self.phase = ProducerPhase::Authenticating;
                } else {
                    self.phase = ProducerPhase::Stopped(HarnessError::ConnectionFailed);
                }
            },
            ProducerPhase::Authenticating => {
                if succeeded {
                    self.phase = ProducerPhase::CreatingStream;
                } else {
                    self.phase = ProducerPhase::Stopped(HarnessError::AuthenticationFailed);
                }
            },
            ProducerPhase::CreatingStream => {
                if succeeded {
                    records.push(LogRecord::StreamCreated);
                } else {
                    records.push(LogRecord::StreamNotCreated);
                }
                self.phase = ProducerPhase::CreatingTopic;
            },
            ProducerPhase::CreatingTopic => {
                if succeeded {
                    records.push(LogRecord::TopicCreated);
                } else {
                    records.push(LogRecord::TopicNotCreated);
                }
                records.push(self.announcement());
                self.turn_to_next_batch();
            },
            ProducerPhase::Publishing => {
                if succeeded {
                    records.push(LogRecord::BatchSent { count: self.config.batch_size });
                    self.counter = self.counter + self.config.batch_size as u64;
                    self.phase = ProducerPhase::Pausing;
                } else {
                    self.phase = ProducerPhase::Stopped(HarnessError::PublishFailed);
                }
            },
            ProducerPhase::Pausing => {
                if succeeded {
                    self.turn_to_next_batch();
                } else {
                    self.phase = ProducerPhase::Stopped(HarnessError::UnexpectedEvent);
                }
            },
        }
        assert(records@ =~= old(self).spec_records(event));
        let action = self.pending();
        ProducerStep { records, action }
    }
}

/// A published batch moves the counter forward by exactly the size of the
/// batch, and the producer pauses before it turns to the next one.
pub proof fn lemma_publication_advances_counter(producer: Producer)
    requires
        producer.wf(),
        producer.phase == ProducerPhase::Publishing,
    ensures
        producer.spec_next(ProducerEvent::Completed).counter == producer.counter
            + producer.config.batch_size,
        producer.spec_next(ProducerEvent::Completed).phase == ProducerPhase::Pausing,
        producer.spec_next(ProducerEvent::Completed).wf(),
{
}

/// No event moves the counter back, and none but the publication of a batch
/// moves it at all.
pub proof fn lemma_counter_never_decreases(producer: Producer, event: ProducerEvent)
    requires
        producer.wf(),
    ensures
        producer.spec_next(event).counter >= producer.counter,
        !(producer.phase == ProducerPhase::Publishing && event == ProducerEvent::Completed)
            ==> producer.spec_next(event).counter == producer.counter,
{
}

/// Once a batch is published, every message of the batch that follows
/// carries a number above all the numbers used so far, and a payload that
/// differs from the payload of each of them.
pub proof fn lemma_next_batch_is_new(producer: Producer, i: int, earlier: nat)
    requires
        producer.wf(),
        producer.phase == ProducerPhase::Publishing,
        0 <= i < producer.config.batch_size,
        earlier <= producer.counter + producer.config.batch_size,
    ensures
        label_number(producer.spec_next(ProducerEvent::Completed).counter as nat, i) > earlier,
        payload_of(label_number(producer.spec_next(ProducerEvent::Completed).counter as nat, i))
            != payload_of(earlier),
{
    let next = producer.spec_next(ProducerEvent::Completed);
    lemma_batch_numbers(next.counter as nat, producer.config.batch_size as nat, i);
    lemma_payloads_differ(label_number(next.counter as nat, i), earlier);
}

/// Provisioning never ends the loop and never touches the settings: whether
/// the broker creates the stream and the topic or refuses either, the
/// producer goes on to the topic and then turns to its first batch.
pub proof fn lemma_provisioning_is_idempotent(
    producer: Producer,
    stream_event: ProducerEvent,
    topic_event: ProducerEvent,
)
    requires
        producer.wf(),
        producer.phase == ProducerPhase::CreatingStream,
    ensures
        producer.spec_next(stream_event) == producer.in_phase(ProducerPhase::CreatingTopic),
        producer.spec_next(stream_event).spec_next(topic_event) == producer.turned_to_next_batch(),
        producer.spec_next(stream_event).spec_next(topic_event).config == producer.config,
        producer.spec_next(stream_event).spec_next(topic_event).counter == producer.counter,
        producer.counter == 0 ==> producer.spec_next(stream_event).spec_next(topic_event).phase
            == ProducerPhase::Publishing,
{
}

/// No event changes the settings that the producer was started with, and
/// every event leaves a usable producer usable.
pub proof fn lemma_producer_keeps_settings(producer: Producer, event: ProducerEvent)
    requires
        producer.wf(),
    ensures
        producer.spec_next(event).config == producer.config,
        producer.spec_next(event).wf(),
{
}

/// A stopped producer stays stopped: no event leads back into the loop.
pub proof fn lemma_stopped_producer_stays(producer: Producer, event: ProducerEvent)
    requires
        producer.phase is Stopped,
    ensures
        producer.spec_next(event) == producer,
{
}

} // verus!
