use iggy::identifier::Identifier;
use iggy::messages::send_messages::{Message, Partitioning, SendMessages};
use iggy::validatable::Validatable;
use stream_harness::config::HarnessConfig;
use stream_harness::error::HarnessError;
use stream_harness::message::OutgoingMessage;
use stream_harness::producer::{
    Producer, ProducerAction, ProducerEvent, ProducerPhase, ProducerStep,
};
use stream_harness::record::LogRecord;

fn provisioned(config: HarnessConfig) -> (Producer, ProducerStep) {
    let mut producer = Producer::new(config);
    producer.step(ProducerEvent::Completed);
    producer.step(ProducerEvent::Completed);
    producer.step(ProducerEvent::Completed);
    let step = producer.step(ProducerEvent::Completed);
    (producer, step)
}

fn texts(messages: &[OutgoingMessage]) -> Vec<String> {
    messages.iter().map(|m| String::from_utf8(m.payload.clone()).unwrap()).collect()
}

fn published(action: &ProducerAction) -> Vec<String> {
    match action {
        ProducerAction::Publish { messages, .. } => texts(messages),
        other => panic!("expected a publication, got {:?}", other),
    }
}

#[test]
fn new_producer_waits_to_connect() {
    let producer = Producer::new(HarnessConfig::standard());
    assert_eq!(producer.phase, ProducerPhase::Connecting);
    assert_eq!(producer.counter, 0);
    assert_eq!(producer.config, HarnessConfig::standard());
    assert_eq!(producer.pending(), ProducerAction::Connect);
}

#[test]
fn producer_authenticates_once_connected() {
    let mut producer = Producer::new(HarnessConfig::standard());
    let step = producer.step(ProducerEvent::Completed);
    assert_eq!(step.action, ProducerAction::Authenticate);
    assert!(step.records.is_empty());
    assert_eq!(producer.phase, ProducerPhase::Authenticating);
}

#[test]
fn producer_stops_when_the_connection_fails() {
    let mut producer = Producer::new(HarnessConfig::standard());
    let step = producer.step(ProducerEvent::Failed);
    assert_eq!(step.action, ProducerAction::Stop { error: HarnessError::ConnectionFailed });
    assert!(step.records.is_empty());
    assert_eq!(producer.phase, ProducerPhase::Stopped(HarnessError::ConnectionFailed));
}

#[test]
fn producer_stops_when_the_credentials_are_refused() {
    let mut producer = Producer::new(HarnessConfig::standard());
    producer.step(ProducerEvent::Completed);
    let step = producer.step(ProducerEvent::Failed);
    assert_eq!(step.action, ProducerAction::Stop { error: HarnessError::AuthenticationFailed });
    assert_eq!(producer.phase, ProducerPhase::Stopped(HarnessError::AuthenticationFailed));
}

#[test]
fn producer_creates_the_stream_then_the_topic() {
    let config = HarnessConfig::new(4, 9, 2, 3, 50).unwrap();
    let mut producer = Producer::new(config);
    producer.step(ProducerEvent::Completed);
    let step = producer.step(ProducerEvent::Completed);
    assert_eq!(step.action, ProducerAction::CreateStream { stream_id: 4 });
    assert!(step.records.is_empty());
    let step = producer.step(ProducerEvent::Completed);
    assert_eq!(step.records, vec![LogRecord::StreamCreated]);
    assert_eq!(
        step.action,
        ProducerAction::CreateTopic {
            stream_id: 4,
            topic_id: 9,
            partitions_count: 1,
            message_expiry: None
        }
    );
    let step = producer.step(ProducerEvent::Completed);
    assert_eq!(
        step.records,
        vec![
            LogRecord::TopicCreated,
            LogRecord::PublishingTo { stream_id: 4, topic_id: 9, partition_id: 2, interval_ms: 50 },
        ]
    );
    assert_eq!(published(&step.action), vec!["message-1", "message-2", "message-3"]);
}

#[test]
fn refused_provisioning_is_reported_and_passed_over() {
    let config = HarnessConfig::standard();
    let mut producer = Producer::new(config);
    producer.step(ProducerEvent::Completed);
    producer.step(ProducerEvent::Completed);
    let step = producer.step(ProducerEvent::Failed);
    assert_eq!(step.records, vec![LogRecord::StreamNotCreated]);
    assert_eq!(
        step.action,
        ProducerAction::CreateTopic {
            stream_id: 1,
            topic_id: 1,
            partitions_count: 1,
            message_expiry: None
        }
    );
    assert_eq!(producer.config, config);
    let step = producer.step(ProducerEvent::Failed);
    assert_eq!(
        step.records,
        vec![
            LogRecord::TopicNotCreated,
            LogRecord::PublishingTo { stream_id: 1, topic_id: 1, partition_id: 1, interval_ms: 500 },
        ]
    );
    assert_eq!(producer.phase, ProducerPhase::Publishing);
    assert_eq!(producer.config, config);
    assert_eq!(producer.counter, 0);
    assert_eq!(published(&step.action).len(), 10);
}

#[test]
fn provisioning_outcomes_lead_to_the_same_state() {
    let config = HarnessConfig::standard();
    let outcomes = [ProducerEvent::Completed, ProducerEvent::Failed];
    let (reference, reference_step) = provisioned(config);
    for stream_event in outcomes {
        for topic_event in outcomes {
            let mut producer = Producer::new(config);
            producer.step(ProducerEvent::Completed);
            producer.step(ProducerEvent::Completed);
            producer.step(stream_event);
            let step = producer.step(topic_event);
            assert_eq!(producer, reference);
            assert_eq!(step.action, reference_step.action);
        }
    }
}

#[test]
fn first_batch_is_numbered_from_one() {
    let (producer, step) = provisioned(HarnessConfig::standard());
    assert_eq!(producer.counter, 0);
    match &step.action {
        ProducerAction::Publish { stream_id, topic_id, partition_id, messages } => {
            assert_eq!((*stream_id, *topic_id, *partition_id), (1, 1, 1));
            assert_eq!(messages.len(), 10);
            assert!(messages.iter().all(|m| m.id == 0));
            assert_eq!(
                texts(messages),
                vec![
                    "message-1",
                    "message-2",
                    "message-3",
                    "message-4",
                    "message-5",
                    "message-6",
                    "message-7",
                    "message-8",
                    "message-9",
                    "message-10",
                ]
            );
        },
        other => panic!("expected a publication, got {:?}", other),
    }
}

#[test]
fn published_batch_moves_the_counter_by_its_size() {
    for size in [1u32, 2, 10, 37] {
        let config = HarnessConfig::new(1, 1, 1, size, 500).unwrap();
        let (mut producer, _) = provisioned(config);
        let step = producer.step(ProducerEvent::Completed);
        assert_eq!(producer.counter, size as u64);
        assert_eq!(producer.phase, ProducerPhase::Pausing);
        assert_eq!(step.records, vec![LogRecord::BatchSent { count: size }]);
        assert_eq!(step.action, ProducerAction::Sleep { millis: 500 });
        let step = producer.step(ProducerEvent::Completed);
        assert_eq!(producer.counter, size as u64);
        let second = published(&step.action);
        assert_eq!(second.len(), size as usize);
        assert_eq!(second[0], format!("message-{}", size + 1));
        assert_eq!(second[second.len() - 1], format!("message-{}", 2 * size));
        producer.step(ProducerEvent::Completed);
        assert_eq!(producer.counter, 2 * size as u64);
    }
}

#[test]
fn later_batches_carry_larger_numbers() {
    let config = HarnessConfig::new(1, 1, 1, 4, 10).unwrap();
    let (mut producer, mut step) = provisioned(config);
    let mut seen: Vec<u64> = Vec::new();
    for _ in 0..5 {
        let numbers: Vec<u64> = published(&step.action)
            .iter()
            .map(|text| text.strip_prefix("message-").unwrap().parse::<u64>().unwrap())
            .collect();
        for number in numbers.iter() {
            assert!(seen.iter().all(|earlier| earlier < number));
        }
        seen.extend(numbers);
        producer.step(ProducerEvent::Completed);
        step = producer.step(ProducerEvent::Completed);
    }
    assert_eq!(seen, (1..=20).collect::<Vec<u64>>());
    assert_eq!(producer.counter, 20);
}

#[test]
fn failed_publication_stops_the_producer() {
    let (mut producer, _) = provisioned(HarnessConfig::standard());
    let step = producer.step(ProducerEvent::Failed);
    assert_eq!(step.action, ProducerAction::Stop { error: HarnessError::PublishFailed });
    assert!(step.records.is_empty());
    assert_eq!(producer.counter, 0);
    assert_eq!(producer.phase, ProducerPhase::Stopped(HarnessError::PublishFailed));
}

#[test]
fn stopped_producer_stays_stopped() {
    let (mut producer, _) = provisioned(HarnessConfig::standard());
    producer.step(ProducerEvent::Failed);
    let before = producer;
    for event in [ProducerEvent::Completed, ProducerEvent::Failed] {
        let step = producer.step(event);
        assert_eq!(step.action, ProducerAction::Stop { error: HarnessError::PublishFailed });
        assert!(step.records.is_empty());
        assert_eq!(producer, before);
    }
}

#[test]
fn failed_pause_is_an_unexpected_event() {
    let (mut producer, _) = provisioned(HarnessConfig::standard());
    producer.step(ProducerEvent::Completed);
    let step = producer.step(ProducerEvent::Failed);
    assert_eq!(step.action, ProducerAction::Stop { error: HarnessError::UnexpectedEvent });
    assert_eq!(producer.counter, 10);
}

#[test]
fn producer_stops_when_the_counter_has_no_room() {
    let config = HarnessConfig::new(1, 1, 1, 10, 500).unwrap();
    let mut producer =
        Producer { config, phase: ProducerPhase::Pausing, counter: u64::MAX - 9 };
    let step = producer.step(ProducerEvent::Completed);
    assert_eq!(step.action, ProducerAction::Stop { error: HarnessError::CounterExhausted });
    assert_eq!(producer.phase, ProducerPhase::Stopped(HarnessError::CounterExhausted));
    assert_eq!(producer.counter, u64::MAX - 9);
}

#[test]
fn producer_uses_the_last_numbers() {
    let config = HarnessConfig::new(1, 1, 1, 2, 500).unwrap();
    let mut producer =
        Producer { config, phase: ProducerPhase::Pausing, counter: u64::MAX - 2 };
    let step = producer.step(ProducerEvent::Completed);
    assert_eq!(
        published(&step.action),
        vec!["message-18446744073709551614", "message-18446744073709551615"]
    );
    producer.step(ProducerEvent::Completed);
    assert_eq!(producer.counter, u64::MAX);
    let step = producer.step(ProducerEvent::Completed);
    assert_eq!(step.action, ProducerAction::Stop { error: HarnessError::CounterExhausted });
}

#[test]
fn pending_repeats_the_action_of_the_last_step() {
    let mut producer = Producer::new(HarnessConfig::standard());
    for _ in 0..8 {
        let step = producer.step(ProducerEvent::Completed);
        assert_eq!(producer.pending(), step.action);
    }
}

#[test]
fn published_batch_passes_the_client_library_checks() {
    let (_, step) = provisioned(HarnessConfig::standard());
    match step.action {
        ProducerAction::Publish { stream_id, topic_id, partition_id, messages } => {
            let command = SendMessages {
                stream_id: Identifier::numeric(stream_id).unwrap(),
                topic_id: Identifier::numeric(topic_id).unwrap(),
                partitioning: Partitioning::partition_id(partition_id),
                messages: messages
                    .into_iter()
                    .map(|m| Message::new(Some(m.id), m.payload.into(), None))
                    .collect(),
            };
            assert!(command.validate().is_ok());
            assert_eq!(command.messages.len(), 10);
            assert_eq!(command.messages[0].payload.as_ref(), b"message-1");
        },
        other => panic!("expected a publication, got {:?}", other),
    }
}
