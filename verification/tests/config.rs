use stream_harness::config::HarnessConfig;
use stream_harness::config::{
    DEFAULT_BATCH_SIZE, DEFAULT_INTERVAL_MS, DEFAULT_PARTITION_ID, DEFAULT_STREAM_ID,
    DEFAULT_TOPIC_ID, PASSWORD, STREAM_NAME, TOPIC_NAME, TOPIC_PARTITIONS, USERNAME,
};
use stream_harness::error::HarnessError;

#[test]
fn standard_settings_are_the_documented_defaults() {
    let config = HarnessConfig::standard();
    assert_eq!(config.stream_id, 1);
    assert_eq!(config.topic_id, 1);
    assert_eq!(config.partition_id, 1);
    assert_eq!(config.batch_size, 10);
    assert_eq!(config.interval_ms, 500);
    assert_eq!(config, HarnessConfig::default());
}

#[test]
fn constants_match_the_standard_settings() {
    assert_eq!(DEFAULT_STREAM_ID, 1);
    assert_eq!(DEFAULT_TOPIC_ID, 1);
    assert_eq!(DEFAULT_PARTITION_ID, 1);
    assert_eq!(DEFAULT_BATCH_SIZE, 10);
    assert_eq!(DEFAULT_INTERVAL_MS, 500);
    assert_eq!(TOPIC_PARTITIONS, 1);
    assert_eq!(STREAM_NAME, "sample-stream");
    assert_eq!(TOPIC_NAME, "sample-topic");
    assert_eq!(USERNAME, "iggy");
    assert_eq!(PASSWORD, "iggy");
}

#[test]
fn new_keeps_valid_settings() {
    let config = HarnessConfig::new(7, 3, 2, 25, 40).unwrap();
    assert_eq!(
        config,
        HarnessConfig { stream_id: 7, topic_id: 3, partition_id: 2, batch_size: 25, interval_ms: 40 }
    );
}

#[test]
fn new_accepts_the_largest_identifiers() {
    let config = HarnessConfig::new(u32::MAX, u32::MAX, 0, 1, 0).unwrap();
    assert_eq!(config.stream_id, u32::MAX);
    assert_eq!(config.topic_id, u32::MAX);
    assert_eq!(config.partition_id, 0);
}

#[test]
fn new_refuses_a_zero_stream_identifier() {
    assert_eq!(HarnessConfig::new(0, 1, 1, 10, 500), Err(HarnessError::InvalidStreamId));
    assert_eq!(HarnessConfig::new(0, 0, 1, 0, 500), Err(HarnessError::InvalidStreamId));
}

#[test]
fn new_refuses_a_zero_topic_identifier() {
    assert_eq!(HarnessConfig::new(1, 0, 1, 10, 500), Err(HarnessError::InvalidTopicId));
    assert_eq!(HarnessConfig::new(1, 0, 1, 0, 500), Err(HarnessError::InvalidTopicId));
}

#[test]
fn new_refuses_an_empty_batch() {
    assert_eq!(HarnessConfig::new(1, 1, 1, 0, 500), Err(HarnessError::EmptyBatch));
}

#[test]
fn identifiers_are_judged_as_the_client_library_judges_them() {
    for value in [0u32, 1, 2, 1000, u32::MAX] {
        let accepted = iggy::identifier::Identifier::numeric(value).is_ok();
        assert_eq!(HarnessConfig::new(value, 1, 1, 1, 1).is_ok(), accepted);
        assert_eq!(HarnessConfig::new(1, value, 1, 1, 1).is_ok(), accepted);
    }
}
