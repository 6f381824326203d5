//! Verified control logic for a pair of message-streaming harnesses: a
//! producer that publishes numbered batches and a consumer that polls them
//! back from a tracked offset.

pub mod broker;
pub mod config;
pub mod consumer;
pub mod error;
pub mod label;
pub mod message;
pub mod producer;
pub mod record;
pub mod text;
