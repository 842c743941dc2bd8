//! An in-memory MQTT client for testing: it keeps every published message for
//! inspection, hands simulated incoming messages to the channels registered by
//! subscriptions on the same topic, and reports connection states.

pub mod client;

pub use client::MockClient;
