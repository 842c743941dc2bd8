//! Trait-level building blocks for MQTT 5 publish/subscribe clients: the
//! message model, connection states and errors, availability (online/offline)
//! status messages, an in-memory mock client and helpers for validating client
//! implementations.

pub mod availability;
pub mod error;
pub mod foreign;
pub mod json;
pub mod message;
pub mod mock;
pub mod text;
pub mod validation;

pub use error::{MqttConnectionState, MqttError};
pub use message::{MqttMessage, MqttMessageBuilder, MqttPublishSuccess, QoS};
