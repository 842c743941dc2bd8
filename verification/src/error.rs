use vstd::prelude::*;
use vstd::string::*;

verus! {

/// Error type for MQTT operations.
#[derive(Debug)]
pub enum MqttError {
    /// Connection error
    ConnectionError(String),
    /// Subscription error
    SubscriptionError(String),
    /// Unsubscribe error
    UnsubscribeError(String),
    /// Publish error
    PublishError(String),
    /// Disconnection error
    DisconnectionError(String),
    /// Invalid topic
    InvalidTopic(String),
    /// Invalid QoS
    InvalidQoS(String),
    /// Other errors
    Other(String),
}

/// The human-readable prefix that introduces each kind of error.
pub open spec fn error_prefix(e: MqttError) -> Seq<char> {
    match e {
        MqttError::ConnectionError(_) => "Connection error: "@,
        MqttError::SubscriptionError(_) => "Subscription error: "@,
        MqttError::UnsubscribeError(_) => "Unsubscribe error: "@,
        MqttError::PublishError(_) => "Publish error: "@,
        MqttError::DisconnectionError(_) => "Disconnection error: "@,
        MqttError::InvalidTopic(_) => "Invalid topic: "@,
        MqttError::InvalidQoS(_) => "Invalid QoS: "@,
        MqttError::Other(_) => "Error: "@,
    }
}

/// The detail message carried by an error.
pub open spec fn error_detail(e: MqttError) -> Seq<char> {
    match e {
        MqttError::ConnectionError(m) => m@,
        MqttError::SubscriptionError(m) => m@,
        MqttError::UnsubscribeError(m) => m@,
        MqttError::PublishError(m) => m@,
        MqttError::DisconnectionError(m) => m@,
        MqttError::InvalidTopic(m) => m@,
        MqttError::InvalidQoS(m) => m@,
        MqttError::Other(m) => m@,
    }
}

/// The text an error is shown as: its kind's prefix followed by its detail.
pub open spec fn error_text(e: MqttError) -> Seq<char> {
    error_prefix(e) + error_detail(e)
}

impl MqttError {
    /// Renders the error as text, e.g. `Connection error: failed to connect`.
    pub fn to_string(&self) -> (s: String)
        ensures
            s@ == error_text(*self),
    {
        let (prefix, detail): (&str, &String) = match self {
            MqttError::ConnectionError(m) => ("Connection error: ", m),
            MqttError::SubscriptionError(m) => ("Subscription error: ", m),
            MqttError::UnsubscribeError(m) => ("Unsubscribe error: ", m),
            MqttError::PublishError(m) => ("Publish error: ", m),
            MqttError::DisconnectionError(m) => ("Disconnection error: ", m),
            MqttError::InvalidTopic(m) => ("Invalid topic: ", m),
            MqttError::InvalidQoS(m) => ("Invalid QoS: ", m),
            MqttError::Other(m) => ("Error: ", m),
        };
        let mut s = String::from_str(prefix);
        s.append(detail.as_str());
        s
    }
}

impl Clone for MqttError {
    fn clone(&self) -> (r: Self)
        ensures
            r == *self,
    {
        match self {
            MqttError::ConnectionError(m) => MqttError::ConnectionError(m.clone()),
            MqttError::SubscriptionError(m) => MqttError::SubscriptionError(m.clone()),
            MqttError::UnsubscribeError(m) => MqttError::UnsubscribeError(m.clone()),
            MqttError::PublishError(m) => MqttError::PublishError(m.clone()),
            MqttError::DisconnectionError(m) => MqttError::DisconnectionError(m.clone()),
            MqttError::InvalidTopic(m) => MqttError::InvalidTopic(m.clone()),
            MqttError::InvalidQoS(m) => MqttError::InvalidQoS(m.clone()),
            MqttError::Other(m) => MqttError::Other(m.clone()),
        }
    }
}

/// Represents the connection state of an MQTT client.
#[derive(Debug, Clone, Copy, PartialEq, Eq, Structural)]
pub enum MqttConnectionState {
    /// Client is disconnected from the broker
    Disconnected,
    /// Client is in the process of connecting to the broker
    Connecting,
    /// Client is connected to the broker
    Connected,
    /// Client is in the process of disconnecting from the broker
    Disconnecting,
}

} // verus!
