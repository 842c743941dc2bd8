use std::collections::HashMap;
use vstd::prelude::*;
use vstd::string::*;

use crate::foreign::{bytes_clone, bytes_from_vec, bytes_view};

verus! {

/// Quality of Service levels for MQTT.
///
/// The levels are declared in the order of their protocol numbers, so
/// `QoS::AtMostOnce as i32 == 0`, `AtLeastOnce` is 1 and `ExactlyOnce` is 2.
#[derive(Debug, Clone, Copy, PartialEq, Eq, Hash, Structural)]
pub enum QoS {
    /// At most once delivery (Fire and forget)
    AtMostOnce,
    /// At least once delivery (Acknowledged delivery)
    AtLeastOnce,
    /// Exactly once delivery (Assured delivery)
    ExactlyOnce,
}

/// The outcome of a successful publish, by how far delivery was confirmed.
#[derive(Debug, Clone, Copy, PartialEq, Eq, Structural)]
pub enum MqttPublishSuccess {
    /// QoS 0: the message was sent
    Sent,
    /// QoS 1: the broker acknowledged the message (PUBACK)
    Acknowledged,
    /// QoS 2: the exchange completed (PUBCOMP)
    Completed,
    /// The message was queued without waiting for any confirmation
    Queued,
}

/// The confirmation that a completed publish at a QoS level stands for.
pub open spec fn success_for_qos(qos: QoS) -> MqttPublishSuccess {
    match qos {
        QoS::AtMostOnce => MqttPublishSuccess::Sent,
        QoS::AtLeastOnce => MqttPublishSuccess::Acknowledged,
        QoS::ExactlyOnce => MqttPublishSuccess::Completed,
    }
}

/// Maps a QoS level to the confirmation that a completed publish at that level
/// stands for.
pub fn publish_success_for(qos: QoS) -> (r: MqttPublishSuccess)
    ensures
        r == success_for_qos(qos),
{
    match qos {
        QoS::AtMostOnce => MqttPublishSuccess::Sent,
        QoS::AtLeastOnce => MqttPublishSuccess::Acknowledged,
        QoS::ExactlyOnce => MqttPublishSuccess::Completed,
    }
}

/// MQTT message structure with support for MQTT 5.0 properties.
#[derive(Debug)]
pub struct MqttMessage {
    /// Topic to publish to or received from
    pub topic: String,
    /// Quality of Service level
    pub qos: QoS,
    /// Retain flag - if true, the message will be retained by the broker
    pub retain: bool,
    /// Message payload as bytes
    pub payload: bytes::Bytes,
    /// Content type (MQTT 5.0 property)
    pub content_type: Option<String>,
    /// Subscription identifier (MQTT 5.0 property)
    pub subscription_id: Option<i32>,
    /// Correlation data for request/response pattern (MQTT 5.0 property)
    pub correlation_data: Option<bytes::Bytes>,
    /// Response topic for request/response pattern (MQTT 5.0 property)
    pub response_topic: Option<String>,
    /// User properties - custom key-value pairs (MQTT 5.0 property)
    pub user_properties: HashMap<String, String>,
}

/// The content of a message, with text as characters and buffers as bytes.
pub struct MessageView {
    pub topic: Seq<char>,
    pub qos: QoS,
    pub retain: bool,
    pub payload: Seq<u8>,
    pub content_type: Option<Seq<char>>,
    pub subscription_id: Option<i32>,
    pub correlation_data: Option<Seq<u8>>,
    pub response_topic: Option<Seq<char>>,
    pub user_properties: Map<String, String>,
}

/// The characters of an optional string.
pub open spec fn opt_text(s: Option<String>) -> Option<Seq<char>> {
    match s {
        Some(t) => Some(t@),
        None => None,
    }
}

/// The bytes of an optional buffer.
pub open spec fn opt_bytes(b: Option<bytes::Bytes>) -> Option<Seq<u8>> {
    match b {
        Some(x) => Some(bytes_view(x)),
        None => None,
    }
}

impl View for MqttMessage {
    type V = MessageView;

    open spec fn view(&self) -> MessageView {
        MessageView {
            topic: self.topic@,
            qos: self.qos,
            retain: self.retain,
            payload: bytes_view(self.payload),
            content_type: opt_text(self.content_type),
            subscription_id: self.subscription_id,
            correlation_data: opt_bytes(self.correlation_data),
            response_topic: opt_text(self.response_topic),
            user_properties: self.user_properties@,
        }
    }
}

/// A message with the four required fields and no MQTT 5.0 properties.
pub open spec fn simple_view(topic: Seq<char>, qos: QoS, retain: bool, payload: Seq<u8>) -> MessageView {
    MessageView {
        topic,
        qos,
        retain,
        payload,
        content_type: None,
        subscription_id: None,
        correlation_data: None,
        response_topic: None,
        user_properties: Map::empty(),
    }
}

fn clone_opt_string(s: &Option<String>) -> (r: Option<String>)
    ensures
        opt_text(r) == opt_text(*s),
{
    match s {
        Some(t) => Some(t.clone()),
        None => None,
    }
}

fn clone_opt_bytes(b: &Option<bytes::Bytes>) -> (r: Option<bytes::Bytes>)
    ensures
        opt_bytes(r) == opt_bytes(*b),
{
    match b {
        Some(x) => Some(bytes_clone(x)),
        None => None,
    }
}

impl Clone for MqttMessage {
    fn clone(&self) -> (r: Self)
        ensures
            r@ == self@,
    {
        MqttMessage {
            topic: self.topic.clone(),
            qos: self.qos,
            retain: self.retain,
            payload: bytes_clone(&self.payload),
            content_type: clone_opt_string(&self.content_type),
            subscription_id: self.subscription_id,
            correlation_data: clone_opt_bytes(&self.correlation_data),
            response_topic: clone_opt_string(&self.response_topic),
            user_properties: self.user_properties.clone(),
        }
    }
}

impl MqttMessage {
    /// Create a new MQTT message with required fields.
    pub fn simple(topic: String, qos: QoS, retain: bool, payload: bytes::Bytes) -> (m: Self)
        ensures
            m@ == simple_view(topic@, qos, retain, bytes_view(payload)),
    {
        MqttMessage {
            topic,
            qos,
            retain,
            payload,
            content_type: None,
            subscription_id: None,
            correlation_data: None,
            response_topic: None,
            user_properties: HashMap::new(),
        }
    }
}

impl MqttMessage {
    /// Create a message whose payload is an already serialized JSON document;
    /// the content type is set to `application/json`.
    pub fn with_json_payload(topic: String, qos: QoS, retain: bool, json: Vec<u8>) -> (m: Self)
        ensures
            m@ == (MessageView {
                content_type: Some("application/json"@),
                ..simple_view(topic@, qos, retain, json@)
            }),
    {
        MqttMessage {
            topic,
            qos,
            retain,
            payload: bytes_from_vec(json),
            content_type: Some(String::from_str("application/json")),
            subscription_id: None,
            correlation_data: None,
            response_topic: None,
            user_properties: HashMap::new(),
        }
    }

    /// Starts building a message; see [`MqttMessageBuilder`].
    pub fn new() -> (b: MqttMessageBuilder)
        ensures
            b.topic is None,
            b.qos is None,
            b.retain is None,
            b.payload is None,
            b.content_type is None,
            b.subscription_id is None,
            b.correlation_data is None,
            b.response_topic is None,
            b.user_properties is None,
    {
        MqttMessageBuilder {
            topic: None,
            qos: None,
            retain: None,
            payload: None,
            content_type: None,
            subscription_id: None,
            correlation_data: None,
            response_topic: None,
            user_properties: None,
        }
    }
}

/// Builder for [`MqttMessage`]. The topic, QoS, retain flag and payload must be
/// set before [`MqttMessageBuilder::build`]; the MQTT 5.0 properties are absent
/// (and the user properties empty) unless set.
pub struct MqttMessageBuilder {
    pub topic: Option<String>,
    pub qos: Option<QoS>,
    pub retain: Option<bool>,
    pub payload: Option<bytes::Bytes>,
    pub content_type: Option<Option<String>>,
    pub subscription_id: Option<Option<i32>>,
    pub correlation_data: Option<Option<bytes::Bytes>>,
    pub response_topic: Option<Option<String>>,
    pub user_properties: Option<HashMap<String, String>>,
}

impl MqttMessageBuilder {
    /// Sets the topic.
    pub fn topic(self, topic: String) -> (b: Self)
        ensures
            b == (MqttMessageBuilder { topic: Some(topic), ..self }),
    {
        MqttMessageBuilder { topic: Some(topic), ..self }
    }

    /// Sets the QoS level.
    pub fn qos(self, qos: QoS) -> (b: Self)
        ensures
            b == (MqttMessageBuilder { qos: Some(qos), ..self }),
    {
        MqttMessageBuilder { qos: Some(qos), ..self }
    }

    /// Sets the retain flag.
    pub fn retain(self, retain: bool) -> (b: Self)
        ensures
            b == (MqttMessageBuilder { retain: Some(retain), ..self }),
    {
        MqttMessageBuilder { retain: Some(retain), ..self }
    }

    /// Sets the payload.
    pub fn payload(self, payload: bytes::Bytes) -> (b: Self)
        ensures
            b == (MqttMessageBuilder { payload: Some(payload), ..self }),
    {
        MqttMessageBuilder { payload: Some(payload), ..self }
    }

    /// Sets the content type property.
    pub fn content_type(self, content_type: Option<String>) -> (b: Self)
        ensures
            b == (MqttMessageBuilder { content_type: Some(content_type), ..self }),
    {
        MqttMessageBuilder { content_type: Some(content_type), ..self }
    }

    /// Sets the subscription identifier property.
    pub fn subscription_id(self, subscription_id: Option<i32>) -> (b: Self)
        ensures
            b == (MqttMessageBuilder { subscription_id: Some(subscription_id), ..self }),
    {
        MqttMessageBuilder { subscription_id: Some(subscription_id), ..self }
    }

    /// Sets the correlation data property.
    pub fn correlation_data(self, correlation_data: Option<bytes::Bytes>) -> (b: Self)
        ensures
            b == (MqttMessageBuilder { correlation_data: Some(correlation_data), ..self }),
    {
        MqttMessageBuilder { correlation_data: Some(correlation_data), ..self }
    }

    /// Sets the response topic property.
    pub fn response_topic(self, response_topic: Option<String>) -> (b: Self)
        ensures
            b == (MqttMessageBuilder { response_topic: Some(response_topic), ..self }),
    {
        MqttMessageBuilder { response_topic: Some(response_topic), ..self }
    }

    /// Sets the user properties.
    pub fn user_properties(self, user_properties: HashMap<String, String>) -> (b: Self)
        ensures
            b == (MqttMessageBuilder { user_properties: Some(user_properties), ..self }),
    {
        MqttMessageBuilder { user_properties: Some(user_properties), ..self }
    }

    /// Builds the message from the fields set so far.
    pub fn build(self) -> (m: MqttMessage)
        requires
            self.topic is Some,
            self.qos is Some,
            self.retain is Some,
            self.payload is Some,
        ensures
            m.topic == self.topic->0,
            m.qos == self.qos->0,
            m.retain == self.retain->0,
            m.payload == self.payload->0,
            m.content_type == (match self.content_type { Some(c) => c, None => None }),
            m.subscription_id == (match self.subscription_id { Some(c) => c, None => None }),
            m.correlation_data == (match self.correlation_data { Some(c) => c, None => None }),
            m.response_topic == (match self.response_topic { Some(c) => c, None => None }),
            self.user_properties is Some ==> m.user_properties == self.user_properties->0,
            self.user_properties is None ==> m.user_properties@ == Map::<String, String>::empty(),
    {
        let user_properties = match self.user_properties {
            Some(p) => p,
            None => HashMap::new(),
        };
        MqttMessage {
            topic: self.topic.unwrap(),
            qos: self.qos.unwrap(),
            retain: self.retain.unwrap(),
            payload: self.payload.unwrap(),
            content_type: match self.content_type { Some(c) => c, None => None },
            subscription_id: match self.subscription_id { Some(c) => c, None => None },
            correlation_data: match self.correlation_data { Some(c) => c, None => None },
            response_topic: match self.response_topic { Some(c) => c, None => None },
            user_properties,
        }
    }
}

} // verus!
