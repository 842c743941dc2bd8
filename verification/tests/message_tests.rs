use std::collections::HashMap;

use bytes::Bytes;
use stinger_mqtt_trait::message::publish_success_for;
use stinger_mqtt_trait::{MqttMessage, MqttPublishSuccess, QoS};

#[test]
fn test_qos_values() {
    assert_eq!(QoS::AtMostOnce as i32, 0);
    assert_eq!(QoS::AtLeastOnce as i32, 1);
    assert_eq!(QoS::ExactlyOnce as i32, 2);
}

#[test]
fn test_mqtt_message_simple() {
    let payload = Bytes::from("test");
    let msg = MqttMessage::simple("test/topic".to_string(), QoS::AtLeastOnce, false, payload);

    assert_eq!(msg.topic, "test/topic");
    assert_eq!(msg.qos as i32, 1);
    assert_eq!(msg.retain, false);
    assert_eq!(msg.payload, Bytes::from("test"));
    assert!(msg.content_type.is_none());
    assert!(msg.subscription_id.is_none());
    assert!(msg.user_properties.is_empty());
}

#[test]
fn test_mqtt_message_builder() {
    let payload = Bytes::from("builder test");
    let mut user_props = HashMap::new();
    user_props.insert("key1".to_string(), "value1".to_string());

    let msg = MqttMessage::new()
        .topic("builder/topic".to_string())
        .qos(QoS::ExactlyOnce)
        .retain(true)
        .payload(payload)
        .content_type(Some("text/plain".to_string()))
        .subscription_id(Some(123))
        .response_topic(Some("response/topic".to_string()))
        .correlation_data(Some(Bytes::from(vec![1, 2, 3])))
        .user_properties(user_props)
        .build();

    assert_eq!(msg.topic, "builder/topic");
    assert_eq!(msg.qos as i32, 2);
    assert_eq!(msg.retain, true);
    assert_eq!(msg.payload, Bytes::from("builder test"));
    assert_eq!(msg.content_type, Some("text/plain".to_string()));
    assert_eq!(msg.subscription_id, Some(123));
    assert_eq!(msg.response_topic, Some("response/topic".to_string()));
    assert_eq!(msg.correlation_data, Some(Bytes::from(vec![1, 2, 3])));
    assert_eq!(msg.user_properties.get("key1"), Some(&"value1".to_string()));
}

#[test]
fn test_mqtt_message_with_mqtt5_properties() {
    let payload = Bytes::from(vec![0xFF, 0xAA]);
    let msg = MqttMessage::new()
        .topic("mqtt5/test".to_string())
        .qos(QoS::AtLeastOnce)
        .retain(false)
        .payload(payload)
        .content_type(Some("application/octet-stream".to_string()))
        .subscription_id(Some(999))
        .correlation_data(None)
        .response_topic(None)
        .user_properties(HashMap::new())
        .build();

    assert_eq!(msg.content_type, Some("application/octet-stream".to_string()));
    assert_eq!(msg.subscription_id, Some(999));
    assert_eq!(msg.payload, Bytes::from(vec![0xFF, 0xAA]));
}

#[test]
fn test_mqtt_message_bytes_payload() {
    let data = vec![1, 2, 3, 4, 5];
    let msg = MqttMessage::simple(
        "test/binary".to_string(),
        QoS::AtMostOnce,
        false,
        Bytes::from(data.clone()),
    );

    assert_eq!(msg.payload, Bytes::from(data));
}

#[test]
fn test_mqtt_message_simple_string() {
    let msg = MqttMessage::simple(
        "test/string".to_string(),
        QoS::AtLeastOnce,
        false,
        Bytes::from("Hello, MQTT!"),
    );

    assert_eq!(msg.payload, Bytes::from("Hello, MQTT!"));
    assert_eq!(String::from_utf8(msg.payload.to_vec()).unwrap(), "Hello, MQTT!");
}

#[test]
fn test_mqtt_message_string_payload() {
    let msg = MqttMessage::simple(
        "test/str".to_string(),
        QoS::ExactlyOnce,
        true,
        Bytes::from("Test message"),
    );

    assert_eq!(msg.payload, Bytes::from("Test message"));
}

#[test]
fn test_mqtt_message_with_json_payload() {
    let mut data = serde_json::Map::new();
    data.insert("temperature".to_string(), serde_json::Value::from(23.5f32));
    data.insert("humidity".to_string(), serde_json::Value::from(65));
    data.insert("location".to_string(), serde_json::Value::from("Living Room"));
    let json = serde_json::to_vec(&serde_json::Value::Object(data)).unwrap();

    let msg = MqttMessage::with_json_payload("sensor/data".to_string(), QoS::AtLeastOnce, false, json);

    // Verify it's valid JSON containing our data
    let json_str = String::from_utf8(msg.payload.to_vec()).unwrap();
    assert!(json_str.contains("23.5"));
    assert!(json_str.contains("65"));
    assert!(json_str.contains("Living Room"));

    // Verify content_type was automatically set to application/json
    assert_eq!(msg.content_type, Some("application/json".to_string()));
}

#[test]
fn builder_leaves_unset_properties_absent() {
    let msg = MqttMessage::new()
        .topic("a/b".to_string())
        .qos(QoS::AtMostOnce)
        .retain(false)
        .payload(Bytes::from("x"))
        .build();
    assert_eq!(msg.topic, "a/b");
    assert_eq!(msg.content_type, None);
    assert_eq!(msg.subscription_id, None);
    assert_eq!(msg.correlation_data, None);
    assert_eq!(msg.response_topic, None);
    assert!(msg.user_properties.is_empty());
}

#[test]
fn clone_keeps_every_field() {
    let mut props = HashMap::new();
    props.insert("k".to_string(), "v".to_string());
    let msg = MqttMessage::new()
        .topic("t".to_string())
        .qos(QoS::ExactlyOnce)
        .retain(true)
        .payload(Bytes::from(vec![9, 8, 7]))
        .content_type(Some("c".to_string()))
        .subscription_id(Some(-4))
        .correlation_data(Some(Bytes::from("corr")))
        .response_topic(Some("r".to_string()))
        .user_properties(props)
        .build();
    let copy = msg.clone();
    assert_eq!(copy.topic, msg.topic);
    assert_eq!(copy.qos, msg.qos);
    assert_eq!(copy.retain, msg.retain);
    assert_eq!(copy.payload, msg.payload);
    assert_eq!(copy.content_type, msg.content_type);
    assert_eq!(copy.subscription_id, msg.subscription_id);
    assert_eq!(copy.correlation_data, msg.correlation_data);
    assert_eq!(copy.response_topic, msg.response_topic);
    assert_eq!(copy.user_properties, msg.user_properties);
}

#[test]
fn json_payload_is_kept_byte_for_byte() {
    let msg = MqttMessage::with_json_payload("t".to_string(), QoS::ExactlyOnce, true, b"{\"a\":1}".to_vec());
    assert_eq!(msg.payload, Bytes::from("{\"a\":1}"));
    assert_eq!(msg.qos, QoS::ExactlyOnce);
    assert!(msg.retain);
    assert!(msg.subscription_id.is_none());
}

#[test]
fn publish_success_follows_qos() {
    assert_eq!(publish_success_for(QoS::AtMostOnce), MqttPublishSuccess::Sent);
    assert_eq!(publish_success_for(QoS::AtLeastOnce), MqttPublishSuccess::Acknowledged);
    assert_eq!(publish_success_for(QoS::ExactlyOnce), MqttPublishSuccess::Completed);
}
