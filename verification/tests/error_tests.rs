use stinger_mqtt_trait::{MqttConnectionState, MqttError};

#[test]
fn test_mqtt_error_display() {
    let err = MqttError::ConnectionError("failed to connect".to_string());
    assert_eq!(err.to_string(), "Connection error: failed to connect");

    let err = MqttError::SubscriptionError("invalid topic".to_string());
    assert_eq!(err.to_string(), "Subscription error: invalid topic");

    let err = MqttError::UnsubscribeError("not subscribed".to_string());
    assert_eq!(err.to_string(), "Unsubscribe error: not subscribed");

    let err = MqttError::PublishError("publish failed".to_string());
    assert_eq!(err.to_string(), "Publish error: publish failed");

    let err = MqttError::DisconnectionError("disconnect failed".to_string());
    assert_eq!(err.to_string(), "Disconnection error: disconnect failed");

    let err = MqttError::InvalidTopic("bad topic".to_string());
    assert_eq!(err.to_string(), "Invalid topic: bad topic");

    let err = MqttError::InvalidQoS("bad qos".to_string());
    assert_eq!(err.to_string(), "Invalid QoS: bad qos");

    let err = MqttError::Other("something went wrong".to_string());
    assert_eq!(err.to_string(), "Error: something went wrong");
}

#[test]
fn test_mqtt_error_is_error_trait() {
    // The library's error type renders itself as text; the error-trait
    // implementation lives with the application-side copy of the type.
    let err = MqttError::ConnectionError("test".to_string());
    let text: String = err.to_string();
    assert_eq!(text, "Connection error: test");
}

#[test]
fn test_mqtt_error_clone() {
    let err1 = MqttError::PublishError("test error".to_string());
    let err2 = err1.clone();
    assert_eq!(err1.to_string(), err2.to_string());
}

#[test]
fn error_text_with_empty_detail_is_just_the_prefix() {
    assert_eq!(MqttError::Other(String::new()).to_string(), "Error: ");
    assert_eq!(MqttError::InvalidQoS(String::new()).to_string(), "Invalid QoS: ");
}

#[test]
fn error_text_keeps_non_ascii_detail() {
    let err = MqttError::PublishError("température → 23°".to_string());
    assert_eq!(err.to_string(), "Publish error: température → 23°");
}

#[test]
fn connection_states_compare_by_variant() {
    assert_eq!(MqttConnectionState::Connected, MqttConnectionState::Connected);
    assert_ne!(MqttConnectionState::Connected, MqttConnectionState::Connecting);
    assert_ne!(MqttConnectionState::Disconnected, MqttConnectionState::Disconnecting);
}
