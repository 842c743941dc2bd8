use stinger_mqtt_trait::availability::{AvailabilityHelper, OnlineData, OnlineDataBuilder, Timestamp};
use stinger_mqtt_trait::QoS;

fn parse(bytes: &[u8]) -> serde_json::Value {
    serde_json::from_slice(bytes).unwrap()
}

#[test]
fn test_system_online_topic() {
    let msg = AvailabilityHelper::system_availability("sys1".to_string());
    assert_eq!(msg.get_topic(), "system/sys1");
}

#[test]
fn test_client_online_topic() {
    let msg = AvailabilityHelper::client_availability("sys1".to_string(), "client1".to_string());
    assert_eq!(msg.get_topic(), "system/sys1/client1");
}

#[test]
fn test_service_online_topic() {
    let msg = AvailabilityHelper::service_availability(
        "sys1".to_string(),
        "client1".to_string(),
        "svc1".to_string(),
    );
    assert_eq!(msg.get_topic(), "system/sys1/client1/svc1");
}

#[test]
fn test_get_message() {
    let mut msg = AvailabilityHelper::system_availability("sys1".to_string());
    let mqtt_msg = msg.get_message(true).unwrap();

    assert_eq!(mqtt_msg.topic, "system/sys1");
    assert_eq!(mqtt_msg.qos, QoS::AtLeastOnce);
    assert_eq!(mqtt_msg.retain, true);
    assert_eq!(mqtt_msg.content_type, Some("application/json".to_string()));
}

#[test]
fn test_online_data_fields() {
    let mut msg = AvailabilityHelper::service_availability(
        "sys1".to_string(),
        "client1".to_string(),
        "svc1".to_string(),
    );

    let _mqtt_msg = msg.get_message(true).unwrap();

    // Verify the data structure contains the right IDs
    let data = &msg.data;
    assert_eq!(data.system_id, Some("sys1".to_string()));
    assert_eq!(data.client_id, Some("client1".to_string()));
    assert_eq!(data.service_id, Some("svc1".to_string()));
    assert_eq!(data.online, true);
}

#[test]
fn test_online_status_toggle() {
    let mut msg = AvailabilityHelper::system_availability("sys1".to_string());

    msg.get_message(true).unwrap();
    {
        let data = &msg.data;
        assert_eq!(data.online, true);
    }

    msg.get_message(false).unwrap();
    {
        let data = &msg.data;
        assert_eq!(data.online, false);
    }
}

#[test]
fn test_online_data_builder() {
    let data = OnlineDataBuilder::default()
        .system_id("test-system")
        .system_version("1.0.0")
        .client_id("test-client")
        .client_version("2.0.0")
        .online(true)
        .name("Test System")
        .description("A test system description")
        .build()
        .unwrap();

    assert_eq!(data.system_id, Some("test-system".to_string()));
    assert_eq!(data.system_version, Some("1.0.0".to_string()));
    assert_eq!(data.client_id, Some("test-client".to_string()));
    assert_eq!(data.client_version, Some("2.0.0".to_string()));
    assert_eq!(data.online, true);
    assert_eq!(data.name, Some("Test System".to_string()));
    assert_eq!(data.description, Some("A test system description".to_string()));
}

#[test]
fn test_online_data_builder_minimal() {
    // Test that builder works with minimal fields thanks to defaults
    let data = OnlineDataBuilder::default().online(true).build().unwrap();

    assert_eq!(data.online, true);
    assert_eq!(data.system_id, None);
    assert_eq!(data.client_id, None);
    assert_eq!(data.service_id, None);
}

#[test]
fn test_as_json_bytes() {
    let data = OnlineDataBuilder::default()
        .system_id("test-system")
        .client_id("test-client")
        .online(true)
        .name("Test Name")
        .build()
        .unwrap();

    let json_bytes = data.as_json_bytes().unwrap();

    // Verify we got bytes back
    assert!(!json_bytes.is_empty());

    // Verify it's valid JSON by deserializing it back
    let deserialized = parse(&json_bytes);
    assert_eq!(deserialized["system_id"], "test-system");
    assert_eq!(deserialized["client_id"], "test-client");
    assert_eq!(deserialized["online"], true);
    assert_eq!(deserialized["name"], "Test Name");
}

#[test]
fn test_as_json_bytes_minimal() {
    let data = OnlineData::default();
    let json_bytes = data.as_json_bytes().unwrap();

    // Even a minimal struct should serialize
    assert!(!json_bytes.is_empty());

    // Verify it can be deserialized back
    let deserialized = parse(&json_bytes);
    assert_eq!(deserialized["online"], false);
}

#[test]
fn json_has_fixed_member_order_and_skips_absent_fields() {
    let ts = Timestamp::from_unix(1431648000, 0).unwrap();
    let data = OnlineDataBuilder::default()
        .timestamp(ts)
        .system_id("s")
        .online(true)
        .description("d")
        .build()
        .unwrap();
    let json = String::from_utf8(data.as_json_bytes().unwrap()).unwrap();
    assert_eq!(
        json,
        "{\"timestamp\":\"2015-05-15T00:00:00Z\",\"system_id\":\"s\",\"online\":true,\"description\":\"d\"}"
    );
}

#[test]
fn json_escapes_quotes_backslashes_and_controls() {
    let ts = Timestamp::from_unix(0, 500_000_000).unwrap();
    let data = OnlineDataBuilder::default()
        .timestamp(ts)
        .name("a\"b\\c\nd\te\u{1}f")
        .build()
        .unwrap();
    let bytes = data.as_json_bytes().unwrap();
    let json = String::from_utf8(bytes.clone()).unwrap();
    assert_eq!(
        json,
        "{\"timestamp\":\"1970-01-01T00:00:00.500Z\",\"online\":false,\"name\":\"a\\\"b\\\\c\\nd\\te\\u0001f\"}"
    );
    // serde_json reads back exactly what was written.
    let value = parse(&bytes);
    assert_eq!(value["name"], "a\"b\\c\nd\te\u{1}f");
}

#[test]
fn json_matches_serde_json_for_strings() {
    let text = "ünïcödé \u{8}\u{c}\r / \u{1f} \u{7f} 🚀";
    let data = OnlineDataBuilder::default()
        .timestamp(Timestamp::from_unix(1, 0).unwrap())
        .name(text)
        .build()
        .unwrap();
    let json = String::from_utf8(data.as_json_bytes().unwrap()).unwrap();
    let expected_name = serde_json::to_string(text).unwrap();
    assert!(json.ends_with(&format!("\"name\":{}}}", expected_name)));
}

#[test]
fn timestamp_rejects_unrepresentable_instants() {
    assert!(Timestamp::from_unix(i64::MAX, 0).is_none());
    assert!(Timestamp::from_unix(0, 2_000_000_000).is_none());
    let t = Timestamp::from_unix(1431648000, 123).unwrap();
    assert_eq!(t.secs(), 1431648000);
    assert_eq!(t.nanos(), 123);
    assert_eq!(t.to_rfc3339(), "2015-05-15T00:00:00.000000123Z");
}

#[test]
fn status_message_payload_is_the_updated_data() {
    let mut helper = AvailabilityHelper::client_availability("sys".to_string(), "cli".to_string());
    let msg = helper.get_message(false).unwrap();
    let value = parse(&msg.payload);
    assert_eq!(value["system_id"], "sys");
    assert_eq!(value["client_id"], "cli");
    assert!(value.get("service_id").is_none());
    assert_eq!(value["online"], false);
    assert_eq!(msg.payload.to_vec(), helper.data.as_json_bytes().unwrap());
    let stamp = value["timestamp"].as_str().unwrap();
    assert!(chrono::DateTime::parse_from_rfc3339(stamp).is_ok());
}

#[test]
fn status_update_keeps_other_fields() {
    let mut helper = AvailabilityHelper::system_availability("sys".to_string());
    helper.data.name = Some("Display".to_string());
    helper.data.client_id = Some("kept".to_string());
    helper.get_message(true).unwrap();
    assert_eq!(helper.data.name, Some("Display".to_string()));
    assert_eq!(helper.data.client_id, Some("kept".to_string()));
    assert_eq!(helper.data.system_id, Some("sys".to_string()));
}

#[test]
fn new_helpers_start_offline_and_blank() {
    let helper = AvailabilityHelper::service_availability("a".to_string(), "b".to_string(), "c".to_string());
    assert!(!helper.data.online);
    assert!(helper.data.system_id.is_none());
    assert!(helper.data.service_id.is_none());
    assert_eq!(helper.topic_parts, vec!["a".to_string(), "b".to_string(), "c".to_string()]);
}

#[test]
fn current_time_is_read_from_the_clock() {
    let now = Timestamp::now();
    let reference = chrono::Utc::now().timestamp();
    assert!((now.secs() - reference).abs() <= 5);
    let data = OnlineData::default();
    assert!((data.timestamp.secs() - reference).abs() <= 5);
}

#[test]
fn helper_clone_is_independent() {
    let mut helper = AvailabilityHelper::client_availability("s".to_string(), "c".to_string());
    let copy = helper.clone();
    helper.get_message(true).unwrap();
    assert!(helper.data.online);
    assert!(!copy.data.online);
    assert_eq!(copy.get_topic(), "system/s/c");
}

#[test]
fn builder_clone_builds_the_same_data() {
    let builder = OnlineDataBuilder::default().name("n").online(true);
    let a = builder.clone().build().unwrap();
    let b = builder.build().unwrap();
    assert_eq!(a.name, b.name);
    assert_eq!(a.online, b.online);
}
