use bytes::Bytes;
use stinger_mqtt_trait::validation::broker::{socket_id, socket_path_for, BrokerConfig, BrokerTransport};
use stinger_mqtt_trait::validation::{
    check_received_message, describe_failure, validate_client_id, validate_subscription_id,
};
use stinger_mqtt_trait::mock::MockClient;
use stinger_mqtt_trait::validation::suite::{first_step, next_action, probe_message, step_label, SuiteAction, SuiteStep};
use stinger_mqtt_trait::{MqttError, MqttMessage, QoS};
use tokio::sync::broadcast;

#[test]
fn tcp_config_uri() {
    let config = BrokerConfig::tcp("127.0.0.1", 1884);
    assert_eq!(config.mqtt_uri(), "mqtt://127.0.0.1:1884");
    assert_eq!(config.startup_timeout_ms, 5000);
}

#[test]
fn unix_config_uri() {
    let socket_path = "/tmp/test_mqtt.sock";
    let config = BrokerConfig::unix(socket_path);
    assert_eq!(config.mqtt_uri(), format!("mqtt+unix://{}", socket_path));
}

#[test]
fn default_config_uses_a_tmp_socket() {
    let config = BrokerConfig::default();
    let uri = config.mqtt_uri();
    assert!(uri.starts_with("mqtt+unix:///tmp/mqtt_test_"));
    assert!(uri.ends_with(".sock"));
    match BrokerTransport::default() {
        BrokerTransport::Unix { path } => {
            let digits = &path["/tmp/mqtt_test_".len()..path.len() - ".sock".len()];
            assert!(!digits.is_empty() && digits.chars().all(|c| c.is_ascii_digit()));
        }
        other => panic!("unexpected transport {:?}", other),
    }
}

#[test]
fn port_zero_and_max_are_written_in_full() {
    assert_eq!(BrokerConfig::tcp("h", 0).mqtt_uri(), "mqtt://h:0");
    assert_eq!(BrokerConfig::tcp("h", 65535).mqtt_uri(), "mqtt://h:65535");
}

#[test]
fn tcp_listener_section() {
    let config = BrokerConfig::tcp("127.0.0.1", 1884);
    assert_eq!(
        config.listener_config(),
        "[v5.1.listeners.tcp1]\nname = \"tcp1\"\nport = 1884\nbind = \"127.0.0.1\"\nmax_connections = 1000\n"
    );
}

#[test]
fn unix_rumqttd_config_file() {
    let config = BrokerConfig::unix("/tmp/x.sock");
    let text = config.rumqttd_config();
    assert!(text.starts_with("\n[v5]\nconsole_logs = false\n\n[v5.1.router]\n"));
    assert!(text.ends_with(
        "\n\n[v5.1.listeners.unix1]\nname = \"unix1\"\npath = \"/tmp/x.sock\"\nmax_connections = 1000\n\n"
    ));
    assert!(text.contains("max_inflight_size = 1024\n"));
}

#[test]
fn client_id_must_not_be_empty() {
    assert_eq!(validate_client_id("abc".to_string()), Ok("abc".to_string()));
    assert_eq!(validate_client_id(String::new()), Err("Client ID is empty".to_string()));
}

#[test]
fn subscription_id_must_be_positive() {
    assert_eq!(validate_subscription_id(7), Ok(7));
    assert_eq!(validate_subscription_id(i32::MAX), Ok(2147483647));
    assert_eq!(validate_subscription_id(0), Err("Invalid subscription ID returned: 0".to_string()));
    assert_eq!(validate_subscription_id(-12), Err("Invalid subscription ID returned: -12".to_string()));
    assert_eq!(
        validate_subscription_id(i32::MIN),
        Err("Invalid subscription ID returned: -2147483648".to_string())
    );
}

#[test]
fn received_message_checks() {
    let mut msg = MqttMessage::simple("test/subscribe".to_string(), QoS::AtLeastOnce, false, Bytes::from("x"));
    assert_eq!(
        check_received_message(&msg, 3, "test/subscribe"),
        Err("Subscription ID mismatch: expected 3, got None".to_string())
    );
    msg.subscription_id = Some(4);
    assert_eq!(
        check_received_message(&msg, 3, "test/subscribe"),
        Err("Subscription ID mismatch: expected 3, got Some(4)".to_string())
    );
    msg.subscription_id = Some(3);
    assert_eq!(check_received_message(&msg, 3, "test/subscribe"), Ok(()));
    assert_eq!(
        check_received_message(&msg, 3, "other"),
        Err("Topic mismatch: expected other, got test/subscribe".to_string())
    );
}

#[test]
fn failure_reports_name_the_step() {
    let e = MqttError::PublishError("no broker".to_string());
    assert_eq!(describe_failure("Failed to publish QoS 0", &e), "Failed to publish QoS 0: Publish error: no broker");
}

#[test]
fn socket_id_counts_nanoseconds_since_the_epoch() {
    assert_eq!(socket_id(0, 0), 0);
    assert_eq!(socket_id(1, 5), 1_000_000_005);
    assert_eq!(socket_id(1_700_000_000, 123), 1_700_000_000_000_000_123);
    assert_eq!(socket_id(-1, 0), u64::MAX - 999_999_999);
}

#[test]
fn socket_path_names_the_socket_after_the_id() {
    assert_eq!(socket_path_for(42), "/tmp/mqtt_test_42.sock");
}

#[test]
fn subscribe_receive_unsubscribe_cycle_passes_on_the_mock() {
    let mut client = MockClient::new_default();
    let (tx, mut rx) = broadcast::channel::<MqttMessage>(10);
    let topic = "test/subscribe";
    let sub_id = client.subscribe(topic.to_string(), QoS::AtLeastOnce, tx).unwrap();
    assert_eq!(validate_subscription_id(sub_id), Ok(sub_id as u32));
    let message = MqttMessage::simple(
        topic.to_string(),
        QoS::AtLeastOnce,
        false,
        Bytes::from("Test subscription message"),
    );
    client.publish(message).unwrap();
    let received = rx.try_recv().unwrap();
    assert_eq!(check_received_message(&received, sub_id, topic), Ok(()));
    client.unsubscribe(topic.to_string()).unwrap();
    let again = MqttMessage::simple(topic.to_string(), QoS::AtLeastOnce, false, Bytes::from("late"));
    client.publish(again).unwrap();
    assert!(rx.try_recv().is_err());
}

#[test]
fn suite_runs_every_check_in_order_when_all_pass() {
    let mut step = first_step();
    let mut seen = vec![step];
    loop {
        match next_action(step, true) {
            SuiteAction::Run(next) => {
                step = next;
                seen.push(step);
            }
            SuiteAction::AllPassed => break,
            SuiteAction::Stop => panic!("a passing check stopped the suite"),
        }
    }
    assert_eq!(
        seen,
        vec![
            SuiteStep::ClientId,
            SuiteStep::PublishQos0,
            SuiteStep::PublishQos1,
            SuiteStep::PublishQos2,
            SuiteStep::PublishNowait,
            SuiteStep::Subscribe,
            SuiteStep::Unsubscribe,
            SuiteStep::SubscribeReceiveUnsubscribe,
        ]
    );
}

#[test]
fn suite_stops_at_the_first_failure() {
    assert_eq!(next_action(SuiteStep::ClientId, false), SuiteAction::Stop);
    assert_eq!(next_action(SuiteStep::Subscribe, false), SuiteAction::Stop);
    assert_eq!(next_action(SuiteStep::SubscribeReceiveUnsubscribe, false), SuiteAction::Stop);
    assert_eq!(next_action(SuiteStep::SubscribeReceiveUnsubscribe, true), SuiteAction::AllPassed);
}

#[test]
fn suite_labels_name_each_check() {
    assert_eq!(step_label(SuiteStep::ClientId), "Testing client ID...");
    assert_eq!(step_label(SuiteStep::PublishNowait), "Testing publish_nowait...");
    assert_eq!(
        step_label(SuiteStep::SubscribeReceiveUnsubscribe),
        "Testing subscribe-receive-unsubscribe cycle..."
    );
}

#[test]
fn probe_messages_match_each_publishing_check() {
    let qos1 = probe_message(SuiteStep::PublishQos1).unwrap();
    assert_eq!(qos1.topic, "test/qos1");
    assert_eq!(qos1.qos, QoS::AtLeastOnce);
    assert!(!qos1.retain);
    assert_eq!(qos1.payload, Bytes::from("QoS 1 test message"));
    let cycle = probe_message(SuiteStep::SubscribeReceiveUnsubscribe).unwrap();
    assert_eq!(cycle.topic, "test/subscribe");
    assert_eq!(cycle.payload, Bytes::from("Test subscription message"));
    let nowait = probe_message(SuiteStep::PublishNowait).unwrap();
    assert_eq!(nowait.topic, "test/nowait");
    assert_eq!(nowait.qos, QoS::AtMostOnce);
    assert!(probe_message(SuiteStep::ClientId).is_none());
    assert!(probe_message(SuiteStep::Subscribe).is_none());
    assert!(probe_message(SuiteStep::Unsubscribe).is_none());
}
