# stinger_mqtt_trait

Building blocks for MQTT 5 publish/subscribe clients, verified with Verus.

- `src/` is the verified library:
  - `message.rs`: QoS levels, `MqttMessage` with its MQTT 5 properties, the
    message builder, and publish confirmations.
  - `error.rs`: `MqttError` (with its text form) and connection states.
  - `availability.rs`: online/offline status data, its JSON form, and the
    helper that builds retained status messages on `system/...` topics.
  - `json.rs`, `text.rs`: JSON strings and members as bytes; joining and
    decimal notation.
  - `mock/`: an in-memory client that records publishes, hands published and
    simulated incoming messages to the subscribers on their topic (each copy
    carrying the subscription's identifier), and reports connection states.
  - `validation/`: the judgments of the client validation suite, the order
    of its checks (stopping at the first failure), and the configuration (URI
    and config file) of a rumqttd test broker.
  - `foreign.rs`: the outside types and trusted wrappers over `bytes`,
    `tokio` and `chrono`.
- `app/` holds what is asynchronous or does I/O: the `MqttClient` trait and
  its implementation for the mock, the validation suite, the broker process,
  periodic availability publishing, and serde-enabled copies of data types.
- `tests/` exercises the library on concrete values.
