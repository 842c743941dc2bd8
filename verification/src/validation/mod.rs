//! Checks for validating MQTT client implementations: the judgments that the
//! validation suite makes on what a client returns, and the configuration of a
//! test broker.

pub mod broker;
pub mod suite;

use vstd::prelude::*;
use vstd::string::*;

use crate::error::{error_text, MqttError};
use crate::message::MqttMessage;
use crate::text::{push_signed_decimal, signed_decimal};

verus! {

/// The client ID a client reports is acceptable when it is not empty; it is
/// handed back.
pub fn validate_client_id(client_id: String) -> (r: Result<String, String>)
    ensures
        client_id@.len() > 0 ==> r == Ok::<String, String>(client_id),
        client_id@.len() == 0 ==> (r matches Err(e) && e@ == "Client ID is empty"@),
{
    if client_id.as_str().is_empty() {
        Err(String::from_str("Client ID is empty"))
    } else {
        Ok(client_id)
    }
}

/// A subscription identifier is acceptable when it is positive; it is handed
/// back as an unsigned number.
pub fn validate_subscription_id(sub_id: i32) -> (r: Result<u32, String>)
    ensures
        sub_id > 0 ==> r == Ok::<u32, String>(sub_id as u32),
        sub_id <= 0 ==> (r matches Err(e) && e@ == "Invalid subscription ID returned: "@
            + signed_decimal(sub_id as int)),
{
    if sub_id <= 0 {
        let mut e = String::from_str("Invalid subscription ID returned: ");
        push_signed_decimal(&mut e, sub_id as i64);
        Err(e)
    } else {
        Ok(sub_id as u32)
    }
}

/// How an optional subscription identifier is written in reports: `Some(<n>)`
/// or `None`.
pub open spec fn optional_id_text(id: Option<i32>) -> Seq<char> {
    match id {
        Some(n) => "Some("@ + signed_decimal(n as int) + ")"@,
        None => "None"@,
    }
}

/// The outcome of checking a message received on a subscription: it must
/// carry the subscription's identifier, and then the expected topic.
pub open spec fn received_check(sub_id: i32, expected_topic: Seq<char>, received_id: Option<i32>, received_topic: Seq<char>) -> Result<(), Seq<char>> {
    if received_id != Some(sub_id) {
        Err("Subscription ID mismatch: expected "@ + signed_decimal(sub_id as int) + ", got "@
            + optional_id_text(received_id))
    } else if received_topic != expected_topic {
        Err("Topic mismatch: expected "@ + expected_topic + ", got "@ + received_topic)
    } else {
        Ok(())
    }
}

/// Checks a message received on a subscription against the subscription's
/// identifier and topic.
pub fn check_received_message(received: &MqttMessage, sub_id: i32, expected_topic: &str) -> (r: Result<(), String>)
    ensures
        match received_check(sub_id, expected_topic@, received.subscription_id, received.topic@) {
            Ok(_) => r is Ok,
            Err(t) => r matches Err(e) && e@ == t,
        },
{
    let id_matches = match received.subscription_id {
        Some(n) => n == sub_id,
        None => false,
    };
    if !id_matches {
        let mut e = String::from_str("Subscription ID mismatch: expected ");
        push_signed_decimal(&mut e, sub_id as i64);
        e.append(", got ");
        match received.subscription_id {
            Some(n) => {
                e.append("Some(");
                push_signed_decimal(&mut e, n as i64);
                e.append(")");
            },
            None => {
                e.append("None");
            },
        }
        return Err(e);
    }
    let topic = received.topic.as_str();
    if !str_equal(topic, expected_topic) {
        let mut e = String::from_str("Topic mismatch: expected ");
        e.append(expected_topic);
        e.append(", got ");
        e.append(topic);
        return Err(e);
    }
    Ok(())
}

/// Whether two strings hold the same characters.
fn str_equal(a: &str, b: &str) -> (r: bool)
    ensures
        r == (a@ == b@),
{
    let x = String::from_str(a);
    let y = String::from_str(b);
    x == y
}

/// The report of a failed step: the step's description, a colon, then the
/// error's text.
pub fn describe_failure(step: &str, e: &MqttError) -> (s: String)
    ensures
        s@ == step@ + ": "@ + error_text(*e),
{
    let mut s = String::from_str(step);
    s.append(": ");
    let t = e.to_string();
    s.append(t.as_str());
    s
}

} // verus!
