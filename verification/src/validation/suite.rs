//! The order of the pub/sub validation suite: which check runs after which,
//! and that the suite stops at the first failing check.

use vstd::prelude::*;
use vstd::string::*;

use crate::foreign::bytes_from_vec;
use crate::message::{simple_view, MqttMessage, QoS};

verus! {

/// One check of the pub/sub validation suite.
#[derive(Debug, Clone, Copy, PartialEq, Eq, Structural)]
pub enum SuiteStep {
    /// The client reports a non-empty client ID
    ClientId,
    /// A QoS 0 publish succeeds
    PublishQos0,
    /// A QoS 1 publish succeeds
    PublishQos1,
    /// A QoS 2 publish succeeds
    PublishQos2,
    /// A publish without waiting succeeds
    PublishNowait,
    /// A subscription gets a positive identifier
    Subscribe,
    /// Unsubscribing succeeds
    Unsubscribe,
    /// A published message reaches a subscription, then the subscription ends
    SubscribeReceiveUnsubscribe,
}

/// What the suite does after a check.
#[derive(Debug, Clone, Copy, PartialEq, Eq, Structural)]
pub enum SuiteAction {
    /// Run this check next
    Run(SuiteStep),
    /// Every check passed
    AllPassed,
    /// A check failed: the suite stops with that check's error
    Stop,
}

/// How many checks the suite has.
pub open spec fn step_count() -> nat {
    8
}

/// The position of a check in the suite, from 0.
pub open spec fn step_index(s: SuiteStep) -> nat {
    match s {
        SuiteStep::ClientId => 0,
        SuiteStep::PublishQos0 => 1,
        SuiteStep::PublishQos1 => 2,
        SuiteStep::PublishQos2 => 3,
        SuiteStep::PublishNowait => 4,
        SuiteStep::Subscribe => 5,
        SuiteStep::Unsubscribe => 6,
        SuiteStep::SubscribeReceiveUnsubscribe => 7,
    }
}

/// The check at a position, if the suite has one there.
pub open spec fn step_at(i: nat) -> Option<SuiteStep> {
    if i == 0 {
        Some(SuiteStep::ClientId)
    } else if i == 1 {
        Some(SuiteStep::PublishQos0)
    } else if i == 2 {
        Some(SuiteStep::PublishQos1)
    } else if i == 3 {
        Some(SuiteStep::PublishQos2)
    } else if i == 4 {
        Some(SuiteStep::PublishNowait)
    } else if i == 5 {
        Some(SuiteStep::Subscribe)
    } else if i == 6 {
        Some(SuiteStep::Unsubscribe)
    } else if i == 7 {
        Some(SuiteStep::SubscribeReceiveUnsubscribe)
    } else {
        None
    }
}

/// What follows a check that passed (`passed`) or failed: a failure stops the
/// suite; a pass runs the next check, or ends the suite after the last one.
pub open spec fn action_after(step: SuiteStep, passed: bool) -> SuiteAction {
    if !passed {
        SuiteAction::Stop
    } else {
        match step_at(step_index(step) + 1) {
            Some(next) => SuiteAction::Run(next),
            None => SuiteAction::AllPassed,
        }
    }
}

/// The check the suite starts with: the client ID.
pub fn first_step() -> (s: SuiteStep)
    ensures
        step_at(0) == Some(s),
{
    SuiteStep::ClientId
}

/// What the suite does after `step` passed or failed.
pub fn next_action(step: SuiteStep, passed: bool) -> (a: SuiteAction)
    ensures
        a == action_after(step, passed),
{
    if !passed {
        return SuiteAction::Stop;
    }
    match step {
        SuiteStep::ClientId => SuiteAction::Run(SuiteStep::PublishQos0),
        SuiteStep::PublishQos0 => SuiteAction::Run(SuiteStep::PublishQos1),
        SuiteStep::PublishQos1 => SuiteAction::Run(SuiteStep::PublishQos2),
        SuiteStep::PublishQos2 => SuiteAction::Run(SuiteStep::PublishNowait),
        SuiteStep::PublishNowait => SuiteAction::Run(SuiteStep::Subscribe),
        SuiteStep::Subscribe => SuiteAction::Run(SuiteStep::Unsubscribe),
        SuiteStep::Unsubscribe => SuiteAction::Run(SuiteStep::SubscribeReceiveUnsubscribe),
        SuiteStep::SubscribeReceiveUnsubscribe => SuiteAction::AllPassed,
    }
}

/// The progress line printed before a check.
pub fn step_label(step: SuiteStep) -> (label: &'static str)
    ensures
        label@ == match step {
            SuiteStep::ClientId => "Testing client ID..."@,
            SuiteStep::PublishQos0 => "Testing QoS 0 publish..."@,
            SuiteStep::PublishQos1 => "Testing QoS 1 publish..."@,
            SuiteStep::PublishQos2 => "Testing QoS 2 publish..."@,
            SuiteStep::PublishNowait => "Testing publish_nowait..."@,
            SuiteStep::Subscribe => "Testing subscribe..."@,
            SuiteStep::Unsubscribe => "Testing unsubscribe..."@,
            SuiteStep::SubscribeReceiveUnsubscribe => "Testing subscribe-receive-unsubscribe cycle..."@,
        },
{
    match step {
        SuiteStep::ClientId => "Testing client ID...",
        SuiteStep::PublishQos0 => "Testing QoS 0 publish...",
        SuiteStep::PublishQos1 => "Testing QoS 1 publish...",
        SuiteStep::PublishQos2 => "Testing QoS 2 publish...",
        SuiteStep::PublishNowait => "Testing publish_nowait...",
        SuiteStep::Subscribe => "Testing subscribe...",
        SuiteStep::Unsubscribe => "Testing unsubscribe...",
        SuiteStep::SubscribeReceiveUnsubscribe => "Testing subscribe-receive-unsubscribe cycle...",
    }
}

/// The message a check publishes, if it publishes one: its topic, QoS level
/// and payload text (not retained, no MQTT 5.0 properties).
pub open spec fn probe(step: SuiteStep) -> Option<(&'static str, QoS, &'static str)> {
    match step {
        SuiteStep::PublishQos0 => Some(("test/qos0", QoS::AtMostOnce, "QoS 0 test message")),
        SuiteStep::PublishQos1 => Some(("test/qos1", QoS::AtLeastOnce, "QoS 1 test message")),
        SuiteStep::PublishQos2 => Some(("test/qos2", QoS::ExactlyOnce, "QoS 2 test message")),
        SuiteStep::PublishNowait => Some(("test/nowait", QoS::AtMostOnce, "No-wait test message")),
        SuiteStep::SubscribeReceiveUnsubscribe => Some(
            ("test/subscribe", QoS::AtLeastOnce, "Test subscription message"),
        ),
        _ => None,
    }
}

/// A message with the given topic, QoS level and payload text, not retained.
fn text_message(topic: &str, qos: QoS, payload: &str) -> (m: MqttMessage)
    ensures
        m@ == simple_view(topic@, qos, false, payload.spec_bytes()),
{
    MqttMessage::simple(String::from_str(topic), qos, false, bytes_from_vec(payload.as_bytes_vec()))
}

/// The message a check publishes, built from [`probe`]; `None` for the checks
/// that publish nothing.
pub fn probe_message(step: SuiteStep) -> (m: Option<MqttMessage>)
    ensures
        match probe(step) {
            Some((topic, qos, payload)) => m matches Some(x) && x@ == simple_view(
                topic@,
                qos,
                false,
                payload.spec_bytes(),
            ),
            None => m is None,
        },
{
    match step {
        SuiteStep::PublishQos0 => Some(text_message("test/qos0", QoS::AtMostOnce, "QoS 0 test message")),
        SuiteStep::PublishQos1 => Some(text_message("test/qos1", QoS::AtLeastOnce, "QoS 1 test message")),
        SuiteStep::PublishQos2 => Some(text_message("test/qos2", QoS::ExactlyOnce, "QoS 2 test message")),
        SuiteStep::PublishNowait => Some(
            text_message("test/nowait", QoS::AtMostOnce, "No-wait test message"),
        ),
        SuiteStep::SubscribeReceiveUnsubscribe => Some(
            text_message("test/subscribe", QoS::AtLeastOnce, "Test subscription message"),
        ),
        _ => None,
    }
}

/// The protocol number of a QoS level: 0, 1 or 2.
pub open spec fn qos_number(q: QoS) -> int {
    match q {
        QoS::AtMostOnce => 0,
        QoS::AtLeastOnce => 1,
        QoS::ExactlyOnce => 2,
    }
}

/// The QoS checks exercise every level, each its own: the checks at positions
/// 1, 2 and 3 publish at QoS 0, 1 and 2 respectively, so a client that fails
/// at any level fails the suite.
pub proof fn law_qos_checks_publish_at_their_level(s: SuiteStep)
    requires
        1 <= step_index(s) <= 3,
    ensures
        probe(s) matches Some((_, q, _)) && qos_number(q) == step_index(s) - 1,
{
}

/// Every level is exercised by some check of the suite.
pub proof fn law_every_qos_level_is_probed(q: QoS)
    ensures
        exists|s: SuiteStep| #[trigger] probe(s) matches Some((_, level, _)) && level == q,
{
    match q {
        QoS::AtMostOnce => assert(probe(SuiteStep::PublishQos0) matches Some((_, level, _)) && level == q),
        QoS::AtLeastOnce => assert(probe(SuiteStep::PublishQos1) matches Some((_, level, _)) && level == q),
        QoS::ExactlyOnce => assert(probe(SuiteStep::PublishQos2) matches Some((_, level, _)) && level == q),
    }
}

/// Every check has one place in the suite: the positions run from 0 to the
/// number of checks, and the check at a check's position is that check.
pub proof fn law_each_step_has_one_place(s: SuiteStep)
    ensures
        step_index(s) < step_count(),
        step_at(step_index(s)) == Some(s),
{
}

/// The positions below the number of checks each hold a check; none beyond.
pub proof fn law_positions_are_filled(i: nat)
    ensures
        i < step_count() <==> step_at(i) is Some,
        step_at(i) matches Some(s) ==> step_index(s) == i,
{
}

/// When every check passes, the suite runs the checks one after another, each
/// once, in order of position, and ends after the last: each check but the
/// last is followed by the check at the next position.
pub proof fn law_passing_runs_in_order(s: SuiteStep)
    ensures
        step_index(s) + 1 < step_count() ==> (action_after(s, true) matches SuiteAction::Run(next)
            && step_index(next) == step_index(s) + 1),
        step_index(s) + 1 == step_count() ==> action_after(s, true) == SuiteAction::AllPassed,
{
}

/// A failing check stops the suite, whichever check it is.
pub proof fn law_failure_stops(s: SuiteStep)
    ensures
        action_after(s, false) == SuiteAction::Stop,
{
}

} // verus!
