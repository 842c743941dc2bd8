use vstd::prelude::*;
use vstd::string::*;

use crate::error::{MqttConnectionState, MqttError};
use crate::foreign::{broadcast_message, clone_state_receiver, replace_state, state_channel, state_sender_of};
use crate::message::{
    publish_success_for, success_for_qos, MessageView, MqttMessage, MqttPublishSuccess, QoS,
};

verus! {

/// A subscription as the mock keeps it: the topic, the channel that its
/// messages go to, and the identifier it was given.
pub type Subscription = (String, tokio::sync::broadcast::Sender<MqttMessage>, i32);

/// A subscription as values: the topic's characters, the channel, and the
/// subscription's identifier.
pub type SubscriptionView = (Seq<char>, tokio::sync::broadcast::Sender<MqttMessage>, i32);

/// A message handed to a subscriber's channel: the channel and the message.
pub type Handover = (tokio::sync::broadcast::Sender<MqttMessage>, MessageView);

/// A connection state handed to the state channel: the channel's sender and
/// the state.
pub type StateHandover = (tokio::sync::watch::Sender<MqttConnectionState>, MqttConnectionState);

/// What a mock client holds, as values.
pub struct MockClientView {
    pub client_id: Seq<char>,
    pub last_will: Option<MessageView>,
    pub state: MqttConnectionState,
    pub published: Seq<MessageView>,
    pub subscriptions: Seq<SubscriptionView>,
    /// The identifier the next subscription gets
    pub next_subscription_id: i32,
    /// The sending half of the connection-state channel
    pub state_sender: tokio::sync::watch::Sender<MqttConnectionState>,
    /// The client's own receiver on the connection-state channel
    pub state_receiver: tokio::sync::watch::Receiver<MqttConnectionState>,
    /// Every message handed to a subscriber's channel so far, in order
    pub handed_out: Seq<Handover>,
    /// Every state handed to the connection-state channel so far, in order
    pub states_sent: Seq<StateHandover>,
}

/// The content of each message in a sequence.
pub open spec fn message_views(ms: Seq<MqttMessage>) -> Seq<MessageView> {
    ms.map_values(|m: MqttMessage| m@)
}

/// The topics (as characters) and channels of a sequence of subscriptions.
pub open spec fn subscription_views(subs: Seq<Subscription>) -> Seq<SubscriptionView> {
    subs.map_values(|s: Subscription| (s.0@, s.1, s.2))
}

/// How many subscriptions are registered on exactly this topic.
pub open spec fn count_on_topic(
    subs: Seq<SubscriptionView>,
    topic: Seq<char>,
) -> nat
    decreases subs.len(),
{
    if subs.len() == 0 {
        0
    } else {
        count_on_topic(subs.drop_last(), topic) + if subs.last().0 == topic { 1nat } else { 0nat }
    }
}

/// The subscriptions that remain, in order, once those on `topic` are dropped.
pub open spec fn without_topic(
    subs: Seq<SubscriptionView>,
    topic: Seq<char>,
) -> Seq<SubscriptionView>
    decreases subs.len(),
{
    if subs.len() == 0 {
        subs
    } else if subs.last().0 == topic {
        without_topic(subs.drop_last(), topic)
    } else {
        without_topic(subs.drop_last(), topic).push(subs.last())
    }
}

/// The identifier that follows `id`: one more, in `i32` arithmetic (which
/// wraps only after two billion subscriptions).
pub open spec fn following_id(id: i32) -> i32 {
    id.wrapping_add(1)
}

/// The message as a subscription receives it: the same message, carrying the
/// subscription's identifier.
pub open spec fn delivered_view(message: MessageView, sub_id: i32) -> MessageView {
    MessageView { subscription_id: Some(sub_id), ..message }
}

/// What a message hands out on the given subscriptions: for each subscription
/// whose topic equals the message's topic (exact match, no wildcards), in
/// subscription order, the subscription's position and the message as that
/// subscription receives it.
pub open spec fn deliveries(subs: Seq<SubscriptionView>, message: MessageView) -> Seq<(int, MessageView)>
    decreases subs.len(),
{
    if subs.len() == 0 {
        Seq::empty()
    } else if subs.last().0 == message.topic {
        deliveries(subs.drop_last(), message).push(
            (subs.len() - 1, delivered_view(message, subs.last().2)),
        )
    } else {
        deliveries(subs.drop_last(), message)
    }
}

/// What a message hands to the subscribers' channels: the channel of each
/// subscription on its topic, in subscription order, with the message carrying
/// that subscription's identifier.
pub open spec fn handovers(subs: Seq<SubscriptionView>, message: MessageView) -> Seq<Handover> {
    deliveries(subs, message).map_values(|d: (int, MessageView)| (subs[d.0].1, d.1))
}

/// The state channel agrees with the recorded state: the last state handed to
/// the client's own channel, which is the value its receivers see, is the
/// client's recorded connection state.
pub open spec fn state_channel_agrees(v: MockClientView) -> bool {
    &&& v.states_sent.len() > 0
    &&& v.states_sent.last() == (v.state_sender, v.state)
}

/// A list of deliveries as values: positions as integers, messages by content.
pub open spec fn plan_view(plan: Seq<(usize, MqttMessage)>) -> Seq<(int, MessageView)> {
    plan.map_values(|d: (usize, MqttMessage)| (d.0 as int, d.1@))
}

/// The copy of a message that a subscription receives: the same message,
/// carrying the subscription's identifier.
pub fn delivered(message: &MqttMessage, sub_id: i32) -> (m: MqttMessage)
    ensures
        m@ == delivered_view(message@, sub_id),
        m@.topic == message@.topic,
        m@.qos == message@.qos,
        m@.retain == message@.retain,
        m@.payload == message@.payload,
        m@.content_type == message@.content_type,
        m@.subscription_id == Some(sub_id),
        m@.correlation_data == message@.correlation_data,
        m@.response_topic == message@.response_topic,
        m@.user_properties == message@.user_properties,
{
    let mut m = message.clone();
    m.subscription_id = Some(sub_id);
    m
}

/// A mock MQTT client for testing purposes.
///
/// Published messages are stored; published and simulated incoming messages
/// are handed to the channels registered by subscriptions on the same topic
/// (exact match, no wildcards), each copy carrying the subscription's
/// identifier. No broker is involved.
pub struct MockClient {
    client_id: String,
    last_will: Option<MqttMessage>,
    state: MqttConnectionState,
    state_tx: tokio::sync::watch::Sender<MqttConnectionState>,
    state_rx: tokio::sync::watch::Receiver<MqttConnectionState>,
    published_messages: Vec<MqttMessage>,
    subscriptions: Vec<Subscription>,
    next_subscription_id: i32,
    handed_out: Ghost<Seq<Handover>>,
    states_sent: Ghost<Seq<StateHandover>>,
}

impl View for MockClient {
    type V = MockClientView;

    closed spec fn view(&self) -> MockClientView {
        MockClientView {
            client_id: self.client_id@,
            last_will: match self.last_will {
                Some(m) => Some(m@),
                None => None,
            },
            state: self.state,
            published: message_views(self.published_messages@),
            subscriptions: subscription_views(self.subscriptions@),
            next_subscription_id: self.next_subscription_id,
            state_sender: self.state_tx,
            state_receiver: self.state_rx,
            handed_out: self.handed_out@,
            states_sent: self.states_sent@,
        }
    }
}

impl MockClient {
    /// Create a new MockClient with the given client ID; it starts
    /// disconnected (the state its channel is created with), with nothing
    /// published and no subscriptions.
    pub fn new(client_id: &str) -> (c: Self)
        ensures
            c@ == (MockClientView {
                client_id: client_id@,
                last_will: None,
                state: MqttConnectionState::Disconnected,
                published: Seq::empty(),
                subscriptions: Seq::empty(),
                next_subscription_id: 1,
                handed_out: Seq::empty(),
                states_sent: seq![(c@.state_sender, MqttConnectionState::Disconnected)],
                ..c@
            }),
            state_channel_agrees(c@),
            state_sender_of(c@.state_receiver) == c@.state_sender,
    {
        let (state_tx, state_rx, first) = state_channel(MqttConnectionState::Disconnected);
        let states_sent: Ghost<Seq<StateHandover>> = Ghost(Seq::empty().push((state_tx, first@)));
        let c = MockClient {
            client_id: String::from_str(client_id),
            last_will: None,
            state: MqttConnectionState::Disconnected,
            state_tx,
            state_rx,
            published_messages: Vec::new(),
            subscriptions: Vec::new(),
            next_subscription_id: 1,
            handed_out: Ghost(Seq::empty()),
            states_sent,
        };
        assert(c@.published =~= Seq::<MessageView>::empty());
        assert(c@.subscriptions =~= Seq::empty());
        c
    }

    /// Create a new MockClient with the client ID `mock-client`.
    pub fn new_default() -> (c: Self)
        ensures
            c@ == (MockClientView {
                client_id: "mock-client"@,
                last_will: None,
                state: MqttConnectionState::Disconnected,
                published: Seq::empty(),
                subscriptions: Seq::empty(),
                next_subscription_id: 1,
                handed_out: Seq::empty(),
                states_sent: seq![(c@.state_sender, MqttConnectionState::Disconnected)],
                ..c@
            }),
            state_channel_agrees(c@),
            state_sender_of(c@.state_receiver) == c@.state_sender,
    {
        Self::new("mock-client")
    }

    /// Get the last published message, if any.
    pub fn last_published_message(&self) -> (r: Option<MqttMessage>)
        ensures
            self@.published.len() == 0 ==> r is None,
            self@.published.len() > 0 ==> (r matches Some(m) && m@ == self@.published.last()),
    {
        let n = self.published_messages.len();
        if n == 0 {
            None
        } else {
            Some(self.published_messages[n - 1].clone())
        }
    }

    /// Get all published messages, oldest first.
    pub fn published_messages(&self) -> (r: Vec<MqttMessage>)
        ensures
            message_views(r@) == self@.published,
    {
        let mut out: Vec<MqttMessage> = Vec::new();
        let n = self.published_messages.len();
        let mut i: usize = 0;
        while i < n
            invariant
                n == self.published_messages@.len(),
                i <= n,
                out@.len() == i,
                forall|k: int| 0 <= k < i ==> #[trigger] out@[k]@ == self.published_messages@[k]@,
            decreases n - i,
        {
            let m = self.published_messages[i].clone();
            out.push(m);
            i = i + 1;
        }
        assert(message_views(out@) =~= message_views(self.published_messages@));
        out
    }

    /// Clear all published messages.
    pub fn clear_published_messages(&mut self)
        ensures
            final(self)@ == (MockClientView { published: Seq::empty(), ..old(self)@ }),
    {
        self.published_messages = Vec::new();
        assert(final(self)@.published =~= Seq::<MessageView>::empty());
    }

    /// The deliveries that a message makes on this client's subscriptions: for
    /// each subscription on the message's topic, in subscription order, its
    /// position and the message carrying its identifier (see [`delivered`]).
    pub fn delivery_plan(&self, message: &MqttMessage) -> (plan: Vec<(usize, MqttMessage)>)
        ensures
            plan_view(plan@) == deliveries(self@.subscriptions, message@),
    {
        let ghost subs = subscription_views(self.subscriptions@);
        let n = self.subscriptions.len();
        let mut plan: Vec<(usize, MqttMessage)> = Vec::new();
        let mut i: usize = 0;
        while i < n
            invariant
                n == self.subscriptions@.len(),
                subs == subscription_views(self.subscriptions@),
                i <= n,
                plan_view(plan@) == deliveries(subs.take(i as int), message@),
            decreases n - i,
        {
            proof {
                assert(subs.take(i + 1).drop_last() =~= subs.take(i as int));
                assert(subs.take(i + 1).last() == subs[i as int]);
            }
            if self.subscriptions[i].0 == message.topic {
                let ghost before = plan@;
                let m = delivered(message, self.subscriptions[i].2);
                plan.push((i, m));
                proof {
                    assert(plan_view(plan@) =~= plan_view(before).push((i as int, m@)));
                }
            }
            i = i + 1;
        }
        assert(subs.take(n as int) =~= subs);
        plan
    }

    /// Simulate receiving a message: every subscription whose topic equals the
    /// message's topic is handed, in subscription order, the message carrying
    /// that subscription's identifier (the deliveries of
    /// [`MockClient::delivery_plan`]), and the number of those subscriptions is
    /// returned. A channel whose receivers are all gone stops the delivery with
    /// an error; what was handed over until then, that send included, stays.
    pub fn simulate_receive(&mut self, message: MqttMessage) -> (r: Result<usize, MqttError>)
        ensures
            r matches Ok(n) ==> {
                &&& n == count_on_topic(old(self)@.subscriptions, message.topic@)
                &&& final(self)@ == (MockClientView {
                    handed_out: old(self)@.handed_out + handovers(old(self)@.subscriptions, message@),
                    ..old(self)@
                })
            },
            r matches Err(e) ==> {
                let k = final(self)@.handed_out.len() - old(self)@.handed_out.len();
                &&& count_on_topic(old(self)@.subscriptions, message.topic@) > 0
                &&& e matches MqttError::Other(s)
                &&& s@ == "Failed to send message to subscription: "@ + "channel closed"@
                &&& 0 < k <= handovers(old(self)@.subscriptions, message@).len()
                &&& final(self)@ == (MockClientView {
                    handed_out: old(self)@.handed_out + handovers(old(self)@.subscriptions, message@).take(k),
                    ..old(self)@
                })
            },
    {
        let plan = self.delivery_plan(&message);
        let total = plan.len();
        let ghost subs = subscription_views(self.subscriptions@);
        let ghost hs = handovers(subs, message@);
        proof {
            lemma_deliveries_shape(subs, message@);
            lemma_plan_positions(plan@, subs, message@);
            assert(hs.take(0) =~= Seq::<Handover>::empty());
            assert(self.handed_out@ + hs.take(0) =~= self.handed_out@);
        }
        let ghost mut log = self.handed_out@;
        let mut sent: usize = 0;
        while sent < total
            invariant
                total == plan@.len(),
                total == hs.len(),
                total == count_on_topic(subs, message.topic@),
                sent <= total,
                subs == subscription_views(self.subscriptions@),
                hs == handovers(subs, message@),
                plan_view(plan@) == deliveries(subs, message@),
                forall|k: int| 0 <= k < total ==> (#[trigger] plan@[k]).0 < self.subscriptions@.len(),
                log == self.handed_out@ + hs.take(sent as int),
                *self == *old(self),
            decreases total - sent,
        {
            let idx = plan[sent].0;
            let (res, handed) = broadcast_message(&self.subscriptions[idx].1, plan[sent].1.clone());
            proof {
                lemma_handover_at(plan@, subs, message@, sent as int);
                assert(subs[idx as int].1 == self.subscriptions@[idx as int].1);
                assert(hs[sent as int] == handed@);
                assert(hs.take(sent + 1) =~= hs.take(sent as int).push(hs[sent as int]));
                assert(self.handed_out@ + hs.take(sent + 1) =~= (self.handed_out@ + hs.take(
                    sent as int,
                )).push(handed@));
                log = log.push(handed@);
            }
            match res {
                Ok(_) => {
                    sent = sent + 1;
                },
                Err(e) => {
                    self.handed_out = Ghost(log);
                    let mut text = String::from_str("Failed to send message to subscription: ");
                    text.append(e.as_str());
                    return Err(MqttError::Other(text));
                },
            }
        }
        proof {
            assert(hs.take(total as int) =~= hs);
        }
        self.handed_out = Ghost(log);
        Ok(sent)
    }
}

impl MockClient {
    /// Set the connection state: it is recorded and handed to the client's
    /// state channel, so receivers from [`MockClient::get_state`] see it.
    pub fn set_connection_state(&mut self, state: MqttConnectionState) -> (r: Result<(), MqttError>)
        ensures
            r is Ok,
            final(self)@ == (MockClientView {
                state,
                states_sent: old(self)@.states_sent.push((old(self)@.state_sender, state)),
                ..old(self)@
            }),
    {
        let handed = replace_state(&self.state_tx, state);
        self.state = state;
        self.states_sent = Ghost(self.states_sent@.push(handed@));
        Ok(())
    }

    /// Connect: the state passes through `Connecting` to `Connected`. No
    /// broker is contacted, so the URI is not used.
    pub fn connect(&mut self, uri: String) -> (r: Result<(), MqttError>)
        ensures
            r is Ok,
            final(self)@ == (MockClientView {
                state: MqttConnectionState::Connected,
                states_sent: old(self)@.states_sent.push((old(self)@.state_sender, MqttConnectionState::Connecting)).push((old(self)@.state_sender, MqttConnectionState::Connected)),
                ..old(self)@
            }),
    {
        self.set_connection_state(MqttConnectionState::Connecting)?;
        self.set_connection_state(MqttConnectionState::Connected)?;
        Ok(())
    }

    /// Set the Last Will message.
    pub fn set_last_will(&mut self, message: MqttMessage)
        ensures
            final(self)@ == (MockClientView { last_will: Some(message@), ..old(self)@ }),
    {
        self.last_will = Some(message);
    }

    /// The Last Will message, if one was set.
    pub fn last_will(&self) -> (r: &Option<MqttMessage>)
        ensures
            match *r {
                Some(m) => self@.last_will == Some(m@),
                None => self@.last_will is None,
            },
    {
        &self.last_will
    }

    /// Get the client ID.
    pub fn get_client_id(&self) -> (id: String)
        ensures
            id@ == self@.client_id,
    {
        self.client_id.clone()
    }

    /// Get a receiver for monitoring the connection state.
    /// It is a clone of the client's own receiver, on the channel that
    /// [`MockClient::set_connection_state`] sends each new state through.
    pub fn get_state(&self) -> (rx: tokio::sync::watch::Receiver<MqttConnectionState>)
        ensures
            rx == self@.state_receiver,
    {
        clone_state_receiver(&self.state_rx)
    }

    /// The current connection state.
    pub fn connection_state(&self) -> (s: MqttConnectionState)
        ensures
            s == self@.state,
    {
        self.state
    }

    /// Subscribe to a topic: the channel is registered for the topic under
    /// the next identifier, which is returned; identifiers count up 1, 2, 3, ...
    /// and are never handed out again. The QoS level is not used.
    pub fn subscribe(
        &mut self,
        topic: String,
        qos: QoS,
        tx: tokio::sync::broadcast::Sender<MqttMessage>,
    ) -> (r: Result<i32, MqttError>)
        ensures
            r == Ok::<i32, MqttError>(old(self)@.next_subscription_id),
            final(self)@ == (MockClientView {
                subscriptions: old(self)@.subscriptions.push((topic@, tx, old(self)@.next_subscription_id)),
                next_subscription_id: following_id(old(self)@.next_subscription_id),
                ..old(self)@
            }),
    {
        let subscription_id = self.next_subscription_id;
        self.next_subscription_id = subscription_id.wrapping_add(1);
        self.subscriptions.push((topic, tx, subscription_id));
        assert(final(self)@.subscriptions =~= old(self)@.subscriptions.push(
            (topic@, tx, old(self)@.next_subscription_id),
        ));
        Ok(subscription_id)
    }

    /// Unsubscribe from a topic: every subscription on exactly that topic is
    /// dropped, and the others keep their order.
    pub fn unsubscribe(&mut self, topic: String) -> (r: Result<(), MqttError>)
        ensures
            r is Ok,
            final(self)@ == (MockClientView {
                subscriptions: without_topic(old(self)@.subscriptions, topic@),
                ..old(self)@
            }),
    {
        let ghost all = subscription_views(self.subscriptions@);
        let mut i: usize = 0;
        let ghost mut j: int = 0;
        while i < self.subscriptions.len()
            invariant
                0 <= j <= all.len(),
                i <= self.subscriptions@.len(),
                subscription_views(self.subscriptions@) =~= without_topic(all.take(j), topic@)
                    + all.skip(j),
                i == without_topic(all.take(j), topic@).len(),
                self.client_id == old(self).client_id,
                self.last_will == old(self).last_will,
                self.state == old(self).state,
                self.published_messages == old(self).published_messages,
                self.next_subscription_id == old(self).next_subscription_id,
                self.state_tx == old(self).state_tx,
                self.state_rx == old(self).state_rx,
                self.handed_out == old(self).handed_out,
                self.states_sent == old(self).states_sent,
            decreases all.len() - j,
        {
            proof {
                assert(all.take(j + 1).drop_last() =~= all.take(j));
                assert(all.skip(j)[0] == all[j]);
                assert(subscription_views(self.subscriptions@)[i as int] == all[j]);
            }
            if self.subscriptions[i].0 == topic {
                let ghost before = subscription_views(self.subscriptions@);
                self.subscriptions.remove(i);
                proof {
                    assert(all.take(j + 1).last() == all[j]);
                    assert(without_topic(all.take(j + 1), topic@) == without_topic(all.take(j), topic@));
                    assert(subscription_views(self.subscriptions@) =~= before.remove(i as int));
                    assert(all.skip(j + 1) =~= all.skip(j).drop_first());
                    assert(subscription_views(self.subscriptions@) =~= without_topic(all.take(j + 1), topic@)
                        + all.skip(j + 1));
                    j = j + 1;
                }
            } else {
                i = i + 1;
                proof {
                    assert(all.take(j + 1).last() == all[j]);
                    assert(without_topic(all.take(j + 1), topic@) == without_topic(all.take(j), topic@).push(all[j]));
                    assert(all.skip(j + 1) =~= all.skip(j).drop_first());
                    assert(subscription_views(self.subscriptions@) =~= without_topic(all.take(j + 1), topic@)
                        + all.skip(j + 1));
                    j = j + 1;
                }
            }
        }
        proof {
            assert(j == all.len());
            assert(all.take(j) =~= all);
            assert(subscription_views(self.subscriptions@) =~= without_topic(all, topic@));
        }
        Ok(())
    }

    /// Disconnect: the state passes through `Disconnecting` to `Disconnected`.
    pub fn disconnect(&mut self) -> (r: Result<(), MqttError>)
        ensures
            r is Ok,
            final(self)@ == (MockClientView {
                state: MqttConnectionState::Disconnected,
                states_sent: old(self)@.states_sent.push((old(self)@.state_sender, MqttConnectionState::Disconnecting)).push((old(self)@.state_sender, MqttConnectionState::Disconnected)),
                ..old(self)@
            }),
    {
        self.set_connection_state(MqttConnectionState::Disconnecting)?;
        self.set_connection_state(MqttConnectionState::Disconnected)?;
        Ok(())
    }

    /// Hands the message, carrying each subscription's identifier, to every
    /// subscription on its topic, in subscription order, as a broker would (the
    /// deliveries of [`MockClient::delivery_plan`]); channels whose receivers
    /// are all gone are passed over.
    fn route(&mut self, message: &MqttMessage)
        ensures
            final(self)@ == (MockClientView {
                handed_out: old(self)@.handed_out + handovers(old(self)@.subscriptions, message@),
                ..old(self)@
            }),
    {
        let plan = self.delivery_plan(message);
        let total = plan.len();
        let ghost subs = subscription_views(self.subscriptions@);
        let ghost hs = handovers(subs, message@);
        proof {
            lemma_deliveries_shape(subs, message@);
            lemma_plan_positions(plan@, subs, message@);
            assert(self.handed_out@ + hs.take(0) =~= self.handed_out@);
        }
        let ghost mut log = self.handed_out@;
        let mut k: usize = 0;
        while k < total
            invariant
                total == plan@.len(),
                total == hs.len(),
                k <= total,
                subs == subscription_views(self.subscriptions@),
                hs == handovers(subs, message@),
                plan_view(plan@) == deliveries(subs, message@),
                forall|j: int| 0 <= j < total ==> (#[trigger] plan@[j]).0 < self.subscriptions@.len(),
                log == self.handed_out@ + hs.take(k as int),
                *self == *old(self),
            decreases total - k,
        {
            let idx = plan[k].0;
            let (_, handed) = broadcast_message(&self.subscriptions[idx].1, plan[k].1.clone());
            proof {
                lemma_handover_at(plan@, subs, message@, k as int);
                assert(subs[idx as int].1 == self.subscriptions@[idx as int].1);
                assert(hs[k as int] == handed@);
                assert(self.handed_out@ + hs.take(k + 1) =~= (self.handed_out@ + hs.take(k as int)).push(
                    handed@,
                ));
                log = log.push(handed@);
            }
            k = k + 1;
        }
        proof {
            assert(hs.take(total as int) =~= hs);
        }
        self.handed_out = Ghost(log);
    }

    /// Publish a message: it is handed to the subscriptions on its topic, each
    /// copy carrying the subscription's identifier (channels without receivers
    /// are passed over), stored, and the confirmation that its QoS level stands
    /// for is returned.
    pub fn publish(&mut self, message: MqttMessage) -> (r: Result<MqttPublishSuccess, MqttError>)
        ensures
            r == Ok::<MqttPublishSuccess, MqttError>(success_for_qos(message.qos)),
            final(self)@ == (MockClientView {
                published: old(self)@.published.push(message@),
                handed_out: old(self)@.handed_out + handovers(old(self)@.subscriptions, message@),
                ..old(self)@
            }),
    {
        let success = publish_success_for(message.qos);
        self.route(&message);
        self.published_messages.push(message);
        assert(final(self)@.published =~= old(self)@.published.push(message@));
        Ok(success)
    }

    /// Publish a message without waiting: it is handed to the subscriptions on
    /// its topic as [`MockClient::publish`] does, stored, and reported queued.
    pub fn nowait_publish(&mut self, message: MqttMessage) -> (r: Result<MqttPublishSuccess, MqttError>)
        ensures
            r == Ok::<MqttPublishSuccess, MqttError>(MqttPublishSuccess::Queued),
            final(self)@ == (MockClientView {
                published: old(self)@.published.push(message@),
                handed_out: old(self)@.handed_out + handovers(old(self)@.subscriptions, message@),
                ..old(self)@
            }),
    {
        self.route(&message);
        self.published_messages.push(message);
        assert(final(self)@.published =~= old(self)@.published.push(message@));
        Ok(MqttPublishSuccess::Queued)
    }

    /// Start the event loop; the mock has none, so nothing changes.
    pub fn start(&mut self) -> (r: Result<(), MqttError>)
        ensures
            r is Ok,
            final(self)@ == old(self)@,
    {
        Ok(())
    }

    /// Cleanly stop the client: the state becomes `Disconnected`.
    pub fn clean_stop(&mut self) -> (r: Result<(), MqttError>)
        ensures
            r is Ok,
            final(self)@ == (MockClientView {
                state: MqttConnectionState::Disconnected,
                states_sent: old(self)@.states_sent.push((old(self)@.state_sender, MqttConnectionState::Disconnected)),
                ..old(self)@
            }),
    {
        self.set_connection_state(MqttConnectionState::Disconnected)?;
        Ok(())
    }

    /// Force stop the client: the state becomes `Disconnected`.
    pub fn force_stop(&mut self) -> (r: Result<(), MqttError>)
        ensures
            r is Ok,
            final(self)@ == (MockClientView {
                state: MqttConnectionState::Disconnected,
                states_sent: old(self)@.states_sent.push((old(self)@.state_sender, MqttConnectionState::Disconnected)),
                ..old(self)@
            }),
    {
        self.set_connection_state(MqttConnectionState::Disconnected)?;
        Ok(())
    }

    /// Reconnect: the state passes through `Disconnecting`, `Disconnected` and
    /// `Connecting` to `Connected`. The session flag is not used.
    pub fn reconnect(&mut self, clean_start: bool) -> (r: Result<(), MqttError>)
        ensures
            r is Ok,
            final(self)@ == (MockClientView {
                state: MqttConnectionState::Connected,
                states_sent: old(self)@.states_sent.push((old(self)@.state_sender, MqttConnectionState::Disconnecting)).push((old(self)@.state_sender, MqttConnectionState::Disconnected)).push((old(self)@.state_sender, MqttConnectionState::Connecting)).push((old(self)@.state_sender, MqttConnectionState::Connected)),
                ..old(self)@
            }),
    {
        self.set_connection_state(MqttConnectionState::Disconnecting)?;
        self.set_connection_state(MqttConnectionState::Disconnected)?;
        self.set_connection_state(MqttConnectionState::Connecting)?;
        self.set_connection_state(MqttConnectionState::Connected)?;
        Ok(())
    }
}

/// Read after write: once a message is published (waiting or not), it is the
/// last published message.
pub proof fn law_last_published_is_latest(before: MockClientView, message: MessageView)
    ensures
        (MockClientView { published: before.published.push(message), ..before }).published.last()
            == message,
{
}

/// Clearing forgets every published message, so no last one remains.
pub proof fn law_clear_forgets_all(before: MockClientView)
    ensures
        (MockClientView { published: Seq::empty(), ..before }).published.len() == 0,
{
}

/// A new subscription on a topic receives the messages simulated on it: the
/// number of deliveries for that topic grows by one.
pub proof fn law_subscribe_adds_delivery(
    subs: Seq<SubscriptionView>,
    topic: Seq<char>,
    tx: tokio::sync::broadcast::Sender<MqttMessage>,
    id: i32,
)
    ensures
        count_on_topic(subs.push((topic, tx, id)), topic) == count_on_topic(subs, topic) + 1,
{
    assert(subs.push((topic, tx, id)).drop_last() =~= subs);
}

/// A subscription on another topic leaves the deliveries for a topic as they
/// were.
pub proof fn law_subscribe_elsewhere_changes_nothing(
    subs: Seq<SubscriptionView>,
    topic: Seq<char>,
    other: Seq<char>,
    tx: tokio::sync::broadcast::Sender<MqttMessage>,
    id: i32,
)
    requires
        other != topic,
    ensures
        count_on_topic(subs.push((other, tx, id)), topic) == count_on_topic(subs, topic),
{
    assert(subs.push((other, tx, id)).drop_last() =~= subs);
}

/// After unsubscribing from a topic, messages simulated on it reach nobody.
pub proof fn law_unsubscribe_stops_delivery(
    subs: Seq<SubscriptionView>,
    topic: Seq<char>,
)
    ensures
        count_on_topic(without_topic(subs, topic), topic) == 0,
    decreases subs.len(),
{
    if subs.len() > 0 {
        law_unsubscribe_stops_delivery(subs.drop_last(), topic);
        if subs.last().0 != topic {
            let rest = without_topic(subs.drop_last(), topic);
            assert(rest.push(subs.last()).drop_last() =~= rest);
        }
    }
}

/// Unsubscribing from one topic leaves the deliveries for every other topic as
/// they were.
pub proof fn law_unsubscribe_keeps_other_topics(
    subs: Seq<SubscriptionView>,
    topic: Seq<char>,
    other: Seq<char>,
)
    requires
        other != topic,
    ensures
        count_on_topic(without_topic(subs, topic), other) == count_on_topic(subs, other),
    decreases subs.len(),
{
    if subs.len() > 0 {
        law_unsubscribe_keeps_other_topics(subs.drop_last(), topic, other);
        if subs.last().0 != topic {
            let rest = without_topic(subs.drop_last(), topic);
            assert(rest.push(subs.last()).drop_last() =~= rest);
        }
    }
}

/// Subscription identifiers count up: while below `i32::MAX`, the identifier
/// after `id` is `id + 1`, so a new client hands out 1, 2, 3, ...
pub proof fn law_subscription_ids_count_up(id: i32)
    requires
        id < i32::MAX,
    ensures
        following_id(id) == id + 1,
{
}

/// Every message on a topic reaches each subscription on that topic, and only
/// those, in subscription order, carrying that subscription's identifier: the
/// deliveries are as many as the subscriptions on the topic, and each names a
/// subscription on the topic and hands it the message with its identifier.
pub proof fn law_deliveries_carry_subscription_ids(subs: Seq<SubscriptionView>, message: MessageView)
    ensures
        deliveries(subs, message).len() == count_on_topic(subs, message.topic),
        forall|k: int| #![trigger deliveries(subs, message)[k]]
            0 <= k < deliveries(subs, message).len() ==> {
                let (i, m) = deliveries(subs, message)[k];
                &&& 0 <= i < subs.len()
                &&& subs[i].0 == message.topic
                &&& m == delivered_view(message, subs[i].2)
            },
        forall|k: int, l: int| #![trigger deliveries(subs, message)[k], deliveries(subs, message)[l]]
            0 <= k < l < deliveries(subs, message).len() ==> deliveries(subs, message)[k].0
                < deliveries(subs, message)[l].0,
    decreases subs.len(),
{
    if subs.len() > 0 {
        let rest = subs.drop_last();
        law_deliveries_carry_subscription_ids(rest, message);
        assert forall|k: int| 0 <= k < deliveries(rest, message).len() implies
            #[trigger] subs[deliveries(rest, message)[k].0] == rest[deliveries(rest, message)[k].0] by {}
    }
}

/// At each step, the plan hands the subscription it names the message it
/// holds, which is the matching handover.
proof fn lemma_handover_at(
    plan: Seq<(usize, MqttMessage)>,
    subs: Seq<SubscriptionView>,
    message: MessageView,
    k: int,
)
    requires
        plan_view(plan) == deliveries(subs, message),
        0 <= k < plan.len(),
    ensures
        handovers(subs, message)[k] == (subs[plan[k].0 as int].1, plan[k].1@),
{
    assert(plan_view(plan)[k] == (plan[k].0 as int, plan[k].1@));
}

/// The state channel keeps agreeing with the recorded state: handing a state to
/// the client's own channel while recording it leaves the two in agreement.
pub proof fn law_state_channel_agrees(before: MockClientView, state: MqttConnectionState)
    ensures
        state_channel_agrees(
            MockClientView {
                state,
                states_sent: before.states_sent.push((before.state_sender, state)),
                ..before
            },
        ),
{
}

/// A subscriber receives the message as it was sent, with one difference: the
/// copy carries the subscription's identifier. Topic, QoS level, retain flag,
/// payload and every MQTT 5.0 property (content type, correlation data,
/// response topic, user properties) are passed on unchanged, so a
/// request/response subscriber can reply.
pub proof fn law_delivered_copy_keeps_the_message(message: MessageView, sub_id: i32)
    ensures
        delivered_view(message, sub_id).topic == message.topic,
        delivered_view(message, sub_id).qos == message.qos,
        delivered_view(message, sub_id).retain == message.retain,
        delivered_view(message, sub_id).payload == message.payload,
        delivered_view(message, sub_id).content_type == message.content_type,
        delivered_view(message, sub_id).subscription_id == Some(sub_id),
        delivered_view(message, sub_id).correlation_data == message.correlation_data,
        delivered_view(message, sub_id).response_topic == message.response_topic,
        delivered_view(message, sub_id).user_properties == message.user_properties,
{
}

/// Every message handed to a subscriber is the sent message with the
/// subscription's identifier: each handover of a message goes to the channel
/// of a subscription on its topic, and carries every field of the message
/// unchanged but for that subscription's identifier.
pub proof fn law_handovers_keep_the_message(subs: Seq<SubscriptionView>, message: MessageView, k: int)
    requires
        0 <= k < handovers(subs, message).len(),
    ensures
        exists|i: int| #![trigger subs[i]]
            0 <= i < subs.len() && subs[i].0 == message.topic && handovers(subs, message)[k] == (
            subs[i].1,
            MessageView { subscription_id: Some(subs[i].2), ..message },
        ),
        handovers(subs, message)[k].1.response_topic == message.response_topic,
        handovers(subs, message)[k].1.correlation_data == message.correlation_data,
        handovers(subs, message)[k].1.content_type == message.content_type,
        handovers(subs, message)[k].1.user_properties == message.user_properties,
        handovers(subs, message)[k].1.payload == message.payload,
{
    law_deliveries_carry_subscription_ids(subs, message);
    let d = deliveries(subs, message)[k];
    assert(handovers(subs, message)[k] == (subs[d.0].1, d.1));
    assert(subs[d.0].0 == message.topic);
}

/// A receiver from [`MockClient::get_state`] reads the client's state: it
/// listens on the client's own channel, and the last state handed to that
/// channel is the recorded state.
pub proof fn law_get_state_reads_recorded_state(
    v: MockClientView,
    rx: tokio::sync::watch::Receiver<MqttConnectionState>,
)
    requires
        state_sender_of(v.state_receiver) == v.state_sender,
        state_channel_agrees(v),
        rx == v.state_receiver,
    ensures
        v.states_sent.last() == (state_sender_of(rx), v.state),
{
}

/// The deliveries are as many as the subscriptions on the topic, and each
/// names a subscription that exists.
proof fn lemma_deliveries_shape(subs: Seq<SubscriptionView>, message: MessageView)
    ensures
        deliveries(subs, message).len() == count_on_topic(subs, message.topic),
        forall|k: int| 0 <= k < deliveries(subs, message).len() ==> 0 <= (
        #[trigger] deliveries(subs, message)[k]).0 < subs.len(),
{
    law_deliveries_carry_subscription_ids(subs, message);
}

/// A plan that matches the deliveries names, at each step, a subscription that
/// exists.
proof fn lemma_plan_positions(
    plan: Seq<(usize, MqttMessage)>,
    subs: Seq<SubscriptionView>,
    message: MessageView,
)
    requires
        plan_view(plan) == deliveries(subs, message),
        forall|k: int| 0 <= k < deliveries(subs, message).len() ==> 0 <= (
        #[trigger] deliveries(subs, message)[k]).0 < subs.len(),
    ensures
        plan.len() == deliveries(subs, message).len(),
        forall|k: int| 0 <= k < plan.len() ==> (#[trigger] plan[k]).0 < subs.len(),
{
    assert forall|k: int| 0 <= k < plan.len() implies (#[trigger] plan[k]).0 < subs.len() by {
        assert(plan_view(plan)[k] == (plan[k].0 as int, plan[k].1@));
    }
}

} // verus!
