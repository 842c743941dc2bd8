//! Declarations of the outside types this library carries, and the trusted
//! wrappers through which it calls into the `bytes`, `tokio` and `chrono`
//! crates. Every item here is believed by the verifier, not proved.

use vstd::prelude::*;

use crate::error::MqttConnectionState;
use crate::message::{MessageView, MqttMessage};

verus! {

/// `bytes::Bytes`, an immutable, cheaply cloneable byte buffer.
#[verifier::external_type_specification]
#[verifier::external_body]
pub struct ExBytes(bytes::Bytes);

/// The sequence of bytes that a `bytes::Bytes` buffer holds.
pub uninterp spec fn bytes_view(b: bytes::Bytes) -> Seq<u8>;

/// Wraps `<bytes::Bytes as From<Vec<u8>>>::from`: the buffer takes over the
/// vector and holds exactly its bytes.
#[verifier::external_body]
pub(crate) fn bytes_from_vec(v: Vec<u8>) -> (b: bytes::Bytes)
    ensures
        bytes_view(b) == v@,
{
    bytes::Bytes::from(v)
}

/// Wraps `<bytes::Bytes as Clone>::clone`: the clone refers to the same bytes.
#[verifier::external_body]
pub(crate) fn bytes_clone(b: &bytes::Bytes) -> (c: bytes::Bytes)
    ensures
        bytes_view(c) == bytes_view(*b),
{
    b.clone()
}

/// `serde_json::Error`, the error type of JSON serialization, named in the
/// signature of `OnlineData::as_json_bytes`.
#[verifier::external_type_specification]
#[verifier::external_body]
pub struct ExJsonError(serde_json::Error);

/// The bytes of the JSON string literal that serde_json writes for a text:
/// the text between quotes, with the escapes that JSON requires.
pub uninterp spec fn json_quoted(s: Seq<char>) -> Seq<u8>;

/// Wraps `serde_json::to_vec` on a `str`. The result is named, not stated. It
/// is always `Ok`: serializing a `str` fails only when writing fails
/// (`serialize_str` maps nothing but I/O errors), and the writer is a `Vec`,
/// whose `io::Write` implementation only appends.
#[verifier::external_body]
pub(crate) fn json_string_bytes(s: &str) -> (r: Result<Vec<u8>, serde_json::Error>)
    ensures
        r is Ok,
        r is Ok ==> r->Ok_0@ == json_quoted(s@),
{
    serde_json::to_vec(s)
}

/// The RFC 3339 text, with `Z` for UTC and as many fractional digits as the
/// nanoseconds need (`SecondsFormat::AutoSi`), of the instant `secs` seconds and
/// `nanos` nanoseconds after the Unix epoch, or `None` where chrono cannot
/// represent that instant.
pub uninterp spec fn rfc3339_of(secs: i64, nanos: u32) -> Option<Seq<char>>;

/// Wraps `chrono::DateTime::<Utc>::from_timestamp` followed by
/// `DateTime::to_rfc3339_opts(SecondsFormat::AutoSi, true)`, the format in which
/// chrono serializes a `DateTime<Utc>`. The result is named, not stated.
#[verifier::external_body]
pub(crate) fn rfc3339_utc(secs: i64, nanos: u32) -> (r: Option<String>)
    ensures
        match r {
            Some(s) => rfc3339_of(secs, nanos) == Some(s@),
            None => rfc3339_of(secs, nanos) is None,
        },
{
    chrono::DateTime::from_timestamp(secs, nanos).map(
        |d| d.to_rfc3339_opts(chrono::SecondsFormat::AutoSi, true),
    )
}

/// Wraps `std::time::SystemTime::now`, converted by chrono's
/// `From<SystemTime> for DateTime<Utc>` (which also takes instants before the
/// Unix epoch) and read as whole seconds and sub-second nanoseconds since the
/// epoch. The instant itself is the clock's and is not stated. chrono documents
/// that `from_timestamp` gives back any `DateTime` from these two parts, so the
/// instant can be formatted; and the conversion builds its value with
/// `timestamp_opt(sec, nsec)` where `nsec` is a `Duration`'s sub-second
/// nanoseconds (below one billion, as std documents) or one billion minus
/// them, which `timestamp_subsec_nanos` hands back unchanged.
#[verifier::external_body]
pub(crate) fn utc_now() -> (r: (i64, u32))
    ensures
        rfc3339_of(r.0, r.1) is Some,
        r.1 < 1_000_000_000,
{
    let now: chrono::DateTime<chrono::Utc> = std::time::SystemTime::now().into();
    (now.timestamp(), now.timestamp_subsec_nanos())
}

/// `tokio::sync::watch::Sender`, the sending half of a single-value channel.
#[verifier::external_type_specification]
#[verifier::external_body]
#[verifier::reject_recursive_types(T)]
pub struct ExWatchSender<T>(tokio::sync::watch::Sender<T>);

/// `tokio::sync::watch::Receiver`, a receiving half of a single-value channel.
#[verifier::external_type_specification]
#[verifier::external_body]
#[verifier::reject_recursive_types(T)]
pub struct ExWatchReceiver<T>(tokio::sync::watch::Receiver<T>);

/// `tokio::sync::broadcast::Sender`, the sending half of a broadcast channel.
#[verifier::external_type_specification]
#[verifier::external_body]
#[verifier::reject_recursive_types(T)]
pub struct ExBroadcastSender<T>(tokio::sync::broadcast::Sender<T>);

/// The sender of the watch channel that a receiver listens on.
pub uninterp spec fn state_sender_of(
    rx: tokio::sync::watch::Receiver<MqttConnectionState>,
) -> tokio::sync::watch::Sender<MqttConnectionState>;

/// Wraps `tokio::sync::watch::channel`: a channel whose current value is
/// `init`; the sender and the receiver share one channel, so the receiver
/// listens on the returned sender. The value inside the channel is not visible
/// to the verifier; the third part of the result records, as a ghost value,
/// the state that was handed to the channel.
#[verifier::external_body]
pub(crate) fn state_channel(init: MqttConnectionState) -> (r: (
    tokio::sync::watch::Sender<MqttConnectionState>,
    tokio::sync::watch::Receiver<MqttConnectionState>,
    Ghost<MqttConnectionState>,
))
    ensures
        state_sender_of(r.1) == r.0,
        r.2@ == init,
{
    let handed = Ghost(init);
    let (tx, rx) = tokio::sync::watch::channel(init);
    (tx, rx, handed)
}

/// Wraps `tokio::sync::watch::Sender::send_replace`: stores the state as the
/// channel's current value and notifies the receivers, whether or not any
/// exist; it cannot fail. The previous value it returns is dropped. The result
/// records, as a ghost value, the channel and the state handed to it.
#[verifier::external_body]
pub(crate) fn replace_state(
    tx: &tokio::sync::watch::Sender<MqttConnectionState>,
    state: MqttConnectionState,
) -> (r: Ghost<(tokio::sync::watch::Sender<MqttConnectionState>, MqttConnectionState)>)
    ensures
        r@ == (*tx, state),
{
    let handed = Ghost((*tx, state));
    tx.send_replace(state);
    handed
}

/// Wraps `<tokio::sync::watch::Receiver as Clone>::clone`: another receiver
/// on the same channel. tokio's clone copies the receiver's two fields, the
/// pointer to the shared channel and the version it has seen, so the clone
/// equals the receiver it was made from.
#[verifier::external_body]
pub(crate) fn clone_state_receiver(
    rx: &tokio::sync::watch::Receiver<MqttConnectionState>,
) -> (r: tokio::sync::watch::Receiver<MqttConnectionState>)
    ensures
        r == *rx,
{
    rx.clone()
}

/// Wraps `tokio::sync::broadcast::Sender::send`. Whether it succeeds depends
/// on whether receivers are still alive, which the verifier does not see. On
/// success tokio reports the number of receivers, at least one; on failure the
/// error's text, which tokio's `Display` for `SendError` fixes as
/// `channel closed`. The second part of the result records, as a ghost value,
/// the channel and the message handed to it, whatever the send returned.
#[verifier::external_body]
pub(crate) fn broadcast_message(
    tx: &tokio::sync::broadcast::Sender<MqttMessage>,
    message: MqttMessage,
) -> (r: (Result<usize, String>, Ghost<(tokio::sync::broadcast::Sender<MqttMessage>, MessageView)>))
    ensures
        r.1@ == (*tx, message@),
        r.0 matches Ok(n) ==> n >= 1,
        r.0 matches Err(e) ==> e@ == "channel closed"@,
{
    let handed = Ghost((*tx, message@));
    let sent = match tx.send(message) {
        Ok(n) => Ok(n),
        Err(e) => Err(e.to_string()),
    };
    (sent, handed)
}

} // verus!
