//! Online/offline status ("availability") messages for systems, clients and
//! services.

use vstd::prelude::*;
use vstd::string::*;

use crate::error::MqttError;
use crate::foreign::{rfc3339_of, rfc3339_utc, utc_now};
use crate::json::{has_member, json_bool, json_member, json_string, lemma_member_between, lemma_optional_member_between, optional_member, push_bool_member, push_optional_member, push_string_member};
use crate::message::{opt_text, simple_view, MessageView, MqttMessage, QoS};
use crate::text::{join, join_strings, texts};

verus! {

/// Where a timestamp came from.
#[derive(Debug, Clone, Copy, PartialEq, Eq, Structural)]
pub enum TimeSource {
    /// Given as seconds and nanoseconds since the Unix epoch
    Given,
    /// Read from the clock
    Clock,
    /// Read from the clock by the status update with this number (counted
    /// from 0) of an availability helper
    StatusUpdate(u64),
}

/// An instant in UTC: whole seconds and nanoseconds after the Unix epoch,
/// and where it came from. Only instants that chrono can represent (and so
/// format) are held.
#[derive(Debug, Clone, Copy)]
pub struct Timestamp {
    secs: i64,
    nanos: u32,
    source: TimeSource,
}

impl Timestamp {
    #[verifier::type_invariant]
    spec fn representable(self) -> bool {
        rfc3339_of(self.secs, self.nanos) is Some
    }

    /// Whole seconds since the Unix epoch.
    pub closed spec fn spec_secs(self) -> i64 {
        self.secs
    }

    /// Nanoseconds past the whole second.
    pub closed spec fn spec_nanos(self) -> u32 {
        self.nanos
    }

    /// Where the timestamp came from.
    pub closed spec fn spec_source(self) -> TimeSource {
        self.source
    }

    /// The RFC 3339 text of the instant, as chrono writes it.
    pub closed spec fn text(self) -> Seq<char> {
        rfc3339_of(self.secs, self.nanos)->0
    }

    /// The current time, read from the clock; its nanoseconds are always
    /// below one second (the clock gives no leap-second instants).
    pub fn now() -> (t: Timestamp)
        ensures
            t.spec_nanos() < 1_000_000_000,
            t.spec_source() == TimeSource::Clock,
    {
        let (secs, nanos) = utc_now();
        Timestamp { secs, nanos, source: TimeSource::Clock }
    }

    /// The current time, read from the clock by status update number `n`.
    fn read_for_update(n: u64) -> (t: Timestamp)
        ensures
            t.spec_nanos() < 1_000_000_000,
            t.spec_source() == TimeSource::StatusUpdate(n),
    {
        let (secs, nanos) = utc_now();
        Timestamp { secs, nanos, source: TimeSource::StatusUpdate(n) }
    }

    /// The instant `secs` seconds and `nanos` nanoseconds after the Unix epoch,
    /// or `None` where it cannot be represented.
    pub fn from_unix(secs: i64, nanos: u32) -> (r: Option<Timestamp>)
        ensures
            r is Some <==> rfc3339_of(secs, nanos) is Some,
            r matches Some(t) ==> t.spec_secs() == secs && t.spec_nanos() == nanos
                && t.spec_source() == TimeSource::Given,
    {
        match rfc3339_utc(secs, nanos) {
            Some(_) => Some(Timestamp { secs, nanos, source: TimeSource::Given }),
            None => None,
        }
    }

    /// Whole seconds since the Unix epoch.
    pub fn secs(&self) -> (r: i64)
        ensures
            r == self.spec_secs(),
    {
        self.secs
    }

    /// Nanoseconds past the whole second.
    pub fn nanos(&self) -> (r: u32)
        ensures
            r == self.spec_nanos(),
    {
        self.nanos
    }

    /// Where the timestamp came from.
    pub fn source(&self) -> (r: TimeSource)
        ensures
            r == self.spec_source(),
    {
        self.source
    }

    /// The instant as RFC 3339 text, e.g. `2024-05-01T12:00:00.5Z`.
    pub fn to_rfc3339(&self) -> (s: String)
        ensures
            s@ == self.text(),
    {
        proof {
            use_type_invariant(self);
        }
        match rfc3339_utc(self.secs, self.nanos) {
            Some(s) => s,
            None => {
                assert(false);
                String::new()
            },
        }
    }
}

/// Data carried by online/offline status messages.
#[derive(Debug)]
pub struct OnlineData {
    pub timestamp: Timestamp,
    pub system_id: Option<String>,
    pub system_version: Option<String>,
    pub client_id: Option<String>,
    pub client_version: Option<String>,
    pub service_id: Option<String>,
    pub service_version: Option<String>,
    pub online: bool,
    pub name: Option<String>,
    pub description: Option<String>,
}

fn clone_text(s: &Option<String>) -> (r: Option<String>)
    ensures
        r == *s,
{
    match s {
        Some(t) => Some(t.clone()),
        None => None,
    }
}

impl Clone for OnlineData {
    fn clone(&self) -> (r: Self)
        ensures
            r == *self,
    {
        OnlineData {
            timestamp: self.timestamp,
            system_id: clone_text(&self.system_id),
            system_version: clone_text(&self.system_version),
            client_id: clone_text(&self.client_id),
            client_version: clone_text(&self.client_version),
            service_id: clone_text(&self.service_id),
            service_version: clone_text(&self.service_version),
            online: self.online,
            name: clone_text(&self.name),
            description: clone_text(&self.description),
        }
    }
}

/// The JSON object that represents the data: the timestamp first, then each
/// present identifier or version, the online flag, then the name and the
/// description when present, in that order and without spaces.
pub open spec fn online_json(d: OnlineData) -> Seq<u8> {
    seq![123u8]
        + json_member("timestamp"@, json_string(d.timestamp.text()))
        + optional_member("system_id"@, opt_text(d.system_id))
        + optional_member("system_version"@, opt_text(d.system_version))
        + optional_member("client_id"@, opt_text(d.client_id))
        + optional_member("client_version"@, opt_text(d.client_version))
        + optional_member("service_id"@, opt_text(d.service_id))
        + optional_member("service_version"@, opt_text(d.service_version))
        + seq![44u8] + json_member("online"@, json_bool(d.online))
        + optional_member("name"@, opt_text(d.name))
        + optional_member("description"@, opt_text(d.description))
        + seq![125u8]
}

/// Every field the data holds is in its JSON, under its own key: the
/// timestamp as its RFC 3339 text, the online flag as a boolean, and each
/// present identifier, version, name and description as a string. So, for
/// instance, a service's status message says which service it is about.
pub proof fn law_json_holds_every_present_field(d: OnlineData)
    ensures
        has_member(online_json(d), "timestamp"@, json_string(d.timestamp.text())),
        has_member(online_json(d), "online"@, json_bool(d.online)),
        d.system_id matches Some(v) ==> has_member(online_json(d), "system_id"@, json_string(v@)),
        d.system_version matches Some(v) ==> has_member(online_json(d), "system_version"@, json_string(v@)),
        d.client_id matches Some(v) ==> has_member(online_json(d), "client_id"@, json_string(v@)),
        d.client_version matches Some(v) ==> has_member(online_json(d), "client_version"@, json_string(v@)),
        d.service_id matches Some(v) ==> has_member(online_json(d), "service_id"@, json_string(v@)),
        d.service_version matches Some(v) ==> has_member(online_json(d), "service_version"@, json_string(v@)),
        d.name matches Some(v) ==> has_member(online_json(d), "name"@, json_string(v@)),
        d.description matches Some(v) ==> has_member(online_json(d), "description"@, json_string(v@)),
{
    lemma_json_timestamp(d);
    lemma_json_online(d);
    lemma_json_system_id(d);
    lemma_json_system_version(d);
    lemma_json_client_id(d);
    lemma_json_client_version(d);
    lemma_json_service_id(d);
    lemma_json_service_version(d);
    lemma_json_name(d);
    lemma_json_description(d);
}

/// The JSON holds the timestamp member.
proof fn lemma_json_timestamp(d: OnlineData)
    ensures
        has_member(online_json(d), "timestamp"@, json_string(d.timestamp.text())),
{
    assert(online_json(d) =~= (seq![123u8]) + json_member("timestamp"@, json_string(d.timestamp.text())) + (optional_member("system_id"@, opt_text(d.system_id)) + optional_member("system_version"@, opt_text(d.system_version)) + optional_member("client_id"@, opt_text(d.client_id)) + optional_member("client_version"@, opt_text(d.client_version)) + optional_member("service_id"@, opt_text(d.service_id)) + optional_member("service_version"@, opt_text(d.service_version)) + seq![44u8] + json_member("online"@, json_bool(d.online)) + optional_member("name"@, opt_text(d.name)) + optional_member("description"@, opt_text(d.description)) + seq![125u8]));
    lemma_member_between((seq![123u8]), "timestamp"@, json_string(d.timestamp.text()), (optional_member("system_id"@, opt_text(d.system_id)) + optional_member("system_version"@, opt_text(d.system_version)) + optional_member("client_id"@, opt_text(d.client_id)) + optional_member("client_version"@, opt_text(d.client_version)) + optional_member("service_id"@, opt_text(d.service_id)) + optional_member("service_version"@, opt_text(d.service_version)) + seq![44u8] + json_member("online"@, json_bool(d.online)) + optional_member("name"@, opt_text(d.name)) + optional_member("description"@, opt_text(d.description)) + seq![125u8]));
}

/// The JSON holds the online member.
proof fn lemma_json_online(d: OnlineData)
    ensures
        has_member(online_json(d), "online"@, json_bool(d.online)),
{
    assert(online_json(d) =~= (seq![123u8] + json_member("timestamp"@, json_string(d.timestamp.text())) + optional_member("system_id"@, opt_text(d.system_id)) + optional_member("system_version"@, opt_text(d.system_version)) + optional_member("client_id"@, opt_text(d.client_id)) + optional_member("client_version"@, opt_text(d.client_version)) + optional_member("service_id"@, opt_text(d.service_id)) + optional_member("service_version"@, opt_text(d.service_version)) + seq![44u8]) + json_member("online"@, json_bool(d.online)) + (optional_member("name"@, opt_text(d.name)) + optional_member("description"@, opt_text(d.description)) + seq![125u8]));
    lemma_member_between((seq![123u8] + json_member("timestamp"@, json_string(d.timestamp.text())) + optional_member("system_id"@, opt_text(d.system_id)) + optional_member("system_version"@, opt_text(d.system_version)) + optional_member("client_id"@, opt_text(d.client_id)) + optional_member("client_version"@, opt_text(d.client_version)) + optional_member("service_id"@, opt_text(d.service_id)) + optional_member("service_version"@, opt_text(d.service_version)) + seq![44u8]), "online"@, json_bool(d.online), (optional_member("name"@, opt_text(d.name)) + optional_member("description"@, opt_text(d.description)) + seq![125u8]));
}

/// The JSON holds the `system_id` member when the field is present.
proof fn lemma_json_system_id(d: OnlineData)
    ensures
        d.system_id matches Some(v) ==> has_member(online_json(d), "system_id"@, json_string(v@)),
{
    if let Some(v) = d.system_id {
        assert(online_json(d) =~= (seq![123u8] + json_member("timestamp"@, json_string(d.timestamp.text()))) + optional_member("system_id"@, opt_text(d.system_id)) + (optional_member("system_version"@, opt_text(d.system_version)) + optional_member("client_id"@, opt_text(d.client_id)) + optional_member("client_version"@, opt_text(d.client_version)) + optional_member("service_id"@, opt_text(d.service_id)) + optional_member("service_version"@, opt_text(d.service_version)) + seq![44u8] + json_member("online"@, json_bool(d.online)) + optional_member("name"@, opt_text(d.name)) + optional_member("description"@, opt_text(d.description)) + seq![125u8]));
        lemma_optional_member_between((seq![123u8] + json_member("timestamp"@, json_string(d.timestamp.text()))), "system_id"@, v@, (optional_member("system_version"@, opt_text(d.system_version)) + optional_member("client_id"@, opt_text(d.client_id)) + optional_member("client_version"@, opt_text(d.client_version)) + optional_member("service_id"@, opt_text(d.service_id)) + optional_member("service_version"@, opt_text(d.service_version)) + seq![44u8] + json_member("online"@, json_bool(d.online)) + optional_member("name"@, opt_text(d.name)) + optional_member("description"@, opt_text(d.description)) + seq![125u8]));
    }
}

/// The JSON holds the `system_version` member when the field is present.
proof fn lemma_json_system_version(d: OnlineData)
    ensures
        d.system_version matches Some(v) ==> has_member(online_json(d), "system_version"@, json_string(v@)),
{
    if let Some(v) = d.system_version {
        assert(online_json(d) =~= (seq![123u8] + json_member("timestamp"@, json_string(d.timestamp.text())) + optional_member("system_id"@, opt_text(d.system_id))) + optional_member("system_version"@, opt_text(d.system_version)) + (optional_member("client_id"@, opt_text(d.client_id)) + optional_member("client_version"@, opt_text(d.client_version)) + optional_member("service_id"@, opt_text(d.service_id)) + optional_member("service_version"@, opt_text(d.service_version)) + seq![44u8] + json_member("online"@, json_bool(d.online)) + optional_member("name"@, opt_text(d.name)) + optional_member("description"@, opt_text(d.description)) + seq![125u8]));
        lemma_optional_member_between((seq![123u8] + json_member("timestamp"@, json_string(d.timestamp.text())) + optional_member("system_id"@, opt_text(d.system_id))), "system_version"@, v@, (optional_member("client_id"@, opt_text(d.client_id)) + optional_member("client_version"@, opt_text(d.client_version)) + optional_member("service_id"@, opt_text(d.service_id)) + optional_member("service_version"@, opt_text(d.service_version)) + seq![44u8] + json_member("online"@, json_bool(d.online)) + optional_member("name"@, opt_text(d.name)) + optional_member("description"@, opt_text(d.description)) + seq![125u8]));
    }
}

/// The JSON holds the `client_id` member when the field is present.
proof fn lemma_json_client_id(d: OnlineData)
    ensures
        d.client_id matches Some(v) ==> has_member(online_json(d), "client_id"@, json_string(v@)),
{
    if let Some(v) = d.client_id {
        assert(online_json(d) =~= (seq![123u8] + json_member("timestamp"@, json_string(d.timestamp.text())) + optional_member("system_id"@, opt_text(d.system_id)) + optional_member("system_version"@, opt_text(d.system_version))) + optional_member("client_id"@, opt_text(d.client_id)) + (optional_member("client_version"@, opt_text(d.client_version)) + optional_member("service_id"@, opt_text(d.service_id)) + optional_member("service_version"@, opt_text(d.service_version)) + seq![44u8] + json_member("online"@, json_bool(d.online)) + optional_member("name"@, opt_text(d.name)) + optional_member("description"@, opt_text(d.description)) + seq![125u8]));
        lemma_optional_member_between((seq![123u8] + json_member("timestamp"@, json_string(d.timestamp.text())) + optional_member("system_id"@, opt_text(d.system_id)) + optional_member("system_version"@, opt_text(d.system_version))), "client_id"@, v@, (optional_member("client_version"@, opt_text(d.client_version)) + optional_member("service_id"@, opt_text(d.service_id)) + optional_member("service_version"@, opt_text(d.service_version)) + seq![44u8] + json_member("online"@, json_bool(d.online)) + optional_member("name"@, opt_text(d.name)) + optional_member("description"@, opt_text(d.description)) + seq![125u8]));
    }
}

/// The JSON holds the `client_version` member when the field is present.
proof fn lemma_json_client_version(d: OnlineData)
    ensures
        d.client_version matches Some(v) ==> has_member(online_json(d), "client_version"@, json_string(v@)),
{
    if let Some(v) = d.client_version {
        assert(online_json(d) =~= (seq![123u8] + json_member("timestamp"@, json_string(d.timestamp.text())) + optional_member("system_id"@, opt_text(d.system_id)) + optional_member("system_version"@, opt_text(d.system_version)) + optional_member("client_id"@, opt_text(d.client_id))) + optional_member("client_version"@, opt_text(d.client_version)) + (optional_member("service_id"@, opt_text(d.service_id)) + optional_member("service_version"@, opt_text(d.service_version)) + seq![44u8] + json_member("online"@, json_bool(d.online)) + optional_member("name"@, opt_text(d.name)) + optional_member("description"@, opt_text(d.description)) + seq![125u8]));
        lemma_optional_member_between((seq![123u8] + json_member("timestamp"@, json_string(d.timestamp.text())) + optional_member("system_id"@, opt_text(d.system_id)) + optional_member("system_version"@, opt_text(d.system_version)) + optional_member("client_id"@, opt_text(d.client_id))), "client_version"@, v@, (optional_member("service_id"@, opt_text(d.service_id)) + optional_member("service_version"@, opt_text(d.service_version)) + seq![44u8] + json_member("online"@, json_bool(d.online)) + optional_member("name"@, opt_text(d.name)) + optional_member("description"@, opt_text(d.description)) + seq![125u8]));
    }
}

/// The JSON holds the `service_id` member when the field is present.
proof fn lemma_json_service_id(d: OnlineData)
    ensures
        d.service_id matches Some(v) ==> has_member(online_json(d), "service_id"@, json_string(v@)),
{
    if let Some(v) = d.service_id {
        assert(online_json(d) =~= (seq![123u8] + json_member("timestamp"@, json_string(d.timestamp.text())) + optional_member("system_id"@, opt_text(d.system_id)) + optional_member("system_version"@, opt_text(d.system_version)) + optional_member("client_id"@, opt_text(d.client_id)) + optional_member("client_version"@, opt_text(d.client_version))) + optional_member("service_id"@, opt_text(d.service_id)) + (optional_member("service_version"@, opt_text(d.service_version)) + seq![44u8] + json_member("online"@, json_bool(d.online)) + optional_member("name"@, opt_text(d.name)) + optional_member("description"@, opt_text(d.description)) + seq![125u8]));
        lemma_optional_member_between((seq![123u8] + json_member("timestamp"@, json_string(d.timestamp.text())) + optional_member("system_id"@, opt_text(d.system_id)) + optional_member("system_version"@, opt_text(d.system_version)) + optional_member("client_id"@, opt_text(d.client_id)) + optional_member("client_version"@, opt_text(d.client_version))), "service_id"@, v@, (optional_member("service_version"@, opt_text(d.service_version)) + seq![44u8] + json_member("online"@, json_bool(d.online)) + optional_member("name"@, opt_text(d.name)) + optional_member("description"@, opt_text(d.description)) + seq![125u8]));
    }
}

/// The JSON holds the `service_version` member when the field is present.
proof fn lemma_json_service_version(d: OnlineData)
    ensures
        d.service_version matches Some(v) ==> has_member(online_json(d), "service_version"@, json_string(v@)),
{
    if let Some(v) = d.service_version {
        assert(online_json(d) =~= (seq![123u8] + json_member("timestamp"@, json_string(d.timestamp.text())) + optional_member("system_id"@, opt_text(d.system_id)) + optional_member("system_version"@, opt_text(d.system_version)) + optional_member("client_id"@, opt_text(d.client_id)) + optional_member("client_version"@, opt_text(d.client_version)) + optional_member("service_id"@, opt_text(d.service_id))) + optional_member("service_version"@, opt_text(d.service_version)) + (seq![44u8] + json_member("online"@, json_bool(d.online)) + optional_member("name"@, opt_text(d.name)) + optional_member("description"@, opt_text(d.description)) + seq![125u8]));
        lemma_optional_member_between((seq![123u8] + json_member("timestamp"@, json_string(d.timestamp.text())) + optional_member("system_id"@, opt_text(d.system_id)) + optional_member("system_version"@, opt_text(d.system_version)) + optional_member("client_id"@, opt_text(d.client_id)) + optional_member("client_version"@, opt_text(d.client_version)) + optional_member("service_id"@, opt_text(d.service_id))), "service_version"@, v@, (seq![44u8] + json_member("online"@, json_bool(d.online)) + optional_member("name"@, opt_text(d.name)) + optional_member("description"@, opt_text(d.description)) + seq![125u8]));
    }
}

/// The JSON holds the `name` member when the field is present.
proof fn lemma_json_name(d: OnlineData)
    ensures
        d.name matches Some(v) ==> has_member(online_json(d), "name"@, json_string(v@)),
{
    if let Some(v) = d.name {
        assert(online_json(d) =~= (seq![123u8] + json_member("timestamp"@, json_string(d.timestamp.text())) + optional_member("system_id"@, opt_text(d.system_id)) + optional_member("system_version"@, opt_text(d.system_version)) + optional_member("client_id"@, opt_text(d.client_id)) + optional_member("client_version"@, opt_text(d.client_version)) + optional_member("service_id"@, opt_text(d.service_id)) + optional_member("service_version"@, opt_text(d.service_version)) + seq![44u8] + json_member("online"@, json_bool(d.online))) + optional_member("name"@, opt_text(d.name)) + (optional_member("description"@, opt_text(d.description)) + seq![125u8]));
        lemma_optional_member_between((seq![123u8] + json_member("timestamp"@, json_string(d.timestamp.text())) + optional_member("system_id"@, opt_text(d.system_id)) + optional_member("system_version"@, opt_text(d.system_version)) + optional_member("client_id"@, opt_text(d.client_id)) + optional_member("client_version"@, opt_text(d.client_version)) + optional_member("service_id"@, opt_text(d.service_id)) + optional_member("service_version"@, opt_text(d.service_version)) + seq![44u8] + json_member("online"@, json_bool(d.online))), "name"@, v@, (optional_member("description"@, opt_text(d.description)) + seq![125u8]));
    }
}

/// The JSON holds the `description` member when the field is present.
proof fn lemma_json_description(d: OnlineData)
    ensures
        d.description matches Some(v) ==> has_member(online_json(d), "description"@, json_string(v@)),
{
    if let Some(v) = d.description {
        assert(online_json(d) =~= (seq![123u8] + json_member("timestamp"@, json_string(d.timestamp.text())) + optional_member("system_id"@, opt_text(d.system_id)) + optional_member("system_version"@, opt_text(d.system_version)) + optional_member("client_id"@, opt_text(d.client_id)) + optional_member("client_version"@, opt_text(d.client_version)) + optional_member("service_id"@, opt_text(d.service_id)) + optional_member("service_version"@, opt_text(d.service_version)) + seq![44u8] + json_member("online"@, json_bool(d.online)) + optional_member("name"@, opt_text(d.name))) + optional_member("description"@, opt_text(d.description)) + (seq![125u8]));
        lemma_optional_member_between((seq![123u8] + json_member("timestamp"@, json_string(d.timestamp.text())) + optional_member("system_id"@, opt_text(d.system_id)) + optional_member("system_version"@, opt_text(d.system_version)) + optional_member("client_id"@, opt_text(d.client_id)) + optional_member("client_version"@, opt_text(d.client_version)) + optional_member("service_id"@, opt_text(d.service_id)) + optional_member("service_version"@, opt_text(d.service_version)) + seq![44u8] + json_member("online"@, json_bool(d.online)) + optional_member("name"@, opt_text(d.name))), "description"@, v@, (seq![125u8]));
    }
}

impl OnlineData {
    /// Serialize the data to JSON and return it as bytes.
    #[verifier::rlimit(50)]
    pub fn as_json_bytes(&self) -> (r: Result<Vec<u8>, serde_json::Error>)
        ensures
            r matches Ok(v) && v@ == online_json(*self),
    {
        let mut out: Vec<u8> = Vec::new();
        out.push(123);
        let ts = self.timestamp.to_rfc3339();
        push_string_member(&mut out, "timestamp", ts.as_str());
        let ghost head = out@;
        assert(head =~= seq![123u8] + json_member("timestamp"@, json_string(self.timestamp.text())));
        push_optional_member(&mut out, "system_id", &self.system_id);
        push_optional_member(&mut out, "system_version", &self.system_version);
        push_optional_member(&mut out, "client_id", &self.client_id);
        push_optional_member(&mut out, "client_version", &self.client_version);
        push_optional_member(&mut out, "service_id", &self.service_id);
        push_optional_member(&mut out, "service_version", &self.service_version);
        let ghost ids = out@;
        out.push(44);
        push_bool_member(&mut out, "online", self.online);
        let ghost flag = out@;
        assert(flag =~= ids + seq![44u8] + json_member("online"@, json_bool(self.online)));
        push_optional_member(&mut out, "name", &self.name);
        push_optional_member(&mut out, "description", &self.description);
        out.push(125);
        assert(out@ =~= online_json(*self));
        Ok(out)
    }
}

impl Default for OnlineData {
    /// Offline data stamped with the current time, with no identifiers,
    /// versions, name or description.
    fn default() -> (d: Self)
        ensures
            d.timestamp.spec_source() == TimeSource::Clock,
            d.system_id is None,
            d.system_version is None,
            d.client_id is None,
            d.client_version is None,
            d.service_id is None,
            d.service_version is None,
            !d.online,
            d.name is None,
            d.description is None,
    {
        OnlineData {
            timestamp: Timestamp::now(),
            system_id: None,
            system_version: None,
            client_id: None,
            client_version: None,
            service_id: None,
            service_version: None,
            online: false,
            name: None,
            description: None,
        }
    }
}

/// The error that building [`OnlineData`] can report. Every field has a
/// default, so [`OnlineDataBuilder::build`] never reports one.
#[derive(Debug, Clone)]
pub enum OnlineDataBuilderError {
    /// A required field was not set
    UninitializedField(String),
    /// A field value was refused
    ValidationError(String),
}

/// Builder for [`OnlineData`]. Unset fields take their defaults: the current
/// time, no identifiers or texts, and offline.
#[derive(Debug)]
pub struct OnlineDataBuilder {
    pub timestamp: Option<Timestamp>,
    pub system_id: Option<String>,
    pub system_version: Option<String>,
    pub client_id: Option<String>,
    pub client_version: Option<String>,
    pub service_id: Option<String>,
    pub service_version: Option<String>,
    pub online: Option<bool>,
    pub name: Option<String>,
    pub description: Option<String>,
}

impl Clone for OnlineDataBuilder {
    fn clone(&self) -> (r: Self)
        ensures
            r == *self,
    {
        OnlineDataBuilder {
            timestamp: self.timestamp,
            system_id: clone_text(&self.system_id),
            system_version: clone_text(&self.system_version),
            client_id: clone_text(&self.client_id),
            client_version: clone_text(&self.client_version),
            service_id: clone_text(&self.service_id),
            service_version: clone_text(&self.service_version),
            online: self.online,
            name: clone_text(&self.name),
            description: clone_text(&self.description),
        }
    }
}

impl Default for OnlineDataBuilder {
    /// A builder with no field set.
    fn default() -> (b: Self)
        ensures
            b.timestamp is None,
            b.system_id is None,
            b.system_version is None,
            b.client_id is None,
            b.client_version is None,
            b.service_id is None,
            b.service_version is None,
            b.online is None,
            b.name is None,
            b.description is None,
    {
        OnlineDataBuilder {
            timestamp: None,
            system_id: None,
            system_version: None,
            client_id: None,
            client_version: None,
            service_id: None,
            service_version: None,
            online: None,
            name: None,
            description: None,
        }
    }
}

impl OnlineDataBuilder {
    /// Sets the timestamp.
    pub fn timestamp(self, timestamp: Timestamp) -> (b: Self)
        ensures
            b == (OnlineDataBuilder { timestamp: Some(timestamp), ..self }),
    {
        OnlineDataBuilder { timestamp: Some(timestamp), ..self }
    }

    /// Sets the system identifier.
    pub fn system_id(self, value: &str) -> (b: Self)
        ensures
            b.system_id matches Some(v) && v@ == value@,
            b == (OnlineDataBuilder { system_id: b.system_id, ..self }),
    {
        OnlineDataBuilder { system_id: Some(String::from_str(value)), ..self }
    }

    /// Sets the system version.
    pub fn system_version(self, value: &str) -> (b: Self)
        ensures
            b.system_version matches Some(v) && v@ == value@,
            b == (OnlineDataBuilder { system_version: b.system_version, ..self }),
    {
        OnlineDataBuilder { system_version: Some(String::from_str(value)), ..self }
    }

    /// Sets the client identifier.
    pub fn client_id(self, value: &str) -> (b: Self)
        ensures
            b.client_id matches Some(v) && v@ == value@,
            b == (OnlineDataBuilder { client_id: b.client_id, ..self }),
    {
        OnlineDataBuilder { client_id: Some(String::from_str(value)), ..self }
    }

    /// Sets the client version.
    pub fn client_version(self, value: &str) -> (b: Self)
        ensures
            b.client_version matches Some(v) && v@ == value@,
            b == (OnlineDataBuilder { client_version: b.client_version, ..self }),
    {
        OnlineDataBuilder { client_version: Some(String::from_str(value)), ..self }
    }

    /// Sets the service identifier.
    pub fn service_id(self, value: &str) -> (b: Self)
        ensures
            b.service_id matches Some(v) && v@ == value@,
            b == (OnlineDataBuilder { service_id: b.service_id, ..self }),
    {
        OnlineDataBuilder { service_id: Some(String::from_str(value)), ..self }
    }

    /// Sets the service version.
    pub fn service_version(self, value: &str) -> (b: Self)
        ensures
            b.service_version matches Some(v) && v@ == value@,
            b == (OnlineDataBuilder { service_version: b.service_version, ..self }),
    {
        OnlineDataBuilder { service_version: Some(String::from_str(value)), ..self }
    }

    /// Sets the online flag.
    pub fn online(self, online: bool) -> (b: Self)
        ensures
            b == (OnlineDataBuilder { online: Some(online), ..self }),
    {
        OnlineDataBuilder { online: Some(online), ..self }
    }

    /// Sets the display name.
    pub fn name(self, value: &str) -> (b: Self)
        ensures
            b.name matches Some(v) && v@ == value@,
            b == (OnlineDataBuilder { name: b.name, ..self }),
    {
        OnlineDataBuilder { name: Some(String::from_str(value)), ..self }
    }

    /// Sets the description.
    pub fn description(self, value: &str) -> (b: Self)
        ensures
            b.description matches Some(v) && v@ == value@,
            b == (OnlineDataBuilder { description: b.description, ..self }),
    {
        OnlineDataBuilder { description: Some(String::from_str(value)), ..self }
    }

    /// Builds the data; unset fields take their defaults.
    pub fn build(self) -> (r: Result<OnlineData, OnlineDataBuilderError>)
        ensures
            r matches Ok(d) && {
                &&& self.timestamp matches Some(t) ==> d.timestamp == t
                &&& self.timestamp is None ==> d.timestamp.spec_source() == TimeSource::Clock
                &&& d.system_id == self.system_id
                &&& d.system_version == self.system_version
                &&& d.client_id == self.client_id
                &&& d.client_version == self.client_version
                &&& d.service_id == self.service_id
                &&& d.service_version == self.service_version
                &&& d.online == (self.online == Some(true))
                &&& d.name == self.name
                &&& d.description == self.description
            },
    {
        let timestamp = match self.timestamp {
            Some(t) => t,
            None => Timestamp::now(),
        };
        let online = match self.online {
            Some(o) => o,
            None => false,
        };
        Ok(OnlineData {
            timestamp,
            system_id: self.system_id,
            system_version: self.system_version,
            client_id: self.client_id,
            client_version: self.client_version,
            service_id: self.service_id,
            service_version: self.service_version,
            online,
            name: self.name,
            description: self.description,
        })
    }
}

/// The topic on which availability is published for the given path of
/// identifiers (system, then client, then service).
pub open spec fn availability_topic(parts: Seq<Seq<char>>) -> Seq<char> {
    "system/"@ + join(parts, "/"@)
}

/// The data after a status update at time `t`: the timestamp and the online
/// flag are replaced, and the system, client and service identifiers are taken
/// from the topic path as far as it reaches; everything else is kept.
pub open spec fn refreshed(d: OnlineData, parts: Seq<String>, online: bool, t: Timestamp) -> OnlineData {
    OnlineData {
        timestamp: t,
        online,
        system_id: if parts.len() > 0 { Some(parts[0]) } else { d.system_id },
        client_id: if parts.len() > 1 { Some(parts[1]) } else { d.client_id },
        service_id: if parts.len() > 2 { Some(parts[2]) } else { d.service_id },
        ..d
    }
}

/// The latest status wins: updating twice leaves the data as a single update
/// with the later status and time would.
pub proof fn law_latest_status_wins(
    d: OnlineData,
    parts: Seq<String>,
    first: bool,
    t1: Timestamp,
    second: bool,
    t2: Timestamp,
)
    ensures
        refreshed(refreshed(d, parts, first, t1), parts, second, t2) == refreshed(d, parts, second, t2),
{
}

/// A status update records every identifier of the topic path: the system
/// always, the client for client and service paths, the service for service
/// paths.
pub proof fn law_update_records_path(d: OnlineData, parts: Seq<String>, online: bool, t: Timestamp)
    requires
        1 <= parts.len() <= 3,
    ensures
        refreshed(d, parts, online, t).system_id == Some(parts[0]),
        parts.len() >= 2 ==> refreshed(d, parts, online, t).client_id == Some(parts[1]),
        parts.len() == 3 ==> refreshed(d, parts, online, t).service_id == Some(parts[2]),
        refreshed(d, parts, online, t).online == online,
{
}

/// Availability topics by kind: `system/<system>` for a system,
/// `system/<system>/<client>` for a client, and
/// `system/<system>/<client>/<service>` for a service.
pub proof fn law_topic_paths(system: String, client: String, service: String)
    ensures
        availability_topic(texts(seq![system])) == "system/"@ + system@,
        availability_topic(texts(seq![system, client])) == "system/"@ + system@ + "/"@ + client@,
        availability_topic(texts(seq![system, client, service])) == "system/"@ + system@ + "/"@
            + client@ + "/"@ + service@,
{
    let one = texts(seq![system]);
    let two = texts(seq![system, client]);
    let three = texts(seq![system, client, service]);
    assert(two.drop_last() =~= one);
    assert(three.drop_last() =~= two);
    assert(join(two, "/"@) == join(one, "/"@) + "/"@ + client@);
    assert(join(three, "/"@) == join(two, "/"@) + "/"@ + service@);
    assert("system/"@ + (system@ + "/"@ + client@) =~= "system/"@ + system@ + "/"@ + client@);
    assert("system/"@ + (system@ + "/"@ + client@ + "/"@ + service@) =~= "system/"@ + system@ + "/"@
        + client@ + "/"@ + service@);
}

/// The status message for the topic path and data: retained, at least once,
/// with the data as its JSON payload.
pub open spec fn status_message(parts: Seq<String>, d: OnlineData) -> MessageView {
    MessageView {
        content_type: Some("application/json"@),
        ..simple_view(availability_topic(texts(parts)), QoS::AtLeastOnce, true, online_json(d))
    }
}

/// Data that says nothing beyond its timestamp: no identifiers, versions, name
/// or description, and offline.
pub open spec fn is_blank(d: OnlineData) -> bool {
    &&& d.system_id is None
    &&& d.system_version is None
    &&& d.client_id is None
    &&& d.client_version is None
    &&& d.service_id is None
    &&& d.service_version is None
    &&& !d.online
    &&& d.name is None
    &&& d.description is None
}

/// Builds online/offline status messages for a system, a client within a
/// system, or a service within a client.
#[derive(Debug)]
pub struct AvailabilityHelper {
    /// The identifiers that make up the topic path, outermost first
    pub topic_parts: Vec<String>,
    pub data: OnlineData,
    /// How many status updates have been made (wrapping at `u64::MAX`); each
    /// update stamps the data with a clock reading tagged with its number
    pub updates: u64,
}

impl Clone for AvailabilityHelper {
    fn clone(&self) -> (r: Self)
        ensures
            r.parts() == self.parts(),
            r.data == self.data,
            r.update_count() == self.update_count(),
    {
        let mut topic_parts: Vec<String> = Vec::new();
        let n = self.topic_parts.len();
        let mut i: usize = 0;
        while i < n
            invariant
                n == self.topic_parts@.len(),
                i <= n,
                topic_parts@ =~= self.topic_parts@.take(i as int),
            decreases n - i,
        {
            topic_parts.push(self.topic_parts[i].clone());
            i = i + 1;
        }
        assert(self.topic_parts@.take(n as int) =~= self.topic_parts@);
        AvailabilityHelper { topic_parts, data: self.data.clone(), updates: self.updates }
    }
}

impl AvailabilityHelper {
    /// The identifiers that make up the topic path, outermost first.
    pub open spec fn parts(self) -> Seq<String> {
        self.topic_parts@
    }

    /// How many status updates the helper has made (wrapping at `u64::MAX`).
    pub open spec fn update_count(self) -> u64 {
        self.updates
    }

    /// Create an availability message for a system.
    pub fn system_availability(system_id: String) -> (h: Self)
        ensures
            h.parts() == seq![system_id],
            is_blank(h.data),
            h.data.timestamp.spec_source() == TimeSource::Clock,
            h.update_count() == 0,
    {
        let mut topic_parts: Vec<String> = Vec::new();
        topic_parts.push(system_id);
        AvailabilityHelper { topic_parts, data: OnlineData::default(), updates: 0 }
    }

    /// Create an availability message for a client within a system.
    pub fn client_availability(system_id: String, client_id: String) -> (h: Self)
        ensures
            h.parts() == seq![system_id, client_id],
            is_blank(h.data),
            h.data.timestamp.spec_source() == TimeSource::Clock,
            h.update_count() == 0,
    {
        let mut topic_parts: Vec<String> = Vec::new();
        topic_parts.push(system_id);
        topic_parts.push(client_id);
        AvailabilityHelper { topic_parts, data: OnlineData::default(), updates: 0 }
    }

    /// Create an availability message for a service within a client.
    pub fn service_availability(system_id: String, client_id: String, service_id: String) -> (h: Self)
        ensures
            h.parts() == seq![system_id, client_id, service_id],
            is_blank(h.data),
            h.data.timestamp.spec_source() == TimeSource::Clock,
            h.update_count() == 0,
    {
        let mut topic_parts: Vec<String> = Vec::new();
        topic_parts.push(system_id);
        topic_parts.push(client_id);
        topic_parts.push(service_id);
        AvailabilityHelper { topic_parts, data: OnlineData::default(), updates: 0 }
    }

    /// Get the MQTT topic for this online message: `system/` followed by the
    /// identifiers joined with `/`.
    pub fn get_topic(&self) -> (t: String)
        ensures
            t@ == availability_topic(texts(self.parts())),
    {
        let mut t = String::from_str("system/");
        let joined = join_strings(&self.topic_parts, "/");
        t.append(joined.as_str());
        t
    }

    /// Build an MQTT message with the specified online status. The data is
    /// stamped with the current time, marked online or offline, and given the
    /// identifiers of the topic path; the message carries it as JSON.
    pub fn get_message(&mut self, online: bool) -> (r: Result<MqttMessage, MqttError>)
        ensures
            final(self).parts() == old(self).parts(),
            final(self).data == refreshed(old(self).data, old(self).parts(), online, final(self).data.timestamp),
            final(self).data.timestamp.spec_source() == TimeSource::StatusUpdate(old(self).update_count()),
            final(self).update_count() == old(self).update_count().wrapping_add(1),
            r matches Ok(m) && m@ == status_message(final(self).parts(), final(self).data),
    {
        let n = self.updates;
        self.updates = n.wrapping_add(1);
        self.data.timestamp = Timestamp::read_for_update(n);
        self.data.online = online;
        if self.topic_parts.len() > 0 {
            self.data.system_id = Some(self.topic_parts[0].clone());
        }
        if self.topic_parts.len() > 1 {
            self.data.client_id = Some(self.topic_parts[1].clone());
        }
        if self.topic_parts.len() > 2 {
            self.data.service_id = Some(self.topic_parts[2].clone());
        }
        let topic = self.get_topic();
        match self.data.as_json_bytes() {
            Ok(json) => Ok(MqttMessage::with_json_payload(topic, QoS::AtLeastOnce, true, json)),
            Err(_) => {
                assert(false);
                Err(MqttError::Other(String::new()))
            },
        }
    }
}

/// The helper's timestamp was read by an update it has made, or elsewhere.
pub open spec fn stamped_by_past_update(t: Timestamp, update_count: u64) -> bool {
    t.spec_source() matches TimeSource::StatusUpdate(n) ==> n < update_count
}

/// A status update stamps the data with a new clock reading: when the
/// helper's timestamp came from an earlier update (or from elsewhere), the
/// timestamp that update number `count` reads differs from it, and afterwards
/// the helper's timestamp again came from an update it has made.
pub proof fn law_status_update_reads_the_clock(old_stamp: Timestamp, count: u64, new_stamp: Timestamp)
    requires
        stamped_by_past_update(old_stamp, count),
        count < u64::MAX,
        new_stamp.spec_source() == TimeSource::StatusUpdate(count),
    ensures
        new_stamp != old_stamp,
        stamped_by_past_update(new_stamp, count.wrapping_add(1)),
{
    assert(count.wrapping_add(1) == count + 1) by (bit_vector)
        requires
            count < u64::MAX,
    ;
}

/// A helper starts with its own timestamp read from the clock: it counts as
/// stamped by a past update, for it came from elsewhere.
pub proof fn law_new_helper_is_stamped(t: Timestamp)
    requires
        t.spec_source() == TimeSource::Clock,
    ensures
        stamped_by_past_update(t, 0),
{
}

/// A timestamp read from the clock is never one given as a number of seconds:
/// data built without a timestamp is stamped with a clock reading, which
/// differs from every timestamp made by [`Timestamp::from_unix`] (the Unix
/// epoch included).
pub proof fn law_read_time_is_not_given(read: Timestamp, given: Timestamp)
    requires
        read.spec_source() == TimeSource::Clock,
        given.spec_source() == TimeSource::Given,
    ensures
        read != given,
{
}

} // verus!
