//! Configuration of the rumqttd broker that integration tests run against:
//! the transport it listens on, the URI clients connect to, and the text of
//! its configuration file.

use vstd::prelude::*;
use vstd::string::*;

use crate::foreign::{rfc3339_of, utc_now};
use crate::text::{decimal, push_decimal};

verus! {

/// Transport type for the broker.
#[derive(Debug, Clone)]
pub enum BrokerTransport {
    /// TCP socket with host and port
    Tcp { host: String, port: u16 },
    /// Unix domain socket with path
    Unix { path: String },
}

/// The path of the Unix socket named after `id`: `/tmp/mqtt_test_<id>.sock`.
pub open spec fn socket_path(id: u64) -> Seq<char> {
    "/tmp/mqtt_test_"@ + decimal(id as nat) + ".sock"@
}

/// The socket path named after `id`.
pub fn socket_path_for(id: u64) -> (p: String)
    ensures
        p@ == socket_path(id),
{
    let mut p = String::from_str("/tmp/mqtt_test_");
    push_decimal(&mut p, id);
    p.append(".sock");
    p
}

/// The number that names a socket made at the instant `secs` seconds and
/// `nanos` nanoseconds after the Unix epoch: the nanoseconds since the epoch,
/// in `u64` arithmetic (taken modulo 2^64).
pub open spec fn socket_id_of(secs: i64, nanos: u32) -> u64 {
    ((secs * 1_000_000_000 + nanos) % 0x1_0000_0000_0000_0000) as u64
}

/// The number that names a socket made at the given instant: its nanoseconds
/// since the Unix epoch, in `u64` arithmetic.
pub fn socket_id(secs: i64, nanos: u32) -> (id: u64)
    ensures
        id == socket_id_of(secs, nanos),
{
    let ghost m: int = 0x1_0000_0000_0000_0000int;
    let wrapped_secs: u64 = if secs >= 0 {
        secs as u64
    } else {
        u64::MAX - ((-(secs + 1)) as u64)
    };
    proof {
        vstd::arithmetic::div_mod::lemma_fundamental_div_mod_converse(
            secs as int,
            m,
            if secs >= 0 { 0int } else { -1int },
            wrapped_secs as int,
        );
        assert(wrapped_secs as int == (secs as int) % m);
        vstd::arithmetic::div_mod::lemma_mul_mod_noop_left(secs as int, 1_000_000_000, m);
        vstd::arithmetic::div_mod::lemma_add_mod_noop(secs * 1_000_000_000, nanos as int, m);
        vstd::arithmetic::div_mod::lemma_small_mod(nanos as nat, m as nat);
        vstd::arithmetic::div_mod::lemma_mod_twice(secs * 1_000_000_000, m);
    }
    let product: u64 = wrapped_secs.wrapping_mul(1_000_000_000);
    let id: u64 = product.wrapping_add(nanos as u64);
    proof {
        assert(product as int == (wrapped_secs as int * 1_000_000_000) % m);
        vstd::arithmetic::div_mod::lemma_mod_bound(product as int + nanos as int, m);
        if product as int + nanos as int >= m {
            vstd::arithmetic::div_mod::lemma_fundamental_div_mod_converse(
                product as int + nanos as int,
                m,
                1,
                product as int + nanos as int - m,
            );
        } else {
            vstd::arithmetic::div_mod::lemma_small_mod((product as int + nanos as int) as nat, m as nat);
        }
        assert(id as int == (product as int + nanos as int) % m);
    }
    id
}

/// Names a socket after the current time: nanoseconds since the Unix epoch,
/// in `u64` arithmetic.
fn nanos_since_epoch() -> (n: u64)
    ensures
        exists|secs: i64, nanos: u32|
            nanos < 1_000_000_000 && rfc3339_of(secs, nanos) is Some && n == socket_id_of(secs, nanos),
{
    let (secs, nanos) = utc_now();
    socket_id(secs, nanos)
}

impl Default for BrokerTransport {
    /// A Unix socket in `/tmp` named after the current time in nanoseconds.
    fn default() -> (t: Self)
        ensures
            t matches BrokerTransport::Unix { path } && exists|secs: i64, nanos: u32|
                nanos < 1_000_000_000 && rfc3339_of(secs, nanos) is Some
                    && path@ == socket_path(socket_id_of(secs, nanos)),
    {
        let id = nanos_since_epoch();
        BrokerTransport::Unix { path: socket_path_for(id) }
    }
}

/// The startup wait that configurations get unless told otherwise: five
/// seconds.
pub const DEFAULT_STARTUP_TIMEOUT_MS: u64 = 5000;

/// Configuration for the test MQTT broker.
#[derive(Debug, Clone)]
pub struct BrokerConfig {
    /// Transport type (TCP or Unix socket)
    pub transport: BrokerTransport,
    /// How long to wait for the broker to start, in milliseconds
    pub startup_timeout_ms: u64,
}

impl Default for BrokerConfig {
    /// The default transport with the default startup wait.
    fn default() -> (c: Self)
        ensures
            c.transport matches BrokerTransport::Unix { path } && exists|secs: i64, nanos: u32|
                nanos < 1_000_000_000 && rfc3339_of(secs, nanos) is Some
                    && path@ == socket_path(socket_id_of(secs, nanos)),
            c.startup_timeout_ms == DEFAULT_STARTUP_TIMEOUT_MS,
    {
        BrokerConfig { transport: BrokerTransport::default(), startup_timeout_ms: DEFAULT_STARTUP_TIMEOUT_MS }
    }
}

/// The URI at which clients reach a broker on the given transport.
pub open spec fn transport_uri(t: BrokerTransport) -> Seq<char> {
    match t {
        BrokerTransport::Tcp { host, port } => "mqtt://"@ + host@ + ":"@ + decimal(port as nat),
        BrokerTransport::Unix { path } => "mqtt+unix://"@ + path@,
    }
}

/// The rumqttd listener section for the given transport.
pub open spec fn listener_section(t: BrokerTransport) -> Seq<char> {
    match t {
        BrokerTransport::Tcp { host, port } =>
            "[v5.1.listeners.tcp1]\nname = \"tcp1\"\nport = "@ + decimal(port as nat)
                + "\nbind = \""@ + host@ + "\"\nmax_connections = 1000\n"@,
        BrokerTransport::Unix { path } =>
            "[v5.1.listeners.unix1]\nname = \"unix1\"\npath = \""@ + path@
                + "\"\nmax_connections = 1000\n"@,
    }
}

/// The fixed part of the rumqttd configuration: console logs off, a small
/// router, and connection limits generous enough for tests.
pub open spec fn config_preamble() -> Seq<char> {
    "\n[v5]\nconsole_logs = false\n\n[v5.1.router]\nmax_segment_size = 10240\nmax_segment_count = 10\n\n[v5.1.connections.1]\nconnection_timeout_ms = 60000\nmax_client_id_len = 256\nthrottle_delay_ms = 0\nmax_payload_size = 20480\nmax_inflight_count = 500\nmax_inflight_size = 1024\n\n"@
}

impl BrokerConfig {
    /// Create a new configuration with TCP transport.
    pub fn tcp(host: &str, port: u16) -> (c: Self)
        ensures
            c.transport matches BrokerTransport::Tcp { host: h, port: p } && h@ == host@ && p == port,
            c.startup_timeout_ms == DEFAULT_STARTUP_TIMEOUT_MS,
    {
        BrokerConfig {
            transport: BrokerTransport::Tcp { host: String::from_str(host), port },
            startup_timeout_ms: DEFAULT_STARTUP_TIMEOUT_MS,
        }
    }

    /// Create a new configuration with Unix socket transport.
    pub fn unix(path: &str) -> (c: Self)
        ensures
            c.transport matches BrokerTransport::Unix { path: p } && p@ == path@,
            c.startup_timeout_ms == DEFAULT_STARTUP_TIMEOUT_MS,
    {
        BrokerConfig {
            transport: BrokerTransport::Unix { path: String::from_str(path) },
            startup_timeout_ms: DEFAULT_STARTUP_TIMEOUT_MS,
        }
    }

    /// Get the MQTT URI for this broker configuration:
    /// `mqtt://<host>:<port>` or `mqtt+unix://<path>`.
    pub fn mqtt_uri(&self) -> (u: String)
        ensures
            u@ == transport_uri(self.transport),
    {
        match &self.transport {
            BrokerTransport::Tcp { host, port } => {
                let mut u = String::from_str("mqtt://");
                u.append(host.as_str());
                u.append(":");
                push_decimal(&mut u, *port as u64);
                u
            },
            BrokerTransport::Unix { path } => {
                let mut u = String::from_str("mqtt+unix://");
                u.append(path.as_str());
                u
            },
        }
    }

    /// The rumqttd listener section for this configuration's transport.
    pub fn listener_config(&self) -> (s: String)
        ensures
            s@ == listener_section(self.transport),
    {
        match &self.transport {
            BrokerTransport::Tcp { host, port } => {
                let mut s = String::from_str("[v5.1.listeners.tcp1]\nname = \"tcp1\"\nport = ");
                push_decimal(&mut s, *port as u64);
                s.append("\nbind = \"");
                s.append(host.as_str());
                s.append("\"\nmax_connections = 1000\n");
                s
            },
            BrokerTransport::Unix { path } => {
                let mut s = String::from_str("[v5.1.listeners.unix1]\nname = \"unix1\"\npath = \"");
                s.append(path.as_str());
                s.append("\"\nmax_connections = 1000\n");
                s
            },
        }
    }

    /// The complete rumqttd configuration file: the fixed preamble, the
    /// listener section, and a final newline.
    pub fn rumqttd_config(&self) -> (s: String)
        ensures
            s@ == config_preamble() + listener_section(self.transport) + "\n"@,
    {
        let mut s = String::from_str(
            "\n[v5]\nconsole_logs = false\n\n[v5.1.router]\nmax_segment_size = 10240\nmax_segment_count = 10\n\n[v5.1.connections.1]\nconnection_timeout_ms = 60000\nmax_client_id_len = 256\nthrottle_delay_ms = 0\nmax_payload_size = 20480\nmax_inflight_count = 500\nmax_inflight_size = 1024\n\n",
        );
        let listener = self.listener_config();
        s.append(listener.as_str());
        s.append("\n");
        s
    }
}

} // verus!
