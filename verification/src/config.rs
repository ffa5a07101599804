//! Plain configuration data consumed by the driver core. Parsing and
//! validation of these values happen outside; the core only reads them.

use vstd::prelude::*;

verus! {

/// Transport-security material for broker connections. Each piece is
/// optional and applied independently of the others.
pub struct TlsConfig {
    pub ca_file: Option<String>,
    pub certificate: Option<String>,
    pub private_key: Option<String>,
    pub private_key_password: Option<String>,
}

/// Broker endpoints and timeouts shared by every client role.
/// Timeouts are carried as whole milliseconds.
pub struct TargetConfig {
    pub endpoints: Vec<String>,
    pub connect_timeout_ms: u64,
    pub publish_timeout_ms: u64,
}

/// Pub/sub tuning knobs: publisher pool shape, producer overrides
/// (applied only when supplied), and consumer overrides.
pub struct PubsubConfig {
    pub publisher_poolsize: usize,
    pub publisher_concurrency: usize,
    pub acks: String,
    pub compression_type: String,
    pub linger_ms: Option<String>,
    pub batch_size: Option<String>,
    pub batch_num_messages: Option<String>,
    pub request_timeout_ms: Option<String>,
    pub exactly_once: bool,
    pub auto_offset_reset: String,
    pub fetch_message_max_bytes: Option<String>,
}

/// Connection configuration for the whole driver, immutable once built.
pub struct Config {
    pub target: TargetConfig,
    pub pubsub: PubsubConfig,
    pub tls: Option<TlsConfig>,
}

/// Declared topics and the subscriber pool shape to drive against them.
pub struct TopicSpec {
    pub topics: Vec<String>,
    pub partitions: usize,
    pub subscriber_poolsize: usize,
    pub subscriber_concurrency: usize,
    pub single_subscriber_group: bool,
}

impl TopicSpec {
    /// Well-formed: at least one declared topic, and a positive partition
    /// count that fits the broker protocol's 32-bit signed field.
    pub open spec fn wf(&self) -> bool {
        &&& self.topics@.len() > 0
        &&& 1 <= self.partitions <= 0x7fff_ffff
    }
}

} // verus!
