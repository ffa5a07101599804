//! Builds broker client option maps. The option container is rdkafka's
//! `ClientConfig`; this module states what that container holds and proves
//! that each client role gets exactly the options the configuration calls
//! for. Turning a finished option map into a live client is broker I/O and
//! happens outside this crate, which is also where the container to fill is
//! first obtained.

use vstd::prelude::*;

use crate::config::Config;
use crate::text::{dec_str, join_comma, join_commas, u64_to_dec};
use rdkafka::ClientConfig;

verus! {

#[verifier::external_type_specification]
#[verifier::external_body]
pub struct ExClientConfig(ClientConfig);

/// The option map a `ClientConfig` holds: every key installed by `set`,
/// each with the value most recently set for it.
pub uninterp spec fn config_entries(c: ClientConfig) -> Map<Seq<char>, Seq<char>>;

/// An option map with nothing set.
pub open spec fn empty_entries() -> Map<Seq<char>, Seq<char>> {
    Map::empty()
}

/// Relies on rdkafka's `ClientConfig::new`: replaces the configuration with
/// a fresh one, whose option map is empty.
#[verifier::external_body]
fn config_reset(c: &mut ClientConfig)
    ensures
        config_entries(*final(c)) == empty_entries(),
{
    *c = ClientConfig::new();
}

/// Relies on rdkafka's `ClientConfig::set`: inserts one option, overriding
/// any existing value for the key.
#[verifier::external_body]
fn config_set(c: &mut ClientConfig, key: &str, value: &str)
    ensures
        config_entries(*final(c)) == config_entries(*old(c)).insert(key@, value@),
{
    c.set(key, value);
}

/// Relies on rdkafka's `ClientConfig::get`: returns the value set for the
/// key, or `None` when no `set` installed one.
#[verifier::external_body]
fn config_get(c: &ClientConfig, key: &str) -> (r: Option<String>)
    ensures
        (match r {
            Some(v) => config_entries(*c).contains_key(key@) && v@ == config_entries(*c)[key@],
            None => !config_entries(*c).contains_key(key@),
        }),
{
    match c.get(key) {
        Some(v) => Some(v.to_owned()),
        None => None,
    }
}

/// Reads one option back out of a built configuration.
pub fn option_value(c: &ClientConfig, key: &str) -> (r: Option<String>)
    ensures
        (match r {
            Some(v) => config_entries(*c).contains_key(key@) && v@ == config_entries(*c)[key@],
            None => !config_entries(*c).contains_key(key@),
        }),
{
    config_get(c, key)
}

/// The transport-security options, layered over `m` when TLS is configured:
/// encrypted transport with certificate verification off, plus whichever of
/// CA file, private key (with optional password) and client certificate are
/// present.
pub open spec fn tls_entries(m: Map<Seq<char>, Seq<char>>, tls: crate::config::TlsConfig) -> Map<
    Seq<char>,
    Seq<char>,
> {
    let m = m.insert("security.protocol"@, "ssl"@).insert(
        "enable.ssl.certificate.verification"@,
        "false"@,
    );
    let m = match tls.ca_file {
        Some(ca) => m.insert("ssl.ca.location"@, ca@),
        None => m,
    };
    let m = match tls.private_key {
        Some(k) => {
            let m2 = m.insert("ssl.key.location"@, k@);
            match tls.private_key_password {
                Some(p) => m2.insert("ssl.key.password"@, p@),
                None => m2,
            }
        },
        None => m,
    };
    match tls.certificate {
        Some(cert) => m.insert("ssl.certificate.location"@, cert@),
        None => m,
    }
}

/// The base options every client role shares: the comma-joined endpoint
/// list, connect and publish timeouts in milliseconds, the Nagle-disable
/// low-latency hint, and the transport-security options when configured.
pub open spec fn base_entries(cfg: Config) -> Map<Seq<char>, Seq<char>> {
    let m = empty_entries().insert(
        "bootstrap.servers"@,
        join_commas(cfg.target.endpoints@.map_values(|x: String| x@)),
    ).insert("socket.timeout.ms"@, dec_str(cfg.target.connect_timeout_ms as nat)).insert(
        "socket.nagle.disable"@,
        "true"@,
    ).insert("message.timeout.ms"@, dec_str(cfg.target.publish_timeout_ms as nat));
    match cfg.tls {
        Some(tls) => tls_entries(m, tls),
        None => m,
    }
}

/// Fills `c` with the shared client options. Certificate verification is
/// deliberately disabled: the benchmark target is a controlled test broker,
/// not a production peer.
pub fn get_client_config(config: &Config, c: &mut ClientConfig)
    ensures
        config_entries(*final(c)) == base_entries(*config),
{
    let bootstrap_servers = join_comma(&config.target.endpoints);
    let connect_timeout = u64_to_dec(config.target.connect_timeout_ms);
    let publish_timeout = u64_to_dec(config.target.publish_timeout_ms);
    config_reset(c);
    config_set(c, "bootstrap.servers", bootstrap_servers.as_str());
    config_set(c, "socket.timeout.ms", connect_timeout.as_str());
    config_set(c, "socket.nagle.disable", "true");
    config_set(c, "message.timeout.ms", publish_timeout.as_str());
    match &config.tls {
        Some(tls) => {
            config_set(c, "security.protocol", "ssl");
            config_set(c, "enable.ssl.certificate.verification", "false");
            match &tls.ca_file {
                Some(ca) => config_set(c, "ssl.ca.location", ca.as_str()),
                None => {},
            }
            match &tls.private_key {
                Some(k) => {
                    config_set(c, "ssl.key.location", k.as_str());
                    match &tls.private_key_password {
                        Some(p) => config_set(c, "ssl.key.password", p.as_str()),
                        None => {},
                    }
                },
                None => {},
            }
            match &tls.certificate {
                Some(cert) => config_set(c, "ssl.certificate.location", cert.as_str()),
                None => {},
            }
        },
        None => {},
    }
}

/// Producer options on top of the base: acknowledgment mode, compression,
/// the optional linger/batching/request-timeout overrides, and — when the
/// exactly-once flag is set — idempotent publish with a single in-flight
/// request per connection.
pub open spec fn producer_entries(cfg: Config) -> Map<Seq<char>, Seq<char>> {
    let m = base_entries(cfg).insert("acks"@, cfg.pubsub.acks@).insert(
        "compression.type"@,
        cfg.pubsub.compression_type@,
    );
    let m = match cfg.pubsub.linger_ms {
        Some(v) => m.insert("linger.ms"@, v@),
        None => m,
    };
    let m = match cfg.pubsub.batch_size {
        Some(v) => m.insert("batch.size"@, v@),
        None => m,
    };
    let m = match cfg.pubsub.batch_num_messages {
        Some(v) => m.insert("batch.num.messages"@, v@),
        None => m,
    };
    let m = match cfg.pubsub.request_timeout_ms {
        Some(v) => m.insert("request.timeout.ms"@, v@),
        None => m,
    };
    if cfg.pubsub.exactly_once {
        m.insert("enable.idempotence"@, "true"@).insert(
            "max.in.flight.requests.per.connection"@,
            "1"@,
        )
    } else {
        m
    }
}

/// Fills `c` with the options for one producer connection.
pub fn producer_client_config(config: &Config, c: &mut ClientConfig)
    ensures
        config_entries(*final(c)) == producer_entries(*config),
{
    get_client_config(config, c);
    config_set(c, "acks", config.pubsub.acks.as_str());
    config_set(c, "compression.type", config.pubsub.compression_type.as_str());
    match &config.pubsub.linger_ms {
        Some(v) => config_set(c, "linger.ms", v.as_str()),
        None => {},
    }
    match &config.pubsub.batch_size {
        Some(v) => config_set(c, "batch.size", v.as_str()),
        None => {},
    }
    match &config.pubsub.batch_num_messages {
        Some(v) => config_set(c, "batch.num.messages", v.as_str()),
        None => {},
    }
    match &config.pubsub.request_timeout_ms {
        Some(v) => config_set(c, "request.timeout.ms", v.as_str()),
        None => {},
    }
    if config.pubsub.exactly_once {
        config_set(c, "enable.idempotence", "true");
        config_set(c, "max.in.flight.requests.per.connection", "1");
    }
}

/// Consumer options on top of the base: the consumer-group and client
/// identifiers, partition-end-of-stream notifications off, auto-commit off
/// (the core controls offset semantics), the offset-reset policy, and an
/// optional fetch-size cap.
pub open spec fn consumer_entries(cfg: Config, group_id: Seq<char>) -> Map<Seq<char>, Seq<char>> {
    let m = base_entries(cfg).insert("group.id"@, group_id).insert(
        "client.id"@,
        "rpcperf_subscriber"@,
    ).insert("enable.partition.eof"@, "false"@).insert("enable.auto.commit"@, "false"@).insert(
        "auto.offset.reset"@,
        cfg.pubsub.auto_offset_reset@,
    );
    match cfg.pubsub.fetch_message_max_bytes {
        Some(v) => m.insert("fetch.message.max.bytes"@, v@),
        None => m,
    }
}

/// Fills `c` with the options for one consumer connection under the given
/// group identifier.
pub fn consumer_client_config(config: &Config, group_id: &str, c: &mut ClientConfig)
    ensures
        config_entries(*final(c)) == consumer_entries(*config, group_id@),
{
    get_client_config(config, c);
    config_set(c, "group.id", group_id);
    config_set(c, "client.id", "rpcperf_subscriber");
    config_set(c, "enable.partition.eof", "false");
    config_set(c, "enable.auto.commit", "false");
    config_set(c, "auto.offset.reset", config.pubsub.auto_offset_reset.as_str());
    match &config.pubsub.fetch_message_max_bytes {
        Some(v) => config_set(c, "fetch.message.max.bytes", v.as_str()),
        None => {},
    }
}

/// The consumer-group identifier for pool slot `id`: the fixed prefix
/// followed by the slot's group index in decimal. Under a single subscriber
/// group every slot uses index 0.
pub open spec fn group_id_chars(single_group: bool, id: nat) -> Seq<char> {
    "rpcperf_subscriber_"@ + dec_str(if single_group { 0 } else { id })
}

/// Renders the consumer-group identifier for pool slot `id`.
pub fn subscriber_group_id(single_group: bool, id: usize) -> (s: String)
    ensures
        s@ == group_id_chars(single_group, id as nat),
{
    let group_index: u64 = if single_group {
        0
    } else {
        id as u64
    };
    let mut s = String::new();
    s.append("rpcperf_subscriber_");
    let digits = u64_to_dec(group_index);
    s.append(digits.as_str());
    proof {
        assert(s@ =~= group_id_chars(single_group, id as nat));
    }
    s
}

} // verus!
