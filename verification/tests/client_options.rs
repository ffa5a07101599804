use pubsub_core::client::{
    consumer_client_config, get_client_config, option_value, producer_client_config,
    subscriber_group_id,
};
use pubsub_core::config::{Config, PubsubConfig, TargetConfig, TlsConfig};
use rdkafka::ClientConfig;

fn sample_config(exactly_once: bool, tls: Option<TlsConfig>) -> Config {
    Config {
        target: TargetConfig {
            endpoints: vec![String::from("h1:9092"), String::from("h2:9092")],
            connect_timeout_ms: 250,
            publish_timeout_ms: 1000,
        },
        pubsub: PubsubConfig {
            publisher_poolsize: 2,
            publisher_concurrency: 4,
            acks: String::from("all"),
            compression_type: String::from("lz4"),
            linger_ms: Some(String::from("5")),
            batch_size: None,
            batch_num_messages: None,
            request_timeout_ms: None,
            exactly_once,
            auto_offset_reset: String::from("earliest"),
            fetch_message_max_bytes: None,
        },
        tls,
    }
}

fn value(c: &ClientConfig, key: &str) -> Option<String> {
    option_value(c, key)
}

#[test]
fn base_options_hold_endpoints_and_timeouts() {
    let cfg = sample_config(false, None);
    let mut c = ClientConfig::new();
    get_client_config(&cfg, &mut c);
    assert_eq!(value(&c, "bootstrap.servers"), Some(String::from("h1:9092,h2:9092")));
    assert_eq!(value(&c, "socket.timeout.ms"), Some(String::from("250")));
    assert_eq!(value(&c, "socket.nagle.disable"), Some(String::from("true")));
    assert_eq!(value(&c, "message.timeout.ms"), Some(String::from("1000")));
    assert_eq!(value(&c, "security.protocol"), None);
    assert_eq!(value(&c, "acks"), None);
}

#[test]
fn tls_options_disable_verification_and_apply_material() {
    let tls = TlsConfig {
        ca_file: Some(String::from("ca.pem")),
        certificate: Some(String::from("client.pem")),
        private_key: Some(String::from("client.key")),
        private_key_password: Some(String::from("SECRET-REDACTED")),
    };
    let cfg = sample_config(false, Some(tls));
    let mut c = ClientConfig::new();
    get_client_config(&cfg, &mut c);
    assert_eq!(value(&c, "security.protocol"), Some(String::from("ssl")));
    assert_eq!(
        value(&c, "enable.ssl.certificate.verification"),
        Some(String::from("false"))
    );
    assert_eq!(value(&c, "ssl.ca.location"), Some(String::from("ca.pem")));
    assert_eq!(value(&c, "ssl.certificate.location"), Some(String::from("client.pem")));
    assert_eq!(value(&c, "ssl.key.location"), Some(String::from("client.key")));
    assert_eq!(value(&c, "ssl.key.password"), Some(String::from("SECRET-REDACTED")));
}

#[test]
fn tls_options_skip_absent_material() {
    let tls = TlsConfig {
        ca_file: None,
        certificate: None,
        private_key: Some(String::from("client.key")),
        private_key_password: None,
    };
    let cfg = sample_config(false, Some(tls));
    let mut c = ClientConfig::new();
    get_client_config(&cfg, &mut c);
    assert_eq!(value(&c, "ssl.ca.location"), None);
    assert_eq!(value(&c, "ssl.certificate.location"), None);
    assert_eq!(value(&c, "ssl.key.location"), Some(String::from("client.key")));
    assert_eq!(value(&c, "ssl.key.password"), None);
}

#[test]
fn producer_options_apply_overrides() {
    let cfg = sample_config(false, None);
    let mut c = ClientConfig::new();
    producer_client_config(&cfg, &mut c);
    assert_eq!(value(&c, "acks"), Some(String::from("all")));
    assert_eq!(value(&c, "compression.type"), Some(String::from("lz4")));
    assert_eq!(value(&c, "linger.ms"), Some(String::from("5")));
    assert_eq!(value(&c, "batch.size"), None);
    assert_eq!(value(&c, "enable.idempotence"), None);
    assert_eq!(value(&c, "bootstrap.servers"), Some(String::from("h1:9092,h2:9092")));
}

#[test]
fn exactly_once_serializes_in_flight_requests() {
    let cfg = sample_config(true, None);
    let mut c = ClientConfig::new();
    producer_client_config(&cfg, &mut c);
    assert_eq!(value(&c, "enable.idempotence"), Some(String::from("true")));
    assert_eq!(
        value(&c, "max.in.flight.requests.per.connection"),
        Some(String::from("1"))
    );
}

#[test]
fn consumer_options_control_offsets_and_group() {
    let cfg = sample_config(false, None);
    let mut c = ClientConfig::new();
    consumer_client_config(&cfg, "rpcperf_subscriber_2", &mut c);
    assert_eq!(value(&c, "group.id"), Some(String::from("rpcperf_subscriber_2")));
    assert_eq!(value(&c, "client.id"), Some(String::from("rpcperf_subscriber")));
    assert_eq!(value(&c, "enable.partition.eof"), Some(String::from("false")));
    assert_eq!(value(&c, "enable.auto.commit"), Some(String::from("false")));
    assert_eq!(value(&c, "auto.offset.reset"), Some(String::from("earliest")));
    assert_eq!(value(&c, "fetch.message.max.bytes"), None);
}

#[test]
fn group_id_follows_slot_unless_single_group() {
    assert_eq!(subscriber_group_id(false, 0).as_str(), "rpcperf_subscriber_0");
    assert_eq!(subscriber_group_id(false, 3).as_str(), "rpcperf_subscriber_3");
    assert_eq!(subscriber_group_id(true, 3).as_str(), "rpcperf_subscriber_0");
    assert_eq!(subscriber_group_id(true, 17).as_str(), "rpcperf_subscriber_0");
}
