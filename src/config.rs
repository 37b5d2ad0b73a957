use crate::error::ServiceError;
use rdkafka::config::ClientConfig;
use vstd::prelude::*;

verus! {

/// rdkafka's client configuration, opaque here: what it holds is seen
/// through `config_entries`.
#[verifier::external_type_specification]
#[verifier::external_body]
pub struct ExClientConfig(ClientConfig);

/// The key-value parameters that a `ClientConfig` holds (its `conf_map`);
/// the log level it also carries is not part of them.
pub uninterp spec fn config_entries(c: ClientConfig) -> Map<Seq<char>, Seq<char>>;

/// A parameter map with no keys.
pub open spec fn no_entries() -> Map<Seq<char>, Seq<char>> {
    Map::empty()
}

/// Relies on `rdkafka::config::ClientConfig::new`: the configuration starts
/// with no parameters set.
pub assume_specification[ ClientConfig::new ]() -> (r: ClientConfig)
    ensures
        config_entries(r) == no_entries(),
;

/// Relies on `rdkafka::config::ClientConfig::set`: it inserts the pair into
/// the parameter map, replacing an earlier value of the same key.
#[verifier::external_body]
fn set_entry(c: &mut ClientConfig, key: &str, value: &str)
    ensures
        config_entries(*final(c)) == config_entries(*old(c)).insert(key@, value@),
{
    c.set(key, value);
}

/// The parameters of the service's broker client.
pub open spec fn kafka_settings() -> Map<Seq<char>, Seq<char>> {
    map![
        "group.id"@ => "websocket_service"@,
        "bootstrap.servers"@ => "localhost:9092"@,
        "enable.auto.commit"@ => "true"@,
    ]
}

/// The keys that the service's broker client configuration sets.
pub open spec fn kafka_keys() -> Set<Seq<char>> {
    set!["group.id"@, "bootstrap.servers"@, "enable.auto.commit"@]
}

/// What the builder returns: a configuration holding exactly the service's
/// parameters.
pub open spec fn built_config(r: Result<ClientConfig, ServiceError>) -> bool {
    match r {
        Ok(c) => config_entries(c) == kafka_settings(),
        Err(_) => false,
    }
}

/// The service's settings name exactly the three keys, each with a
/// non-empty value, and hold the values of the service's broker client.
pub proof fn lemma_kafka_settings_complete()
    ensures
        kafka_settings().dom() == kafka_keys(),
        kafka_settings().dom().len() == 3,
        forall|k: Seq<char>| #[trigger]
            kafka_settings().contains_key(k) ==> kafka_settings()[k].len() > 0,
        kafka_settings()["group.id"@] == "websocket_service"@,
        kafka_settings()["bootstrap.servers"@] == "localhost:9092"@,
        kafka_settings()["enable.auto.commit"@] == "true"@,
{
    reveal_strlit("group.id");
    reveal_strlit("bootstrap.servers");
    reveal_strlit("enable.auto.commit");
    reveal_strlit("websocket_service");
    reveal_strlit("localhost:9092");
    reveal_strlit("true");
    assert("group.id"@.len() == 8);
    assert("bootstrap.servers"@.len() == 17);
    assert("enable.auto.commit"@.len() == 18);
    assert(kafka_settings().dom() =~= kafka_keys());
}

/// Builds the broker client configuration of the service: consumer group
/// `websocket_service`, broker `localhost:9092`, offsets committed
/// automatically. It never fails.
pub fn get_kafka_config() -> (r: Result<ClientConfig, ServiceError>)
    ensures
        built_config(r),
        r is Ok,
        config_entries(r->Ok_0).dom() == kafka_keys(),
        config_entries(r->Ok_0).dom().len() == 3,
        forall|k: Seq<char>| #[trigger]
            config_entries(r->Ok_0).contains_key(k) ==> config_entries(r->Ok_0)[k].len() > 0,
        config_entries(r->Ok_0)["group.id"@] == "websocket_service"@,
        config_entries(r->Ok_0)["bootstrap.servers"@] == "localhost:9092"@,
        config_entries(r->Ok_0)["enable.auto.commit"@] == "true"@,
{
    let mut kafka_config = ClientConfig::new();
    set_entry(&mut kafka_config, "group.id", "websocket_service");
    set_entry(&mut kafka_config, "bootstrap.servers", "localhost:9092");
    set_entry(&mut kafka_config, "enable.auto.commit", "true");
    proof {
        lemma_kafka_settings_complete();
        assert(config_entries(kafka_config) =~= kafka_settings());
    }
    Ok(kafka_config)
}

/// Two results of the builder are both configurations, and hold the same
/// parameters.
pub proof fn lemma_get_kafka_config_idempotent(
    a: Result<ClientConfig, ServiceError>,
    b: Result<ClientConfig, ServiceError>,
)
    requires
        built_config(a),
        built_config(b),
    ensures
        a is Ok,
        b is Ok,
        config_entries(a->Ok_0) == config_entries(b->Ok_0),
{
}

} // verus!
