use websocket_service::config::get_kafka_config;

#[test]
fn builder_sets_service_values() {
    let config = get_kafka_config().unwrap();
    assert_eq!(config.get("group.id"), Some("websocket_service"));
    assert_eq!(config.get("bootstrap.servers"), Some("localhost:9092"));
    assert_eq!(config.get("enable.auto.commit"), Some("true"));
}

#[test]
fn builder_sets_exactly_three_keys() {
    let config = get_kafka_config().unwrap();
    let keys: Vec<&str> = config.config_map().keys().copied().collect();
    assert_eq!(keys, vec!["bootstrap.servers", "enable.auto.commit", "group.id"]);
    for value in config.config_map().values() {
        assert!(!value.is_empty());
    }
}

#[test]
fn builder_sets_no_other_key() {
    let config = get_kafka_config().unwrap();
    assert_eq!(config.get("auto.offset.reset"), None);
    assert_eq!(config.get("group.id "), None);
}

#[test]
fn serialized_config_has_three_pairs() {
    let config = get_kafka_config().unwrap();
    let pairs: Vec<(String, String)> = config
        .config_map()
        .into_iter()
        .map(|(k, v)| (k.to_string(), v.to_string()))
        .collect();
    assert_eq!(pairs.len(), 3);
    assert!(pairs.contains(&("group.id".to_string(), "websocket_service".to_string())));
    assert!(pairs.contains(&("bootstrap.servers".to_string(), "localhost:9092".to_string())));
    assert!(pairs.contains(&("enable.auto.commit".to_string(), "true".to_string())));
}

#[test]
fn builder_is_idempotent() {
    let first = get_kafka_config().unwrap();
    let second = get_kafka_config().unwrap();
    assert_eq!(first.config_map(), second.config_map());
}

#[test]
fn builder_never_fails() {
    assert!(get_kafka_config().is_ok());
}
