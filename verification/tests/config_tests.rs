use bucket_ops::config::resolve_config;
use bucket_ops::config::ConfigError;

#[test]
fn missing_bucket_stops_startup() {
    let resolved = resolve_config(None, Some("us-east-1".to_string()));
    assert!(matches!(resolved, Err(ConfigError::MissingBucket)));
}

#[test]
fn missing_region_stops_startup() {
    let resolved = resolve_config(Some("my-bucket".to_string()), None);
    assert!(matches!(resolved, Err(ConfigError::MissingRegion)));
}

#[test]
fn missing_bucket_is_reported_first() {
    let resolved = resolve_config(None, None);
    assert!(matches!(resolved, Err(ConfigError::MissingBucket)));
}

#[test]
fn both_present_resolve_the_configuration() {
    let resolved = resolve_config(Some("my-bucket".to_string()), Some("eu-west-2".to_string()));
    let config = resolved.unwrap();
    assert_eq!(config.bucket, "my-bucket");
    assert_eq!(config.region, "eu-west-2");
}
