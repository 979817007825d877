use whoops::config::DatabaseConfigBase;
use whoops::db::{
    try_load_config, DatabaseBackend, InvalidConnectOptions, SqliteConnectOptions,
};
use whoops::models::{MonitorStatus, Timestamp};
use whoops::monitor::tasks::endpoint::{
    EndpointMonitor, V1Alpha1EndpointMonitorBuilder, V1Alpha1EndpointMonitorSpec,
};

#[test]
fn in_memory_options_connect_to_memory() {
    let options = SqliteConnectOptions::new_in_memory();
    assert_eq!(options.in_memory, Some(true));
    assert_eq!(options.file_path, None);
    assert!(options.is_connectable());
    assert_eq!(options.get_connect_url(), "sqlite::memory:");
}

#[test]
fn file_options_connect_to_the_file() {
    let options = SqliteConnectOptions { in_memory: None, file_path: Some("/var/lib/whoops.db".to_string()) };
    assert_eq!(options.get_connect_url(), "sqlite://var/lib/whoops.db?mode=rwc");
    let options = SqliteConnectOptions { in_memory: Some(false), file_path: Some("data.db".to_string()) };
    assert_eq!(options.get_connect_url(), "sqlite:/data.db?mode=rwc");
}

#[test]
fn memory_wins_over_a_file() {
    let options = SqliteConnectOptions { in_memory: Some(true), file_path: Some("data.db".to_string()) };
    assert_eq!(options.get_connect_url(), "sqlite::memory:");
}

#[test]
fn options_without_any_setting_are_invalid() {
    let result = SqliteConnectOptions::from_config_base(SqliteConnectOptions {
        in_memory: None,
        file_path: None,
    });
    assert_eq!(result, Err(InvalidConnectOptions {}));
    assert_eq!(
        InvalidConnectOptions {}.message(),
        "Invalid SqliteConnectOptions - either in_memory or file_path must be set"
    );
}

#[test]
fn options_with_a_setting_are_accepted() {
    let accepted = SqliteConnectOptions::from_config_base(SqliteConnectOptions {
        in_memory: None,
        file_path: Some("data.db".to_string()),
    })
    .unwrap();
    assert_eq!(accepted.file_path, Some("data.db".to_string()));
    let odd = SqliteConnectOptions::from_config_base(SqliteConnectOptions {
        in_memory: Some(false),
        file_path: None,
    })
    .unwrap();
    assert!(!odd.is_connectable());
}

fn section(api_version: &str, kind: &str) -> Option<DatabaseConfigBase> {
    Some(DatabaseConfigBase {
        spec: serde_yaml::Value::Null,
        api_version: api_version.to_string(),
        kind: kind.to_string(),
    })
}

#[test]
fn backend_follows_version_and_kind() {
    assert_eq!(try_load_config(&None), Some(DatabaseBackend::DefaultInMemory));
    assert_eq!(try_load_config(&section("v1", "sqlite")), Some(DatabaseBackend::Sqlite));
    assert_eq!(try_load_config(&section("v1", "postgresql")), Some(DatabaseBackend::Postgresql));
    assert_eq!(try_load_config(&section("v1", "mysql")), None);
    assert_eq!(try_load_config(&section("v2", "sqlite")), None);
    assert_eq!(try_load_config(&section("", "")), None);
}

#[test]
fn endpoint_builder_names_its_kind_and_version() {
    let builder = V1Alpha1EndpointMonitorBuilder {};
    assert_eq!(builder.get_kind(), "endpoint");
    assert_eq!(builder.get_api_version(), "v1alpha1");
    let probe = builder.build(V1Alpha1EndpointMonitorSpec { uri: "http://localhost:8080".to_string() });
    assert_eq!(probe, EndpointMonitor { uri: "http://localhost:8080".to_string() });
}

#[test]
fn answered_request_is_up_and_failed_request_is_down() {
    let probe = EndpointMonitor { uri: "http://localhost:8080".to_string() };
    let now = Timestamp { secs: 1_700_000_000, nanos: 5 };
    assert_eq!(probe.survey(Ok(()), now), MonitorStatus::Up { checked_at: now });
    assert_eq!(
        probe.survey(Err("connection refused".to_string()), now),
        MonitorStatus::Down { checked_at: now, error_reason: "connection refused".to_string() }
    );
}
