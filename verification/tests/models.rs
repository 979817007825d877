use std::time::Duration;
use whoops::config::{MonitorBase, MonitorGeneralConfig};
use whoops::db::errors::RepoErrExts;
use whoops::extensions::{MappingCloneExt, MappingExt};
use whoops::models::{Monitor, MonitorConfiguration, MonitorStatus, RepositoryError, Timestamp};

fn declared(name: &str, interval: Option<Duration>) -> MonitorBase {
    MonitorBase {
        spec: serde_json::Value::String("https://example.org".to_string()),
        api_version: "v1alpha1".to_string(),
        kind: "endpoint".to_string(),
        source_file: "monitors.yaml".to_string(),
        name: name.to_string(),
        monitor_config: interval.map(|d| MonitorGeneralConfig { check_interval: Some(d) }),
    }
}

#[test]
fn merge_fills_unset_interval_from_global_default() {
    let global = MonitorConfiguration { check_interval: Some(Duration::from_secs(30)) };
    let mut own = MonitorConfiguration { check_interval: None };
    own.merge_with(&global);
    assert_eq!(own.check_interval, Some(Duration::from_secs(30)));
}

#[test]
fn merge_keeps_own_interval() {
    let global = MonitorConfiguration { check_interval: Some(Duration::from_secs(30)) };
    let mut own = MonitorConfiguration { check_interval: Some(Duration::from_secs(5)) };
    own.merge_with(&global);
    assert_eq!(own.check_interval, Some(Duration::from_secs(5)));
}

#[test]
fn merge_of_two_unset_intervals_stays_unset() {
    let global = MonitorConfiguration { check_interval: None };
    let mut own = MonitorConfiguration { check_interval: None };
    own.merge_with(&global);
    assert_eq!(own.check_interval, None);
}

#[test]
fn merge_with_unset_global_keeps_own_interval() {
    let global = MonitorConfiguration { check_interval: None };
    let mut own = MonitorConfiguration { check_interval: Some(Duration::from_millis(1500)) };
    own.merge_with(&global);
    assert_eq!(own.check_interval, Some(Duration::from_millis(1500)));
}

#[test]
fn default_status_is_unknown() {
    assert_eq!(MonitorStatus::default(), MonitorStatus::Unknown);
    assert!(!MonitorStatus::Unknown.is_recordable());
    assert!(MonitorStatus::Up { checked_at: Timestamp { secs: 1, nanos: 0 } }.is_recordable());
}

#[test]
fn status_clone_is_equal() {
    let down = MonitorStatus::Down {
        checked_at: Timestamp { secs: 1_700_000_000, nanos: 42 },
        error_reason: "connection refused".to_string(),
    };
    assert_eq!(down.clone(), down);
}

#[test]
fn timestamps_are_ordered_by_second_then_nanosecond() {
    let a = Timestamp { secs: 10, nanos: 999_999_999 };
    let b = Timestamp { secs: 11, nanos: 0 };
    let c = Timestamp { secs: 11, nanos: 1 };
    assert!(a.is_before(&b));
    assert!(b.is_before(&c));
    assert!(!c.is_before(&b));
    assert!(!b.is_before(&b));
    assert!(Timestamp { secs: -5, nanos: 7 }.is_before(&Timestamp { secs: 0, nanos: 0 }));
}

#[test]
fn repository_error_messages() {
    assert_eq!(
        RepositoryError::InternalServerError("disk full".to_string()).message(),
        "Internal Server Error: disk full"
    );
    assert_eq!(
        RepositoryError::NotFound("api".to_string()).message(),
        "Object not found: api"
    );
    let error = RepositoryError::NotFound("api".to_string());
    assert_eq!(error.clone(), error);
}

#[test]
fn storage_failure_becomes_internal_error() {
    let failed: Result<u8, String> = Err("connection lost".to_string());
    assert_eq!(
        failed.to_repo_err(),
        Err(RepositoryError::InternalServerError("connection lost".to_string()))
    );
    let fine: Result<u8, String> = Ok(7);
    assert_eq!(fine.to_repo_err(), Ok(7));
}

#[test]
fn general_config_defaults_to_thirty_seconds() {
    assert_eq!(
        MonitorGeneralConfig::default().check_interval,
        Some(Duration::from_secs(30))
    );
    assert_eq!(
        MonitorGeneralConfig::default().object_map(),
        MonitorConfiguration { check_interval: Some(Duration::from_secs(30)) }
    );
}

#[test]
fn optional_general_config_maps_to_optional_configuration() {
    let none: Option<MonitorGeneralConfig> = None;
    assert_eq!(none.object_map(), None);
    let some = Some(MonitorGeneralConfig { check_interval: None });
    assert_eq!(some.object_map(), Some(MonitorConfiguration { check_interval: None }));
}

#[test]
fn declared_monitor_maps_to_monitor_without_status() {
    let base = declared("api", Some(Duration::from_secs(5)));
    let expected = Monitor {
        name: "api".to_string(),
        current_status: None,
        api_version: "v1alpha1".to_string(),
        kind: "endpoint".to_string(),
        configuration: Some(MonitorConfiguration { check_interval: Some(Duration::from_secs(5)) }),
        spec: serde_json::Value::String("https://example.org".to_string()),
    };
    assert_eq!(base.object_map_clone(), expected);
    assert_eq!(base.clone(), base);
    assert_eq!(base.object_map(), expected);
}

#[test]
fn declared_monitor_without_config_maps_to_monitor_without_configuration() {
    let monitor = declared("api", None).object_map();
    assert_eq!(monitor.configuration, None);
    assert_eq!(monitor.check_interval(), None);
}

#[test]
fn monitor_clone_keeps_the_json_spec() {
    let mut object = serde_json::Map::new();
    object.insert("uri".to_string(), serde_json::Value::String("http://localhost".to_string()));
    let monitor = Monitor {
        name: "local".to_string(),
        current_status: Some(MonitorStatus::Unknown),
        api_version: "v1alpha1".to_string(),
        kind: "endpoint".to_string(),
        configuration: None,
        spec: serde_json::Value::Object(object),
    };
    let copy = monitor.clone();
    assert_eq!(copy, monitor);
    assert_eq!(copy.spec.get("uri").and_then(|v| v.as_str()), Some("http://localhost"));
}
