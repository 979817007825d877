use std::time::Duration;
use whoops::models::{Monitor, MonitorConfiguration};
use whoops::monitor::scheduler::{MonitorScheduler, SHUTDOWN_TIMEOUT_SECS};

fn monitor(name: &str, interval: Option<u64>) -> Monitor {
    Monitor {
        name: name.to_string(),
        current_status: None,
        api_version: "v1alpha1".to_string(),
        kind: "endpoint".to_string(),
        configuration: Some(MonitorConfiguration {
            check_interval: interval.map(Duration::from_secs),
        }),
        spec: serde_json::Value::Null,
    }
}

fn names(monitors: &[Monitor]) -> Vec<String> {
    monitors.iter().map(|m| m.name.clone()).collect()
}

#[test]
fn scheduling_twice_starts_one_task() {
    let mut scheduler = MonitorScheduler::new();
    let first = scheduler.ensure_monitors_scheduled(vec![monitor("api", Some(5))]);
    assert_eq!(first.to_start, vec![monitor("api", Some(5))]);
    assert!(first.unresolved.is_empty());
    let second = scheduler.ensure_monitors_scheduled(vec![monitor("api", Some(5))]);
    assert!(second.to_start.is_empty());
    assert!(second.unresolved.is_empty());
    assert_eq!(scheduler.task_count(), 1);
    assert!(scheduler.is_scheduled(&"api".to_string()));
}

#[test]
fn duplicate_names_in_one_call_start_one_task() {
    let mut scheduler = MonitorScheduler::new();
    let started = scheduler.ensure_monitors_scheduled(vec![
        monitor("api", Some(5)),
        monitor("db", Some(7)),
        monitor("api", Some(9)),
    ]);
    assert_eq!(started.to_start, vec![monitor("api", Some(5)), monitor("db", Some(7))]);
    assert_eq!(scheduler.task_count(), 2);
}

#[test]
fn changed_definition_is_not_rescheduled() {
    let mut scheduler = MonitorScheduler::new();
    scheduler.ensure_monitors_scheduled(vec![monitor("api", Some(5))]);
    let again = scheduler.ensure_monitors_scheduled(vec![monitor("api", Some(60))]);
    assert!(again.to_start.is_empty());
}

#[test]
fn monitor_without_interval_is_passed_over_until_it_has_one() {
    let mut scheduler = MonitorScheduler::new();
    let started = scheduler.ensure_monitors_scheduled(vec![monitor("api", None), monitor("db", Some(1))]);
    assert_eq!(names(&started.to_start), vec!["db".to_string()]);
    assert_eq!(started.unresolved, vec!["api".to_string()]);
    assert!(!scheduler.is_scheduled(&"api".to_string()));
    let mut bare = monitor("api", None);
    bare.configuration = None;
    let passed_over = scheduler.ensure_monitors_scheduled(vec![bare]);
    assert!(passed_over.to_start.is_empty());
    assert_eq!(passed_over.unresolved, vec!["api".to_string()]);
    let later = scheduler.ensure_monitors_scheduled(vec![monitor("api", Some(3))]);
    assert_eq!(names(&later.to_start), vec!["api".to_string()]);
    assert!(later.unresolved.is_empty());
    assert_eq!(scheduler.task_count(), 2);
}

#[test]
fn new_monitors_are_started_next_to_running_ones() {
    let mut scheduler = MonitorScheduler::new();
    scheduler.ensure_monitors_scheduled(vec![monitor("a", Some(1)), monitor("b", Some(1))]);
    let started = scheduler.ensure_monitors_scheduled(vec![
        monitor("b", Some(1)),
        monitor("c", Some(1)),
        monitor("a", Some(1)),
        monitor("d", Some(1)),
    ]);
    assert_eq!(names(&started.to_start), vec!["c".to_string(), "d".to_string()]);
    assert_eq!(scheduler.task_count(), 4);
}

#[test]
fn empty_offer_starts_nothing() {
    let mut scheduler = MonitorScheduler::new();
    let nothing = scheduler.ensure_monitors_scheduled(Vec::new());
    assert!(nothing.to_start.is_empty());
    assert!(nothing.unresolved.is_empty());
    assert_eq!(scheduler.task_count(), 0);
}

#[test]
fn shutdown_hands_out_every_task_and_forgets_them() {
    let mut scheduler = MonitorScheduler::new();
    scheduler.ensure_monitors_scheduled(vec![monitor("a", Some(1)), monitor("b", Some(1))]);
    assert_eq!(scheduler.wait_for_shutdown(), vec!["a".to_string(), "b".to_string()]);
    assert_eq!(scheduler.task_count(), 0);
    assert!(!scheduler.is_scheduled(&"a".to_string()));
    assert!(scheduler.wait_for_shutdown().is_empty());
}

#[test]
fn unresolved_monitor_with_a_running_name_is_still_reported() {
    let mut scheduler = MonitorScheduler::new();
    scheduler.ensure_monitors_scheduled(vec![monitor("api", Some(5))]);
    let again = scheduler.ensure_monitors_scheduled(vec![monitor("api", None), monitor("api", None)]);
    assert!(again.to_start.is_empty());
    assert_eq!(again.unresolved, vec!["api".to_string(), "api".to_string()]);
    assert_eq!(scheduler.task_count(), 1);
}

#[test]
fn shutdown_timeout_is_thirty_seconds() {
    assert_eq!(SHUTDOWN_TIMEOUT_SECS, 30);
}
