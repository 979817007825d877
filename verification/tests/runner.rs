use std::time::Duration;
use whoops::models::{Monitor, MonitorConfiguration, MonitorStatus, RepositoryError, Timestamp};
use whoops::monitor::tasks::runner::{
    monitor_task, RunnerAction, RunnerEvent, RunnerPhase, TaskRunner,
};
use whoops::monitor::tasks::TaskError;

fn monitor_with(interval: Option<Duration>) -> Monitor {
    Monitor {
        name: "api".to_string(),
        current_status: None,
        api_version: "v1alpha1".to_string(),
        kind: "endpoint".to_string(),
        configuration: Some(MonitorConfiguration { check_interval: interval }),
        spec: serde_json::Value::Null,
    }
}

fn at(secs: i64) -> Timestamp {
    Timestamp { secs, nanos: 0 }
}

fn started() -> TaskRunner {
    monitor_task(&monitor_with(Some(Duration::from_secs(5)))).unwrap()
}

fn persist(status: MonitorStatus) -> RunnerAction {
    RunnerAction::Persist { monitor_name: "api".to_string(), status }
}

#[test]
fn task_starts_in_constructing_with_the_monitors_interval() {
    let runner = started();
    assert_eq!(runner.phase(), RunnerPhase::Constructing);
    assert_eq!(runner.interval(), Duration::from_secs(5));
    assert!(!runner.is_terminated());
    assert!(!runner.phase().is_looping());
}

#[test]
fn monitor_without_interval_gets_no_task() {
    assert_eq!(monitor_task(&monitor_with(None)).err(), Some(TaskError::CheckIntervalNotSet));
    let mut bare = monitor_with(None);
    bare.configuration = None;
    assert_eq!(monitor_task(&bare).err(), Some(TaskError::ConfigurationNotSet));
}

#[test]
fn failed_construction_persists_one_down_and_ends_in_error() {
    let mut runner = started();
    let error = TaskError::Construction("missing field `uri`".to_string());
    let action = runner.step(RunnerEvent::ConstructionFailed(error.clone()), at(100));
    assert_eq!(
        action,
        persist(MonitorStatus::Down {
            checked_at: at(100),
            error_reason: "missing field `uri`".to_string(),
        })
    );
    assert_eq!(runner.phase(), RunnerPhase::ReportingFailure);
    assert!(!runner.phase().is_looping());
    let action = runner.step(RunnerEvent::Persisted(Ok(())), at(101));
    assert_eq!(action, RunnerAction::Finish(Err(error)));
    assert!(runner.is_terminated());
    assert_eq!(runner.step(RunnerEvent::IntervalElapsed, at(102)), RunnerAction::Idle);
    assert_eq!(runner.step(RunnerEvent::Constructed, at(103)), RunnerAction::Idle);
    assert!(runner.is_terminated());
}

#[test]
fn unknown_type_is_recorded_with_its_message() {
    let mut runner = started();
    let action = runner.step(
        RunnerEvent::ConstructionFailed(TaskError::UnknownMonitorType("tcp/v2".to_string())),
        at(7),
    );
    assert_eq!(
        action,
        persist(MonitorStatus::Down {
            checked_at: at(7),
            error_reason: "unknown monitor type: tcp/v2".to_string(),
        })
    );
}

#[test]
fn failed_write_of_the_failure_still_ends_with_the_construction_error() {
    let mut runner = started();
    let error = TaskError::Construction("bad".to_string());
    runner.step(RunnerEvent::ConstructionFailed(error.clone()), at(1));
    let write_error = RepositoryError::InternalServerError("disk full".to_string());
    let action = runner.step(RunnerEvent::Persisted(Err(write_error)), at(2));
    assert_eq!(action, RunnerAction::Finish(Err(error)));
    assert!(runner.is_terminated());
    assert_eq!(runner.step(RunnerEvent::Persisted(Ok(())), at(3)), RunnerAction::Idle);
    assert_eq!(runner.step(RunnerEvent::Constructed, at(3)), RunnerAction::Idle);
}

#[test]
fn failed_write_after_unknown_type_ends_with_the_unknown_type() {
    let mut runner = started();
    let error = TaskError::UnknownMonitorType("tcp/v2".to_string());
    runner.step(RunnerEvent::ConstructionFailed(error.clone()), at(1));
    let action = runner.step(
        RunnerEvent::Persisted(Err(RepositoryError::NotFound("api".to_string()))),
        at(2),
    );
    assert_eq!(action, RunnerAction::Finish(Err(error)));
}

#[test]
fn up_down_up_is_persisted_in_that_order() {
    let mut runner = started();
    assert_eq!(runner.step(RunnerEvent::Constructed, at(0)), RunnerAction::Survey);
    let mut persisted: Vec<MonitorStatus> = Vec::new();
    let outcomes: Vec<Result<MonitorStatus, String>> = vec![
        Ok(MonitorStatus::Up { checked_at: at(10) }),
        Err("timed out".to_string()),
        Ok(MonitorStatus::Up { checked_at: at(30) }),
    ];
    let mut clock = 10;
    for outcome in outcomes {
        match runner.step(RunnerEvent::Surveyed(outcome), at(clock)) {
            RunnerAction::Persist { monitor_name, status } => {
                assert_eq!(monitor_name, "api");
                persisted.push(status);
            }
            other => panic!("expected a write, got {:?}", other),
        }
        assert_eq!(runner.phase(), RunnerPhase::Persisting);
        assert_eq!(
            runner.step(RunnerEvent::Persisted(Ok(())), at(clock)),
            RunnerAction::Wait { interval: Duration::from_secs(5) }
        );
        assert_eq!(runner.step(RunnerEvent::IntervalElapsed, at(clock)), RunnerAction::Survey);
        clock += 10;
    }
    assert_eq!(
        persisted,
        vec![
            MonitorStatus::Up { checked_at: at(10) },
            MonitorStatus::Down { checked_at: at(20), error_reason: "timed out".to_string() },
            MonitorStatus::Up { checked_at: at(30) },
        ]
    );
}

#[test]
fn probe_reported_down_is_persisted_as_reported() {
    let mut runner = started();
    runner.step(RunnerEvent::Constructed, at(0));
    let reported = MonitorStatus::Down { checked_at: at(3), error_reason: "refused".to_string() };
    assert_eq!(
        runner.step(RunnerEvent::Surveyed(Ok(reported.clone())), at(4)),
        persist(reported)
    );
}

#[test]
fn failed_status_write_does_not_stop_the_loop() {
    let mut runner = started();
    runner.step(RunnerEvent::Constructed, at(0));
    runner.step(RunnerEvent::Surveyed(Ok(MonitorStatus::Up { checked_at: at(1) })), at(1));
    let action = runner.step(
        RunnerEvent::Persisted(Err(RepositoryError::InternalServerError("down".to_string()))),
        at(2),
    );
    assert_eq!(action, RunnerAction::Wait { interval: Duration::from_secs(5) });
    assert_eq!(runner.phase(), RunnerPhase::Waiting);
    assert!(runner.phase().is_looping());
}

#[test]
fn shutdown_during_wait_ends_the_task_cleanly() {
    let mut runner = started();
    runner.step(RunnerEvent::Constructed, at(0));
    runner.step(RunnerEvent::Surveyed(Err("x".to_string())), at(1));
    runner.step(RunnerEvent::Persisted(Ok(())), at(1));
    assert_eq!(runner.step(RunnerEvent::ShutdownSignalled, at(2)), RunnerAction::Finish(Ok(())));
    assert!(runner.is_terminated());
    assert_eq!(runner.step(RunnerEvent::ShutdownSignalled, at(3)), RunnerAction::Idle);
}

#[test]
fn shutdown_stops_every_waiting_task() {
    let mut runners: Vec<TaskRunner> = Vec::new();
    for hours in 1..=4u64 {
        let mut runner = monitor_task(&monitor_with(Some(Duration::from_secs(hours * 3600)))).unwrap();
        runner.step(RunnerEvent::Constructed, at(0));
        runner.step(RunnerEvent::Surveyed(Ok(MonitorStatus::Up { checked_at: at(1) })), at(1));
        runner.step(RunnerEvent::Persisted(Ok(())), at(1));
        runners.push(runner);
    }
    for runner in runners.iter_mut() {
        assert_eq!(runner.step(RunnerEvent::ShutdownSignalled, at(2)), RunnerAction::Finish(Ok(())));
        assert!(runner.is_terminated());
    }
}

#[test]
fn events_that_are_not_awaited_change_nothing() {
    let mut runner = started();
    assert_eq!(runner.step(RunnerEvent::ShutdownSignalled, at(0)), RunnerAction::Idle);
    assert_eq!(runner.step(RunnerEvent::Persisted(Ok(())), at(0)), RunnerAction::Idle);
    assert_eq!(runner.phase(), RunnerPhase::Constructing);
    runner.step(RunnerEvent::Constructed, at(0));
    assert_eq!(runner.step(RunnerEvent::ShutdownSignalled, at(0)), RunnerAction::Idle);
    assert_eq!(runner.step(RunnerEvent::IntervalElapsed, at(0)), RunnerAction::Idle);
    assert_eq!(runner.phase(), RunnerPhase::Surveying);
}

#[test]
fn survey_that_reports_unknown_writes_nothing_and_waits() {
    let mut runner = started();
    runner.step(RunnerEvent::Constructed, at(0));
    assert_eq!(
        runner.step(RunnerEvent::Surveyed(Ok(MonitorStatus::Unknown)), at(1)),
        RunnerAction::Wait { interval: Duration::from_secs(5) }
    );
    assert_eq!(runner.phase(), RunnerPhase::Waiting);
    assert_eq!(runner.step(RunnerEvent::Persisted(Ok(())), at(1)), RunnerAction::Idle);
    assert_eq!(runner.step(RunnerEvent::IntervalElapsed, at(6)), RunnerAction::Survey);
    assert_eq!(
        runner.step(RunnerEvent::Surveyed(Ok(MonitorStatus::Up { checked_at: at(6) })), at(6)),
        persist(MonitorStatus::Up { checked_at: at(6) })
    );
}

#[test]
fn unknown_between_observations_leaves_no_gap_in_the_order() {
    let mut runner = started();
    runner.step(RunnerEvent::Constructed, at(0));
    let outcomes: Vec<Result<MonitorStatus, String>> = vec![
        Ok(MonitorStatus::Up { checked_at: at(1) }),
        Ok(MonitorStatus::Unknown),
        Err("refused".to_string()),
    ];
    let mut persisted: Vec<MonitorStatus> = Vec::new();
    let mut clock = 1;
    for outcome in outcomes {
        let mut action = runner.step(RunnerEvent::Surveyed(outcome), at(clock));
        if let RunnerAction::Persist { status, .. } = action {
            persisted.push(status);
            action = runner.step(RunnerEvent::Persisted(Ok(())), at(clock));
        }
        assert_eq!(action, RunnerAction::Wait { interval: Duration::from_secs(5) });
        assert_eq!(runner.step(RunnerEvent::IntervalElapsed, at(clock)), RunnerAction::Survey);
        clock += 1;
    }
    assert_eq!(
        persisted,
        vec![
            MonitorStatus::Up { checked_at: at(1) },
            MonitorStatus::Down { checked_at: at(3), error_reason: "refused".to_string() },
        ]
    );
}

#[test]
fn shutdown_after_an_unknown_survey_ends_the_task_cleanly() {
    let mut runner = started();
    runner.step(RunnerEvent::Constructed, at(0));
    runner.step_now(RunnerEvent::Surveyed(Ok(MonitorStatus::Unknown)));
    assert_eq!(runner.step(RunnerEvent::ShutdownSignalled, at(2)), RunnerAction::Finish(Ok(())));
}

#[test]
fn step_now_stamps_failures_with_the_wall_clock() {
    let mut runner = started();
    runner.step(RunnerEvent::Constructed, at(0));
    match runner.step_now(RunnerEvent::Surveyed(Err("timed out".to_string()))) {
        RunnerAction::Persist { monitor_name, status: MonitorStatus::Down { checked_at, error_reason } } => {
            assert_eq!(monitor_name, "api");
            assert_eq!(error_reason, "timed out");
            assert!(checked_at.secs > 1_600_000_000);
            assert!(checked_at.nanos < 2_000_000_000);
        }
        other => panic!("expected a write of Down, got {:?}", other),
    }
}
