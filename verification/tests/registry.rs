use whoops::models::Monitor;
use whoops::monitor::tasks::{construction_result, TaskBuilder, TaskError, TaskFactory};

struct FixedBuilder {
    kind: &'static str,
    api_version: &'static str,
    tag: u32,
    accepts: bool,
}

impl TaskBuilder for FixedBuilder {
    type Task = (u32, String);

    fn get_api_version(&self) -> String {
        self.api_version.to_string()
    }

    fn get_kind(&self) -> String {
        self.kind.to_string()
    }

    fn build(&self, monitor: &Monitor) -> Result<(u32, String), String> {
        if self.accepts {
            Ok((self.tag, monitor.name.clone()))
        } else {
            Err("missing field `uri`".to_string())
        }
    }
}

fn builder(kind: &'static str, api_version: &'static str, tag: u32) -> FixedBuilder {
    FixedBuilder { kind, api_version, tag, accepts: true }
}

fn monitor(name: &str, kind: &str, api_version: &str) -> Monitor {
    Monitor {
        name: name.to_string(),
        current_status: None,
        api_version: api_version.to_string(),
        kind: kind.to_string(),
        configuration: None,
        spec: serde_json::Value::Null,
    }
}

#[test]
fn unregistered_type_fails_with_its_registration_name() {
    let mut factory: TaskFactory<FixedBuilder> = TaskFactory::new();
    factory.register(builder("endpoint", "v1alpha1", 1));
    let error = factory.construct_task(&monitor("db", "tcp", "v2")).unwrap_err();
    assert_eq!(error, TaskError::UnknownMonitorType("tcp/v2".to_string()));
    assert_eq!(error.message(), "unknown monitor type: tcp/v2");
}

#[test]
fn empty_factory_knows_no_type() {
    let factory: TaskFactory<FixedBuilder> = TaskFactory::new();
    assert!(factory.list_registrations().is_empty());
    assert_eq!(
        factory.construct_task(&monitor("api", "endpoint", "v1alpha1")),
        Err(TaskError::UnknownMonitorType("endpoint/v1alpha1".to_string()))
    );
}

#[test]
fn same_kind_with_other_version_is_unregistered() {
    let mut factory: TaskFactory<FixedBuilder> = TaskFactory::new();
    factory.register(builder("endpoint", "v1alpha1", 1));
    assert_eq!(
        factory.construct_task(&monitor("api", "endpoint", "v1")),
        Err(TaskError::UnknownMonitorType("endpoint/v1".to_string()))
    );
}

#[test]
fn registered_type_is_built_by_its_builder() {
    let mut factory: TaskFactory<FixedBuilder> = TaskFactory::new();
    factory.register(builder("endpoint", "v1alpha1", 1));
    factory.register(builder("tcp", "v1", 2));
    assert_eq!(
        factory.construct_task(&monitor("api", "endpoint", "v1alpha1")),
        Ok((1, "api".to_string()))
    );
    assert_eq!(factory.construct_task(&monitor("db", "tcp", "v1")), Ok((2, "db".to_string())));
}

#[test]
fn last_registration_wins() {
    let mut factory: TaskFactory<FixedBuilder> = TaskFactory::new();
    factory.register(builder("endpoint", "v1alpha1", 1));
    factory.register(builder("endpoint", "v1alpha1", 2));
    assert_eq!(factory.list_registrations(), vec!["endpoint/v1alpha1".to_string()]);
    assert_eq!(
        factory.construct_task(&monitor("api", "endpoint", "v1alpha1")),
        Ok((2, "api".to_string()))
    );
}

#[test]
fn bulk_registration_registers_each_in_turn() {
    let mut factory: TaskFactory<FixedBuilder> = TaskFactory::new();
    factory.bulk_register(vec![
        builder("endpoint", "v1alpha1", 1),
        builder("tcp", "v1", 2),
        builder("endpoint", "v1alpha1", 3),
    ]);
    assert_eq!(
        factory.list_registrations(),
        vec!["endpoint/v1alpha1".to_string(), "tcp/v1".to_string()]
    );
    assert_eq!(
        factory.construct_task(&monitor("api", "endpoint", "v1alpha1")),
        Ok((3, "api".to_string()))
    );
}

#[test]
fn registration_names_join_kind_and_version() {
    assert_eq!(
        TaskFactory::<FixedBuilder>::monitor_registration_name(&monitor("api", "endpoint", "v1alpha1")),
        "endpoint/v1alpha1"
    );
    assert_eq!(
        TaskFactory::<FixedBuilder>::builder_registration_name(&builder("tcp", "v1", 0)),
        "tcp/v1"
    );
    assert_eq!(
        TaskFactory::<FixedBuilder>::monitor_registration_name(&monitor("odd", "", "")),
        "/"
    );
}

#[test]
fn lookup_finds_the_builder() {
    let mut factory: TaskFactory<FixedBuilder> = TaskFactory::new();
    factory.register(builder("endpoint", "v1alpha1", 9));
    let found = factory.lookup(&monitor("api", "endpoint", "v1alpha1")).ok().map(|b| b.tag);
    assert_eq!(found, Some(9));
    assert!(factory.lookup(&monitor("api", "endpoint", "v9")).is_err());
}

#[test]
fn rejected_monitor_fails_with_the_builders_text() {
    let mut factory: TaskFactory<FixedBuilder> = TaskFactory::new();
    factory.register(FixedBuilder { kind: "endpoint", api_version: "v1alpha1", tag: 1, accepts: false });
    let error = factory.construct_task(&monitor("api", "endpoint", "v1alpha1")).unwrap_err();
    assert_eq!(error, TaskError::Construction("missing field `uri`".to_string()));
    assert_eq!(error.message(), "missing field `uri`");
}

#[test]
fn construction_result_wraps_the_builders_failure() {
    let built: Result<u8, String> = Err("bad spec".to_string());
    assert_eq!(construction_result(built), Err(TaskError::Construction("bad spec".to_string())));
    let built: Result<u8, String> = Ok(3);
    assert_eq!(construction_result(built), Ok(3));
}

#[test]
fn task_error_messages() {
    assert_eq!(TaskError::ConfigurationNotSet.message(), "configuration not set");
    assert_eq!(TaskError::CheckIntervalNotSet.message(), "check_interval not set");
    assert_eq!(TaskError::Construction("x".to_string()).message(), "x");
    let error = TaskError::UnknownMonitorType("a/b".to_string());
    assert_eq!(error.clone(), error);
}
