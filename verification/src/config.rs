//! What the configuration files declare: monitors, the database section and
//! the settings that apply to all monitors.

use crate::extensions::MappingExt;
use crate::models::{Monitor, MonitorConfiguration};
use std::time::Duration;
use vstd::prelude::*;
use vstd::string::StringExecFns;

verus! {

/// `serde_yaml::Value`, a YAML document. It is carried along and never
/// looked into.
#[verifier::external_type_specification]
#[verifier::external_body]
pub struct ExYamlValue(serde_yaml::Value);

/// The number of seconds between two surveys where no interval is configured
/// at all.
pub const DEFAULT_CHECK_INTERVAL_SECS: u64 = 30;

/// The duration that `Duration::from_secs` makes of a number of seconds.
pub uninterp spec fn duration_of_secs(secs: u64) -> Duration;

/// `Duration::from_secs` is a function of its argument.
pub assume_specification[ Duration::from_secs ](secs: u64) -> (d: Duration)
    ensures
        d == duration_of_secs(secs),
;

/// Monitor settings as they are declared, for one monitor or for all.
#[derive(Debug, PartialEq, Eq)]
pub struct MonitorGeneralConfig {
    pub check_interval: Option<Duration>,
}

impl Clone for MonitorGeneralConfig {
    fn clone(&self) -> (r: MonitorGeneralConfig)
        ensures
            r == *self,
    {
        MonitorGeneralConfig { check_interval: self.check_interval }
    }
}

impl Default for MonitorGeneralConfig {
    fn default() -> (r: MonitorGeneralConfig)
        ensures
            r.check_interval == Some(duration_of_secs(DEFAULT_CHECK_INTERVAL_SECS)),
    {
        MonitorGeneralConfig {
            check_interval: Some(Duration::from_secs(DEFAULT_CHECK_INTERVAL_SECS)),
        }
    }
}

impl MonitorGeneralConfig {
    /// The configuration of a monitor with these settings.
    pub open spec fn mapped(self) -> MonitorConfiguration {
        MonitorConfiguration { check_interval: self.check_interval }
    }
}

impl MappingExt<MonitorConfiguration> for MonitorGeneralConfig {
    fn object_map(self) -> (r: MonitorConfiguration)
        ensures
            r == self.mapped(),
    {
        MonitorConfiguration { check_interval: self.check_interval }
    }
}

/// The configuration of a monitor whose settings, if it has any, are
/// `config`.
pub open spec fn mapped_config(config: Option<MonitorGeneralConfig>) -> Option<
    MonitorConfiguration,
> {
    match config {
        Some(config) => Some(config.mapped()),
        None => None,
    }
}

impl MappingExt<Option<MonitorConfiguration>> for Option<MonitorGeneralConfig> {
    fn object_map(self) -> (r: Option<MonitorConfiguration>)
        ensures
            r == mapped_config(self),
    {
        match self {
            Some(config) => Some(config.object_map()),
            None => None,
        }
    }
}

/// A monitor as it is declared.
#[derive(Debug, PartialEq)]
pub struct MonitorBase {
    pub spec: serde_json::Value,
    pub api_version: String,
    pub kind: String,
    pub source_file: String,
    pub name: String,
    pub monitor_config: Option<MonitorGeneralConfig>,
}

impl Clone for MonitorBase {
    fn clone(&self) -> (r: MonitorBase)
        ensures
            r == *self,
    {
        MonitorBase {
            spec: self.spec.clone(),
            api_version: self.api_version.clone(),
            kind: self.kind.clone(),
            source_file: self.source_file.clone(),
            name: self.name.clone(),
            monitor_config: match &self.monitor_config {
                Some(config) => Some(config.clone()),
                None => None,
            },
        }
    }
}

impl MonitorBase {
    /// The monitor that is created for a declaration: it has no status yet.
    pub open spec fn mapped(self) -> Monitor {
        Monitor {
            name: self.name,
            current_status: None,
            api_version: self.api_version,
            kind: self.kind,
            configuration: mapped_config(self.monitor_config),
            spec: self.spec,
        }
    }
}

impl MappingExt<Monitor> for MonitorBase {
    fn object_map(self) -> (r: Monitor)
        ensures
            r == self.mapped(),
    {
        Monitor {
            name: self.name,
            current_status: None,
            api_version: self.api_version,
            kind: self.kind,
            configuration: self.monitor_config.object_map(),
            spec: self.spec,
        }
    }
}

/// Whether a file with this extension is read as a configuration file.
pub fn is_yaml_extension(extension: &str) -> (r: bool)
    ensures
        r == (extension@ == "yaml"@ || extension@ == "yml"@),
{
    let extension = String::from_str(extension);
    extension == String::from_str("yaml") || extension == String::from_str("yml")
}

/// The database section of a configuration. Its `spec` is read by the
/// backend that `api_version` and `kind` select.
#[derive(Debug, PartialEq)]
pub struct DatabaseConfigBase {
    pub spec: serde_yaml::Value,
    pub api_version: String,
    pub kind: String,
}

/// What the configuration files of the server declare. `A` is the
/// configuration of the application that the server hosts.
#[derive(Debug, PartialEq)]
pub struct ServerConfig<A> {
    pub app_config: Option<A>,
    pub monitors: Option<Vec<MonitorBase>>,
    pub db: Option<DatabaseConfigBase>,
    pub global_monitor_config: Option<MonitorGeneralConfig>,
}

/// `monitor` as declared in the file `path`.
pub open spec fn declared_in(monitor: MonitorBase, path: Seq<char>, result: MonitorBase) -> bool {
    &&& result.source_file@ == path
    &&& result.spec == monitor.spec
    &&& result.api_version == monitor.api_version
    &&& result.kind == monitor.kind
    &&& result.name == monitor.name
    &&& result.monitor_config == monitor.monitor_config
}

impl<A> Default for ServerConfig<A> {
    fn default() -> (r: ServerConfig<A>)
        ensures
            r.app_config is None,
            r.monitors is None,
            r.db is None,
            r.global_monitor_config is None,
    {
        ServerConfig { app_config: None, monitors: None, db: None, global_monitor_config: None }
    }
}

impl<A> ServerConfig<A> {
    /// The declared monitors after `other` was merged into `self`: those of
    /// both, the ones of `self` first.
    pub open spec fn merged_monitors(self, other: ServerConfig<A>) -> Option<Seq<MonitorBase>> {
        match (self.monitors, other.monitors) {
            (Some(old), Some(new)) => Some(old@ + new@),
            (None, Some(new)) => Some(new@),
            (Some(old), None) => Some(old@),
            (None, None) => None,
        }
    }

    /// Marks every declared monitor as coming from the file `path`.
    pub fn set_source_file(&mut self, path: &str)
        ensures
            final(self).app_config == old(self).app_config,
            final(self).db == old(self).db,
            final(self).global_monitor_config == old(self).global_monitor_config,
            old(self).monitors is None ==> final(self).monitors is None,
            old(self).monitors is Some ==> {
                &&& final(self).monitors is Some
                &&& final(self).monitors->Some_0.len() == old(self).monitors->Some_0.len()
                &&& forall|i: int|
                    0 <= i < old(self).monitors->Some_0.len() ==> declared_in(
                        old(self).monitors->Some_0[i],
                        path@,
                        #[trigger] final(self).monitors->Some_0[i],
                    )
            },
    {
        if let Some(monitors) = self.monitors.take() {
            let ghost before = monitors@;
            let mut marked: Vec<MonitorBase> = Vec::new();
            for monitor in iter: monitors
                invariant
                    iter.seq() == before,
                    marked.len() == iter.index(),
                    forall|i: int|
                        0 <= i < marked.len() ==> declared_in(before[i], path@, #[trigger] marked[i]),
            {
                let MonitorBase { spec, api_version, kind, source_file: _, name, monitor_config } =
                    monitor;
                marked.push(
                    MonitorBase {
                        spec,
                        api_version,
                        kind,
                        source_file: String::from_str(path),
                        name,
                        monitor_config,
                    },
                );
            }
            self.monitors = Some(marked);
        }
    }

    /// Takes over what `other` holds: its declared monitors, behind those of
    /// `self`, and its application and database sections where it has them.
    /// The global monitor settings of `other` are not taken over.
    pub fn merge(&mut self, other: ServerConfig<A>)
        ensures
            final(self).app_config == if other.app_config is Some {
                other.app_config
            } else {
                old(self).app_config
            },
            final(self).db == if other.db is Some {
                other.db
            } else {
                old(self).db
            },
            final(self).global_monitor_config == old(self).global_monitor_config,
            match old(self).merged_monitors(other) {
                Some(monitors) => final(self).monitors is Some && final(self).monitors->Some_0@
                    == monitors,
                None => final(self).monitors is None,
            },
    {
        let ServerConfig { app_config, monitors, db, global_monitor_config: _ } = other;
        if let Some(new_monitors) = monitors {
            let mut new_monitors = new_monitors;
            match self.monitors.take() {
                Some(old_monitors) => {
                    let mut old_monitors = old_monitors;
                    old_monitors.append(&mut new_monitors);
                    self.monitors = Some(old_monitors);
                },
                None => {
                    self.monitors = Some(new_monitors);
                },
            }
        }
        if let Some(new_app_config) = app_config {
            self.app_config = Some(new_app_config);
        }
        if let Some(new_db_config) = db {
            self.db = Some(new_db_config);
        }
    }
}

} // verus!
