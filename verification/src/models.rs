//! The data model: monitors, their statuses and settings, points in time,
//! and the errors of the repository.

use std::time::Duration;
use vstd::prelude::*;
use vstd::string::StringExecFns;

verus! {

/// `serde_json::Value`, a JSON document. It is carried along and never
/// looked into.
#[verifier::external_type_specification]
#[verifier::external_body]
pub struct ExJsonValue(serde_json::Value);

/// `serde_json::Value` derives `Clone`: the copy is the same JSON document.
pub assume_specification[ <serde_json::Value as Clone>::clone ](value: &serde_json::Value) -> (r:
    serde_json::Value)
    ensures
        r == *value,
;

/// A point in time: whole seconds since the Unix epoch and the nanoseconds
/// that have passed within that second.
#[derive(Clone, Copy, Debug, PartialEq, Eq, Structural)]
pub struct Timestamp {
    pub secs: i64,
    pub nanos: u32,
}

impl Timestamp {
    /// Strict chronological order: earlier second, or same second and fewer
    /// nanoseconds.
    pub open spec fn precedes(self, other: Timestamp) -> bool {
        self.secs < other.secs || (self.secs == other.secs && self.nanos < other.nanos)
    }

    pub fn is_before(&self, other: &Timestamp) -> (r: bool)
        ensures
            r == self.precedes(*other),
    {
        self.secs < other.secs || (self.secs == other.secs && self.nanos < other.nanos)
    }
}

/// Reads the wall clock through `chrono::Utc::now` and splits the instant with
/// `DateTime::timestamp` and `DateTime::timestamp_subsec_nanos`. Nothing is
/// claimed about the value: it depends on the machine's clock. `Utc::now`
/// panics if that clock is set before the Unix epoch.
#[verifier::external_body]
pub(crate) fn current_time() -> (now: Timestamp) {
    let instant = chrono::Utc::now();
    Timestamp { secs: instant.timestamp(), nanos: instant.timestamp_subsec_nanos() }
}

/// The observed state of a monitor.
#[derive(Debug, PartialEq, Eq)]
pub enum MonitorStatus {
    Up { checked_at: Timestamp },
    Down { checked_at: Timestamp, error_reason: String },
    /// No observation exists yet. Never written as a new status record.
    Unknown,
}

/// Mathematical value of a [`MonitorStatus`].
pub ghost enum StatusView {
    Up { checked_at: Timestamp },
    Down { checked_at: Timestamp, error_reason: Seq<char> },
    Unknown,
}

impl View for MonitorStatus {
    type V = StatusView;

    open spec fn view(&self) -> StatusView {
        match *self {
            MonitorStatus::Up { checked_at } => StatusView::Up { checked_at },
            MonitorStatus::Down { checked_at, error_reason } => StatusView::Down {
                checked_at,
                error_reason: error_reason@,
            },
            MonitorStatus::Unknown => StatusView::Unknown,
        }
    }
}

impl Default for MonitorStatus {
    fn default() -> (r: MonitorStatus)
        ensures
            r == MonitorStatus::Unknown,
    {
        MonitorStatus::Unknown
    }
}

impl MonitorStatus {
    /// A status that may be appended to a monitor's history.
    pub open spec fn recordable(self) -> bool {
        !(self is Unknown)
    }

    pub fn is_recordable(&self) -> (r: bool)
        ensures
            r == self.recordable(),
    {
        match self {
            MonitorStatus::Unknown => false,
            _ => true,
        }
    }
}

impl Clone for MonitorStatus {
    fn clone(&self) -> (r: MonitorStatus)
        ensures
            r == *self,
    {
        match self {
            MonitorStatus::Up { checked_at } => MonitorStatus::Up { checked_at: *checked_at },
            MonitorStatus::Down { checked_at, error_reason } => MonitorStatus::Down {
                checked_at: *checked_at,
                error_reason: error_reason.clone(),
            },
            MonitorStatus::Unknown => MonitorStatus::Unknown,
        }
    }
}

/// Per-monitor settings. A field left unset is filled from another
/// configuration by [`MonitorConfiguration::merge_with`].
#[derive(Debug, PartialEq, Eq)]
pub struct MonitorConfiguration {
    pub check_interval: Option<Duration>,
}

impl Clone for MonitorConfiguration {
    fn clone(&self) -> (r: MonitorConfiguration)
        ensures
            r == *self,
    {
        MonitorConfiguration { check_interval: self.check_interval }
    }
}

impl MonitorConfiguration {
    /// Field by field, the value of `self` where it is set, else that of
    /// `other`.
    pub open spec fn merged(self, other: MonitorConfiguration) -> MonitorConfiguration {
        MonitorConfiguration {
            check_interval: if self.check_interval is Some {
                self.check_interval
            } else {
                other.check_interval
            },
        }
    }

    pub fn merge_with(&mut self, other: &MonitorConfiguration)
        ensures
            *final(self) == old(self).merged(*other),
    {
        if let Some(interval) = other.check_interval {
            if self.check_interval.is_none() {
                self.check_interval = Some(interval);
            }
        }
    }
}

/// A named target under periodic observation.
#[derive(Debug, PartialEq)]
pub struct Monitor {
    pub name: String,
    pub current_status: Option<MonitorStatus>,
    pub api_version: String,
    pub kind: String,
    pub configuration: Option<MonitorConfiguration>,
    pub spec: serde_json::Value,
}

impl Clone for Monitor {
    fn clone(&self) -> (r: Monitor)
        ensures
            r == *self,
    {
        Monitor {
            name: self.name.clone(),
            current_status: match &self.current_status {
                Some(status) => Some(status.clone()),
                None => None,
            },
            api_version: self.api_version.clone(),
            kind: self.kind.clone(),
            configuration: match &self.configuration {
                Some(cfg) => Some(cfg.clone()),
                None => None,
            },
            spec: self.spec.clone(),
        }
    }
}

impl Monitor {
    /// The interval at which the monitor is probed, if its configuration
    /// names one.
    pub open spec fn interval(self) -> Option<Duration> {
        match self.configuration {
            Some(cfg) => cfg.check_interval,
            None => None,
        }
    }

    pub fn check_interval(&self) -> (r: Option<Duration>)
        ensures
            r == self.interval(),
    {
        match &self.configuration {
            Some(cfg) => cfg.check_interval,
            None => None,
        }
    }
}

/// Failure of the persistence layer.
#[derive(Debug, PartialEq, Eq)]
pub enum RepositoryError {
    InternalServerError(String),
    NotFound(String),
}

impl Clone for RepositoryError {
    fn clone(&self) -> (r: RepositoryError)
        ensures
            r == *self,
    {
        match self {
            RepositoryError::InternalServerError(detail) => RepositoryError::InternalServerError(
                detail.clone(),
            ),
            RepositoryError::NotFound(detail) => RepositoryError::NotFound(detail.clone()),
        }
    }
}

/// Mathematical value of a [`RepositoryError`].
pub ghost enum RepositoryErrorView {
    InternalServerError(Seq<char>),
    NotFound(Seq<char>),
}

impl RepositoryErrorView {
    pub open spec fn message(self) -> Seq<char> {
        match self {
            RepositoryErrorView::InternalServerError(detail) => "Internal Server Error: "@ + detail,
            RepositoryErrorView::NotFound(detail) => "Object not found: "@ + detail,
        }
    }
}

impl View for RepositoryError {
    type V = RepositoryErrorView;

    open spec fn view(&self) -> RepositoryErrorView {
        match *self {
            RepositoryError::InternalServerError(detail) => RepositoryErrorView::InternalServerError(
                detail@,
            ),
            RepositoryError::NotFound(detail) => RepositoryErrorView::NotFound(detail@),
        }
    }
}

impl RepositoryError {
    pub open spec fn message_spec(self) -> Seq<char> {
        self@.message()
    }

    /// The text shown for this error.
    pub fn message(&self) -> (r: String)
        ensures
            r@ == self.message_spec(),
    {
        match self {
            RepositoryError::InternalServerError(detail) => {
                String::from_str("Internal Server Error: ").concat(detail.as_str())
            },
            RepositoryError::NotFound(detail) => {
                String::from_str("Object not found: ").concat(detail.as_str())
            },
        }
    }
}

} // verus!
