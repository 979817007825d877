//! The rows under which monitors and their statuses are stored, and how
//! they map to the data model and back.

use crate::extensions::{MappingExt, MappingExtraField1Ext};
use crate::models::{Monitor, MonitorConfiguration, MonitorStatus, StatusView, Timestamp};
use std::time::Duration;
use vstd::prelude::*;

verus! {

/// The state that a stored status row records.
#[derive(Clone, Copy, Debug, PartialEq, Eq, Structural)]
pub enum Status {
    Up,
    Down,
}

/// A stored status row of a monitor.
#[derive(Debug, PartialEq, Eq)]
pub struct StatusRecord {
    pub created_at: Timestamp,
    pub status: Status,
    pub error_reason: Option<String>,
}

/// A status row that is about to be stored: the store assigns its identity
/// and the time of its creation.
#[derive(Debug, PartialEq, Eq)]
pub struct NewStatusRecord {
    pub status: Status,
    pub monitor_id: String,
    pub error_reason: Option<String>,
}

/// A stored monitor row.
#[derive(Debug, PartialEq)]
pub struct MonitorRecord {
    pub id: String,
    pub spec: serde_json::Value,
    pub api_version: String,
    pub kind: String,
    pub check_interval: Option<Duration>,
}

impl StatusRecord {
    /// The status that the row stands for. A `Down` row without a reason has
    /// the empty reason.
    pub open spec fn mapped(self) -> StatusView {
        match self.status {
            Status::Up => StatusView::Up { checked_at: self.created_at },
            Status::Down => StatusView::Down {
                checked_at: self.created_at,
                error_reason: match self.error_reason {
                    Some(reason) => reason@,
                    None => Seq::empty(),
                },
            },
        }
    }
}

impl MappingExt<MonitorStatus> for StatusRecord {
    fn object_map(self) -> (r: MonitorStatus)
        ensures
            r@ == self.mapped(),
    {
        match self.status {
            Status::Up => MonitorStatus::Up { checked_at: self.created_at },
            Status::Down => MonitorStatus::Down {
                checked_at: self.created_at,
                error_reason: match self.error_reason {
                    Some(reason) => reason,
                    None => String::new(),
                },
            },
        }
    }
}

/// The status of a monitor whose latest row, if it has any, is `record`.
pub open spec fn mapped_status(record: Option<StatusRecord>) -> StatusView {
    match record {
        Some(record) => record.mapped(),
        None => StatusView::Unknown,
    }
}

impl MappingExt<MonitorStatus> for Option<StatusRecord> {
    fn object_map(self) -> (r: MonitorStatus)
        ensures
            r@ == mapped_status(self),
    {
        match self {
            None => MonitorStatus::Unknown,
            Some(record) => record.object_map(),
        }
    }
}

/// The row at `k` is the latest of `records`: none was created after it, and
/// every row behind it was created before it.
pub open spec fn is_latest(records: Seq<StatusRecord>, k: int) -> bool {
    &&& 0 <= k < records.len()
    &&& forall|j: int|
        0 <= j < records.len() ==> !records[k].created_at.precedes(
            (#[trigger] records[j]).created_at,
        )
    &&& forall|j: int|
        k < j < records.len() ==> (#[trigger] records[j]).created_at.precedes(
            records[k].created_at,
        )
}

/// The row that was created last; of several created at the same time, the
/// one that stands last. `None` where there is no row.
pub fn latest(records: Vec<StatusRecord>) -> (r: Option<StatusRecord>)
    ensures
        r is None <==> records.len() == 0,
        r is Some ==> exists|k: int| is_latest(records@, k) && r == Some(records[k]),
{
    let ghost all = records@;
    let mut best: Option<StatusRecord> = None;
    let ghost mut at: int = 0;
    for record in iter: records
        invariant
            iter.seq() == all,
            best is None <==> iter.index() == 0,
            best is Some ==> is_latest(all.take(iter.index() as int), at) && best == Some(all[at]),
    {
        let replace = match &best {
            Some(current) => !record.created_at.is_before(&current.created_at),
            None => true,
        };
        if replace {
            proof {
                at = iter.index() as int;
            }
            best = Some(record);
        }
    }
    proof {
        assert(all.take(all.len() as int) =~= all);
    }
    best
}

/// `monitor` is what the row `record` and its latest status row stand for:
/// its current status is that of the latest status row, or `Unknown` without
/// one.
pub open spec fn stands_for(
    record: MonitorRecord,
    latest: Option<StatusRecord>,
    monitor: Monitor,
) -> bool {
    &&& monitor.name == record.id
    &&& monitor.api_version == record.api_version
    &&& monitor.kind == record.kind
    &&& monitor.spec == record.spec
    &&& monitor.configuration == match record.check_interval {
        Some(interval) => Some(MonitorConfiguration { check_interval: Some(interval) }),
        None => None,
    }
    &&& monitor.current_status is Some
    &&& monitor.current_status->Some_0@ == mapped_status(latest)
}

impl MappingExtraField1Ext<Monitor, Vec<StatusRecord>> for MonitorRecord {
    fn object_map_field(self, extra: Vec<StatusRecord>) -> (r: Monitor)
        ensures
            extra.len() == 0 ==> stands_for(self, None, r),
            extra.len() > 0 ==> exists|k: int|
                is_latest(extra@, k) && stands_for(self, Some(extra[k]), r),
    {
        let current_status = latest(extra);
        let ghost chosen = current_status;
        let current_status = Some(current_status.object_map());
        let configuration = match self.check_interval {
            Some(interval) => Some(MonitorConfiguration { check_interval: Some(interval) }),
            None => None,
        };
        let r = Monitor {
            name: self.id,
            configuration,
            current_status,
            api_version: self.api_version,
            kind: self.kind,
            spec: self.spec,
        };
        proof {
            if extra.len() > 0 {
                let k = choose|k: int| is_latest(extra@, k) && chosen == Some(extra[k]);
                assert(is_latest(extra@, k) && stands_for(self, Some(extra[k]), r));
            }
        }
        r
    }
}

impl Monitor {
    /// The row under which the monitor is stored. Its status is not part of
    /// the row.
    pub open spec fn record(self) -> MonitorRecord {
        MonitorRecord {
            id: self.name,
            spec: self.spec,
            api_version: self.api_version,
            kind: self.kind,
            check_interval: self.interval(),
        }
    }
}

impl MappingExt<MonitorRecord> for Monitor {
    fn object_map(self) -> (r: MonitorRecord)
        ensures
            r == self.record(),
    {
        let check_interval = match self.configuration {
            Some(cfg) => cfg.check_interval,
            None => None,
        };
        MonitorRecord {
            id: self.name,
            spec: self.spec,
            api_version: self.api_version,
            kind: self.kind,
            check_interval,
        }
    }
}

impl MonitorStatus {
    /// The row that records this status for the monitor `monitor_id`.
    /// `Unknown` stands for the absence of a row: there is no row that
    /// records it.
    pub open spec fn new_record(self, monitor_id: String) -> Option<NewStatusRecord> {
        match self {
            MonitorStatus::Up { .. } => Some(
                NewStatusRecord { status: Status::Up, monitor_id, error_reason: None },
            ),
            MonitorStatus::Down { error_reason, .. } => Some(
                NewStatusRecord {
                    status: Status::Down,
                    monitor_id,
                    error_reason: Some(error_reason),
                },
            ),
            MonitorStatus::Unknown => None,
        }
    }
}

impl MappingExtraField1Ext<Option<NewStatusRecord>, String> for MonitorStatus {
    /// Makes the row that records this status for the monitor `extra`, if
    /// the status can be recorded.
    fn object_map_field(self, extra: String) -> (r: Option<NewStatusRecord>)
        ensures
            r == self.new_record(extra),
            r is Some <==> self.recordable(),
    {
        match self {
            MonitorStatus::Up { .. } => Some(
                NewStatusRecord { status: Status::Up, monitor_id: extra, error_reason: None },
            ),
            MonitorStatus::Down { error_reason, .. } => Some(
                NewStatusRecord {
                    status: Status::Down,
                    monitor_id: extra,
                    error_reason: Some(error_reason),
                },
            ),
            MonitorStatus::Unknown => None,
        }
    }
}

} // verus!
