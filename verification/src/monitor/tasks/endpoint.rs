//! The endpoint probe: a monitor is up when a request to its address is
//! answered.

use crate::models::{MonitorStatus, Timestamp};
use vstd::prelude::*;
use vstd::string::StringExecFns;

verus! {

/// What the `spec` of an endpoint monitor holds.
#[derive(Debug, PartialEq, Eq)]
pub struct V1Alpha1EndpointMonitorSpec {
    pub uri: String,
}

/// The probe of an endpoint monitor: a request to `uri` tells whether the
/// endpoint is up.
#[derive(Debug, PartialEq, Eq)]
pub struct EndpointMonitor {
    pub uri: String,
}

/// The builder of endpoint monitors.
#[derive(Debug)]
pub struct V1Alpha1EndpointMonitorBuilder {}

impl V1Alpha1EndpointMonitorBuilder {
    pub fn get_api_version(&self) -> (r: String)
        ensures
            r@ == "v1alpha1"@,
    {
        String::from_str("v1alpha1")
    }

    pub fn get_kind(&self) -> (r: String)
        ensures
            r@ == "endpoint"@,
    {
        String::from_str("endpoint")
    }

    /// The probe for a `spec` that was read successfully.
    pub fn build(&self, spec: V1Alpha1EndpointMonitorSpec) -> (r: EndpointMonitor)
        ensures
            r.uri == spec.uri,
    {
        EndpointMonitor { uri: spec.uri }
    }
}

impl EndpointMonitor {
    /// The status that a request observed at `now`: up when it was answered,
    /// down with the reason when it failed.
    pub open spec fn survey_spec(response: Result<(), String>, now: Timestamp) -> MonitorStatus {
        match response {
            Ok(_) => MonitorStatus::Up { checked_at: now },
            Err(reason) => MonitorStatus::Down { checked_at: now, error_reason: reason },
        }
    }

    /// Turns the outcome of the request to `uri` into the status of the
    /// survey. A request that fails is an observation too: the endpoint is
    /// down.
    pub fn survey(&self, response: Result<(), String>, now: Timestamp) -> (r: MonitorStatus)
        ensures
            r == Self::survey_spec(response, now),
            r.recordable(),
    {
        match response {
            Ok(_) => MonitorStatus::Up { checked_at: now },
            Err(reason) => MonitorStatus::Down { checked_at: now, error_reason: reason },
        }
    }
}

} // verus!
