//! The health report of a Spring service, as its actuator gives it.

use vstd::prelude::*;

verus! {

/// The health report of a service: its overall status and that of its parts.
#[derive(Debug)]
pub struct SpringHealthCheck {
    pub status: HealthStatus,
    pub components: SpringComponents,
}

/// The status that a service, or a part of it, reports.
#[allow(non_camel_case_types)]
#[derive(PartialEq, Eq, Structural, Debug, Copy, Clone)]
pub enum HealthStatus {
    UP,
    DOWN,
    OUT_OF_SERVICE,
}

impl From<HealthStatus> for bool {
    /// Whether the status is `UP`.
    fn from(s: HealthStatus) -> (up: bool)
        ensures
            up == (s == HealthStatus::UP),
    {
        s == HealthStatus::UP
    }
}

impl vstd::std_specs::convert::FromSpecImpl<HealthStatus> for bool {
    open spec fn obeys_from_spec() -> bool {
        true
    }

    open spec fn from_spec(s: HealthStatus) -> bool {
        s == HealthStatus::UP
    }
}

/// The parts of a service that report a status of their own.
#[derive(Debug)]
pub struct SpringComponents {
    pub db: ComponentStatus<DB>,
    pub elasticsearch: ComponentStatus<ElasticSearch>,
    pub build_info: ComponentStatus<BuildInfo>,
    pub ping: Ping,
}

/// Whether the service answers at all.
#[derive(Debug)]
pub struct Ping {
    pub status: HealthStatus,
}

/// The status of one part, with what that part tells of itself.
#[derive(Debug)]
pub struct ComponentStatus<T> {
    pub status: HealthStatus,
    pub details: T,
}

/// What the database part tells of itself.
#[derive(Debug)]
pub struct DB {
    pub database: Option<String>,
}

/// What the build information part tells of itself.
#[derive(Debug)]
pub struct BuildInfo {
    pub build: BuildInfoInner,
}

/// The build that is running.
#[derive(Debug)]
pub struct BuildInfoInner {
    pub version: String,
}

/// What the search cluster part tells of itself.
#[derive(Debug)]
pub struct ElasticSearch {
    pub cluster_name: Option<String>,
}

} // verus!
