//! The configuration of the dashboard.

use crate::tunnel::Tunnel;
use vstd::prelude::*;

verus! {

/// The configuration for the developer desktop tool.
#[derive(Debug)]
pub struct Config {
    /// A set of toggleable ssh tunnels.
    pub tunnels: Vec<Tunnel>,
    /// A set of services to healthcheck.
    pub services: Vec<ServiceSection>,
}

/// A logical group of services to run healthchecks on.
#[derive(Clone, Debug)]
pub struct ServiceSection {
    /// The name of the section in the UI.
    pub name: String,
    /// The list of services in that section.
    pub services: Vec<Service>,
}

/// A service to run a healthcheck on.
#[derive(Clone, Debug)]
pub struct Service {
    /// The name of the service.
    pub name: String,
    /// The url to the service.
    pub url: String,
    /// Optional spring healthcheck URL for more detailed information.
    pub spring_healthcheck: Option<String>,
}

} // verus!
