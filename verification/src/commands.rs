//! The values that pass between the dashboard and its command layer.

use vstd::prelude::*;

verus! {

/// A request that the dashboard sends to the command layer under a fixed
/// name.
pub trait Command {
    /// What the command layer answers.
    type OutputType;

    /// The name under which the request is sent.
    spec fn spec_name() -> Seq<char>;

    /// The name under which the request is sent.
    fn name() -> (name: &'static str)
        ensures
            name@ == Self::spec_name(),
    ;
}

/// Asks for the containers of the pod.
#[derive(Debug)]
pub struct ListContainers {}

/// The answer to [`ListContainers`]: the containers, or why they could not
/// be listed.
#[derive(Debug)]
pub enum ListContainerResponse {
    Listed(Vec<ListContainerItem>),
    Failed(String),
}

/// One container of a listing.
#[derive(Debug, Clone)]
pub struct ListContainerItem {
    pub id: Option<String>,
    pub name: String,
    pub state: PodmanState,
    pub started_at: Option<i64>,
    pub exited_at: Option<i64>,
}

/// What an item of a listing holds.
pub struct ItemView {
    pub id: Option<Seq<char>>,
    pub name: Seq<char>,
    pub state: PodmanState,
    pub started_at: Option<i64>,
    pub exited_at: Option<i64>,
}

impl View for ListContainerItem {
    type V = ItemView;

    open spec fn view(&self) -> ItemView {
        ItemView {
            id: match self.id {
                Some(id) => Some(id@),
                None => None,
            },
            name: self.name@,
            state: self.state,
            started_at: self.started_at,
            exited_at: self.exited_at,
        }
    }
}

/// The state of a container. Listings are ordered by it, in the order in
/// which the states are written here.
#[derive(Debug, Clone, PartialEq, Eq, Structural, Ord, PartialOrd, Copy)]
pub enum PodmanState {
    Running,
    Stopping,
    Stopped,
    Exited,
}

impl Command for ListContainers {
    type OutputType = ListContainerResponse;

    open spec fn spec_name() -> Seq<char> {
        "containers_list"@
    }

    fn name() -> (name: &'static str) {
        "containers_list"
    }
}

/// Asks for a container to be brought into a state.
#[derive(Debug)]
pub struct SetContainerStatus {
    pub id: String,
    pub state: PodmanState,
}

impl Command for SetContainerStatus {
    type OutputType = ();

    open spec fn spec_name() -> Seq<char> {
        "set_container"@
    }

    fn name() -> (name: &'static str) {
        "set_container"
    }
}

/// Asks for the tunnels and their status.
#[derive(Debug)]
pub struct ListTunnels {}

/// What a listing reports of one tunnel.
#[derive(PartialEq, Eq, Structural, Debug, Copy, Clone)]
pub enum TunnelStatus {
    /// The tunnel is open on this local port.
    Connected(u32),
    /// The tunnel is closed.
    Disconnected,
}

/// The state a caller wants a tunnel to be in.
#[derive(PartialEq, Eq, Structural, Debug, Copy, Clone)]
pub enum TunnelState {
    On,
    Off,
}

/// A listing: each tunnel's name and status, in the order in which the
/// tunnels are held.
#[derive(Debug)]
pub struct ListTunnelResponse(pub Vec<(String, TunnelStatus)>);

impl View for ListTunnelResponse {
    type V = Seq<(Seq<char>, TunnelStatus)>;

    open spec fn view(&self) -> Seq<(Seq<char>, TunnelStatus)> {
        self.0@.map_values(|entry: (String, TunnelStatus)| (entry.0@, entry.1))
    }
}

impl Command for ListTunnels {
    type OutputType = ListTunnelResponse;

    open spec fn spec_name() -> Seq<char> {
        "tunnels_list"@
    }

    fn name() -> (name: &'static str) {
        "tunnels_list"
    }
}

/// Asks for the tunnel named `id` to be brought into `state`.
#[derive(Debug)]
pub struct ToggleTunnels {
    pub id: String,
    pub state: TunnelState,
}

impl Command for ToggleTunnels {
    type OutputType = ();

    open spec fn spec_name() -> Seq<char> {
        "tunnels_toggle"@
    }

    fn name() -> (name: &'static str) {
        "tunnels_toggle"
    }
}

/// Asks for the health of the configured services.
#[derive(Debug)]
pub struct GetHealthCheck {}

impl Command for GetHealthCheck {
    type OutputType = Vec<HealthcheckSection>;

    open spec fn spec_name() -> Seq<char> {
        "get_healthcheck"@
    }

    fn name() -> (name: &'static str) {
        "get_healthcheck"
    }
}

/// The health of the services of one section.
#[derive(Clone, Debug)]
pub struct HealthcheckSection {
    pub name: String,
    pub services: Vec<ServiceHealthCheck>,
}

/// What the health of a section holds.
pub struct SectionView {
    pub name: Seq<char>,
    pub services: Seq<CheckView>,
}

impl View for HealthcheckSection {
    type V = SectionView;

    open spec fn view(&self) -> SectionView {
        SectionView {
            name: self.name@,
            services: self.services@.map_values(|check: ServiceHealthCheck| check@),
        }
    }
}

/// The health of one service.
#[derive(Clone, Debug, PartialEq)]
pub struct ServiceHealthCheck {
    pub name: String,
    pub url: String,
    pub up: bool,
    pub db: Option<bool>,
    pub elasticsearch: Option<bool>,
}

/// What the health of a service holds.
pub struct CheckView {
    pub name: Seq<char>,
    pub url: Seq<char>,
    pub up: bool,
    pub db: Option<bool>,
    pub elasticsearch: Option<bool>,
}

impl View for ServiceHealthCheck {
    type V = CheckView;

    open spec fn view(&self) -> CheckView {
        CheckView {
            name: self.name@,
            url: self.url@,
            up: self.up,
            db: self.db,
            elasticsearch: self.elasticsearch,
        }
    }
}

} // verus!
