//! The messages that the components exchange.

use crate::text::same_text;
use vstd::prelude::*;

verus! {

/// Dedicated server to orchestrator, at a steady beat.
#[derive(Debug, Clone)]
pub struct Heartbeat {
    pub id: String,
    pub ip: String,
    pub port: u16,
    pub zone: String,
    pub player_count: usize,
    pub max_players: usize,
}

/// What a number of players makes of a server with room for `max_players`.
pub open spec fn status_of_load(player_count: nat, max_players: nat) -> ServerStatus {
    if player_count >= max_players {
        ServerStatus::Full
    } else {
        ServerStatus::Available
    }
}

impl Heartbeat {
    /// `Full` where no player more has room, `Available` otherwise.
    pub fn status(&self) -> (status: ServerStatus)
        ensures
            status == status_of_load(self.player_count as nat, self.max_players as nat),
    {
        if self.player_count >= self.max_players {
            ServerStatus::Full
        } else {
            ServerStatus::Available
        }
    }
}

/// Gatekeeper to client: where to play.
#[derive(Debug, Clone)]
pub struct ServerInfo {
    pub ip: String,
    pub port: u16,
    pub zone: String,
}

/// What a dedicated server is ready for.
#[derive(Debug, Clone, Copy, PartialEq, Eq, Structural)]
pub enum ServerStatus {
    Available,
    Full,
    Starting,
}

impl ServerStatus {
    /// The status as the store holds it.
    pub open spec fn name(self) -> Seq<char> {
        match self {
            ServerStatus::Available => "available"@,
            ServerStatus::Full => "full"@,
            ServerStatus::Starting => "starting"@,
        }
    }

    /// The status as the store holds it.
    pub fn as_str(&self) -> (name: &'static str)
        ensures
            name@ == self.name(),
    {
        match self {
            ServerStatus::Available => "available",
            ServerStatus::Full => "full",
            ServerStatus::Starting => "starting",
        }
    }
}

/// Client to dedicated server.
#[derive(Debug)]
pub enum ClientMsg {
    Join { player_id: String },
    Leave,
}

/// Dedicated server to client.
#[derive(Debug)]
pub enum ServerMsg {
    Welcome { username: String },
    Error { reason: String },
}

/// Client to gatekeeper: the body of a login.
#[derive(Debug)]
pub struct LoginRequest {
    pub username: String,
    pub password: String,
}

/// Gatekeeper to client: a login that was granted.
#[derive(Debug, Clone)]
pub struct LoginResponse {
    pub player_id: String,
    pub server: ServerInfo,
}

/// Gatekeeper to client: a login that was not granted.
#[derive(Debug)]
pub struct ErrorResponse {
    pub error: String,
}

/// One event of a login stream.
#[derive(Debug, Clone)]
pub enum LoginEvent {
    /// Sent now and then while no server is available.
    Waiting { message: String, elapsed_ms: u64 },
    /// The last event of a login that was granted.
    Ready(LoginResponse),
    /// The last event of a login that failed.
    Error { error: String },
}

/// What a host of the fleet is doing.
#[derive(Debug, Clone, Copy, PartialEq, Eq, Structural)]
pub enum HostStatus {
    Idle,
    Running,
    Starting,
    Stopping,
}

impl HostStatus {
    /// The status as the store holds it.
    pub open spec fn name(self) -> Seq<char> {
        match self {
            HostStatus::Idle => "idle"@,
            HostStatus::Running => "running"@,
            HostStatus::Starting => "starting"@,
            HostStatus::Stopping => "stopping"@,
        }
    }

    /// The status that the store holds as `name`.
    pub open spec fn named(name: Seq<char>) -> Option<HostStatus> {
        if name == "idle"@ {
            Some(HostStatus::Idle)
        } else if name == "running"@ {
            Some(HostStatus::Running)
        } else if name == "starting"@ {
            Some(HostStatus::Starting)
        } else if name == "stopping"@ {
            Some(HostStatus::Stopping)
        } else {
            None
        }
    }

    /// The status as the store holds it.
    pub fn as_str(&self) -> (name: &'static str)
        ensures
            name@ == self.name(),
    {
        match self {
            HostStatus::Idle => "idle",
            HostStatus::Running => "running",
            HostStatus::Starting => "starting",
            HostStatus::Stopping => "stopping",
        }
    }

    /// The status that the store holds as `s`.
    pub fn from_str(s: &str) -> (status: Option<Self>)
        ensures
            status == Self::named(s@),
    {
        if same_text(s, "idle") {
            Some(HostStatus::Idle)
        } else if same_text(s, "running") {
            Some(HostStatus::Running)
        } else if same_text(s, "starting") {
            Some(HostStatus::Starting)
        } else if same_text(s, "stopping") {
            Some(HostStatus::Stopping)
        } else {
            None
        }
    }
}

/// A host status is read back from its name, and from no other text.
pub proof fn law_host_status_reads_back(status: HostStatus, name: Seq<char>)
    ensures
        HostStatus::named(name) == Some(status) <==> name == status.name(),
{
    reveal_strlit("idle");
    reveal_strlit("running");
    reveal_strlit("starting");
    reveal_strlit("stopping");
    assert("idle"@[0] == 'i');
    assert("running"@[0] == 'r');
    assert("starting"@[2] == 'a');
    assert("stopping"@[2] == 'o');
    assert("starting"@[0] == 's');
    assert("stopping"@[0] == 's');
}

/// No two server statuses have one name.
pub proof fn law_server_status_names_differ(a: ServerStatus, b: ServerStatus)
    ensures
        a.name() == b.name() ==> a == b,
{
    reveal_strlit("available");
    reveal_strlit("full");
    reveal_strlit("starting");
    assert("available"@[0] == 'a');
    assert("full"@[0] == 'f');
    assert("starting"@[0] == 's');
}

/// A server is available as long as there is room for one player more, and full otherwise. The
/// programs of the fleet know the statuses by these names.
pub proof fn law_statuses_as_the_fleet_knows_them(player_count: nat, max_players: nat)
    ensures
        status_of_load(player_count, max_players).name() == if player_count < max_players {
            "available"@
        } else {
            "full"@
        },
        ServerStatus::Starting.name() == "starting"@,
        HostStatus::Idle.name() == "idle"@,
        HostStatus::Running.name() == "running"@,
        HostStatus::Starting.name() == "starting"@,
        HostStatus::Stopping.name() == "stopping"@,
{
}

/// Agent to orchestrator: what the host is doing.
#[derive(Debug, Clone)]
pub struct AgentStatus {
    pub hostname: String,
    pub status: HostStatus,
    pub container_id: Option<String>,
    pub ds_id: Option<String>,
}

/// Orchestrator to agent: start a dedicated server.
#[derive(Debug, Clone)]
pub struct SpawnRequest {
    pub ds_id: String,
    pub ds_port: u16,
    pub ds_advertise_host: String,
    pub ds_zone: String,
    pub ds_max_players: usize,
    pub orch_host: String,
    pub orch_port: u16,
    pub redis_url: String,
}

/// Agent to orchestrator: a dedicated server was started.
#[derive(Debug, Clone)]
pub struct SpawnResponse {
    pub container_id: String,
}

/// Orchestrator to agent: stop a container.
#[derive(Debug, Clone)]
pub struct KillRequest {
    pub container_id: String,
}

/// Agent to orchestrator: a request was refused or failed.
#[derive(Debug, Clone)]
pub struct AgentError {
    pub error: String,
}

/// Agent to orchestrator: one dedicated server of the host.
#[derive(Debug, Clone)]
pub struct AgentDsInfo {
    pub ds_id: String,
    pub port: u16,
    pub container_id: String,
}

/// What is computed is what is said here of statuses.
pub proof fn law_statuses_are_computed(
    hb: Heartbeat,
    status: ServerStatus,
    server: ServerStatus,
    server_name: &'static str,
    host: HostStatus,
    host_name: &'static str,
    s: &str,
    read: Option<HostStatus>,
)
    requires
        call_ensures(Heartbeat::status, (&hb,), status),
        call_ensures(ServerStatus::as_str, (&server,), server_name),
        call_ensures(HostStatus::as_str, (&host,), host_name),
        call_ensures(HostStatus::from_str, (s,), read),
    ensures
        hb.player_count < hb.max_players ==> status == ServerStatus::Available,
        hb.player_count >= hb.max_players ==> status == ServerStatus::Full,
        server_name@ == match server {
            ServerStatus::Available => "available"@,
            ServerStatus::Full => "full"@,
            ServerStatus::Starting => "starting"@,
        },
        host_name@ == match host {
            HostStatus::Idle => "idle"@,
            HostStatus::Running => "running"@,
            HostStatus::Starting => "starting"@,
            HostStatus::Stopping => "stopping"@,
        },
        read == Some(host) <==> s@ == host_name@,
{
    law_host_status_reads_back(host, s@);
}

} // verus!
