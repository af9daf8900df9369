//! Server records and their lifecycle status.
use vstd::prelude::*;

use crate::text::{opt_view, owned, str_eq};
use crate::backup_policy::or_else;

verus! {

/// The lifecycle state of a server process.
#[derive(Debug, Clone, Copy, PartialEq, Eq, Structural)]
pub enum ServerStatus {
    Stopped,
    Starting,
    Running,
    Stopping,
    Error,
}

/// The lower-case name a status is stored and sent as.
pub open spec fn status_name(s: ServerStatus) -> Seq<char> {
    match s {
        ServerStatus::Stopped => "stopped"@,
        ServerStatus::Starting => "starting"@,
        ServerStatus::Running => "running"@,
        ServerStatus::Stopping => "stopping"@,
        ServerStatus::Error => "error"@,
    }
}

/// The status a stored name stands for; unknown names read as stopped.
pub open spec fn status_from_name(s: Seq<char>) -> ServerStatus {
    if s == "starting"@ {
        ServerStatus::Starting
    } else if s == "running"@ {
        ServerStatus::Running
    } else if s == "stopping"@ {
        ServerStatus::Stopping
    } else if s == "error"@ {
        ServerStatus::Error
    } else {
        ServerStatus::Stopped
    }
}

impl ServerStatus {
    pub fn as_str(&self) -> (r: &'static str)
        ensures
            r@ == status_name(*self),
    {
        match self {
            ServerStatus::Stopped => "stopped",
            ServerStatus::Starting => "starting",
            ServerStatus::Running => "running",
            ServerStatus::Stopping => "stopping",
            ServerStatus::Error => "error",
        }
    }

    pub fn from_str(s: &str) -> (r: Self)
        ensures
            r == status_from_name(s@),
    {
        if str_eq(s, "starting") {
            ServerStatus::Starting
        } else if str_eq(s, "running") {
            ServerStatus::Running
        } else if str_eq(s, "stopping") {
            ServerStatus::Stopping
        } else if str_eq(s, "error") {
            ServerStatus::Error
        } else {
            ServerStatus::Stopped
        }
    }
}

/// Reading back the name of a status gives the same status.
pub proof fn law_status_name_round_trip(s: ServerStatus)
    ensures
        status_from_name(status_name(s)) == s,
{
    reveal_strlit("stopped");
    reveal_strlit("starting");
    reveal_strlit("running");
    reveal_strlit("stopping");
    reveal_strlit("error");
    assert("stopped"@ != "starting"@ && "stopped"@ != "running"@ && "stopped"@ != "stopping"@
        && "stopped"@ != "error"@) by {
        assert("stopped"@.len() != "starting"@.len());
        assert("stopped"@[0] != "running"@[0]);
        assert("stopped"@[3] != "stopping"@[3] || "stopped"@.len() != "stopping"@.len());
        assert("stopped"@.len() != "error"@.len());
    }
    assert("running"@.len() != "starting"@.len());
    assert("stopping"@[2] != "starting"@[2]);
    assert("error"@.len() != "starting"@.len());
    assert("stopping"@.len() != "running"@.len());
    assert("error"@.len() != "running"@.len());
    assert("error"@ != "stopping"@);
}

/// A server instance as the panel stores it.
#[derive(Debug, Clone)]
pub struct Server {
    pub id: String,
    pub name: String,
    pub port: u16,
    pub tshock_version: String,
    pub world_name: Option<String>,
    pub status: String,
    pub password: Option<String>,
    pub max_players: i32,
    pub auto_start: bool,
    pub created_by: Option<String>,
    pub created_at: String,
    pub updated_at: String,
}

/// A request to create a server.
#[derive(Debug)]
pub struct CreateServerRequest {
    pub name: String,
    pub port: Option<u16>,
    pub tshock_version: String,
    pub world_name: Option<String>,
    pub password: Option<String>,
    pub max_players: Option<i32>,
    pub auto_start: Option<bool>,
}

/// A request to change some of a server's settings.
#[derive(Debug)]
pub struct UpdateServerRequest {
    pub name: Option<String>,
    pub port: Option<u16>,
    pub password: Option<String>,
    pub max_players: Option<i32>,
    pub auto_start: Option<bool>,
    pub world_name: Option<String>,
    pub tshock_version: Option<String>,
}

/// A server with its live figures.
#[derive(Debug)]
pub struct ServerDetail {
    pub server: Server,
    pub player_count: i32,
    pub uptime_seconds: i64,
}

/// A console command to send to a server.
#[derive(Debug)]
pub struct CommandRequest {
    pub command: String,
}

/// A TShock user account.
#[derive(Debug)]
pub struct TShockUserAccount {
    pub username: String,
    pub group_name: Option<String>,
    pub is_superadmin: bool,
    pub ignores_ssc: bool,
}

/// A TShock group in the security overview.
#[derive(Debug)]
pub struct TShockGroupSummary {
    pub name: String,
    pub permission_count: usize,
    pub ignores_ssc: bool,
    pub is_registration_group: bool,
    pub is_guest_group: bool,
}

/// TShock's accounts, groups and server-side-character state.
#[derive(Debug)]
pub struct TShockSecurityOverview {
    pub ssc_enabled: bool,
    pub ssc_source: String,
    pub default_registration_group: Option<String>,
    pub default_guest_group: Option<String>,
    pub database_exists: bool,
    pub users: Vec<TShockUserAccount>,
    pub groups: Vec<TShockGroupSummary>,
}

/// One TShock group with its permissions.
#[derive(Debug)]
pub struct TShockGroupDetail {
    pub name: String,
    pub parent: Option<String>,
    pub permissions: Vec<String>,
    pub member_count: usize,
}

/// A server-side character in a listing.
#[derive(Debug)]
pub struct TShockSscCharacterSummary {
    pub account: i64,
    pub username: Option<String>,
    pub health: i32,
    pub max_health: i32,
    pub mana: i32,
    pub max_mana: i32,
    pub quests_completed: i32,
}

/// A full server-side character record.
#[derive(Debug)]
pub struct TShockSscCharacter {
    pub account: i64,
    pub username: Option<String>,
    pub health: i32,
    pub max_health: i32,
    pub mana: i32,
    pub max_mana: i32,
    pub inventory: Option<String>,
    pub extra_slot: Option<i32>,
    pub spawn_x: Option<i32>,
    pub spawn_y: Option<i32>,
    pub skin_variant: Option<i32>,
    pub hair: Option<i32>,
    pub hair_dye: Option<i32>,
    pub hair_color: Option<i32>,
    pub pants_color: Option<i32>,
    pub shirt_color: Option<i32>,
    pub under_shirt_color: Option<i32>,
    pub shoe_color: Option<i32>,
    pub skin_color: Option<i32>,
    pub eye_color: Option<i32>,
    pub quests_completed: i32,
    pub hide_visuals: Option<String>,
}


/// Some port of `start..=end` is not in `used`.
pub open spec fn has_free_port(range_start: u16, range_end: u16, used: Seq<u16>) -> bool {
    exists|p: u16| range_start <= p <= range_end && !#[trigger] used.contains(p)
}

/// `p` is the lowest port of `start..=end` that is not in `used`.
pub open spec fn is_lowest_free_port(p: u16, range_start: u16, range_end: u16, used: Seq<u16>) -> bool {
    &&& range_start <= p <= range_end
    &&& !used.contains(p)
    &&& forall|q: u16| range_start <= q < p ==> #[trigger] used.contains(q)
}

fn port_in_use(used: &Vec<u16>, p: u16) -> (r: bool)
    ensures
        r == used@.contains(p),
{
    let mut i: usize = 0;
    while i < used.len()
        invariant
            i <= used@.len(),
            forall|k: int| 0 <= k < i ==> used@[k] != p,
        decreases used@.len() - i,
    {
        if used[i] == p {
            assert(used@[i as int] == p);
            return true;
        }
        i = i + 1;
    }
    false
}

/// The port of a new server: the one asked for, else the lowest port of
/// the configured range that no server uses, else (every port of the range
/// taken) the first port of the range.
pub fn assign_port(requested: Option<u16>, range_start: u16, range_end: u16, used: &Vec<u16>) -> (r: u16)
    ensures
        requested matches Some(p) ==> r == p,
        requested is None && has_free_port(range_start, range_end, used@) ==> is_lowest_free_port(
            r,
            range_start,
            range_end,
            used@,
        ),
        requested is None && !has_free_port(range_start, range_end, used@) ==> r == range_start,
{
    match requested {
        Some(p) => p,
        None => {
            if range_start <= range_end {
                let mut p: u16 = range_start;
                loop
                    invariant
                        requested is None,
                        range_start <= p <= range_end,
                        forall|q: u16| range_start <= q < p ==> #[trigger] used@.contains(q),
                    ensures
                        forall|q: u16| range_start <= q <= range_end ==> #[trigger] used@.contains(q),
                    decreases range_end - p,
                {
                    if !port_in_use(used, p) {
                        return p;
                    }
                    if p == range_end {
                        break;
                    }
                    p = p + 1;
                }
            }
            range_start
        },
    }
}

impl CreateServerRequest {
    /// The record of a newly created server: on the port asked for, else on
    /// a port of the configured range (see `assign_port`); 8 players and no
    /// auto-start unless the request says otherwise; stopped; created and
    /// updated at `now` by `created_by`.
    pub fn into_server(
        self,
        id: String,
        now: String,
        created_by: String,
        range_start: u16,
        range_end: u16,
        used_ports: &Vec<u16>,
    ) -> (r: Server)
        ensures
            self.port matches Some(p) ==> r.port == p,
            self.port is None && has_free_port(range_start, range_end, used_ports@) ==> is_lowest_free_port(
                r.port,
                range_start,
                range_end,
                used_ports@,
            ),
            self.port is None && !has_free_port(range_start, range_end, used_ports@) ==> r.port == range_start,
            r.id@ == id@,
            r.name@ == self.name@,
            r.tshock_version@ == self.tshock_version@,
            opt_view(r.world_name) == opt_view(self.world_name),
            r.status@ == "stopped"@,
            opt_view(r.password) == opt_view(self.password),
            r.max_players == or_else(self.max_players, 8i32),
            r.auto_start == or_else(self.auto_start, false),
            opt_view(r.created_by) == Some(created_by@),
            r.created_at@ == now@,
            r.updated_at@ == now@,
    {
        let port = assign_port(self.port, range_start, range_end, used_ports);
        let max_players = match self.max_players {
            Some(m) => m,
            None => 8,
        };
        let auto_start = match self.auto_start {
            Some(a) => a,
            None => false,
        };
        Server {
            id,
            name: self.name,
            port,
            tshock_version: self.tshock_version,
            world_name: self.world_name,
            status: owned("stopped"),
            password: self.password,
            max_players,
            auto_start,
            created_by: Some(created_by),
            created_at: now.clone(),
            updated_at: now,
        }
    }
}

pub open spec fn count_some<T>(o: Option<T>) -> nat {
    if o is Some {
        1
    } else {
        0
    }
}

impl UpdateServerRequest {
    /// How many settings the request changes.
    pub open spec fn change_count(&self) -> nat {
        count_some(self.name) + count_some(self.port) + count_some(self.password) + count_some(
            self.max_players,
        ) + count_some(self.auto_start) + count_some(self.world_name) + count_some(
            self.tshock_version,
        )
    }

    pub fn changes(&self) -> (r: usize)
        ensures
            r == self.change_count(),
    {
        let mut n: usize = 0;
        if self.name.is_some() {
            n = n + 1;
        }
        if self.port.is_some() {
            n = n + 1;
        }
        if self.password.is_some() {
            n = n + 1;
        }
        if self.max_players.is_some() {
            n = n + 1;
        }
        if self.auto_start.is_some() {
            n = n + 1;
        }
        if self.world_name.is_some() {
            n = n + 1;
        }
        if self.tshock_version.is_some() {
            n = n + 1;
        }
        n
    }

    /// `server` after the update: every setting the request names is replaced,
    /// the others are kept, and the record is stamped as updated at `now`
    /// (also when the request names nothing).
    pub fn apply_to(self, server: Server, now: String) -> (r: Server)
        ensures
            r.id@ == server.id@,
            r.name@ == (match self.name { Some(v) => v@, None => server.name@ }),
            r.port == or_else(self.port, server.port),
            opt_view(r.password) == (match self.password { Some(v) => Some(v@), None => opt_view(server.password) }),
            r.max_players == or_else(self.max_players, server.max_players),
            r.auto_start == or_else(self.auto_start, server.auto_start),
            opt_view(r.world_name) == (match self.world_name { Some(v) => Some(v@), None => opt_view(server.world_name) }),
            r.tshock_version@ == (match self.tshock_version { Some(v) => v@, None => server.tshock_version@ }),
            r.status@ == server.status@,
            opt_view(r.created_by) == opt_view(server.created_by),
            r.created_at@ == server.created_at@,
            r.updated_at@ == now@,
    {
        Server {
            id: server.id,
            name: match self.name {
                Some(v) => v,
                None => server.name,
            },
            port: match self.port {
                Some(v) => v,
                None => server.port,
            },
            tshock_version: match self.tshock_version {
                Some(v) => v,
                None => server.tshock_version,
            },
            world_name: match self.world_name {
                Some(v) => Some(v),
                None => server.world_name,
            },
            status: server.status,
            password: match self.password {
                Some(v) => Some(v),
                None => server.password,
            },
            max_players: match self.max_players {
                Some(v) => v,
                None => server.max_players,
            },
            auto_start: match self.auto_start {
                Some(v) => v,
                None => server.auto_start,
            },
            created_by: server.created_by,
            created_at: server.created_at,
            updated_at: now,
        }
    }
}

impl ServerDetail {
    /// The detail view of a stored server (no live figures yet).
    pub fn of(server: Server) -> (r: Self)
        ensures
            r.server == server,
            r.player_count == 0,
            r.uptime_seconds == 0,
    {
        ServerDetail { server, player_count: 0, uptime_seconds: 0 }
    }
}

/// The status reported for a server whose process is or is not running.
pub fn process_status(is_running: bool) -> (r: ServerStatus)
    ensures
        r == (if is_running { ServerStatus::Running } else { ServerStatus::Stopped }),
{
    if is_running {
        ServerStatus::Running
    } else {
        ServerStatus::Stopped
    }
}

} // verus!
