//! How much room the fleet has, how many servers to start for it, and which servers are
//! empty.

use crate::environment::counts;
use crate::environment::says;
use crate::orchestrator::config::law_orchestrator_settings;
use crate::orchestrator::config::Config;
use crate::orchestrator::registry::ServerSnapshot;
use crate::orchestrator::registry::SnapshotView;
use crate::store::FieldMap;
use crate::text::same_text;
use vstd::arithmetic::div_mod::lemma_fundamental_div_mod;
use vstd::prelude::*;

verus! {

// ---- room in the fleet ----

/// The players that one server has room for: none unless it is available.
pub open spec fn free_slots(server: SnapshotView) -> nat {
    if server.status == "available"@ && server.max_players > server.player_count {
        (server.max_players - server.player_count) as nat
    } else {
        0
    }
}

/// The players that the servers have room for.
pub open spec fn total_free(servers: Seq<SnapshotView>) -> nat
    decreases servers.len(),
{
    if servers.len() == 0 {
        0
    } else {
        total_free(servers.drop_last()) + free_slots(servers.last())
    }
}

proof fn lemma_total_free_grows(servers: Seq<SnapshotView>, n: int)
    requires
        0 <= n <= servers.len(),
    ensures
        total_free(servers.take(n)) <= total_free(servers),
    decreases servers.len(),
{
    if n == servers.len() {
        assert(servers.take(n) == servers);
    } else {
        lemma_total_free_grows(servers.drop_last(), n);
        assert(servers.drop_last().take(n) == servers.take(n));
    }
}

fn free_slots_of(server: &ServerSnapshot) -> (slots: usize)
    ensures
        slots == free_slots(server@),
{
    if same_text(server.status.as_str(), "available") {
        server.max_players.saturating_sub(server.player_count)
    } else {
        0
    }
}

/// The players that the servers have room for, where the sum can be held.
pub fn checked_free_capacity(servers: &[ServerSnapshot]) -> (total: Option<usize>)
    ensures
        match total {
            Some(total) => total == total_free(servers.deep_view()),
            None => total_free(servers.deep_view()) > usize::MAX,
        },
{
    let ghost all = servers.deep_view();
    let mut total: usize = 0;
    let mut i: usize = 0;
    assert(all.take(0) == Seq::<SnapshotView>::empty());
    while i < servers.len()
        invariant
            i <= servers.len(),
            all == servers.deep_view(),
            total == total_free(all.take(i as int)),
        decreases servers.len() - i,
    {
        assert(all[i as int] == servers[i as int]@);
        assert(all.take(i as int + 1).drop_last() == all.take(i as int));
        let slots = free_slots_of(&servers[i]);
        proof {
            lemma_total_free_grows(all, i as int + 1);
        }
        match total.checked_add(slots) {
            Some(sum) => {
                total = sum;
            },
            None => {
                return None;
            },
        }
        i = i + 1;
    }
    assert(all.take(all.len() as int) == all);
    Some(total)
}

/// The players that the servers have room for.
pub fn total_free_capacity(servers: &[ServerSnapshot]) -> (total: usize)
    requires
        total_free(servers.deep_view()) <= usize::MAX,
    ensures
        total == total_free(servers.deep_view()),
{
    match checked_free_capacity(servers) {
        Some(total) => total,
        None => {
            assert(false);
            0
        },
    }
}

// ---- how many servers to start ----

/// The room that one new server is counted for.
pub open spec fn room_per_server(config: Config) -> nat {
    if config.ds_max_players == 0 {
        1
    } else {
        config.ds_max_players as nat
    }
}

/// The least number of new servers with which the room reaches the minimum.
pub open spec fn servers_needed(config: Config, free: nat) -> nat {
    if free < config.hot_capacity_min {
        let missing = (config.hot_capacity_min - free) as nat;
        let room = room_per_server(config);
        if missing % room == 0 {
            missing / room
        } else {
            missing / room + 1
        }
    } else {
        0
    }
}

/// The number of servers to start in one tick: those needed, up to the limit of a tick.
pub open spec fn servers_to_spawn(config: Config, free: nat) -> nat {
    if servers_needed(config, free) <= config.max_spawn_per_tick {
        servers_needed(config, free)
    } else {
        config.max_spawn_per_tick as nat
    }
}

/// The servers needed make up for what is missing, and one less would not.
pub proof fn law_servers_needed_is_least(config: Config, free: nat)
    ensures
        free < config.hot_capacity_min ==> {
            let missing = config.hot_capacity_min - free;
            let room = room_per_server(config);
            let needed = servers_needed(config, free);
            needed >= 1 && needed * room >= missing && (needed - 1) * room < missing
        },
        free >= config.hot_capacity_min ==> servers_needed(config, free) == 0,
{
    if free < config.hot_capacity_min {
        let missing = (config.hot_capacity_min - free) as nat;
        let room = room_per_server(config);
        let needed = servers_needed(config, free);
        lemma_fundamental_div_mod(missing as int, room as int);
        let q = missing / room;
        let r = missing % room;
        assert(missing == room * q + r);
        assert(0 <= r < room);
        if r == 0 {
            assert(needed == q);
            assert(needed * room == room * q) by (nonlinear_arith)
                requires
                    needed == q,
            ;
            assert((needed - 1) * room == room * q - room) by (nonlinear_arith)
                requires
                    needed == q,
            ;
            assert(q >= 1) by (nonlinear_arith)
                requires
                    missing == room * q + r,
                    r == 0,
                    missing >= 1,
            ;
        } else {
            assert(needed * room == room * q + room) by (nonlinear_arith)
                requires
                    needed == q + 1,
            ;
            assert((needed - 1) * room == room * q) by (nonlinear_arith)
                requires
                    needed == q + 1,
            ;
        }
    }
}

/// How many servers to start.
#[derive(Debug, Clone, Copy)]
pub struct SpawnPlan {
    /// With so many the room would reach the minimum.
    pub needed: usize,
    /// So many are started in this tick.
    pub to_spawn: usize,
}

/// How many servers to start where there is room for `free` players.
pub fn plan_spawns(config: &Config, free: usize) -> (plan: SpawnPlan)
    ensures
        plan.needed == servers_needed(*config, free as nat),
        plan.to_spawn == servers_to_spawn(*config, free as nat),
{
    if free >= config.hot_capacity_min {
        return SpawnPlan { needed: 0, to_spawn: 0 };
    }
    let missing: usize = config.hot_capacity_min - free;
    let room: usize = if config.ds_max_players == 0 {
        1
    } else {
        config.ds_max_players
    };
    let whole: usize = missing / room;
    let needed: usize = if missing % room == 0 {
        whole
    } else {
        proof {
            lemma_fundamental_div_mod(missing as int, room as int);
            assert(whole < missing) by (nonlinear_arith)
                requires
                    missing == room * whole + missing % room,
                    missing % room > 0,
                    room >= 1,
            ;
        }
        whole + 1
    };
    let to_spawn: usize = if needed <= config.max_spawn_per_tick {
        needed
    } else {
        config.max_spawn_per_tick
    };
    SpawnPlan { needed, to_spawn }
}

// ---- what a new server is told ----

/// What a new server is told.
#[derive(Debug, Clone)]
pub struct SpawnEnv {
    pub ds_zone: String,
    pub ds_max_players: usize,
    pub ds_advertise_host: String,
    pub orch_host: String,
    pub orch_port: u16,
    pub redis_url: String,
}

/// What a new server is told under `config`.
pub open spec fn spawn_env(config: Config) -> SpawnEnv {
    SpawnEnv {
        ds_zone: config.ds_zone,
        ds_max_players: config.ds_max_players,
        ds_advertise_host: config.ds_advertise_host,
        orch_host: config.orch_advertise_host,
        orch_port: config.orch_port,
        redis_url: config.redis_url,
    }
}

pub(crate) fn make_spawn_env(config: &Config) -> (env: SpawnEnv)
    ensures
        env == spawn_env(*config),
{
    SpawnEnv {
        ds_zone: config.ds_zone.clone(),
        ds_max_players: config.ds_max_players,
        ds_advertise_host: config.ds_advertise_host.clone(),
        orch_host: config.orch_advertise_host.clone(),
        orch_port: config.orch_port,
        redis_url: config.redis_url.clone(),
    }
}

// ---- which servers may be stopped ----

/// A server that is available and has no players.
#[derive(Debug)]
pub struct EmptyServer {
    pub id: String,
    pub max_players: usize,
}

/// Whether a server is available and has no players.
pub open spec fn is_empty_server(server: SnapshotView) -> bool {
    server.status == "available"@ && server.player_count == 0
}

/// The servers that are available and have no players, in order, each with its room.
pub open spec fn empty_servers(servers: Seq<SnapshotView>) -> Seq<(Seq<char>, nat)>
    decreases servers.len(),
{
    if servers.len() == 0 {
        Seq::empty()
    } else {
        let before = empty_servers(servers.drop_last());
        let server = servers.last();
        if is_empty_server(server) {
            before.push((server.id, server.max_players))
        } else {
            before
        }
    }
}

impl DeepView for EmptyServer {
    type V = (Seq<char>, nat);

    open spec fn deep_view(&self) -> (Seq<char>, nat) {
        (self.id@, self.max_players as nat)
    }
}

pub(crate) fn find_empty_servers(servers: &[ServerSnapshot]) -> (empties: Vec<EmptyServer>)
    ensures
        empties.deep_view() == empty_servers(servers.deep_view()),
{
    let ghost all = servers.deep_view();
    let mut empties: Vec<EmptyServer> = Vec::new();
    let mut i: usize = 0;
    assert(all.take(0) == Seq::<SnapshotView>::empty());
    assert(empties.deep_view() == Seq::<(Seq<char>, nat)>::empty());
    while i < servers.len()
        invariant
            i <= servers.len(),
            all == servers.deep_view(),
            empties.deep_view() == empty_servers(all.take(i as int)),
        decreases servers.len() - i,
    {
        let ghost before = empties.deep_view();
        assert(all[i as int] == servers[i as int]@);
        assert(all.take(i as int + 1).drop_last() == all.take(i as int));
        let server = &servers[i];
        if same_text(server.status.as_str(), "available") && server.player_count == 0 {
            empties.push(
                EmptyServer { id: server.id.clone(), max_players: server.max_players },
            );
            assert(empties.deep_view() == before.push(
                (server.id@, server.max_players as nat),
            ));
        }
        i = i + 1;
    }
    assert(all.take(all.len() as int) == all);
    empties
}

// ---- laws ----

/// A server has room for as many players as are missing to its full number, where it is
/// available, and for none otherwise.
pub proof fn law_free_slots(server: SnapshotView)
    ensures
        server.status == "available"@ && server.player_count <= server.max_players
            ==> server.player_count + free_slots(server) == server.max_players,
        server.status == "available"@ && server.player_count > server.max_players ==> free_slots(
            server,
        ) == 0,
        server.status != "available"@ ==> free_slots(server) == 0,
{
}

/// The room of the fleet is the sum of the room of its servers, each counted on its own.
pub proof fn law_room_adds_up(a: Seq<SnapshotView>, one: SnapshotView, b: Seq<SnapshotView>)
    ensures
        total_free(a.push(one) + b) == total_free(a) + free_slots(one) + total_free(b),
        total_free(Seq::empty()) == 0,
    decreases b.len(),
{
    if b.len() == 0 {
        assert(a.push(one) + b == a.push(one));
        assert(a.push(one).drop_last() == a);
    } else {
        law_room_adds_up(a, one, b.drop_last());
        assert((a.push(one) + b).drop_last() == a.push(one) + b.drop_last());
    }
}

/// The room that is counted is that of the fleet, where it can be held.
pub proof fn law_counted_room(servers: &[ServerSnapshot], total: Option<usize>)
    requires
        call_ensures(checked_free_capacity, (servers,), total),
    ensures
        total is Some <==> total_free(servers.deep_view()) <= usize::MAX,
        total matches Some(n) ==> n == total_free(servers.deep_view()),
{
}

/// In one tick as many servers are started as are needed, or as the limit allows, whichever is
/// less: with fewer the room would stay short of the minimum although the limit allows more.
pub proof fn law_spawns_of_a_tick(config: Config, free: usize, plan: SpawnPlan)
    requires
        call_ensures(plan_spawns, (&config, free), plan),
    ensures
        plan.to_spawn <= plan.needed,
        plan.to_spawn <= config.max_spawn_per_tick,
        plan.to_spawn == plan.needed || plan.to_spawn == config.max_spawn_per_tick,
        free >= config.hot_capacity_min <==> plan.needed == 0,
        config.ds_max_players > 0 ==> free + plan.needed * config.ds_max_players
            >= config.hot_capacity_min,
        config.ds_max_players > 0 && plan.needed > 0 ==> free + (plan.needed - 1)
            * config.ds_max_players < config.hot_capacity_min,
        config.ds_max_players == 0 && plan.needed > 0 ==> free + plan.needed
            == config.hot_capacity_min,
        plan.to_spawn == servers_to_spawn(config, free as nat),
{
    law_servers_needed_is_least(config, free as nat);
    if plan.needed == 0 {
        assert(plan.needed * config.ds_max_players == 0) by (nonlinear_arith)
            requires
                plan.needed == 0,
        ;
    }
}

/// A server is a candidate for being stopped exactly if it is available and has no players,
/// whatever the others do, and the candidates keep their order.
pub proof fn law_empty_servers_are_found_one_by_one(
    a: Seq<SnapshotView>,
    one: SnapshotView,
    b: Seq<SnapshotView>,
)
    ensures
        empty_servers(a.push(one) + b) == empty_servers(a) + (if one.status == "available"@
            && one.player_count == 0 {
            seq![(one.id, one.max_players)]
        } else {
            Seq::empty()
        }) + empty_servers(b),
        empty_servers(Seq::empty()) == Seq::<(Seq<char>, nat)>::empty(),
    decreases b.len(),
{
    let mid = if one.status == "available"@ && one.player_count == 0 {
        seq![(one.id, one.max_players)]
    } else {
        Seq::empty()
    };
    if b.len() == 0 {
        assert(a.push(one) + b == a.push(one));
        assert(a.push(one).drop_last() == a);
        assert(empty_servers(a.push(one)) == empty_servers(a) + mid + empty_servers(b));
    } else {
        law_empty_servers_are_found_one_by_one(a, one, b.drop_last());
        assert((a.push(one) + b).drop_last() == a.push(one) + b.drop_last());
        assert(empty_servers(a.push(one) + b) == empty_servers(a) + mid + empty_servers(b));
    }
}

/// A new server is told, field by field, what the variables of the orchestrator say: where the
/// orchestrator listens by the orchestrator's own variables, and the host that the server is
/// reached by, its zone, its room and its store by theirs.
pub proof fn law_new_server_is_told_the_settings(config: Config, env: FieldMap)
    requires
        config.read_from(env),
    ensures
        says(env, "ORCH_ADVERTISE_HOST"@, "localhost"@, spawn_env(config).orch_host@),
        counts(env, "ORCH_PORT"@, 9000, u16::MAX as nat, spawn_env(config).orch_port as nat),
        says(env, "DS_ADVERTISE_HOST"@, "localhost"@, spawn_env(config).ds_advertise_host@),
        says(env, "DS_ZONE"@, "zone_A"@, spawn_env(config).ds_zone@),
        counts(
            env,
            "DS_MAX_PLAYERS"@,
            200,
            usize::MAX as nat,
            spawn_env(config).ds_max_players as nat,
        ),
        says(env, "REDIS_URL"@, "redis://localhost:6379"@, spawn_env(config).redis_url@),
{
    law_orchestrator_settings(config, env);
}

} // verus!
