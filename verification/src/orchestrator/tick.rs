//! One tick of the scaler as a machine: it says what to do, is told what came of it, and
//! says what to do next.

use crate::boundary::is_random_uuid;
use crate::boundary::random_uuid;
use crate::orchestrator::config::Config;
use crate::orchestrator::ports::is_used;
use crate::orchestrator::ports::pick_free_port;
use crate::orchestrator::registry::starting_write;
use crate::orchestrator::registry::write_starting;
use crate::orchestrator::registry::Location;
use crate::orchestrator::registry::ServerSnapshot;
use crate::orchestrator::registry::SnapshotView;
use crate::orchestrator::scaler::empty_servers;
use crate::orchestrator::scaler::find_empty_servers;
use crate::orchestrator::scaler::make_spawn_env;
use crate::orchestrator::scaler::plan_spawns;
use crate::orchestrator::scaler::servers_to_spawn;
use crate::orchestrator::scaler::spawn_env;
use crate::orchestrator::scaler::total_free;
use crate::orchestrator::scaler::total_free_capacity;
use crate::orchestrator::scaler::EmptyServer;
use crate::orchestrator::scaler::SpawnEnv;
use crate::store::make_server_key;
use crate::store::server_key;
use crate::store::HashWrite;
use vstd::prelude::*;

verus! {

/// What is to be done next.
#[derive(Debug)]
pub enum TickAction {
    /// Read the port field of every server entry.
    ListPorts,
    /// Start a server.
    Spawn { ds_id: String, port: u16, env: SpawnEnv },
    /// Write the entry of a server that was started.
    Register(HashWrite),
    /// Find out where a server runs.
    Locate { ds_id: String },
    /// Stop a server.
    Kill(Location),
    /// Delete the entry of a server.
    Forget { key: String },
    /// Nothing more, until the next tick.
    Finish,
}

/// What came of it.
#[derive(Debug)]
pub enum TickEvent {
    /// The port fields of the server entries, where they have one.
    Ports(Vec<Option<String>>),
    /// The server entries could not be read.
    PortsFailed,
    /// The server was started.
    Spawned(Location),
    /// The server was not started.
    SpawnFailed,
    /// The entry was written, or could not be.
    Registered,
    /// The server runs there.
    Located(Location),
    /// The server runs nowhere.
    NotLocated,
    /// It could not be found out where the server runs.
    LocateFailed,
    /// The server was stopped.
    Killed,
    /// The server was not stopped.
    KillFailed,
    /// The entry was deleted, or could not be.
    Forgotten,
}

/// What a tick is waiting for.
#[derive(Debug)]
pub enum TickPhase {
    Ports,
    Spawning { ds_id: String, port: u16 },
    Registering,
    Locating,
    Killing,
    Forgetting,
    Over,
}

/// One tick of the scaler.
#[derive(Debug)]
pub struct Tick {
    /// What it is waiting for.
    pub phase: TickPhase,
    /// The room that there was at its start.
    pub free: usize,
    /// How many servers it has still to start, with the one that is being started.
    pub spawns_left: usize,
    /// The servers that were empty at its start.
    pub empties: Vec<EmptyServer>,
    /// The empty server whose turn it is.
    pub next: usize,
    /// The room that there is without the servers it stopped, and those that run nowhere.
    pub current_free: usize,
    /// How many servers it stopped.
    pub evicted: usize,
}

/// The least room that must be left where a server is stopped.
pub open spec fn eviction_floor(config: Config) -> int {
    config.hot_capacity_min + config.evict_buffer
}

/// `a - b`, or 0 where `b` is greater.
pub open spec fn minus(a: nat, b: nat) -> nat {
    if a >= b {
        (a - b) as nat
    } else {
        0
    }
}

/// Whether the empty server whose turn it is may be stopped: the limit of a tick is not
/// reached, and without the server there is room enough.
pub open spec fn may_evict(config: Config, tick: Tick) -> bool {
    &&& tick.next < tick.empties.len()
    &&& tick.evicted < config.max_evict_per_tick
    &&& minus(tick.current_free as nat, tick.empties[tick.next as int].max_players as nat)
        >= eviction_floor(config)
}

/// From `pre`, the tick turns to the empty server whose turn it is, or ends.
pub open spec fn turns_to_next(config: Config, pre: Tick, post: Tick, action: TickAction) -> bool {
    if may_evict(config, pre) {
        &&& action == TickAction::Locate { ds_id: pre.empties[pre.next as int].id }
        &&& post == Tick { phase: TickPhase::Locating, ..pre }
    } else {
        &&& action == TickAction::Finish
        &&& post == Tick { phase: TickPhase::Over, ..pre }
    }
}

/// From `pre`, the tick starts another server, or is done with starting.
pub open spec fn starts_next(config: Config, pre: Tick, post: Tick, action: TickAction) -> bool {
    if pre.spawns_left > 0 {
        &&& action == TickAction::ListPorts
        &&& post == Tick { phase: TickPhase::Ports, ..pre }
    } else {
        turns_to_next(config, pre, post, action)
    }
}

/// The lowest port of the range that is free.
pub open spec fn is_lowest_free(config: Config, fields: Seq<Option<Seq<char>>>, port: u16) -> bool {
    &&& config.ds_port_range_min <= port <= config.ds_port_range_max
    &&& !is_used(fields, port)
    &&& forall|lower: u16|
        config.ds_port_range_min <= lower < port ==> #[trigger] is_used(fields, lower)
}

/// Whether every port of the range is used.
pub open spec fn no_port_free(config: Config, fields: Seq<Option<Seq<char>>>) -> bool {
    forall|port: u16|
        config.ds_port_range_min <= port <= config.ds_port_range_max ==> #[trigger] is_used(
            fields,
            port,
        )
}

/// What a tick that is at `pre` does when it is told `event`.
pub open spec fn tick_step(
    config: Config,
    pre: Tick,
    event: TickEvent,
    post: Tick,
    action: TickAction,
) -> bool {
    let done_spawning = Tick { spawns_left: 0, ..pre };
    let passed = Tick { next: (pre.next + 1) as usize, ..pre };
    let without = minus(
        pre.current_free as nat,
        pre.empties[pre.next as int].max_players as nat,
    ) as usize;
    match (pre.phase, event) {
        (TickPhase::Ports, TickEvent::Ports(fields)) => if no_port_free(
            config,
            fields.deep_view(),
        ) {
            turns_to_next(config, done_spawning, post, action)
        } else {
            &&& action matches TickAction::Spawn { ds_id, port, env }
            &&& is_random_uuid(ds_id@)
            &&& is_lowest_free(config, fields.deep_view(), port)
            &&& env == spawn_env(config)
            &&& post == Tick { phase: TickPhase::Spawning { ds_id: post.phase->ds_id, port }, ..pre }
            &&& post.phase->ds_id@ == ds_id@
        },
        (TickPhase::Ports, TickEvent::PortsFailed) => turns_to_next(
            config,
            done_spawning,
            post,
            action,
        ),
        (TickPhase::Spawning { ds_id, port }, TickEvent::Spawned(location)) => {
            &&& action matches TickAction::Register(write)
            &&& write@ == starting_write(ds_id@, port, location, config)
            &&& post == Tick { phase: TickPhase::Registering, ..pre }
        },
        (TickPhase::Spawning { .. }, TickEvent::SpawnFailed) => turns_to_next(
            config,
            done_spawning,
            post,
            action,
        ),
        (TickPhase::Registering, TickEvent::Registered) => starts_next(
            config,
            Tick { spawns_left: (pre.spawns_left - 1) as usize, ..pre },
            post,
            action,
        ),
        (TickPhase::Locating, TickEvent::Located(location)) => {
            &&& action == TickAction::Kill(location)
            &&& post == Tick { phase: TickPhase::Killing, ..pre }
        },
        (TickPhase::Locating, TickEvent::NotLocated) => {
            &&& action matches TickAction::Forget { key }
            &&& key@ == server_key(pre.empties[pre.next as int].id@)
            &&& post == Tick { phase: TickPhase::Forgetting, current_free: without, ..passed }
        },
        (TickPhase::Locating, TickEvent::LocateFailed) => turns_to_next(
            config,
            passed,
            post,
            action,
        ),
        (TickPhase::Killing, TickEvent::Killed) => {
            &&& action matches TickAction::Forget { key }
            &&& key@ == server_key(pre.empties[pre.next as int].id@)
            &&& post == Tick {
                phase: TickPhase::Forgetting,
                current_free: without,
                evicted: (pre.evicted + 1) as usize,
                ..passed
            }
        },
        (TickPhase::Killing, TickEvent::KillFailed) => turns_to_next(config, passed, post, action),
        (TickPhase::Forgetting, TickEvent::Forgotten) => turns_to_next(config, pre, post, action),
        (_, _) => {
            &&& action == TickAction::Finish
            &&& post == Tick { phase: TickPhase::Over, ..pre }
        },
    }
}

/// How a tick begins that finds `servers` in the store.
pub open spec fn tick_begin(
    config: Config,
    servers: Seq<SnapshotView>,
    post: Tick,
    action: TickAction,
) -> bool {
    let pre = Tick {
        phase: TickPhase::Over,
        free: total_free(servers) as usize,
        spawns_left: servers_to_spawn(config, total_free(servers)) as usize,
        empties: post.empties,
        next: 0,
        current_free: total_free(servers) as usize,
        evicted: 0,
    };
    &&& post.empties.deep_view() == empty_servers(servers)
    &&& starts_next(config, pre, post, action)
}

impl Tick {
    /// Whether the tick is about an empty server that there is, where it is about one, and
    /// has a server to start, where it is starting one.
    pub open spec fn wf(self) -> bool {
        &&& self.phase is Locating || self.phase is Killing ==> self.next < self.empties.len()
        &&& self.phase is Ports || self.phase is Spawning || self.phase is Registering
            ==> self.spawns_left > 0
        &&& self.evicted <= self.next <= self.empties.len()
    }

    fn turn_to_next(&mut self, config: &Config) -> (action: TickAction)
        requires
            old(self).evicted <= old(self).next <= old(self).empties.len(),
        ensures
            final(self).wf(),
            turns_to_next(*config, *old(self), *final(self), action),
    {
        if self.next < self.empties.len() && self.evicted < config.max_evict_per_tick {
            let after: usize = self.current_free.saturating_sub(self.empties[self.next].max_players);
            if after >= config.hot_capacity_min && after - config.hot_capacity_min
                >= config.evict_buffer {
                let ds_id = self.empties[self.next].id.clone();
                self.phase = TickPhase::Locating;
                return TickAction::Locate { ds_id };
            }
        }
        self.phase = TickPhase::Over;
        TickAction::Finish
    }

    fn start_next(&mut self, config: &Config) -> (action: TickAction)
        requires
            old(self).evicted <= old(self).next <= old(self).empties.len(),
        ensures
            final(self).wf(),
            starts_next(*config, *old(self), *final(self), action),
    {
        if self.spawns_left > 0 {
            self.phase = TickPhase::Ports;
            TickAction::ListPorts
        } else {
            self.turn_to_next(config)
        }
    }

    /// Begins a tick that finds `servers` in the store, and says what to do first.
    pub fn begin(config: &Config, servers: &[ServerSnapshot]) -> (begun: (Tick, TickAction))
        requires
            total_free(servers.deep_view()) <= usize::MAX,
        ensures
            begun.0.wf(),
            tick_begin(*config, servers.deep_view(), begun.0, begun.1),
    {
        let free = total_free_capacity(servers);
        let plan = plan_spawns(config, free);
        let mut tick = Tick {
            phase: TickPhase::Over,
            free,
            spawns_left: plan.to_spawn,
            empties: find_empty_servers(servers),
            next: 0,
            current_free: free,
            evicted: 0,
        };
        let action = tick.start_next(config);
        (tick, action)
    }

    /// Takes what came of the last action, and says what to do next. An event that does
    /// not answer that action ends the tick.
    pub fn step(&mut self, config: &Config, event: TickEvent) -> (action: TickAction)
        requires
            old(self).wf(),
        ensures
            final(self).wf(),
            tick_step(*config, *old(self), event, *final(self), action),
    {
        let mut phase = TickPhase::Over;
        std::mem::swap(&mut phase, &mut self.phase);
        match (phase, event) {
            (TickPhase::Ports, TickEvent::Ports(fields)) => {
                match pick_free_port(config.ds_port_range_min, config.ds_port_range_max, &fields) {
                    Ok(port) => {
                        let ds_id = random_uuid();
                        self.phase = TickPhase::Spawning { ds_id: ds_id.clone(), port };
                        TickAction::Spawn { ds_id, port, env: make_spawn_env(config) }
                    },
                    Err(_) => {
                        self.spawns_left = 0;
                        self.turn_to_next(config)
                    },
                }
            },
            (TickPhase::Ports, TickEvent::PortsFailed) => {
                self.spawns_left = 0;
                self.turn_to_next(config)
            },
            (TickPhase::Spawning { ds_id, port }, TickEvent::Spawned(location)) => {
                self.phase = TickPhase::Registering;
                TickAction::Register(write_starting(ds_id.as_str(), port, &location, config))
            },
            (TickPhase::Spawning { .. }, TickEvent::SpawnFailed) => {
                self.spawns_left = 0;
                self.turn_to_next(config)
            },
            (TickPhase::Registering, TickEvent::Registered) => {
                self.spawns_left = self.spawns_left - 1;
                self.start_next(config)
            },
            (TickPhase::Locating, TickEvent::Located(location)) => {
                self.phase = TickPhase::Killing;
                TickAction::Kill(location)
            },
            (TickPhase::Locating, TickEvent::NotLocated) => {
                let key = make_server_key(self.empties[self.next].id.as_str());
                self.phase = TickPhase::Forgetting;
                self.current_free = self.current_free.saturating_sub(
                    self.empties[self.next].max_players,
                );
                self.next = self.next + 1;
                TickAction::Forget { key }
            },
            (TickPhase::Locating, TickEvent::LocateFailed) => {
                self.next = self.next + 1;
                self.turn_to_next(config)
            },
            (TickPhase::Killing, TickEvent::Killed) => {
                let key = make_server_key(self.empties[self.next].id.as_str());
                self.phase = TickPhase::Forgetting;
                self.current_free = self.current_free.saturating_sub(
                    self.empties[self.next].max_players,
                );
                self.evicted = self.evicted + 1;
                self.next = self.next + 1;
                TickAction::Forget { key }
            },
            (TickPhase::Killing, TickEvent::KillFailed) => {
                self.next = self.next + 1;
                self.turn_to_next(config)
            },
            (TickPhase::Forgetting, TickEvent::Forgotten) => self.turn_to_next(config),
            (_, _) => TickAction::Finish,
        }
    }
}

} // verus!
