//! What holds of every tick of the scaler, whatever comes of its actions.

use crate::boundary::is_random_uuid;
use crate::environment::counts;
use crate::environment::says;
use crate::numbers::decimal;
use crate::orchestrator::config::Config;
use crate::orchestrator::ports::is_used;
use crate::orchestrator::ports::law_registered_port_is_used;
use crate::orchestrator::registry::law_starting_fills_entry;
use crate::orchestrator::registry::law_starting_reads_back;
use crate::orchestrator::registry::ServerSnapshot;
use crate::orchestrator::registry::SnapshotView;
use crate::orchestrator::scaler::empty_servers;
use crate::orchestrator::scaler::is_empty_server;
use crate::orchestrator::scaler::law_new_server_is_told_the_settings;
use crate::orchestrator::scaler::law_servers_needed_is_least;
use crate::orchestrator::scaler::servers_to_spawn;
use crate::orchestrator::scaler::total_free;
use crate::orchestrator::tick::eviction_floor;
use crate::orchestrator::tick::may_evict;
use crate::orchestrator::tick::tick_begin;
use crate::orchestrator::tick::tick_step;
use crate::orchestrator::tick::Tick;
use crate::orchestrator::tick::TickAction;
use crate::orchestrator::tick::TickEvent;
use crate::orchestrator::tick::TickPhase;
use crate::store::field;
use crate::store::FieldMap;
use crate::store::HashWriteView;
use vstd::prelude::*;

verus! {

/// A tick as far as it has come: its states, the actions it asked for, and what came of
/// each but the last.
pub struct TickRun {
    pub states: Seq<Tick>,
    pub actions: Seq<TickAction>,
    pub events: Seq<TickEvent>,
}

impl TickRun {
    /// Whether a tick that finds `servers` in the store can run like this.
    pub open spec fn valid(self, config: Config, servers: Seq<SnapshotView>) -> bool {
        &&& total_free(servers) <= usize::MAX
        &&& self.states.len() == self.events.len() + 1
        &&& self.actions.len() == self.events.len() + 1
        &&& tick_begin(config, servers, self.states[0], self.actions[0])
        &&& forall|i: int|
            0 <= i < self.events.len() ==> #[trigger] tick_step(
                config,
                self.states[i],
                self.events[i],
                self.states[i + 1],
                self.actions[i + 1],
            )
    }

    /// The run without its last step.
    pub open spec fn before_last(self) -> TickRun {
        TickRun {
            states: self.states.drop_last(),
            actions: self.actions.drop_last(),
            events: self.events.drop_last(),
        }
    }

    /// Whether the last step stopped a server.
    pub open spec fn last_killed(self) -> bool {
        &&& self.states[self.events.len() - 1].phase is Killing
        &&& self.events.last() is Killed
    }

    /// The servers that the run asked to start.
    pub open spec fn spawns(self) -> nat
        decreases self.actions.len(),
    {
        if self.actions.len() == 0 {
            0
        } else {
            let before = self.before_last().spawns();
            if self.actions.last() is Spawn {
                before + 1
            } else {
                before
            }
        }
    }

    /// The servers that were stopped in the run.
    pub open spec fn kills(self) -> nat
        decreases self.events.len(),
    {
        if self.events.len() == 0 {
            0
        } else {
            let before = self.before_last().kills();
            if self.last_killed() {
                before + 1
            } else {
                before
            }
        }
    }

    /// Whether the last step found that a server runs nowhere.
    pub open spec fn last_missed(self) -> bool {
        &&& self.states[self.events.len() - 1].phase is Locating
        &&& self.events.last() is NotLocated
    }

    /// The room of the servers that are gone after the run: those that were stopped in it,
    /// and those that were found to run nowhere.
    pub open spec fn room_gone(self) -> nat
        decreases self.events.len(),
    {
        if self.events.len() == 0 {
            0
        } else {
            let before = self.before_last().room_gone();
            let tick = self.states[self.events.len() - 1];
            if self.last_killed() || self.last_missed() {
                before + tick.empties[tick.next as int].max_players as nat
            } else {
                before
            }
        }
    }

    /// Whether every event answers the action before it.
    pub open spec fn in_turn(self) -> bool {
        forall|i: int|
            0 <= i < self.events.len() ==> tick_answers(self.actions[i], #[trigger] self.events[i])
    }

    /// Whether the port fields that are read hold the port of every server that was
    /// registered before in the run.
    pub open spec fn reads_registered_ports(self) -> bool {
        forall|i: int, j: int|
            #![trigger self.actions[i], self.events[j]]
            0 <= i < j < self.events.len() && self.actions[i] is Register && self.events[j] is Ports
                ==> self.events[j]->Ports_0.deep_view().contains(
                registered_port(self.actions[i]->Register_0@),
            )
    }

    /// Whether a free port was found for every server, and every server was started.
    pub open spec fn starts_well(self, config: Config) -> bool {
        forall|i: int|
            0 <= i < self.events.len() ==> !fails_to_start(config, #[trigger] self.events[i])
    }
}

/// The port field of an entry that was written by `write`.
pub open spec fn registered_port(write: HashWriteView) -> Option<Seq<char>> {
    field(write.applied_to(FieldMap::empty()), "port"@)
}

/// Whether `event` is something that can come of `action`.
pub open spec fn tick_answers(action: TickAction, event: TickEvent) -> bool {
    match action {
        TickAction::ListPorts => event is Ports || event is PortsFailed,
        TickAction::Spawn { .. } => event is Spawned || event is SpawnFailed,
        TickAction::Register(_) => event is Registered,
        TickAction::Locate { .. } => event is Located || event is NotLocated || event
            is LocateFailed,
        TickAction::Kill(_) => event is Killed || event is KillFailed,
        TickAction::Forget { .. } => event is Forgotten,
        TickAction::Finish => false,
    }
}

/// Whether `event` keeps a server from being started.
pub open spec fn fails_to_start(config: Config, event: TickEvent) -> bool {
    match event {
        TickEvent::Ports(fields) => forall|port: u16|
            config.ds_port_range_min <= port <= config.ds_port_range_max ==> #[trigger] is_used(
                fields.deep_view(),
                port,
            ),
        TickEvent::PortsFailed => true,
        TickEvent::SpawnFailed => true,
        _ => false,
    }
}

/// What is being waited for is what was asked for.
pub open spec fn phase_fits(phase: TickPhase, action: TickAction) -> bool {
    match action {
        TickAction::ListPorts => phase is Ports,
        TickAction::Spawn { .. } => phase is Spawning,
        TickAction::Register(_) => phase is Registering,
        TickAction::Locate { .. } => phase is Locating,
        TickAction::Kill(_) => phase is Killing,
        TickAction::Forget { .. } => phase is Forgetting,
        TickAction::Finish => phase is Over,
    }
}

/// The room of the empty servers from `from` on.
pub open spec fn room_from(empties: Seq<(Seq<char>, nat)>, from: int) -> nat
    decreases empties.len() - from,
{
    if from < 0 || from >= empties.len() {
        0
    } else {
        empties[from].1 + room_from(empties, from + 1)
    }
}

proof fn lemma_room_push(empties: Seq<(Seq<char>, nat)>, one: (Seq<char>, nat), from: int)
    requires
        0 <= from <= empties.len(),
    ensures
        room_from(empties.push(one), from) == room_from(empties, from) + one.1,
    decreases empties.len() - from,
{
    if from < empties.len() {
        lemma_room_push(empties, one, from + 1);
    } else {
        assert(room_from(empties.push(one), from + 1) == 0);
    }
}

proof fn lemma_empties_have_their_room(servers: Seq<SnapshotView>)
    ensures
        room_from(empty_servers(servers), 0) <= total_free(servers),
    decreases servers.len(),
{
    if servers.len() > 0 {
        lemma_empties_have_their_room(servers.drop_last());
        let server = servers.last();
        if is_empty_server(server) {
            lemma_room_push(
                empty_servers(servers.drop_last()),
                (server.id, server.max_players),
                0,
            );
        }
    }
}

proof fn lemma_empties_are_empty(servers: Seq<SnapshotView>, i: int) -> (at: int)
    requires
        0 <= i < empty_servers(servers).len(),
    ensures
        0 <= at < servers.len(),
        is_empty_server(servers[at]),
        servers[at].id == empty_servers(servers)[i].0,
        servers[at].max_players == empty_servers(servers)[i].1,
    decreases servers.len(),
{
    if is_empty_server(servers.last()) && i == empty_servers(servers).len() - 1 {
        servers.len() - 1
    } else {
        lemma_empties_are_empty(servers.drop_last(), i)
    }
}

/// Whether a tick is starting a server.
pub open spec fn is_spawning(tick: Tick) -> bool {
    tick.phase is Ports || tick.phase is Spawning || tick.phase is Registering
}

/// Whether a tick is stopping a server.
pub open spec fn is_evicting(tick: Tick) -> bool {
    tick.phase is Locating || tick.phase is Killing
}

/// What every state of a tick keeps.
pub open spec fn tick_keeps(config: Config, servers: Seq<SnapshotView>, tick: Tick) -> bool {
    &&& tick.wf()
    &&& tick.empties.deep_view() == empty_servers(servers)
    &&& tick.free == total_free(servers)
    &&& is_spawning(tick) ==> tick.free < config.hot_capacity_min && tick.evicted == 0
    &&& tick.spawns_left > 0 ==> tick.free < config.hot_capacity_min
    &&& is_evicting(tick) ==> may_evict(config, tick)
    &&& tick.evicted <= config.max_evict_per_tick
    &&& tick.current_free <= tick.free
    &&& tick.evicted > 0 || tick.current_free < tick.free ==> tick.current_free
        >= eviction_floor(config)
    &&& room_from(tick.empties.deep_view(), tick.next as int) <= tick.current_free
}

proof fn lemma_room_of_turn(tick: Tick)
    requires
        tick.next < tick.empties.len(),
    ensures
        room_from(tick.empties.deep_view(), tick.next as int)
            == tick.empties[tick.next as int].max_players + room_from(
            tick.empties.deep_view(),
            tick.next + 1,
        ),
{
    assert(tick.empties.deep_view()[tick.next as int].1
        == tick.empties[tick.next as int].max_players);
}

proof fn lemma_begin_keeps(
    config: Config,
    servers: Seq<SnapshotView>,
    tick: Tick,
    action: TickAction,
)
    requires
        total_free(servers) <= usize::MAX,
        tick_begin(config, servers, tick, action),
    ensures
        tick_keeps(config, servers, tick),
        tick.current_free == total_free(servers),
        tick.evicted == 0,
        tick.spawns_left <= config.max_spawn_per_tick,
        !(action is Spawn),
        !(action is Kill),
{
    lemma_empties_have_their_room(servers);
    law_servers_needed_is_least(config, total_free(servers));
}

proof fn lemma_step_keeps(
    config: Config,
    servers: Seq<SnapshotView>,
    pre: Tick,
    event: TickEvent,
    post: Tick,
    action: TickAction,
)
    requires
        tick_keeps(config, servers, pre),
        tick_step(config, pre, event, post, action),
    ensures
        tick_keeps(config, servers, post),
        post.free == pre.free,
        action is Spawn ==> pre.phase is Ports && post.phase is Spawning,
        action is Kill ==> pre.phase is Locating && post.phase is Killing,
{
    if pre.next < pre.empties.len() {
        lemma_room_of_turn(pre);
    }
}

/// Every state of a tick keeps what [`tick_keeps`] says.
pub proof fn law_tick_keeps(config: Config, servers: Seq<SnapshotView>, run: TickRun, i: int)
    requires
        run.valid(config, servers),
        0 <= i < run.states.len(),
    ensures
        tick_keeps(config, servers, run.states[i]),
    decreases i,
{
    if i == 0 {
        lemma_begin_keeps(config, servers, run.states[0], run.actions[0]);
    } else {
        law_tick_keeps(config, servers, run, i - 1);
        assert(tick_step(
            config,
            run.states[i - 1],
            run.events[i - 1],
            run.states[i - 1 + 1],
            run.actions[i - 1 + 1],
        ));
        lemma_step_keeps(
            config,
            servers,
            run.states[i - 1],
            run.events[i - 1],
            run.states[i],
            run.actions[i],
        );
    }
}

proof fn lemma_before_last_valid(config: Config, servers: Seq<SnapshotView>, run: TickRun)
    requires
        run.valid(config, servers),
        run.events.len() > 0,
    ensures
        run.before_last().valid(config, servers),
        run.before_last().states.last() == run.states[run.events.len() - 1],
        tick_step(
            config,
            run.states[run.events.len() - 1],
            run.events.last(),
            run.states.last(),
            run.actions.last(),
        ),
{
    let b = run.before_last();
    assert forall|i: int| 0 <= i < b.events.len() implies #[trigger] tick_step(
        config,
        b.states[i],
        b.events[i],
        b.states[i + 1],
        b.actions[i + 1],
    ) by {
        assert(tick_step(
            config,
            run.states[i],
            run.events[i],
            run.states[i + 1],
            run.actions[i + 1],
        ));
    }
    let n = run.events.len() - 1;
    assert(tick_step(config, run.states[n], run.events[n], run.states[n + 1], run.actions[n + 1]));
}

proof fn lemma_counts(config: Config, servers: Seq<SnapshotView>, run: TickRun)
    requires
        run.valid(config, servers),
    ensures
        tick_keeps(config, servers, run.states.last()),
        ({
            let tick = run.states.last();
            &&& run.spawns() <= config.max_spawn_per_tick
            &&& is_spawning(tick) ==> run.spawns() + tick.spawns_left <= config.max_spawn_per_tick + (
                if tick.phase is Spawning || tick.phase is Registering {
                    1int
                } else {
                    0int
                })
            &&& run.kills() == tick.evicted
            &&& run.room_gone() + tick.current_free == tick.free
        }),
    decreases run.events.len(),
{
    if run.events.len() == 0 {
        lemma_begin_keeps(config, servers, run.states[0], run.actions[0]);
        assert(run.before_last().spawns() == 0);
    } else {
        lemma_before_last_valid(config, servers, run);
        lemma_counts(config, servers, run.before_last());
        let pre = run.states[run.events.len() - 1];
        lemma_step_keeps(
            config,
            servers,
            pre,
            run.events.last(),
            run.states.last(),
            run.actions.last(),
        );
        if pre.next < pre.empties.len() {
            lemma_room_of_turn(pre);
        }
    }
}

/// A tick starts no more servers, and stops no more, than the limits of a tick allow.
pub proof fn law_tick_stays_within_limits(
    config: Config,
    servers: Seq<SnapshotView>,
    run: TickRun,
)
    requires
        run.valid(config, servers),
    ensures
        run.spawns() <= config.max_spawn_per_tick,
        run.kills() <= config.max_evict_per_tick,
{
    lemma_counts(config, servers, run);
}

/// Where servers are gone after a tick, because it stopped them or found that they run
/// nowhere, the room without them is at least the minimum and the buffer together.
pub proof fn law_tick_leaves_room(config: Config, servers: Seq<SnapshotView>, run: TickRun)
    requires
        run.valid(config, servers),
    ensures
        run.room_gone() <= total_free(servers),
        run.kills() > 0 || run.room_gone() > 0 ==> total_free(servers) - run.room_gone()
            >= config.hot_capacity_min + config.evict_buffer,
{
    lemma_counts(config, servers, run);
}

proof fn lemma_spawn_counts(config: Config, servers: Seq<SnapshotView>, run: TickRun)
    requires
        run.valid(config, servers),
        run.in_turn(),
        run.starts_well(config),
    ensures
        phase_fits(run.states.last().phase, run.actions.last()),
        ({
            let tick = run.states.last();
            let wanted = servers_to_spawn(config, total_free(servers));
            match tick.phase {
                TickPhase::Ports => run.spawns() + tick.spawns_left == wanted,
                TickPhase::Spawning { .. } | TickPhase::Registering => run.spawns()
                    + tick.spawns_left == wanted + 1,
                _ => run.spawns() == wanted && tick.spawns_left == 0,
            }
        }),
    decreases run.events.len(),
{
    law_tick_keeps(config, servers, run, run.states.len() - 1);
    if run.events.len() == 0 {
        assert(run.before_last().spawns() == 0);
    } else {
        let n = run.events.len() - 1;
        let b = run.before_last();
        lemma_before_last_valid(config, servers, run);
        assert forall|i: int| 0 <= i < b.events.len() implies tick_answers(
            b.actions[i],
            #[trigger] b.events[i],
        ) && !fails_to_start(config, b.events[i]) by {
            assert(b.events[i] == run.events[i]);
        }
        lemma_spawn_counts(config, servers, b);
        law_tick_keeps(config, servers, run, n);
        assert(b.actions.last() == run.actions[n]);
        assert(tick_answers(run.actions[n], run.events[n]));
        assert(!fails_to_start(config, run.events[n]));
    }
}

/// A tick that has ended, and in which no port was missing and no start failed, has started
/// as many servers as were to be started.
pub proof fn law_tick_starts_what_is_needed(
    config: Config,
    servers: Seq<SnapshotView>,
    run: TickRun,
)
    requires
        run.valid(config, servers),
        run.in_turn(),
        run.starts_well(config),
        run.states.last().phase is Over,
    ensures
        run.spawns() == servers_to_spawn(config, total_free(servers)),
{
    lemma_spawn_counts(config, servers, run);
}

proof fn lemma_was_spawning(
    config: Config,
    servers: Seq<SnapshotView>,
    run: TickRun,
    i: int,
    j: int,
)
    requires
        run.valid(config, servers),
        0 <= i <= j < run.states.len(),
        is_spawning(run.states[j]),
    ensures
        is_spawning(run.states[i]),
    decreases j - i,
{
    if i < j {
        assert(tick_step(
            config,
            run.states[j - 1],
            run.events[j - 1],
            run.states[j - 1 + 1],
            run.actions[j - 1 + 1],
        ));
        lemma_was_spawning(config, servers, run, i, j - 1);
    }
}

/// Two servers that are started in one tick get different ports, where what is read of the
/// entries holds the ports of the servers that were registered before.
pub proof fn law_tick_gives_different_ports(
    config: Config,
    servers: Seq<SnapshotView>,
    run: TickRun,
    i: int,
    j: int,
)
    requires
        run.valid(config, servers),
        run.reads_registered_ports(),
        0 <= i < j < run.actions.len(),
        run.actions[i] is Spawn,
        run.actions[j] is Spawn,
    ensures
        run.actions[i]->Spawn_port != run.actions[j]->Spawn_port,
{
    lemma_action_phases(config, servers, run, i);
    law_tick_keeps(config, servers, run, i - 1);
    assert(tick_step(
        config,
        run.states[i - 1],
        run.events[i - 1],
        run.states[i - 1 + 1],
        run.actions[i - 1 + 1],
    ));
    law_tick_keeps(config, servers, run, j - 1);
    assert(tick_step(
        config,
        run.states[j - 1],
        run.events[j - 1],
        run.states[j - 1 + 1],
        run.actions[j - 1 + 1],
    ));
    assert(run.states[j - 1].phase is Ports);
    assert(i < j - 1);
    lemma_was_spawning(config, servers, run, i + 1, j - 1);
    assert(tick_step(config, run.states[i], run.events[i], run.states[i + 1], run.actions[i + 1]));
    assert(run.events[i] is Spawned);
    let port = run.actions[i]->Spawn_port;
    law_starting_reads_back(
        run.states[i].phase->ds_id@,
        port,
        run.events[i]->Spawned_0,
        config,
        FieldMap::empty(),
    );
    assert(run.actions[i + 1] is Register);
    assert(registered_port(run.actions[i + 1]->Register_0@) == Some(decimal(port as nat)));
    let fields = run.events[j - 1]->Ports_0.deep_view();
    assert(fields.contains(registered_port(run.actions[i + 1]->Register_0@)));
    let at = fields.index_of(Some(decimal(port as nat)));
    law_registered_port_is_used(fields, at, port);
}

/// A tick that asks to start a server asks to stop none, and the other way round.
pub proof fn law_tick_spawns_or_evicts(
    config: Config,
    servers: Seq<SnapshotView>,
    run: TickRun,
    i: int,
    j: int,
)
    requires
        run.valid(config, servers),
        0 <= i < run.actions.len(),
        0 <= j < run.actions.len(),
    ensures
        !(run.actions[i] is Spawn && run.actions[j] is Kill),
{
    lemma_action_phases(config, servers, run, i);
    lemma_action_phases(config, servers, run, j);
    law_tick_keeps(config, servers, run, i);
    law_tick_keeps(config, servers, run, j);
}

proof fn lemma_action_phases(
    config: Config,
    servers: Seq<SnapshotView>,
    run: TickRun,
    i: int,
)
    requires
        run.valid(config, servers),
        0 <= i < run.actions.len(),
    ensures
        run.actions[i] is Spawn ==> i > 0 && run.states[i].phase is Spawning,
        run.actions[i] is Kill ==> i > 0 && run.states[i].phase is Killing,
{
    if i == 0 {
        lemma_begin_keeps(config, servers, run.states[0], run.actions[0]);
    } else {
        law_tick_keeps(config, servers, run, i - 1);
        assert(tick_step(
            config,
            run.states[i - 1],
            run.events[i - 1],
            run.states[i - 1 + 1],
            run.actions[i - 1 + 1],
        ));
        lemma_step_keeps(
            config,
            servers,
            run.states[i - 1],
            run.events[i - 1],
            run.states[i],
            run.actions[i],
        );
    }
}

/// Only a server that was available and had no players is looked for, to be stopped.
pub proof fn law_tick_stops_only_empty_servers(
    config: Config,
    servers: Seq<SnapshotView>,
    run: TickRun,
    i: int,
)
    requires
        run.valid(config, servers),
        0 <= i < run.actions.len(),
        run.actions[i] is Locate,
    ensures
        exists|at: int|
            0 <= at < servers.len() && is_empty_server(#[trigger] servers[at]) && servers[at].id
                == run.actions[i]->Locate_ds_id@,
{
    law_tick_keeps(config, servers, run, i);
    if i > 0 {
        law_tick_keeps(config, servers, run, i - 1);
        assert(tick_step(
            config,
            run.states[i - 1],
            run.events[i - 1],
            run.states[i - 1 + 1],
            run.actions[i - 1 + 1],
        ));
    }
    let tick = run.states[i];
    assert(tick.phase is Locating);
    assert(run.actions[i]->Locate_ds_id == tick.empties[tick.next as int].id);
    assert(tick.empties.deep_view()[tick.next as int].0 == tick.empties[tick.next as int].id@);
    let at = lemma_empties_are_empty(servers, tick.next as int);
    assert(is_empty_server(servers[at]));
}

/// A server is stopped where it was found, in answer to a search for it.
pub proof fn law_tick_kills_what_it_located(
    config: Config,
    servers: Seq<SnapshotView>,
    run: TickRun,
    i: int,
)
    requires
        run.valid(config, servers),
        0 <= i < run.actions.len(),
        run.actions[i] is Kill,
    ensures
        i > 0,
        run.actions[i - 1] is Locate,
        run.events[i - 1] == TickEvent::Located(run.actions[i]->Kill_0),
{
    lemma_action_phases(config, servers, run, i);
    law_tick_keeps(config, servers, run, i - 1);
    assert(tick_step(
        config,
        run.states[i - 1],
        run.events[i - 1],
        run.states[i - 1 + 1],
        run.actions[i - 1 + 1],
    ));
    assert(run.states[i - 1].phase is Locating);
    if i > 1 {
        law_tick_keeps(config, servers, run, i - 2);
        assert(tick_step(
            config,
            run.states[i - 2],
            run.events[i - 2],
            run.states[i - 2 + 1],
            run.actions[i - 2 + 1],
        ));
    }
}

/// How far a tick is from its end, at most.
pub open spec fn steps_left(tick: Tick) -> int {
    let turns = 4 * (tick.empties.len() - tick.next);
    match tick.phase {
        TickPhase::Ports => turns + 3 * tick.spawns_left,
        TickPhase::Spawning { .. } => turns + 3 * tick.spawns_left - 1,
        TickPhase::Registering => turns + 3 * tick.spawns_left - 2,
        TickPhase::Locating => turns,
        TickPhase::Killing => turns - 1,
        TickPhase::Forgetting => turns + 1,
        TickPhase::Over => 0,
    }
}

/// Every step brings a tick nearer to its end, where it has not ended yet.
pub proof fn law_tick_ends(config: Config, servers: Seq<SnapshotView>, run: TickRun, i: int)
    requires
        run.valid(config, servers),
        0 <= i < run.events.len(),
    ensures
        run.states[i].phase is Over ==> run.states[i + 1].phase is Over,
        !(run.states[i].phase is Over) ==> 0 <= steps_left(run.states[i + 1]) < steps_left(
            run.states[i],
        ),
{
    law_tick_keeps(config, servers, run, i);
    law_tick_keeps(config, servers, run, i + 1);
    assert(tick_step(
        config,
        run.states[i],
        run.events[i],
        run.states[i + 1],
        run.actions[i + 1],
    ));
}

// ---- what the single steps are about ----

/// What a tick says at its beginning is how a tick begins.
pub proof fn law_tick_begins(config: Config, servers: &[ServerSnapshot], begun: (Tick, TickAction))
    requires
        call_ensures(Tick::begin, (&config, servers), begun),
    ensures
        tick_begin(config, servers.deep_view(), begun.0, begun.1),
        begun.0.wf(),
{
}

/// What a tick says after its beginning is a step of it.
pub proof fn law_tick_steps(
    tick: &mut Tick,
    config: Config,
    event: TickEvent,
    action: TickAction,
    pre: Tick,
    post: Tick,
)
    requires
        *old(tick) == pre,
        *final(tick) == post,
        call_ensures(Tick::step, (tick, &config, event), action),
    ensures
        tick_step(config, pre, event, post, action),
        post.wf(),
{
}

proof fn lemma_phase_fits(config: Config, servers: Seq<SnapshotView>, run: TickRun, i: int)
    requires
        run.valid(config, servers),
        0 <= i < run.actions.len(),
    ensures
        phase_fits(run.states[i].phase, run.actions[i]),
{
    law_tick_keeps(config, servers, run, i);
    if i > 0 {
        law_tick_keeps(config, servers, run, i - 1);
        lemma_step_at(config, servers, run, i - 1);
    }
}

proof fn lemma_step_at(config: Config, servers: Seq<SnapshotView>, run: TickRun, i: int)
    requires
        run.valid(config, servers),
        0 <= i < run.events.len(),
    ensures
        tick_step(config, run.states[i], run.events[i], run.states[i + 1], run.actions[i + 1]),
{
    assert(tick_step(
        config,
        run.states[i],
        run.events[i],
        run.states[i + 1],
        run.actions[i + 1],
    ));
}

/// A server that a tick asks to start is told, field by field, what the variables of the
/// orchestrator say. It gets a new identifier, and the lowest port of the range that no entry
/// held when the ports were read for it.
pub proof fn law_tick_starts_servers_by_the_settings(
    config: Config,
    env: FieldMap,
    servers: Seq<SnapshotView>,
    run: TickRun,
    i: int,
    lower: u16,
)
    requires
        config.read_from(env),
        run.valid(config, servers),
        0 <= i < run.actions.len(),
        run.actions[i] is Spawn,
    ensures
        ({
            let told = run.actions[i]->Spawn_env;
            let port = run.actions[i]->Spawn_port;
            &&& says(env, "ORCH_ADVERTISE_HOST"@, "localhost"@, told.orch_host@)
            &&& counts(env, "ORCH_PORT"@, 9000, u16::MAX as nat, told.orch_port as nat)
            &&& says(env, "DS_ADVERTISE_HOST"@, "localhost"@, told.ds_advertise_host@)
            &&& says(env, "DS_ZONE"@, "zone_A"@, told.ds_zone@)
            &&& counts(
                env,
                "DS_MAX_PLAYERS"@,
                200,
                usize::MAX as nat,
                told.ds_max_players as nat,
            )
            &&& says(env, "REDIS_URL"@, "redis://localhost:6379"@, told.redis_url@)
            &&& is_random_uuid(run.actions[i]->Spawn_ds_id@)
            &&& i > 0
            &&& run.events[i - 1] is Ports
            &&& config.ds_port_range_min <= port <= config.ds_port_range_max
            &&& !is_used(run.events[i - 1]->Ports_0.deep_view(), port)
            &&& config.ds_port_range_min <= lower < port ==> is_used(
                run.events[i - 1]->Ports_0.deep_view(),
                lower,
            )
        }),
{
    lemma_action_phases(config, servers, run, i);
    law_tick_keeps(config, servers, run, i - 1);
    lemma_step_at(config, servers, run, i - 1);
    law_new_server_is_told_the_settings(config, env);
}

/// A server that was started is registered next, under the identifier and with the port that
/// it was started with, at the place where it runs, as starting and empty. Nothing else is
/// registered.
pub proof fn law_tick_registers_what_it_started(
    config: Config,
    servers: Seq<SnapshotView>,
    run: TickRun,
    i: int,
    before: FieldMap,
)
    requires
        run.valid(config, servers),
        run.in_turn(),
        0 <= i < run.events.len(),
    ensures
        run.events[i] is Spawned <==> run.actions[i + 1] is Register,
        run.events[i] is Spawned ==> {
            let write = run.actions[i + 1]->Register_0@;
            let after = write.applied_to(before);
            let location = run.events[i]->Spawned_0;
            &&& run.actions[i] is Spawn
            &&& write.key == "server:"@ + run.actions[i]->Spawn_ds_id@
            &&& write.ttl_secs == config.server_ttl_secs as i64
            &&& field(after, "port"@) == Some(decimal(run.actions[i]->Spawn_port as nat))
            &&& field(after, "host"@) == Some(location.host@)
            &&& field(after, "container_id"@) == Some(location.container_id@)
            &&& field(after, "status"@) == Some("starting"@)
            &&& field(after, "player_count"@) == Some(decimal(0))
            &&& field(after, "max_players"@) == Some(decimal(config.ds_max_players as nat))
            &&& field(after, "zone"@) == Some(config.ds_zone@)
            &&& field(after, "ip"@) == Some(config.ds_advertise_host@)
        },
{
    lemma_phase_fits(config, servers, run, i);
    lemma_phase_fits(config, servers, run, i + 1);
    law_tick_keeps(config, servers, run, i);
    lemma_step_at(config, servers, run, i);
    assert(tick_answers(run.actions[i], run.events[i]));
    if run.events[i] is Spawned {
        assert(run.actions[i] is Spawn);
        lemma_action_phases(config, servers, run, i);
        lemma_step_at(config, servers, run, i - 1);
        law_tick_keeps(config, servers, run, i - 1);
        law_starting_fills_entry(
            run.actions[i]->Spawn_ds_id@,
            run.actions[i]->Spawn_port,
            run.events[i]->Spawned_0,
            config,
            before,
        );
    }
}

/// A server that was located is stopped next, and there. A server that was stopped, or that
/// runs nowhere, is forgotten next: the entry that is deleted is the one of the server that
/// was looked for. Nothing else is stopped or forgotten.
pub proof fn law_tick_forgets_what_is_gone(
    config: Config,
    servers: Seq<SnapshotView>,
    run: TickRun,
    i: int,
)
    requires
        run.valid(config, servers),
        run.in_turn(),
        0 <= i < run.events.len(),
    ensures
        run.events[i] is Located <==> run.actions[i + 1] is Kill,
        run.events[i] is Located ==> run.actions[i + 1] == TickAction::Kill(
            run.events[i]->Located_0,
        ),
        run.events[i] is Killed || run.events[i] is NotLocated <==> run.actions[i + 1] is Forget,
        run.events[i] is NotLocated ==> run.actions[i] is Locate
            && run.actions[i + 1]->Forget_key@ == "server:"@ + run.actions[i]->Locate_ds_id@,
        run.events[i] is Killed ==> {
            &&& i > 0
            &&& run.actions[i - 1] is Locate
            &&& run.actions[i + 1]->Forget_key@ == "server:"@ + run.actions[i - 1]->Locate_ds_id@
        },
{
    lemma_phase_fits(config, servers, run, i);
    lemma_phase_fits(config, servers, run, i + 1);
    law_tick_keeps(config, servers, run, i);
    lemma_step_at(config, servers, run, i);
    assert(tick_answers(run.actions[i], run.events[i]));
    if run.actions[i] is Locate {
        lemma_locate_is_of_turn(config, servers, run, i);
    }
    if run.actions[i] is Kill {
        law_tick_kills_what_it_located(config, servers, run, i);
        lemma_locate_is_of_turn(config, servers, run, i - 1);
        law_tick_keeps(config, servers, run, i - 1);
        lemma_step_at(config, servers, run, i - 1);
    }
}

proof fn lemma_locate_is_of_turn(config: Config, servers: Seq<SnapshotView>, run: TickRun, i: int)
    requires
        run.valid(config, servers),
        0 <= i < run.actions.len(),
        run.actions[i] is Locate,
    ensures
        run.states[i].phase is Locating,
        run.states[i].next < run.states[i].empties.len(),
        run.actions[i]->Locate_ds_id == run.states[i].empties[run.states[i].next as int].id,
        run.actions[i]->Locate_ds_id@ == empty_servers(servers)[run.states[i].next as int].0,
        run.states[i].empties[run.states[i].next as int].max_players == empty_servers(
            servers,
        )[run.states[i].next as int].1,
{
    lemma_phase_fits(config, servers, run, i);
    law_tick_keeps(config, servers, run, i);
    if i > 0 {
        law_tick_keeps(config, servers, run, i - 1);
        lemma_step_at(config, servers, run, i - 1);
    }
    let tick = run.states[i];
    assert(tick.empties.deep_view()[tick.next as int] == (
        tick.empties[tick.next as int].id@,
        tick.empties[tick.next as int].max_players as nat,
    ));
}

impl TickRun {
    /// How many of the first `n` actions look for a server.
    pub open spec fn searches(self, n: int) -> nat
        decreases n,
    {
        if n <= 0 {
            0
        } else if self.actions[n - 1] is Locate {
            self.searches(n - 1) + 1
        } else {
            self.searches(n - 1)
        }
    }
}

proof fn lemma_searches(config: Config, servers: Seq<SnapshotView>, run: TickRun, i: int)
    requires
        run.valid(config, servers),
        run.in_turn(),
        0 <= i < run.actions.len(),
    ensures
        run.searches(i + 1) == run.states[i].next + (if is_evicting(run.states[i]) {
            1int
        } else {
            0int
        }),
        !(run.actions[i] is Locate) ==> run.searches(i + 1) == run.searches(i),
    decreases i,
{
    lemma_phase_fits(config, servers, run, i);
    law_tick_keeps(config, servers, run, i);
    if i > 0 {
        lemma_searches(config, servers, run, i - 1);
        lemma_phase_fits(config, servers, run, i - 1);
        law_tick_keeps(config, servers, run, i - 1);
        lemma_step_at(config, servers, run, i - 1);
        assert(tick_answers(run.actions[i - 1], run.events[i - 1]));
    } else {
        assert(run.searches(0) == 0);
    }
}

/// The empty servers are looked for one after the other, in the order in which they were
/// found, and none is passed over.
pub proof fn law_tick_takes_empty_servers_in_order(
    config: Config,
    servers: Seq<SnapshotView>,
    run: TickRun,
    i: int,
)
    requires
        run.valid(config, servers),
        run.in_turn(),
        0 <= i < run.actions.len(),
        run.actions[i] is Locate,
    ensures
        run.searches(i) < empty_servers(servers).len(),
        run.actions[i]->Locate_ds_id@ == empty_servers(servers)[run.searches(i) as int].0,
{
    lemma_searches(config, servers, run, i);
    lemma_locate_is_of_turn(config, servers, run, i);
    law_tick_keeps(config, servers, run, i);
    assert(run.searches(i + 1) == run.searches(i) + 1);
}

/// A tick ends only when no empty server is left that was not looked for, or it has stopped as
/// many as it may, or without the next one there would be less room than the minimum and the
/// buffer together.
pub proof fn law_tick_ends_with_reason(config: Config, servers: Seq<SnapshotView>, run: TickRun)
    requires
        run.valid(config, servers),
        run.in_turn(),
        run.actions.last() is Finish,
    ensures
        ({
            let empties = empty_servers(servers);
            let next = run.searches(run.actions.len() as int) as int;
            ||| next == empties.len()
            ||| run.kills() >= config.max_evict_per_tick
            ||| total_free(servers) - run.room_gone() - empties[next].1 < config.hot_capacity_min
                + config.evict_buffer
        }),
{
    let n = run.actions.len() - 1;
    lemma_searches(config, servers, run, n);
    lemma_phase_fits(config, servers, run, n);
    lemma_counts(config, servers, run);
    law_tick_keeps(config, servers, run, n);
    let tick = run.states[n];
    if tick.next < tick.empties.len() {
        assert(tick.empties.deep_view()[tick.next as int].1
            == tick.empties[tick.next as int].max_players);
    }
    if n > 0 {
        law_tick_keeps(config, servers, run, n - 1);
        lemma_phase_fits(config, servers, run, n - 1);
        lemma_step_at(config, servers, run, n - 1);
        assert(tick_answers(run.actions[n - 1], run.events[n - 1]));
    }
}

/// After a port could not be found, or a server not be started, the tick starts no more.
pub proof fn law_tick_stops_starting_after_a_failure(
    config: Config,
    servers: Seq<SnapshotView>,
    run: TickRun,
    i: int,
    j: int,
)
    requires
        run.valid(config, servers),
        run.in_turn(),
        0 <= i < j < run.actions.len(),
        fails_to_start(config, run.events[i]),
    ensures
        !(run.actions[j] is Spawn),
{
    if run.actions[j] is Spawn {
        lemma_action_phases(config, servers, run, j);
        lemma_was_spawning(config, servers, run, i + 1, j);
        lemma_phase_fits(config, servers, run, i);
        law_tick_keeps(config, servers, run, i);
        lemma_step_at(config, servers, run, i);
        assert(tick_answers(run.actions[i], run.events[i]));
    }
}

} // verus!
