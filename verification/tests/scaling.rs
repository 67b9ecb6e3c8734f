use mmorpg_fleet::orchestrator::config::Config;
use mmorpg_fleet::orchestrator::lifecycle::{
    adopt, kill_all, on_listener_event, ListenerAction, ListenerEvent,
};
use mmorpg_fleet::orchestrator::local::AdoptedDs;
use mmorpg_fleet::orchestrator::ports::pick_free_port;
use mmorpg_fleet::orchestrator::registry::{
    read_server, read_servers, write_heartbeat, write_starting, Location, ServerSnapshot,
};
use mmorpg_fleet::orchestrator::scaler::{
    checked_free_capacity, plan_spawns, total_free_capacity,
};
use mmorpg_fleet::orchestrator::tick::{Tick, TickAction, TickEvent};
use mmorpg_fleet::protocol::Heartbeat;
use mmorpg_fleet::store::{HashWrite, TextMap};

fn config(pairs: &[(&str, &str)]) -> Config {
    let mut map = TextMap::new();
    for (name, value) in pairs {
        map.set(name.to_string(), value.to_string());
    }
    Config::from_env(&map).unwrap()
}

fn snapshot(id: &str, status: &str, player_count: usize, max_players: usize) -> ServerSnapshot {
    ServerSnapshot { id: id.to_string(), status: status.to_string(), player_count, max_players }
}

fn place(host: &str, container_id: &str) -> Location {
    Location { host: host.to_string(), container_id: container_id.to_string() }
}

fn hash(pairs: &[(&str, &str)]) -> TextMap {
    let mut map = TextMap::new();
    for (name, value) in pairs {
        map.set(name.to_string(), value.to_string());
    }
    map
}

fn applied(write: &HashWrite) -> TextMap {
    let mut map = TextMap::new();
    for (name, value) in &write.fields {
        map.set(name.clone(), value.clone());
    }
    map
}

fn pairs(write: &HashWrite) -> Vec<(&str, &str)> {
    write.fields.iter().map(|(a, b)| (a.as_str(), b.as_str())).collect()
}

fn beat() -> Heartbeat {
    Heartbeat {
        id: "s1".to_string(),
        ip: "1.2.3.4".to_string(),
        port: 7005,
        zone: "z".to_string(),
        player_count: 3,
        max_players: 200,
    }
}

#[test]
fn a_heartbeat_fills_the_entry() {
    let write = write_heartbeat(&beat(), 15);
    assert_eq!(write.key, "server:s1");
    assert_eq!(write.ttl_secs, 15);
    assert_eq!(
        pairs(&write),
        vec![
            ("ip", "1.2.3.4"),
            ("port", "7005"),
            ("zone", "z"),
            ("status", "available"),
            ("player_count", "3"),
            ("max_players", "200"),
        ]
    );
}

#[test]
fn a_heartbeat_is_read_back() {
    let write = write_heartbeat(&beat(), 15);
    let server = read_server(&write.key, &applied(&write)).unwrap();
    assert_eq!(server.id, "s1");
    assert_eq!(server.status, "available");
    assert_eq!((server.player_count, server.max_players), (3, 200));
}

#[test]
fn a_started_server_is_known_as_starting() {
    let c = config(&[]);
    let write = write_starting("s9", 7003, &place("localhost", "cid"), &c);
    assert_eq!(
        pairs(&write),
        vec![
            ("port", "7003"),
            ("host", "localhost"),
            ("container_id", "cid"),
            ("status", "starting"),
            ("player_count", "0"),
            ("max_players", "200"),
            ("zone", "zone_A"),
            ("ip", "localhost"),
        ]
    );
    assert_eq!(write.ttl_secs, 15);
    let server = read_server(&write.key, &applied(&write)).unwrap();
    assert_eq!(server.status, "starting");
    assert_eq!(total_free_capacity(&[server]), 0);
}

#[test]
fn entries_with_gaps_are_read() {
    let entries = vec![
        ("server:a".to_string(), hash(&[])),
        ("other:b".to_string(), hash(&[("status", "available")])),
        ("server:c".to_string(), hash(&[("status", "available"), ("player_count", "x"), ("max_players", "9")])),
    ];
    let servers = read_servers(&entries);
    assert_eq!(servers.len(), 2);
    assert_eq!((servers[0].id.as_str(), servers[0].status.as_str()), ("a", ""));
    assert_eq!((servers[1].player_count, servers[1].max_players), (0, 9));
}

#[test]
fn room_is_counted_on_available_servers() {
    let servers = [
        snapshot("a", "available", 50, 200),
        snapshot("b", "full", 0, 200),
        snapshot("c", "starting", 0, 200),
        snapshot("d", "available", 300, 200),
    ];
    assert_eq!(total_free_capacity(&servers), 150);
    assert_eq!(checked_free_capacity(&servers), Some(150));
    assert_eq!(checked_free_capacity(&[]), Some(0));
    let huge = [snapshot("a", "available", 0, usize::MAX), snapshot("b", "available", 0, 1)];
    assert_eq!(checked_free_capacity(&huge), None);
}

#[test]
fn servers_are_started_for_what_is_missing() {
    let c = config(&[]);
    let plan = plan_spawns(&c, 0);
    assert_eq!((plan.needed, plan.to_spawn), (2, 2));
    let plan = plan_spawns(&c, 399);
    assert_eq!((plan.needed, plan.to_spawn), (1, 1));
    let plan = plan_spawns(&c, 400);
    assert_eq!((plan.needed, plan.to_spawn), (0, 0));
    let c = config(&[("DS_MAX_PLAYERS", "100")]);
    let plan = plan_spawns(&c, 1);
    assert_eq!((plan.needed, plan.to_spawn), (4, 3));
    let c = config(&[("DS_MAX_PLAYERS", "0"), ("HOT_CAPACITY_MIN", "2")]);
    assert_eq!(plan_spawns(&c, 0).needed, 2);
}

#[test]
fn the_lowest_free_port_is_picked() {
    let used = |list: &[Option<&str>]| -> Vec<Option<String>> {
        list.iter().map(|p| p.map(String::from)).collect()
    };
    assert_eq!(pick_free_port(7001, 7003, &used(&[])).unwrap(), 7001);
    assert_eq!(pick_free_port(7001, 7003, &used(&[Some("7001"), None, Some("x"), Some("7003")])).unwrap(), 7002);
    let e = pick_free_port(7001, 7002, &used(&[Some("7002"), Some("7001")])).unwrap_err();
    assert_eq!(e.message(), "no free port in range 7001..7002");
    assert!(pick_free_port(2, 1, &used(&[])).is_err());
    assert_eq!(pick_free_port(65535, 65535, &used(&[])).unwrap(), 65535);
    assert!(pick_free_port(65535, 65535, &used(&[Some("65535")])).is_err());
}

#[test]
fn a_tick_starts_servers_up_to_its_limit() {
    let c = config(&[("DS_MAX_PLAYERS", "10"), ("MAX_SPAWN_PER_TICK", "2")]);
    let (mut tick, mut action) = Tick::begin(&c, &[]);
    let mut ids = Vec::new();
    for turn in 0..2 {
        assert!(matches!(action, TickAction::ListPorts));
        let used = if turn == 0 { vec![] } else { vec![Some("7001".to_string())] };
        action = tick.step(&c, TickEvent::Ports(used));
        match &action {
            TickAction::Spawn { ds_id, port, env } => {
                assert_eq!(*port, 7001 + turn);
                assert_eq!(env.ds_max_players, 10);
                assert_eq!(env.orch_port, 9000);
                assert_eq!(env.redis_url, "redis://localhost:6379");
                ids.push(ds_id.clone());
            }
            other => panic!("{:?}", other),
        }
        action = tick.step(&c, TickEvent::Spawned(place("h", "cid")));
        match &action {
            TickAction::Register(write) => assert_eq!(write.key, format!("server:{}", ids[turn as usize])),
            other => panic!("{:?}", other),
        }
        action = tick.step(&c, TickEvent::Registered);
    }
    assert!(matches!(action, TickAction::Finish));
    assert_ne!(ids[0], ids[1]);
}

#[test]
fn a_tick_stops_starting_when_something_fails() {
    let c = config(&[]);
    let (mut tick, _) = Tick::begin(&c, &[]);
    assert!(matches!(tick.step(&c, TickEvent::PortsFailed), TickAction::Finish));
    let (mut tick, _) = Tick::begin(&c, &[]);
    tick.step(&c, TickEvent::Ports(vec![]));
    assert!(matches!(tick.step(&c, TickEvent::SpawnFailed), TickAction::Finish));
    let c = config(&[("DS_PORT_RANGE_MAX", "7001")]);
    let (mut tick, _) = Tick::begin(&c, &[]);
    assert!(matches!(tick.step(&c, TickEvent::Ports(vec![Some("7001".to_string())])), TickAction::Finish));
}

#[test]
fn a_tick_stops_empty_servers_while_there_is_room() {
    let c = config(&[("HOT_CAPACITY_MIN", "100"), ("EVICT_BUFFER", "100"), ("MAX_EVICT_PER_TICK", "5")]);
    let servers = [
        snapshot("a", "available", 0, 100),
        snapshot("b", "available", 1, 101),
        snapshot("c", "available", 0, 100),
        snapshot("d", "available", 0, 100),
        snapshot("e", "available", 0, 100),
    ];
    // 500 free; each stop takes 100, and 200 must be left.
    let (mut tick, mut action) = Tick::begin(&c, &servers);
    let mut stopped = Vec::new();
    loop {
        action = match action {
            TickAction::Locate { ds_id } => {
                stopped.push(ds_id);
                tick.step(&c, TickEvent::Located(place("h", "cid")))
            }
            TickAction::Kill(location) => {
                assert_eq!(location.container_id, "cid");
                tick.step(&c, TickEvent::Killed)
            }
            TickAction::Forget { key } => {
                assert_eq!(key, format!("server:{}", stopped.last().unwrap()));
                tick.step(&c, TickEvent::Forgotten)
            }
            TickAction::Finish => break,
            other => panic!("{:?}", other),
        };
    }
    assert_eq!(stopped, vec!["a".to_string(), "c".to_string(), "d".to_string()]);
    assert_eq!(tick.evicted, 3);
    assert_eq!(tick.current_free, 200);
}

#[test]
fn a_tick_goes_on_when_a_server_is_not_stopped() {
    let c = config(&[("HOT_CAPACITY_MIN", "0"), ("EVICT_BUFFER", "0")]);
    let servers = [
        snapshot("a", "available", 0, 10),
        snapshot("b", "available", 0, 10),
        snapshot("c", "available", 0, 10),
        snapshot("d", "available", 0, 10),
        snapshot("e", "available", 0, 10),
    ];
    let (mut tick, action) = Tick::begin(&c, &servers);
    assert!(matches!(action, TickAction::Locate { ref ds_id } if ds_id == "a"));
    let action = tick.step(&c, TickEvent::LocateFailed);
    assert!(matches!(action, TickAction::Locate { ref ds_id } if ds_id == "b"));
    let action = tick.step(&c, TickEvent::NotLocated);
    assert!(matches!(action, TickAction::Forget { ref key } if key == "server:b"));
    let action = tick.step(&c, TickEvent::Forgotten);
    assert!(matches!(action, TickAction::Locate { ref ds_id } if ds_id == "c"));
    tick.step(&c, TickEvent::Located(place("h", "x")));
    let action = tick.step(&c, TickEvent::KillFailed);
    assert!(matches!(action, TickAction::Locate { ref ds_id } if ds_id == "d"));
    assert_eq!(tick.evicted, 0);
    tick.step(&c, TickEvent::Located(place("h", "x")));
    tick.step(&c, TickEvent::Killed);
    // One stop is the limit of a tick.
    assert!(matches!(tick.step(&c, TickEvent::Forgotten), TickAction::Finish));
}

#[test]
fn nothing_is_stopped_where_the_floor_is_out_of_reach() {
    let c = config(&[("HOT_CAPACITY_MIN", "10"), ("EVICT_BUFFER", "18446744073709551615")]);
    let (_, action) = Tick::begin(&c, &[snapshot("a", "available", 0, 100)]);
    assert!(matches!(action, TickAction::Finish));
}

#[test]
fn an_event_out_of_turn_ends_a_tick() {
    let c = config(&[]);
    let (mut tick, _) = Tick::begin(&c, &[]);
    assert!(matches!(tick.step(&c, TickEvent::Killed), TickAction::Finish));
    assert!(matches!(tick.step(&c, TickEvent::Ports(vec![])), TickAction::Finish));
}

#[test]
fn orphans_without_an_entry_are_adopted() {
    let c = config(&[]);
    let orphan = AdoptedDs { ds_id: "o".to_string(), port: 7009, location: place("h", "cid") };
    assert!(adopt(&orphan, true, &c).is_none());
    let write = adopt(&orphan, false, &c).unwrap();
    assert_eq!(write.key, "server:o");
    assert_eq!(applied(&write).get("port"), Some("7009".to_string()));
    assert_eq!(applied(&write).get("status"), Some("starting".to_string()));
}

#[test]
fn the_listener_writes_heartbeats() {
    match on_listener_event(&ListenerEvent::Message(Some(beat())), 15) {
        ListenerAction::Write(write) => assert_eq!(write.key, "server:s1"),
        other => panic!("{:?}", other),
    }
    assert!(matches!(on_listener_event(&ListenerEvent::Message(None), 15), ListenerAction::Listen));
    assert!(matches!(on_listener_event(&ListenerEvent::Network, 15), ListenerAction::Listen));
    assert!(matches!(on_listener_event(&ListenerEvent::Quiet, 15), ListenerAction::Sleep { ms: 10 }));
}

#[test]
fn everything_that_was_found_is_stopped_at_the_end() {
    let found = vec![
        AdoptedDs { ds_id: "a".to_string(), port: 1, location: place("h1", "c1") },
        AdoptedDs { ds_id: "b".to_string(), port: 2, location: place("h2", "c2") },
    ];
    let places = kill_all(Ok(found));
    assert_eq!(places.len(), 2);
    assert_eq!((places[1].host.as_str(), places[1].container_id.as_str()), ("h2", "c2"));
    assert!(kill_all(Err("no".to_string())).is_empty());
}

#[test]
fn servers_that_run_nowhere_give_no_room() {
    let c = config(&[("HOT_CAPACITY_MIN", "100"), ("EVICT_BUFFER", "100"), ("MAX_EVICT_PER_TICK", "5")]);
    let servers = [snapshot("A", "available", 0, 200), snapshot("B", "available", 0, 200)];
    let (mut tick, action) = Tick::begin(&c, &servers);
    assert!(matches!(action, TickAction::Locate { ref ds_id } if ds_id == "A"));
    let action = tick.step(&c, TickEvent::NotLocated);
    assert!(matches!(action, TickAction::Forget { ref key } if key == "server:A"));
    assert_eq!((tick.current_free, tick.evicted), (200, 0));
    // Without B there would be no room left.
    assert!(matches!(tick.step(&c, TickEvent::Forgotten), TickAction::Finish));
}

#[test]
fn a_tick_starts_all_that_is_needed() {
    let c = config(&[("MAX_SPAWN_PER_TICK", "9")]);
    let (mut tick, mut action) = Tick::begin(&c, &[]);
    let mut started = 0;
    loop {
        let event = match action {
            TickAction::ListPorts => TickEvent::Ports(vec![]),
            TickAction::Spawn { .. } => {
                started += 1;
                TickEvent::Spawned(place("h", "c"))
            }
            TickAction::Register(_) => TickEvent::Registered,
            TickAction::Finish => break,
            other => panic!("{:?}", other),
        };
        action = tick.step(&c, event);
    }
    assert_eq!(started, plan_spawns(&c, 0).to_spawn);
    assert_eq!(started, 2);
}

#[test]
fn servers_of_one_tick_get_different_ports() {
    let c = config(&[("MAX_SPAWN_PER_TICK", "9"), ("DS_MAX_PLAYERS", "100")]);
    let (mut tick, mut action) = Tick::begin(&c, &[]);
    let mut fields = vec![Some("7002".to_string())];
    let mut ports = Vec::new();
    loop {
        let event = match action {
            TickAction::ListPorts => TickEvent::Ports(fields.clone()),
            TickAction::Spawn { port, .. } => {
                ports.push(port);
                TickEvent::Spawned(place("h", "c"))
            }
            TickAction::Register(write) => {
                fields.push(applied(&write).get("port"));
                TickEvent::Registered
            }
            TickAction::Finish => break,
            other => panic!("{:?}", other),
        };
        action = tick.step(&c, event);
    }
    assert_eq!(ports, vec![7001, 7003, 7004, 7005]);
}
