use mmorpg_fleet::orchestrator::config::Config;
use mmorpg_fleet::orchestrator::fleet::{
    agent_url, hosts_to_probe, kill_request, known_hosts, probes_hosts, register_answer,
    register_probed, remote_killed, remote_listed, remote_spawned, spawn_request, AgentReply, HostAnswer, HostQuery, HostSearch,
    SearchAction,
};
use mmorpg_fleet::orchestrator::registry::Location;
use mmorpg_fleet::orchestrator::scaler::SpawnEnv;
use mmorpg_fleet::protocol::{AgentDsInfo, AgentStatus, HostStatus, SpawnResponse};
use mmorpg_fleet::store::TextMap;

fn map(pairs: &[(&str, &str)]) -> TextMap {
    let mut map = TextMap::new();
    for (name, value) in pairs {
        map.set(name.to_string(), value.to_string());
    }
    map
}

fn texts(list: &[&str]) -> Vec<String> {
    list.iter().map(|s| s.to_string()).collect()
}

#[test]
fn agents_listen_on_their_port() {
    assert_eq!(agent_url("10.0.0.1", 8090, "/spawn"), "http://10.0.0.1:8090/spawn");
}

#[test]
fn hosts_are_known_by_their_keys() {
    assert_eq!(known_hosts(&texts(&["host:a", "server:b", "host:c"])), texts(&["a", "c"]));
}

#[test]
fn the_first_idle_host_is_picked() {
    let keys = texts(&["host:a", "other", "host:b", "host:c"]);
    let (mut search, action) = HostSearch::begin(HostQuery::Idle, keys);
    assert!(matches!(action, SearchAction::Read { ref key } if key == "host:a"));
    let action = search.step(&map(&[("status", "running")]));
    assert!(matches!(action, SearchAction::Read { ref key } if key == "other"));
    let action = search.step(&map(&[("status", "idle")]));
    assert!(matches!(action, SearchAction::Read { ref key } if key == "host:b"));
    let action = search.step(&map(&[("status", "idle")]));
    assert!(matches!(action, SearchAction::Found(HostAnswer::Idle(ref host)) if host == "b"));
}

#[test]
fn a_search_may_find_nothing() {
    let (_, action) = HostSearch::begin(HostQuery::Idle, vec![]);
    assert!(matches!(action, SearchAction::NotFound));
    let (mut search, _) = HostSearch::begin(HostQuery::Idle, texts(&["host:a"]));
    assert!(matches!(search.step(&map(&[])), SearchAction::NotFound));
}

#[test]
fn a_server_is_located_on_its_host() {
    let keys = texts(&["host:a", "host:b", "host:c", "host:d"]);
    let (mut search, _) = HostSearch::begin(HostQuery::Runs { ds_id: "x".to_string() }, keys);
    search.step(&map(&[("ds_id", "y"), ("container_id", "c")]));
    search.step(&map(&[("ds_id", "x")]));
    search.step(&map(&[("ds_id", "x"), ("container_id", "")]));
    match search.step(&map(&[("ds_id", "x"), ("container_id", "cx")])) {
        SearchAction::Found(HostAnswer::Runs(place)) => {
            assert_eq!((place.host.as_str(), place.container_id.as_str()), ("d", "cx"));
        }
        other => panic!("{:?}", other),
    }
}

#[test]
fn agents_are_asked_to_start_servers() {
    let env = SpawnEnv {
        ds_zone: "z".to_string(),
        ds_max_players: 20,
        ds_advertise_host: "adv".to_string(),
        orch_host: "orch".to_string(),
        orch_port: 9000,
        redis_url: "r".to_string(),
    };
    let request = spawn_request("id", 7001, &env);
    assert_eq!(request.ds_id, "id");
    assert_eq!(request.ds_port, 7001);
    assert_eq!(request.ds_advertise_host, "adv");
    assert_eq!(request.ds_zone, "z");
    assert_eq!(request.ds_max_players, 20);
    assert_eq!((request.orch_host.as_str(), request.orch_port), ("orch", 9000));
    assert_eq!(request.redis_url, "r");
    let place = Location { host: "h".to_string(), container_id: "c".to_string() };
    assert_eq!(kill_request(&place).container_id, "c");
}

#[test]
fn what_agents_answer_decides() {
    let done = || AgentReply::Done(SpawnResponse { container_id: "c".to_string() });
    assert_eq!(remote_spawned(None).unwrap_err(), "no idle host available in fleet");
    let place = remote_spawned(Some(("h".to_string(), done()))).unwrap();
    assert_eq!((place.host.as_str(), place.container_id.as_str()), ("h", "c"));
    let refused = AgentReply::Refused { status: "409 Conflict".to_string(), body: "busy".to_string() };
    assert_eq!(
        remote_spawned(Some(("h".to_string(), refused))).unwrap_err(),
        "agent /spawn on h failed: 409 Conflict busy"
    );
    assert_eq!(
        remote_spawned(Some(("h".to_string(), AgentReply::Failed("why".to_string())))).unwrap_err(),
        "why"
    );
}

#[test]
fn the_servers_of_all_hosts_are_listed() {
    let info = |id: &str| AgentDsInfo { ds_id: id.to_string(), port: 7001, container_id: format!("c{}", id) };
    let replies = vec![
        ("h1".to_string(), AgentReply::Done(vec![info("a"), info("b")])),
        ("h2".to_string(), AgentReply::Failed("silent".to_string())),
        ("h4".to_string(), AgentReply::Refused { status: "401".to_string(), body: String::new() }),
        ("h3".to_string(), AgentReply::Done(vec![info("d")])),
    ];
    let found = remote_listed(&replies);
    let rows: Vec<(&str, &str, &str)> = found
        .iter()
        .map(|d| (d.ds_id.as_str(), d.location.host.as_str(), d.location.container_id.as_str()))
        .collect();
    assert_eq!(rows, vec![("a", "h1", "ca"), ("b", "h1", "cb"), ("d", "h3", "cd")]);
}

#[test]
fn listed_hosts_without_an_entry_are_probed() {
    let remote = Config::from_env(&map(&[("SPAWNER", "remote-docker"), ("DS_HOSTS", "a,b,c")])).unwrap();
    assert!(probes_hosts(&remote));
    assert_eq!(hosts_to_probe(&remote, &texts(&["host:b", "server:a"])), texts(&["a", "c"]));
    let local = Config::from_env(&map(&[("DS_HOSTS", "a")])).unwrap();
    assert!(!probes_hosts(&local));
    assert!(hosts_to_probe(&local, &texts(&[])).is_empty());
}

#[test]
fn a_probed_host_is_registered() {
    let status = AgentStatus {
        hostname: "x".to_string(),
        status: HostStatus::Running,
        container_id: Some("c".to_string()),
        ds_id: None,
    };
    let write = register_probed("10.0.0.1", &status, 77);
    assert_eq!(write.key, "host:10.0.0.1");
    assert_eq!(write.ttl_secs, 60);
    let pairs: Vec<(&str, &str)> = write.fields.iter().map(|(a, b)| (a.as_str(), b.as_str())).collect();
    assert_eq!(
        pairs,
        vec![("status", "running"), ("container_id", "c"), ("ds_id", ""), ("last_heartbeat", "77")]
    );
}

#[test]
fn only_a_host_whose_agent_tells_its_state_is_registered() {
    let status = AgentStatus {
        hostname: "x".to_string(),
        status: HostStatus::Idle,
        container_id: None,
        ds_id: None,
    };
    let write = register_answer("h", &AgentReply::Done(status), 5).unwrap();
    assert_eq!(write.key, "host:h");
    assert_eq!(write.fields[0], ("status".to_string(), "idle".to_string()));
    assert_eq!(write.fields[3], ("last_heartbeat".to_string(), "5".to_string()));
    let refused = AgentReply::Refused { status: "401".to_string(), body: String::new() };
    assert!(register_answer("h", &refused, 5).is_none());
    assert!(register_answer("h", &AgentReply::Failed("silent".to_string()), 5).is_none());
}

#[test]
fn a_kill_fails_only_where_the_agent_does_not_answer() {
    assert_eq!(remote_killed(AgentReply::Done(())), Ok(()));
    let refused = AgentReply::Refused { status: "404".to_string(), body: String::new() };
    assert_eq!(remote_killed(refused), Ok(()));
    assert_eq!(remote_killed(AgentReply::Failed("why".to_string())), Err("why".to_string()));
}
