use axum::http::{HeaderMap, HeaderValue};
use mmorpg_fleet::containers::CommandOutput;
use mmorpg_fleet::host_agent::agent::{
    docker_stop, health, list, status, AgentAction, AgentAnswer, LocalState,
};
use mmorpg_fleet::host_agent::auth::{check_auth, token_matches};
use mmorpg_fleet::host_agent::config::Config;
use mmorpg_fleet::host_agent::discovery::{Discovery, DiscoveryAction};
use mmorpg_fleet::orchestrator::fleet::{ask_host, register_probed, HostAnswer, HostQuery};
use mmorpg_fleet::protocol::{HostStatus, KillRequest, SpawnRequest};
use mmorpg_fleet::store::{HashWrite, TextMap};

fn config() -> Config {
    let mut env = TextMap::new();
    env.set("AGENT_HOSTNAME".to_string(), "h1".to_string());
    env.set("AGENT_TOKEN".to_string(), "tok".to_string());
    Config::from_env(&env, None, None).unwrap()
}

fn headers(auth: &str) -> HeaderMap {
    let mut map = HeaderMap::new();
    map.insert("authorization", HeaderValue::from_str(auth).unwrap());
    map
}

fn good() -> HeaderMap {
    headers("Bearer tok")
}

fn request(id: &str) -> SpawnRequest {
    SpawnRequest {
        ds_id: id.to_string(),
        ds_port: 7004,
        ds_advertise_host: "adv".to_string(),
        ds_zone: "z".to_string(),
        ds_max_players: 9,
        orch_host: "o".to_string(),
        orch_port: 9000,
        redis_url: "r".to_string(),
    }
}

fn output(success: bool, stdout: &str, stderr: &str) -> CommandOutput {
    CommandOutput {
        success,
        status: String::new(),
        stdout: stdout.as_bytes().to_vec(),
        stderr: stderr.as_bytes().to_vec(),
    }
}

fn hash(write: &HashWrite) -> TextMap {
    let mut map = TextMap::new();
    for (n, v) in &write.fields {
        map.set(n.clone(), v.clone());
    }
    map
}

fn error(answer: AgentAnswer) -> (u16, String) {
    match answer {
        AgentAnswer::Error { code, body } => (code, body.error),
        other => panic!("{:?}", other),
    }
}

fn rejected(action: AgentAction) -> (u16, String) {
    match action {
        AgentAction::Answer(answer) => error(answer),
        other => panic!("{:?}", other),
    }
}

#[test]
fn only_the_token_lets_in() {
    assert!(check_auth(&good(), "tok"));
    assert!(check_auth(&headers("Bearer "), ""));
    assert!(!check_auth(&HeaderMap::new(), "tok"));
    assert!(!check_auth(&headers("Bearer tok2"), "tok"));
    assert!(!check_auth(&headers("bearer tok"), "tok"));
    assert!(!check_auth(&headers("tok"), "tok"));
    assert!(token_matches(&Some("Bearer x".to_string()), "x"));
    assert!(!token_matches(&None, "x"));
}

#[test]
fn the_first_authorization_header_counts() {
    let mut map = headers("Bearer other");
    map.append("Authorization", HeaderValue::from_str("Bearer tok").unwrap());
    assert!(!check_auth(&map, "tok"));
    assert!(check_auth(&map, "other"));
}

#[test]
fn a_header_that_is_no_text_does_not_let_in() {
    let mut map = HeaderMap::new();
    map.insert("authorization", HeaderValue::from_bytes(&[b'B', 0xe9]).unwrap());
    assert!(!check_auth(&map, "tok"));
    let mut map = HeaderMap::new();
    map.insert("authorization", HeaderValue::from_bytes(b"Bearer a\tb").unwrap());
    assert!(check_auth(&map, "a\tb"));
}

#[test]
fn requests_without_the_token_are_rejected() {
    let c = config();
    let none = HeaderMap::new();
    let mut local = LocalState::idle();
    let expected = (401, "unauthorized".to_string());
    assert_eq!(error(status(&c, &local, &none)), expected);
    assert_eq!(error(list(&c, &local, &none)), expected);
    assert_eq!(rejected(local.spawn(&c, &none, &request("x"), "img")), expected);
    let kill = KillRequest { container_id: "c".to_string() };
    assert_eq!(rejected(local.kill(&c, &none, &kill)), expected);
    assert_eq!(local.status, HostStatus::Idle);
    assert_eq!(health(), "ok");
}

#[test]
fn a_server_is_started_and_stopped() {
    let c = config();
    let mut local = LocalState::idle();
    match local.spawn(&c, &good(), &request("x"), "img") {
        AgentAction::Run { write, args } => {
            assert_eq!(write.key, "host:h1");
            assert_eq!(write.ttl_secs, 60);
            assert_eq!(hash(&write).get("status"), Some("starting".to_string()));
            assert_eq!(hash(&write).get("ds_id"), Some("x".to_string()));
            assert_eq!(hash(&write).get("container_id"), Some(String::new()));
            assert!(ask_host(&HostQuery::Idle, &write.key, &hash(&write)).is_none());
            assert_eq!(
                args,
                vec![
                    "run", "-d", "--rm", "--network", "host", "-p", "7004:7004/udp",
                    "--label", "mmorpg.role=ds", "--label", "mmorpg.ds_id=x",
                    "-e", "DS_ID=x", "-e", "DS_PORT=7004", "-e", "DS_ZONE=z",
                    "-e", "DS_MAX_PLAYERS=9", "-e", "DS_ADVERTISE_HOST=adv",
                    "-e", "ORCH_HOST=o", "-e", "ORCH_PORT=9000", "-e", "REDIS_URL=r", "img",
                ]
            );
        }
        other => panic!("{:?}", other),
    }
    assert_eq!(
        rejected(local.spawn(&c, &good(), &request("y"), "img")),
        (409, "not idle (currently Starting)".to_string())
    );
    match local.spawn_ended(&c, "x", Ok(output(true, "cid\n", ""))) {
        AgentAction::Finish { write, answer: AgentAnswer::Spawned(response) } => {
            assert_eq!(response.container_id, "cid");
            assert_eq!(hash(&write).get("status"), Some("running".to_string()));
            match ask_host(&HostQuery::Runs { ds_id: "x".to_string() }, &write.key, &hash(&write)) {
                Some(HostAnswer::Runs(place)) => assert_eq!(place.container_id, "cid"),
                other => panic!("{:?}", other),
            }
        }
        other => panic!("{:?}", other),
    }
    let wrong = KillRequest { container_id: "other".to_string() };
    assert_eq!(
        rejected(local.kill(&c, &good(), &wrong)),
        (404, "container_id not running here".to_string())
    );
    match local.kill(&c, &good(), &KillRequest { container_id: "cid".to_string() }) {
        AgentAction::Run { write, args } => {
            assert_eq!(args, vec!["stop", "cid"]);
            assert_eq!(hash(&write).get("status"), Some("stopping".to_string()));
            assert_eq!(hash(&write).get("ds_id"), Some(String::new()));
        }
        other => panic!("{:?}", other),
    }
    match local.kill_ended(&c) {
        AgentAction::Finish { write, answer: AgentAnswer::NoContent } => {
            assert!(matches!(
                ask_host(&HostQuery::Idle, &write.key, &hash(&write)),
                Some(HostAnswer::Idle(ref host)) if host == "h1"
            ));
        }
        other => panic!("{:?}", other),
    }
    assert_eq!(local.status, HostStatus::Idle);
    assert!(local.container_id.is_none() && local.ds_id.is_none());
}

#[test]
fn a_failed_start_leaves_the_host_idle() {
    let c = config();
    for (result, text) in [
        (Ok(output(false, "", " no image \n")), "docker run failed: docker run failed: no image"),
        (Err("no docker".to_string()), "docker run failed: no docker"),
    ] {
        let mut local = LocalState::idle();
        local.spawn(&c, &good(), &request("x"), "img");
        match local.spawn_ended(&c, "x", result) {
            AgentAction::Finish { answer, .. } => assert_eq!(error(answer), (500, text.to_string())),
            other => panic!("{:?}", other),
        }
        assert_eq!(local.status, HostStatus::Idle);
        assert!(local.ds_id.is_none());
    }
}

#[test]
fn the_state_of_the_host_is_told() {
    let c = config();
    let local = LocalState {
        status: HostStatus::Running,
        container_id: Some("c".to_string()),
        ds_id: Some("d".to_string()),
    };
    match status(&c, &local, &good()) {
        AgentAnswer::Status(body) => {
            assert_eq!(body.hostname, "h1");
            assert_eq!(body.status, HostStatus::Running);
            assert_eq!(body.container_id, Some("c".to_string()));
            assert_eq!(body.ds_id, Some("d".to_string()));
        }
        other => panic!("{:?}", other),
    }
    match list(&c, &local, &good()) {
        AgentAnswer::List(servers) => {
            assert_eq!(servers.len(), 1);
            assert_eq!(servers[0].ds_id, "d");
            assert_eq!(servers[0].port, 7001);
            assert_eq!(servers[0].container_id, "c");
        }
        other => panic!("{:?}", other),
    }
    assert!(matches!(list(&c, &LocalState::idle(), &good()), AgentAnswer::List(ref l) if l.is_empty()));
    let write = local.report_at(&c, -5);
    assert_eq!(hash(&write).get("last_heartbeat"), Some("-5".to_string()));
    let now: i64 = hash(&local.report(&c)).get("last_heartbeat").unwrap().parse().unwrap();
    assert!(now > 1_600_000_000);
}

#[test]
fn a_failed_stop_says_why() {
    assert_eq!(docker_stop(&output(true, "", "x")), None);
    assert_eq!(docker_stop(&output(false, "", " gone\n")), Some("docker stop failed: gone".to_string()));
}

#[test]
fn a_running_server_is_discovered() {
    let (mut discovery, action) = Discovery::begin("mmorpg.role=ds");
    match action {
        DiscoveryAction::Run { args } => assert_eq!(args, vec!["ps", "-q", "--filter", "label=mmorpg.role=ds"]),
        other => panic!("{:?}", other),
    }
    match discovery.step(Some(b"cid\n".to_vec())) {
        DiscoveryAction::Run { args } => {
            assert_eq!(args, vec!["inspect", "-f", "{{ index .Config.Labels \"mmorpg.ds_id\" }}", "cid"]);
        }
        other => panic!("{:?}", other),
    }
    match discovery.step(Some(b"d1\n".to_vec())) {
        DiscoveryAction::Start(state) => {
            assert_eq!(state.status, HostStatus::Running);
            assert_eq!(state.container_id, Some("cid".to_string()));
            assert_eq!(state.ds_id, Some("d1".to_string()));
        }
        other => panic!("{:?}", other),
    }
}

#[test]
fn without_a_container_the_host_is_idle() {
    for first in [None, Some(b" \n".to_vec())] {
        let (mut discovery, _) = Discovery::begin("l");
        assert!(matches!(discovery.step(first), DiscoveryAction::Start(ref s) if s.status == HostStatus::Idle));
    }
    let (mut discovery, _) = Discovery::begin("l");
    discovery.step(Some(b"cid".to_vec()));
    assert!(matches!(discovery.step(None), DiscoveryAction::Start(ref s) if s.status == HostStatus::Idle));
    let (mut discovery, _) = Discovery::begin("l");
    discovery.step(Some(b"cid".to_vec()));
    match discovery.step(Some(b"\n".to_vec())) {
        DiscoveryAction::Start(state) => {
            assert_eq!(state.status, HostStatus::Running);
            assert!(state.ds_id.is_none());
        }
        other => panic!("{:?}", other),
    }
}

#[test]
fn a_probe_and_a_report_agree() {
    let c = config();
    let local = LocalState {
        status: HostStatus::Running,
        container_id: Some("c".to_string()),
        ds_id: Some("d".to_string()),
    };
    let body = match status(&c, &local, &good()) {
        AgentAnswer::Status(body) => body,
        other => panic!("{:?}", other),
    };
    let probe = register_probed("h1", &body, 5);
    let report = local.report_at(&c, 9);
    assert_eq!(probe.key, report.key);
    assert_eq!(probe.fields[..3], report.fields[..3]);
    assert_eq!(probe.fields[3], ("last_heartbeat".to_string(), "5".to_string()));
}

#[test]
fn a_server_is_listed_while_it_starts() {
    let c = config();
    let listed = |status: HostStatus, container: Option<&str>, ds: Option<&str>| {
        let local = LocalState {
            status,
            container_id: container.map(String::from),
            ds_id: ds.map(String::from),
        };
        match list(&c, &local, &good()) {
            AgentAnswer::List(servers) => servers
                .into_iter()
                .map(|s| (s.ds_id, s.port, s.container_id))
                .collect::<Vec<_>>(),
            other => panic!("{:?}", other),
        }
    };
    let starting = listed(HostStatus::Starting, None, Some("d1"));
    assert_eq!(starting, vec![("d1".to_string(), 7001, String::new())]);
    let running = listed(HostStatus::Running, Some("c"), Some("d1"));
    assert_eq!(running, vec![("d1".to_string(), 7001, "c".to_string())]);
    assert!(listed(HostStatus::Running, Some("c"), None).is_empty());
    assert!(listed(HostStatus::Stopping, Some("c"), None).is_empty());
}
