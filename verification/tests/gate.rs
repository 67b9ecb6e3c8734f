use mmorpg_fleet::gatekeeper::allocation::{AllocAction, AllocEvent, Allocated, Allocation};
use mmorpg_fleet::gatekeeper::config::Config;
use mmorpg_fleet::gatekeeper::login::{
    check_credentials, Login, LoginAction, LoginInput, LoginReply,
};
use mmorpg_fleet::gatekeeper::servers::{find_available_server, list_available_servers};
use mmorpg_fleet::gatekeeper::sessions::{claimed, write_session, CLAIM_SCRIPT, RELEASE_STEP};
use mmorpg_fleet::gatekeeper::stream::{
    to_event_name, LoginStream, StreamAction, StreamInput, SERIALIZE_ERROR,
};
use mmorpg_fleet::orchestrator::registry::write_heartbeat;
use mmorpg_fleet::protocol::{Heartbeat, LoginEvent, LoginRequest, LoginResponse, ServerInfo};
use mmorpg_fleet::store::{HashWrite, TextMap};

fn map(pairs: &[(&str, &str)]) -> TextMap {
    let mut map = TextMap::new();
    for (name, value) in pairs {
        map.set(name.to_string(), value.to_string());
    }
    map
}

fn config() -> Config {
    Config::from_env(&map(&[])).unwrap()
}

fn entry(id: &str, players: &str, max: &str) -> (String, TextMap) {
    (
        format!("server:{}", id),
        map(&[
            ("status", "available"),
            ("player_count", players),
            ("max_players", max),
            ("ip", "1.1.1.1"),
            ("port", "7001"),
            ("zone", "z"),
        ]),
    )
}

fn ids(entries: &Vec<(String, TextMap)>) -> Vec<String> {
    list_available_servers(entries).into_iter().map(|s| s.id).collect()
}

fn field<'a>(write: &'a HashWrite, name: &str) -> &'a str {
    &write.fields.iter().find(|(n, _)| n == name).unwrap().1
}

fn request(username: &str, password: &str) -> LoginRequest {
    LoginRequest { username: username.to_string(), password: password.to_string() }
}

#[test]
fn the_fullest_server_with_room_comes_first() {
    let entries = vec![
        entry("a", "1", "10"),
        entry("b", "5", "10"),
        entry("c", "10", "10"),
        entry("d", "5", "10"),
        entry("e", "0", "10"),
    ];
    assert_eq!(ids(&entries), vec!["b", "d", "a", "e"]);
    assert_eq!(find_available_server(&entries).unwrap().id, "b");
    assert!(find_available_server(&vec![]).is_none());
    assert!(find_available_server(&vec![entry("c", "10", "10")]).is_none());
}

#[test]
fn only_complete_entries_count() {
    let base = [("status", "available"), ("max_players", "5"), ("ip", "i"), ("port", "7001")];
    let without = |name: &str| -> Vec<(String, TextMap)> {
        let pairs: Vec<(&str, &str)> = base.iter().copied().filter(|(n, _)| *n != name).collect();
        vec![("server:x".to_string(), map(&pairs))]
    };
    let all = vec![("server:x".to_string(), map(&base))];
    let chosen = find_available_server(&all).unwrap();
    assert_eq!((chosen.ip.as_str(), chosen.port, chosen.zone.as_str()), ("i", 7001, "zone_A"));
    for name in ["status", "max_players", "ip", "port"] {
        assert!(find_available_server(&without(name)).is_none());
    }
    let mut bad_port = base.to_vec();
    bad_port[3] = ("port", "70000");
    assert!(find_available_server(&vec![("server:x".to_string(), map(&bad_port))]).is_none());
    assert!(find_available_server(&vec![("other:x".to_string(), map(&base))]).is_none());
}

#[test]
fn a_server_is_listed_after_its_heartbeat() {
    let mut hb = Heartbeat {
        id: "s".to_string(),
        ip: "9.9.9.9".to_string(),
        port: 7010,
        zone: "q".to_string(),
        player_count: 1,
        max_players: 2,
    };
    let listed = |hb: &Heartbeat| {
        let write = write_heartbeat(hb, 15);
        let mut hash = TextMap::new();
        for (n, v) in &write.fields {
            hash.set(n.clone(), v.clone());
        }
        find_available_server(&vec![(write.key.clone(), hash)])
    };
    let chosen = listed(&hb).unwrap();
    assert_eq!((chosen.id.as_str(), chosen.ip.as_str(), chosen.port, chosen.zone.as_str()), ("s", "9.9.9.9", 7010, "q"));
    hb.player_count = 2;
    assert!(listed(&hb).is_none());
}

#[test]
fn a_session_is_bound_to_a_server() {
    let write = write_session("p", "alice", "s", 99, 30);
    assert_eq!(write.key, "session:p");
    assert_eq!(write.ttl_secs, 30);
    assert_eq!(field(&write, "username"), "alice");
    assert_eq!(field(&write, "server_id"), "s");
    assert_eq!(field(&write, "issued_at"), "99");
}

#[test]
fn replies_of_the_script_say_whether_a_slot_was_claimed() {
    assert!(claimed(1));
    assert!(claimed(0));
    assert!(!claimed(-1));
    assert_eq!(RELEASE_STEP, -1);
}

#[test]
fn the_script_claims_one_slot_where_there_is_room() {
    let lines: Vec<&str> = CLAIM_SCRIPT.trim().lines().collect();
    assert_eq!(
        lines,
        vec![
            "local cur = tonumber(redis.call('HGET', KEYS[1], 'player_count') or '0')",
            "local max = tonumber(redis.call('HGET', KEYS[1], 'max_players') or '0')",
            "if max == 0 then return -1 end",
            "if cur >= max then return -1 end",
            "redis.call('HINCRBY', KEYS[1], 'player_count', 1)",
            "return 1",
        ]
    );
}

#[test]
fn an_allocation_tries_servers_in_order() {
    let (mut a, action) = Allocation::begin("alice", 30);
    assert!(matches!(action, AllocAction::List));
    let action = a.step(AllocEvent::Listed(vec![entry("a", "1", "10"), entry("b", "5", "10")]));
    assert!(matches!(action, AllocAction::Claim { ref key } if key == "server:b"));
    let action = a.step(AllocEvent::ClaimReply(-1));
    assert!(matches!(action, AllocAction::Claim { ref key } if key == "server:a"));
    let (session, id) = match a.step(AllocEvent::ClaimReply(2)) {
        AllocAction::Write(write) => {
            assert_eq!(field(&write, "username"), "alice");
            assert_eq!(field(&write, "server_id"), "a");
            assert_eq!(write.ttl_secs, 30);
            let issued: i64 = field(&write, "issued_at").parse().unwrap();
            assert!(issued > 1_600_000_000);
            (write.key.clone(), write.key.strip_prefix("session:").unwrap().to_string())
        }
        other => panic!("{:?}", other),
    };
    match a.step(AllocEvent::Written) {
        AllocAction::Finish(Allocated::Granted { player_id, server }) => {
            assert_eq!(player_id, id);
            assert_eq!(session, format!("session:{}", player_id));
            assert_eq!(server.id, "a");
        }
        other => panic!("{:?}", other),
    }
}

#[test]
fn a_slot_is_given_back_when_the_session_is_not_written() {
    let (mut a, _) = Allocation::begin("alice", 30);
    a.step(AllocEvent::Listed(vec![entry("a", "1", "10")]));
    a.step(AllocEvent::ClaimReply(2));
    let action = a.step(AllocEvent::WriteFailed);
    assert!(matches!(action, AllocAction::Release { ref key } if key == "server:a"));
    assert!(matches!(a.step(AllocEvent::Released), AllocAction::Finish(Allocated::Failed)));
}

#[test]
fn an_allocation_may_fail_or_find_nothing() {
    let (mut a, _) = Allocation::begin("alice", 30);
    assert!(matches!(a.step(AllocEvent::ListFailed), AllocAction::Finish(Allocated::Failed)));
    let (mut a, _) = Allocation::begin("alice", 30);
    assert!(matches!(a.step(AllocEvent::Listed(vec![])), AllocAction::Finish(Allocated::NoServer)));
    let (mut a, _) = Allocation::begin("alice", 30);
    a.step(AllocEvent::Listed(vec![entry("a", "1", "10")]));
    assert!(matches!(a.step(AllocEvent::ClaimReply(-1)), AllocAction::Finish(Allocated::NoServer)));
    let (mut a, _) = Allocation::begin("alice", 30);
    a.step(AllocEvent::Listed(vec![entry("a", "1", "10")]));
    assert!(matches!(a.step(AllocEvent::ClaimFailed), AllocAction::Finish(Allocated::Failed)));
}

#[test]
fn credentials_are_checked() {
    assert_eq!(check_credentials(" \t", "1234", "1234"), Some("username required".to_string()));
    assert_eq!(check_credentials("", "x", "1234"), Some("username required".to_string()));
    assert_eq!(check_credentials("a", "x", "1234"), Some("invalid credentials".to_string()));
    assert_eq!(check_credentials("a", "1234", "1234"), None);
}

fn refused(action: LoginAction) -> (u16, String) {
    match action {
        LoginAction::Reply(LoginReply::Refused { status, error }) => (status, error),
        other => panic!("{:?}", other),
    }
}

#[test]
fn a_login_is_refused_with_a_reason() {
    let c = config();
    assert_eq!(refused(Login::begin(&c, &request(" ", "1234")).1), (401, "username required".to_string()));
    assert_eq!(refused(Login::begin(&c, &request("a", "no")).1), (401, "invalid credentials".to_string()));
    let looking = || {
        let (login, action) = Login::begin(&c, &request("a", "1234"));
        assert!(matches!(action, LoginAction::List));
        login
    };
    assert_eq!(refused(looking().step(&c, LoginInput::Listed(vec![]))), (503, "No server available".to_string()));
    assert_eq!(refused(looking().step(&c, LoginInput::ListFailed)), (503, "registry unavailable".to_string()));
    let mut login = looking();
    login.step(&c, LoginInput::Listed(vec![entry("a", "1", "10")]));
    let action = login.step(&c, LoginInput::Allocation(AllocEvent::Listed(vec![])));
    assert_eq!(refused(action), (503, "No server available".to_string()));
}

#[test]
fn a_login_is_granted() {
    let c = config();
    let (mut login, _) = Login::begin(&c, &request("bob", "1234"));
    let action = login.step(&c, LoginInput::Listed(vec![entry("a", "1", "10")]));
    assert!(matches!(action, LoginAction::Allocate(AllocAction::List)));
    let action = login.step(&c, LoginInput::Allocation(AllocEvent::Listed(vec![entry("a", "1", "10")])));
    assert!(matches!(action, LoginAction::Allocate(AllocAction::Claim { .. })));
    let action = login.step(&c, LoginInput::Allocation(AllocEvent::ClaimReply(2)));
    let key = match action {
        LoginAction::Allocate(AllocAction::Write(write)) => write.key,
        other => panic!("{:?}", other),
    };
    match login.step(&c, LoginInput::Allocation(AllocEvent::Written)) {
        LoginAction::Reply(LoginReply::Granted(response)) => {
            assert_eq!(key, format!("session:{}", response.player_id));
            assert_eq!(response.server.ip, "1.1.1.1");
            assert_eq!(response.server.port, 7001);
            assert_eq!(response.server.zone, "z");
        }
        other => panic!("{:?}", other),
    }
}

#[test]
fn events_are_named() {
    let waiting = LoginEvent::Waiting { message: String::new(), elapsed_ms: 0 };
    let error = LoginEvent::Error { error: String::new() };
    let ready = LoginEvent::Ready(LoginResponse {
        player_id: String::new(),
        server: ServerInfo { ip: String::new(), port: 1, zone: String::new() },
    });
    assert_eq!(to_event_name(&waiting), "waiting");
    assert_eq!(to_event_name(&ready), "ready");
    assert_eq!(to_event_name(&error), "error");
    assert_eq!(SERIALIZE_ERROR, r#"{"kind":"error","error":"serialize"}"#);
}

fn only_error(sent: &Vec<LoginEvent>) -> &str {
    match sent.as_slice() {
        [LoginEvent::Error { error }] => error,
        other => panic!("{:?}", other),
    }
}

#[test]
fn a_stream_begins_with_a_sign_of_life() {
    let c = config();
    let (_, sent, action) = LoginStream::begin(&c, "a", "1234");
    assert_eq!(sent.len(), 1);
    assert!(matches!(&sent[0], LoginEvent::Waiting { message, elapsed_ms: 0 } if message == "looking for a server..."));
    assert!(matches!(action, StreamAction::Allocate(AllocAction::List)));
    let (_, sent, action) = LoginStream::begin(&c, "a", "x");
    assert_eq!(sent.len(), 2);
    assert!(matches!(&sent[1], LoginEvent::Error { error } if error == "invalid credentials"));
    assert!(matches!(action, StreamAction::Close));
    let (_, sent, _) = LoginStream::begin(&c, "  ", "x");
    assert!(matches!(&sent[1], LoginEvent::Error { error } if error == "username required"));
}

#[test]
fn a_stream_waits_pings_and_gives_up() {
    let c = config();
    let (mut s, _, _) = LoginStream::begin(&c, "a", "1234");
    let none = || StreamInput::Allocation(AllocEvent::Listed(vec![]));
    let (sent, action) = s.step(&c, none());
    assert!(sent.is_empty() && matches!(action, StreamAction::ReadClock));
    let (sent, action) = s.step(&c, StreamInput::Clock { ns: 1_999_999_999 });
    assert!(sent.is_empty() && matches!(action, StreamAction::Sleep { ms: 500 }));
    let (_, action) = s.step(&c, StreamInput::Slept);
    assert!(matches!(action, StreamAction::Allocate(AllocAction::List)));
    s.step(&c, none());
    let (sent, action) = s.step(&c, StreamInput::Clock { ns: 2_000_000_000 });
    assert!(sent.is_empty() && matches!(action, StreamAction::ReadElapsed));
    let (sent, action) = s.step(&c, StreamInput::Elapsed { ms: 2001 });
    assert!(matches!(&sent[..], [LoginEvent::Waiting { message, elapsed_ms: 2001 }] if message == "no server available yet, fleet is scaling up"));
    assert!(matches!(action, StreamAction::Sleep { ms: 500 }));
    s.step(&c, StreamInput::Slept);
    s.step(&c, none());
    // Two seconds have to pass before the next one.
    let (_, action) = s.step(&c, StreamInput::Clock { ns: 3_999_999_999 });
    assert!(matches!(action, StreamAction::Sleep { .. }));
    s.step(&c, StreamInput::Slept);
    s.step(&c, none());
    let (sent, action) = s.step(&c, StreamInput::Clock { ns: 60_000_000_000 });
    assert_eq!(only_error(&sent), "No server available after 60s wait");
    assert!(matches!(action, StreamAction::Close));
    let (sent, action) = s.step(&c, StreamInput::Slept);
    assert!(sent.is_empty() && matches!(action, StreamAction::Close));
}

#[test]
fn a_stream_ends_when_a_place_is_found() {
    let c = config();
    let (mut s, _, _) = LoginStream::begin(&c, "a", "1234");
    s.step(&c, StreamInput::Allocation(AllocEvent::Listed(vec![entry("a", "1", "10")])));
    s.step(&c, StreamInput::Allocation(AllocEvent::ClaimReply(2)));
    let (sent, action) = s.step(&c, StreamInput::Allocation(AllocEvent::Written));
    assert!(matches!(&sent[..], [LoginEvent::Ready(r)] if r.server.port == 7001));
    assert!(matches!(action, StreamAction::Close));
}

#[test]
fn a_stream_ends_when_the_store_fails() {
    let c = config();
    let (mut s, _, _) = LoginStream::begin(&c, "a", "1234");
    let (sent, action) = s.step(&c, StreamInput::Allocation(AllocEvent::ListFailed));
    assert_eq!(only_error(&sent), "registry unavailable");
    assert!(matches!(action, StreamAction::Close));
}
