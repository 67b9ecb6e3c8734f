use mmorpg_fleet::dedicated_server::config::ServerConfig;
use mmorpg_fleet::dedicated_server::game::{GameAction, GameEvent, GameServer};
use mmorpg_fleet::dedicated_server::link::{
    send_heartbeat, LinkEvent, OrchLink, HEARTBEAT_PERIOD_SECS,
};
use mmorpg_fleet::dedicated_server::session::{SessionAction, SessionCheck, SessionEvent};
use mmorpg_fleet::gatekeeper::allocation::{AllocAction, AllocEvent, Allocated, Allocation};
use mmorpg_fleet::gatekeeper::sessions::write_session;
use mmorpg_fleet::protocol::{ClientMsg, ServerMsg};
use mmorpg_fleet::store::TextMap;

fn map(pairs: &[(&str, &str)]) -> TextMap {
    let mut map = TextMap::new();
    for (name, value) in pairs {
        map.set(name.to_string(), value.to_string());
    }
    map
}

fn config(max: &str) -> ServerConfig {
    ServerConfig::from_env(&map(&[("DS_ID", "s1"), ("DS_MAX_PLAYERS", max)])).unwrap()
}

fn join(conn: u64, id: &str) -> GameEvent {
    GameEvent::Message { conn, stream: conn + 100, msg: Some(ClientMsg::Join { player_id: id.to_string() }) }
}

fn session(server: &str) -> TextMap {
    let mut hash = TextMap::new();
    for (n, v) in write_session("p", "alice", server, 1, 30).fields {
        hash.set(n, v);
    }
    hash
}

fn verdict(read: SessionEvent, burned: Option<SessionEvent>) -> SessionAction {
    let (mut check, action) = SessionCheck::begin("p", "s1");
    assert!(matches!(action, SessionAction::Read { ref key } if key == "session:p"));
    let action = check.step(read);
    match burned {
        Some(event) => {
            assert!(matches!(action, SessionAction::Burn { ref key } if key == "session:p"));
            check.step(event)
        }
        None => action,
    }
}

fn reason(action: SessionAction) -> &'static str {
    match action {
        SessionAction::Refuse { reason } => reason,
        other => panic!("{:?}", other),
    }
}

#[test]
fn a_session_is_good_once_on_its_server() {
    let good = verdict(SessionEvent::Read(session("s1")), Some(SessionEvent::Burned(1)));
    assert!(matches!(good, SessionAction::Admit { ref username } if username == "alice"));
    let used = verdict(SessionEvent::Read(session("s1")), Some(SessionEvent::Burned(0)));
    assert_eq!(reason(used), "token already used");
    let other = verdict(SessionEvent::Read(session("s2")), Some(SessionEvent::Burned(1)));
    assert_eq!(reason(other), "token bound to different server");
}

#[test]
fn a_bad_session_is_refused() {
    assert_eq!(reason(verdict(SessionEvent::Read(map(&[])), None)), "invalid or expired session");
    assert_eq!(reason(verdict(SessionEvent::Failed, None)), "redis unavailable");
    let failed = verdict(SessionEvent::Read(session("s1")), Some(SessionEvent::Failed));
    assert_eq!(reason(failed), "redis unavailable");
    let nameless = verdict(SessionEvent::Read(map(&[("server_id", "s1")])), Some(SessionEvent::Burned(1)));
    assert_eq!(reason(nameless), "malformed session");
    let unbound = verdict(SessionEvent::Read(map(&[("username", "a")])), Some(SessionEvent::Burned(1)));
    assert_eq!(reason(unbound), "token bound to different server");
}

fn let_in(server: &mut GameServer, c: &ServerConfig, conn: u64) {
    assert!(matches!(server.on_event(c, &join(conn, "p")), GameAction::Session(SessionAction::Read { .. })));
    assert!(matches!(
        server.on_session(c, SessionEvent::Read(session("s1"))),
        GameAction::Session(SessionAction::Burn { .. })
    ));
    match server.on_session(c, SessionEvent::Burned(1)) {
        GameAction::Reply { conn: to, stream, msg: ServerMsg::Welcome { username } } => {
            assert_eq!((to, stream, username.as_str()), (conn, conn + 100, "alice"));
        }
        other => panic!("{:?}", other),
    }
}

fn turned_away(action: GameAction) -> String {
    match action {
        GameAction::Reply { conn, stream, msg: ServerMsg::Error { reason } } => {
            assert_eq!(stream, conn + 100);
            reason
        }
        other => panic!("{:?}", other),
    }
}

#[test]
fn players_join_until_the_server_is_full() {
    let c = config("2");
    let mut server = GameServer::new(&c);
    let_in(&mut server, &c, 1);
    assert_eq!(turned_away(server.on_event(&c, &join(1, "p"))), "already joined");
    let_in(&mut server, &c, 2);
    assert_eq!(server.registry.len(), 2);
    assert_eq!(turned_away(server.on_event(&c, &join(3, "p"))), "server full");
    assert_eq!(server.registry.len(), 2);
}

#[test]
fn players_leave_or_are_lost() {
    let c = config("5");
    let mut server = GameServer::new(&c);
    let_in(&mut server, &c, 1);
    let_in(&mut server, &c, 2);
    let leave = GameEvent::Message { conn: 1, stream: 7, msg: Some(ClientMsg::Leave) };
    assert!(matches!(server.on_event(&c, &leave), GameAction::Done));
    assert!(!server.registry.has(1));
    assert!(matches!(server.on_event(&c, &GameEvent::Disconnected { conn: 2 }), GameAction::Done));
    assert_eq!(server.registry.len(), 0);
    assert!(matches!(server.on_event(&c, &GameEvent::Disconnected { conn: 9 }), GameAction::Done));
    assert!(matches!(server.on_event(&c, &GameEvent::Message { conn: 1, stream: 7, msg: None }), GameAction::Done));
    assert!(matches!(server.on_event(&c, &GameEvent::Other), GameAction::Done));
}

#[test]
fn a_player_without_a_session_does_not_join() {
    let c = config("5");
    let mut server = GameServer::new(&c);
    server.on_event(&c, &join(1, "p"));
    let action = server.on_session(&c, SessionEvent::Read(map(&[])));
    assert_eq!(turned_away(action), "invalid or expired session");
    assert_eq!(server.registry.len(), 0);
    let_in(&mut server, &c, 1);
    let player = server.registry.remove(1).unwrap();
    assert_eq!((player.player_id.as_str(), player.username.as_str()), ("p", "alice"));
}

#[test]
fn heartbeats_need_a_link() {
    assert_eq!(HEARTBEAT_PERIOD_SECS, 5);
    let c = config("5");
    let mut link = OrchLink::new();
    assert!(send_heartbeat(&c, &link, 0).is_none());
    assert_eq!(link.on_event(LinkEvent::Connected { conn: 4 }), Some(4));
    assert!(send_heartbeat(&c, &link, 0).is_none());
    assert_eq!(link.on_event(LinkEvent::StreamCreated { stream: 8, reliable: true }), None);
    assert!(send_heartbeat(&c, &link, 0).is_none());
    assert_eq!(link.on_event(LinkEvent::StreamCreated { stream: 9, reliable: false }), None);
    let beat = send_heartbeat(&c, &link, 3).unwrap();
    assert_eq!((beat.conn, beat.stream), (4, 9));
    assert_eq!(beat.heartbeat.id, "s1");
    assert_eq!(beat.heartbeat.ip, "localhost");
    assert_eq!(beat.heartbeat.port, 7001);
    assert_eq!(beat.heartbeat.zone, "zone_A");
    assert_eq!((beat.heartbeat.player_count, beat.heartbeat.max_players), (3, 5));
    assert_eq!(link.on_event(LinkEvent::Other), None);
    link.on_event(LinkEvent::Disconnected);
    assert!(send_heartbeat(&c, &link, 3).is_none());
}

#[test]
fn a_player_with_a_place_gets_in_once() {
    let mut entry = TextMap::new();
    for (n, v) in [("status", "available"), ("max_players", "5"), ("ip", "i"), ("port", "7001")] {
        entry.set(n.to_string(), v.to_string());
    }
    let (mut allocation, _) = Allocation::begin("alice", 30);
    allocation.step(AllocEvent::Listed(vec![("server:s1".to_string(), entry)]));
    let write = match allocation.step(AllocEvent::ClaimReply(1)) {
        AllocAction::Write(write) => write,
        other => panic!("{:?}", other),
    };
    let player_id = match allocation.step(AllocEvent::Written) {
        AllocAction::Finish(Allocated::Granted { player_id, .. }) => player_id,
        other => panic!("{:?}", other),
    };
    for (deleted, gets_in) in [(1, true), (0, false)] {
        let (mut check, action) = SessionCheck::begin(&player_id, "s1");
        assert!(matches!(action, SessionAction::Read { ref key } if *key == write.key));
        let mut session = TextMap::new();
        for (n, v) in &write.fields {
            session.set(n.clone(), v.clone());
        }
        check.step(SessionEvent::Read(session));
        let last = check.step(SessionEvent::Burned(deleted));
        assert_eq!(matches!(last, SessionAction::Admit { ref username } if username == "alice"), gets_in);
    }
}
