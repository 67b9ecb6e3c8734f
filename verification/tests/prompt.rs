use mmorpg_fleet::client::commands::{
    disconnect, gone_line, list_lines, make_player_name, parse_command, print_event, sent_line,
    ClientCmd, ClientEvent, ClientRow, Command, DisconnectPlan,
};
use mmorpg_fleet::client::login::{
    connect_failure, stream_url, ConnectFailure, LoginReader, ReaderAction, StreamItem,
};
use mmorpg_fleet::client::play::{PlayAction, PlayEvent, Player};
use mmorpg_fleet::protocol::{ClientMsg, LoginEvent, LoginResponse, ServerInfo, ServerMsg};

fn response() -> LoginResponse {
    LoginResponse {
        player_id: "p".to_string(),
        server: ServerInfo { ip: "1.2.3.4".to_string(), port: 7001, zone: "z".to_string() },
    }
}

#[test]
fn commands_are_understood() {
    assert!(matches!(parse_command("   "), Command::Nothing));
    assert!(matches!(parse_command("spawn"), Command::Spawn { count: 1, base: None }));
    assert!(matches!(parse_command(" spawn 3 "), Command::Spawn { count: 3, base: None }));
    assert!(matches!(parse_command("spawn x bob"), Command::Spawn { count: 1, base: Some(ref b) } if b == "bob"));
    assert!(matches!(parse_command("spawn 0"), Command::Spawn { count: 0, .. }));
    assert!(matches!(parse_command("list"), Command::List));
    assert!(matches!(parse_command("quit 7"), Command::Disconnect { ref target, cmd: ClientCmd::Leave } if target == "7"));
    assert!(matches!(parse_command("crash"), Command::Disconnect { ref target, cmd: ClientCmd::Crash } if target.is_empty()));
    assert!(matches!(parse_command("help"), Command::Help));
    assert!(matches!(parse_command("?"), Command::Help));
    assert!(matches!(parse_command("exit now"), Command::Exit));
    assert!(matches!(parse_command("Spawn"), Command::Unknown));
}

#[test]
fn players_are_named() {
    let bob = Some("bob".to_string());
    assert_eq!(make_player_name(1, &None, "alice", 4), "alice");
    assert_eq!(make_player_name(2, &None, "alice", 4), "alice_4");
    assert_eq!(make_player_name(1, &bob, "alice", 4), "bob_4");
    assert_eq!(make_player_name(3, &bob, "alice", 12), "bob_12");
}

#[test]
fn players_are_listed_by_number() {
    assert_eq!(list_lines(vec![]), vec!["(no active clients)"]);
    let row = |id: usize, name: &str| ClientRow {
        id,
        username: name.to_string(),
        server_ip: "10.0.0.1".to_string(),
        server_port: 7001,
    };
    let lines = list_lines(vec![row(12, "bob"), row(3, "alice"), row(1000, "a_name_that_is_longer_than_twenty"), row(7, "é")]);
    assert_eq!(lines[0], "active clients:");
    assert_eq!(lines[1], format!("  #{:<3} {:<20} → {}:{}", 3, "alice", "10.0.0.1", 7001));
    assert_eq!(lines[2], format!("  #{:<3} {:<20} → {}:{}", 7, "é", "10.0.0.1", 7001));
    assert_eq!(lines[3], format!("  #{:<3} {:<20} → {}:{}", 12, "bob", "10.0.0.1", 7001));
    assert_eq!(lines[4], "  #1000 a_name_that_is_longer_than_twenty → 10.0.0.1:7001");
    assert_eq!(lines.len(), 5);
}

#[test]
fn players_are_told_to_go() {
    let ids = vec![3usize, 5];
    let said = |target: &str, cmd: ClientCmd| match disconnect(target, cmd, &ids) {
        DisconnectPlan::Say { text } => text,
        other => panic!("{:?}", other),
    };
    assert!(matches!(disconnect("all", ClientCmd::Leave, &ids), DisconnectPlan::All));
    assert!(matches!(disconnect("5", ClientCmd::Leave, &ids), DisconnectPlan::One { id: 5 }));
    assert_eq!(said("4", ClientCmd::Leave), "no client with id #4");
    assert_eq!(said("", ClientCmd::Leave), "usage: quit <id|all>");
    assert_eq!(said("", ClientCmd::Crash), "usage: crash <id|all>");
    assert_eq!(said("x", ClientCmd::Crash), "invalid target: x");
    assert_eq!(gone_line(4), "[#4] could not send (already gone)");
    assert_eq!(sent_line(ClientCmd::Leave, None), "(sent Leave to all)");
    assert_eq!(sent_line(ClientCmd::Crash, Some(2)), "(sent Crash to #2)");
}

#[test]
fn reports_are_printed() {
    let name = || "bob".to_string();
    let waiting = ClientEvent::Waiting { id: 1, username: name(), message: "m".to_string(), elapsed_ms: 20 };
    assert_eq!(print_event(&waiting), ("[#1] bob waiting... m (elapsed 20ms)".to_string(), None));
    let joined = ClientEvent::Joined { id: 1, username: name(), server_ip: "i".to_string(), server_port: 7 };
    assert_eq!(print_event(&joined), ("[#1] bob joined → i:7".to_string(), None));
    assert_eq!(print_event(&ClientEvent::LeftGracefully { id: 2 }), ("[#2] left gracefully".to_string(), Some(2)));
    assert_eq!(print_event(&ClientEvent::Crashed { id: 3 }), ("[#3] crashed".to_string(), Some(3)));
    let errored = ClientEvent::Errored { id: 4, err: "e".to_string() };
    assert_eq!(print_event(&errored), ("[#4] ERROR: e".to_string(), Some(4)));
}

#[test]
fn names_and_passwords_are_percent_encoded() {
    assert_eq!(
        stream_url("http://gk", "a b&c/é~", "1.2-3_4%"),
        "http://gk/login/stream?username=a%20b%26c%2F%C3%A9~&password=1.2-3_4%25"
    );
}

#[test]
fn failures_to_connect_are_told() {
    assert_eq!(connect_failure(&ConnectFailure::Client("x".to_string())), "http client: x");
    assert_eq!(connect_failure(&ConnectFailure::Connect("x".to_string())), "stream connect: x");
    let refused = ConnectFailure::Refused { status: "500".to_string(), body: "b".to_string() };
    assert_eq!(connect_failure(&refused), "stream 500: b");
}

fn waiting(ms: u64) -> StreamItem {
    StreamItem::Event(Some(LoginEvent::Waiting { message: "m".to_string(), elapsed_ms: ms }))
}

fn given_up(action: ReaderAction) -> String {
    match action {
        ReaderAction::GiveUp(ClientEvent::Errored { id: 9, err }) => err,
        other => panic!("{:?}", other),
    }
}

#[test]
fn the_first_wait_is_not_reported() {
    let mut reader = LoginReader::new(9, "bob");
    assert!(matches!(reader.step(waiting(0)), ReaderAction::Read));
    assert!(matches!(reader.step(waiting(0)), ReaderAction::Report(ClientEvent::Waiting { id: 9, .. })));
    let mut reader = LoginReader::new(9, "bob");
    match reader.step(waiting(5)) {
        ReaderAction::Report(ClientEvent::Waiting { username, elapsed_ms, .. }) => {
            assert_eq!((username.as_str(), elapsed_ms), ("bob", 5));
        }
        other => panic!("{:?}", other),
    }
    assert!(matches!(reader.step(StreamItem::Event(None)), ReaderAction::Read));
    let ready = StreamItem::Event(Some(LoginEvent::Ready(response())));
    assert!(matches!(reader.step(ready), ReaderAction::Play(ref r) if r.player_id == "p"));
}

#[test]
fn a_reader_gives_up_with_a_reason() {
    let cases = vec![
        (StreamItem::End, "stream ended without ready event"),
        (StreamItem::Broken("x".to_string()), "sse parse: x"),
        (
            StreamItem::Event(Some(LoginEvent::Error { error: "no".to_string() })),
            "gatekeeper: no",
        ),
    ];
    for (item, expected) in cases {
        let mut reader = LoginReader::new(9, "bob");
        assert_eq!(given_up(reader.step(item)), expected);
        // That was the end.
        assert!(matches!(reader.step(waiting(9)), ReaderAction::Over));
        assert!(matches!(reader.step(StreamItem::End), ReaderAction::Over));
    }
}

#[test]
fn a_player_joins_and_leaves() {
    let mut player = Player::new(2, "bob", response());
    assert!(matches!(player.step(PlayEvent::Connected { conn: 4 }), PlayAction::CreateStream { conn: 4 }));
    assert!(matches!(player.step(PlayEvent::StreamCreated { stream: 6, reliable: false }), PlayAction::Wait));
    match player.step(PlayEvent::StreamCreated { stream: 7, reliable: true }) {
        PlayAction::Send { conn: 4, stream: 7, msg: ClientMsg::Join { player_id } } => assert_eq!(player_id, "p"),
        other => panic!("{:?}", other),
    }
    let welcome = PlayEvent::Message(Ok(ServerMsg::Welcome { username: "bob".to_string() }));
    match player.step(welcome) {
        PlayAction::Report(ClientEvent::Joined { id: 2, username, server_ip, server_port: 7001 }) => {
            assert_eq!((username.as_str(), server_ip.as_str()), ("bob", "1.2.3.4"));
        }
        other => panic!("{:?}", other),
    }
    match player.step(PlayEvent::Command(ClientCmd::Leave)) {
        PlayAction::SayAndGo { conn: 4, stream: 7, msg: ClientMsg::Leave, sleep_ms: 300, event } => {
            assert!(matches!(event, ClientEvent::LeftGracefully { id: 2 }));
        }
        other => panic!("{:?}", other),
    }
}

#[test]
fn a_player_who_has_not_joined_just_goes() {
    let mut player = Player::new(2, "bob", response());
    let action = player.step(PlayEvent::StreamCreated { stream: 7, reliable: true });
    assert!(matches!(action, PlayAction::Wait));
    assert!(matches!(player.step(PlayEvent::Other), PlayAction::Wait));
    let action = player.step(PlayEvent::Command(ClientCmd::Leave));
    assert!(matches!(action, PlayAction::Go(ClientEvent::LeftGracefully { id: 2 })));
    let mut player = Player::new(2, "bob", response());
    let action = player.step(PlayEvent::Command(ClientCmd::Crash));
    assert!(matches!(action, PlayAction::Go(ClientEvent::Crashed { id: 2 })));
}

#[test]
fn a_player_who_has_gone_says_nothing_more() {
    let mut player = Player::new(2, "bob", response());
    let welcome = || PlayEvent::Message(Ok(ServerMsg::Welcome { username: "bob".to_string() }));
    assert!(matches!(player.step(welcome()), PlayAction::Report(ClientEvent::Joined { .. })));
    assert!(matches!(player.step(welcome()), PlayAction::Report(ClientEvent::Joined { .. })));
    assert!(matches!(player.step(PlayEvent::Disconnected), PlayAction::Go(ClientEvent::Errored { .. })));
    assert!(matches!(player.step(welcome()), PlayAction::Over));
    assert!(matches!(player.step(PlayEvent::Command(ClientCmd::Leave)), PlayAction::Over));
}

#[test]
fn a_player_goes_with_a_reason() {
    let text = |e: &str| e.to_string();
    let cases = vec![
        (PlayEvent::Unresolved, "could not resolve 1.2.3.4"),
        (PlayEvent::ConnectFailed(text("x")), "QUIC connect: x"),
        (PlayEvent::PollFailed(text("x")), "poll: x"),
        (PlayEvent::CreateStreamFailed(text("x")), "create_stream: x"),
        (PlayEvent::Message(Ok(ServerMsg::Error { reason: text("full") })), "DS rejected JOIN: full"),
        (PlayEvent::Message(Err(text("x"))), "bad message: x"),
        (PlayEvent::Disconnected, "DS dropped us"),
    ];
    for (event, expected) in cases {
        let mut player = Player::new(2, "bob", response());
        match player.step(event) {
            PlayAction::Go(ClientEvent::Errored { id: 2, err }) => assert_eq!(err, expected),
            other => panic!("{:?}", other),
        }
    }
}
