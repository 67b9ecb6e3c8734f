//! What a server does with what its players send. Connections and streams are known by
//! number.

use crate::dedicated_server::config::ServerConfig;
use crate::dedicated_server::players::PlayerInfo;
use crate::dedicated_server::players::PlayerRegistry;
use crate::dedicated_server::players::PlayerView;
use crate::dedicated_server::session::session_step;
use crate::dedicated_server::session::SessionAction;
use crate::dedicated_server::session::SessionCheck;
use crate::dedicated_server::session::SessionEvent;
use crate::protocol::ClientMsg;
use crate::protocol::ServerMsg;
use crate::store::session_key;
use vstd::prelude::*;

verus! {

broadcast use PlayerRegistry::lemma_finite;

/// What happened on the network.
#[derive(Debug)]
pub enum GameEvent {
    Disconnected { conn: u64 },
    /// A message came by a stream, with what it says, where it can be read.
    Message { conn: u64, stream: u64, msg: Option<ClientMsg> },
    /// Somebody connected, or something else happened.
    Other,
}

/// What is to be done next.
#[derive(Debug)]
pub enum GameAction {
    /// Nothing more for this event.
    Done,
    /// Answer a player, by the stream.
    Reply { conn: u64, stream: u64, msg: ServerMsg },
    /// Do what the check of a session asks for.
    Session(SessionAction),
}

/// A join that waits for the check of a session.
#[derive(Debug)]
pub struct Joining {
    pub conn: u64,
    /// The stream that the player asked by.
    pub stream: u64,
    pub check: SessionCheck,
}

/// A server and its players.
#[derive(Debug)]
pub struct GameServer {
    pub registry: PlayerRegistry,
    /// The join whose session is being checked.
    pub joining: Option<Joining>,
}

/// Whether `action` turns the player of `conn` away, by `stream`.
pub open spec fn turns_away(action: GameAction, conn: u64, stream: u64, why: Seq<char>) -> bool {
    action matches GameAction::Reply { conn: c, stream: s, msg: ServerMsg::Error { reason } } && c
        == conn && s == stream && reason@ == why
}

/// Whether `action` welcomes the player of `conn`, by `stream`.
pub open spec fn welcomes(action: GameAction, conn: u64, stream: u64, name: Seq<char>) -> bool {
    action matches GameAction::Reply { conn: c, stream: s, msg: ServerMsg::Welcome { username } }
        && c == conn && s == stream && username@ == name
}

/// What a server does when a player wants to join: the answer goes by the stream that the
/// player asked by.
pub open spec fn join_step(
    config: ServerConfig,
    pre: GameServer,
    conn: u64,
    stream: u64,
    player_id: Seq<char>,
    post: GameServer,
    action: GameAction,
) -> bool {
    &&& post.registry@ == pre.registry@
    &&& if pre.registry@.contains_key(conn) {
        turns_away(action, conn, stream, "already joined"@) && post.joining is None
    } else if pre.registry@.dom().len() >= config.max_players {
        turns_away(action, conn, stream, "server full"@) && post.joining is None
    } else {
        &&& action matches GameAction::Session(SessionAction::Read { key })
        &&& key@ == session_key(player_id)
        &&& post.joining matches Some(joining)
        &&& joining.conn == conn
        &&& joining.stream == stream
        &&& joining.check.player_id@ == player_id
        &&& joining.check.server_id@ == config.id@
        &&& joining.check.phase is Reading
    }
}

/// What a server does when it is told `event`.
pub open spec fn game_step(
    config: ServerConfig,
    pre: GameServer,
    event: GameEvent,
    post: GameServer,
    action: GameAction,
) -> bool {
    match event {
        GameEvent::Message { conn, stream, msg: Some(ClientMsg::Join { player_id }) } => join_step(
            config,
            pre,
            conn,
            stream,
            player_id@,
            post,
            action,
        ),
        GameEvent::Message { conn, msg: Some(ClientMsg::Leave), .. } => {
            &&& action is Done
            &&& post.registry@ == pre.registry@.remove(conn)
            &&& post.joining is None
        },
        GameEvent::Disconnected { conn } => {
            &&& action is Done
            &&& post.registry@ == pre.registry@.remove(conn)
            &&& post.joining is None
        },
        _ => {
            &&& action is Done
            &&& post.registry@ == pre.registry@
            &&& post.joining is None
        },
    }
}

/// What a server does with what the check of a session asks for.
pub open spec fn game_follows(
    pre: GameServer,
    joining: Joining,
    after: SessionCheck,
    asked: SessionAction,
    post: GameServer,
    action: GameAction,
) -> bool {
    match asked {
        SessionAction::Admit { username } => {
            &&& welcomes(action, joining.conn, joining.stream, username@)
            &&& post.registry@ == pre.registry@.insert(
                joining.conn,
                PlayerView { player_id: joining.check.player_id@, username: username@ },
            )
            &&& post.joining is None
        },
        SessionAction::Refuse { reason } => {
            &&& turns_away(action, joining.conn, joining.stream, reason@)
            &&& post.registry@ == pre.registry@
            &&& post.joining is None
        },
        _ => {
            &&& action == GameAction::Session(asked)
            &&& post.registry@ == pre.registry@
            &&& post.joining == Some(Joining { check: after, ..joining })
        },
    }
}

/// What a server that checks a session does when it is told `event`.
pub open spec fn check_step(
    pre: GameServer,
    event: SessionEvent,
    post: GameServer,
    action: GameAction,
) -> bool {
    exists|after: SessionCheck, asked: SessionAction|
        #[trigger] session_step(pre.joining->0.check, event, after, asked) && game_follows(
            pre,
            pre.joining->0,
            after,
            asked,
            post,
            action,
        )
}

fn turn_away(conn: u64, stream: u64, why: &str) -> (action: GameAction)
    ensures
        turns_away(action, conn, stream, why@),
{
    GameAction::Reply { conn, stream, msg: ServerMsg::Error { reason: why.to_owned() } }
}

impl GameServer {
    /// Whether there are no more players than there is room for, and room for the one who is
    /// joining, who is not on the server yet.
    pub open spec fn wf(self, config: ServerConfig) -> bool {
        &&& self.registry@.dom().len() <= config.max_players
        &&& self.joining matches Some(joining) ==> self.registry@.dom().len() < config.max_players
            && !self.registry@.contains_key(joining.conn)
    }

    /// A server without players.
    pub fn new(config: &ServerConfig) -> (server: GameServer)
        ensures
            server.wf(*config),
            server.registry@ == Map::<u64, PlayerView>::empty(),
            server.joining is None,
    {
        GameServer { registry: PlayerRegistry::new(), joining: None }
    }

    fn join(
        &mut self,
        config: &ServerConfig,
        conn: u64,
        stream: u64,
        player_id: &str,
    ) -> (action: GameAction)
        requires
            old(self).wf(*config),
            old(self).joining is None,
        ensures
            final(self).wf(*config),
            join_step(*config, *old(self), conn, stream, player_id@, *final(self), action),
    {
        if self.registry.has(conn) {
            turn_away(conn, stream, "already joined")
        } else if self.registry.len() >= config.max_players {
            turn_away(conn, stream, "server full")
        } else {
            let (check, first) = SessionCheck::begin(player_id, config.id.as_str());
            self.joining = Some(Joining { conn, stream, check });
            GameAction::Session(first)
        }
    }

    /// Takes what happened on the network, and says what to do.
    pub fn on_event(&mut self, config: &ServerConfig, event: &GameEvent) -> (action: GameAction)
        requires
            old(self).wf(*config),
            old(self).joining is None,
        ensures
            final(self).wf(*config),
            game_step(*config, *old(self), *event, *final(self), action),
    {
        match event {
            GameEvent::Message { conn, stream, msg } => match msg {
                Some(ClientMsg::Join { player_id }) => self.join(
                    config,
                    *conn,
                    *stream,
                    player_id.as_str(),
                ),
                Some(ClientMsg::Leave) => {
                    self.registry.remove(*conn);
                    GameAction::Done
                },
                None => GameAction::Done,
            },
            GameEvent::Disconnected { conn } => {
                self.registry.remove(*conn);
                GameAction::Done
            },
            GameEvent::Other => GameAction::Done,
        }
    }

    /// Takes what came of what the check of a session asked for, and says what to do next.
    pub fn on_session(&mut self, config: &ServerConfig, event: SessionEvent) -> (action: GameAction)
        requires
            old(self).wf(*config),
            old(self).joining is Some,
        ensures
            final(self).wf(*config),
            check_step(*old(self), event, *final(self), action),
    {
        let mut joining = None;
        std::mem::swap(&mut joining, &mut self.joining);
        match joining {
            Some(joining) => {
                let conn = joining.conn;
                let stream = joining.stream;
                let mut check = joining.check;
                let asked = check.step(event);
                match asked {
                    SessionAction::Admit { username } => {
                        let player = PlayerInfo {
                            player_id: check.player_id,
                            username: username.clone(),
                        };
                        self.registry.insert(conn, player);
                        GameAction::Reply { conn, stream, msg: ServerMsg::Welcome { username } }
                    },
                    SessionAction::Refuse { reason } => turn_away(conn, stream, reason),
                    _ => {
                        self.joining = Some(Joining { conn, stream, check });
                        GameAction::Session(asked)
                    },
                }
            },
            None => GameAction::Done,
        }
    }
}

// ---- laws ----

/// One step of a server, of either kind.
pub open spec fn server_step(config: ServerConfig, pre: GameServer, post: GameServer, action: GameAction) -> bool {
    ||| pre.joining is None && exists|event: GameEvent|
        #[trigger] game_step(config, pre, event, post, action)
    ||| pre.joining is Some && exists|event: SessionEvent|
        #[trigger] check_step(pre, event, post, action)
}

/// A server never has more players than it has room for.
pub proof fn law_server_is_never_overfull(
    config: ServerConfig,
    states: Seq<GameServer>,
    actions: Seq<GameAction>,
    i: int,
)
    requires
        states.len() == actions.len(),
        states.len() > 0,
        states[0].wf(config),
        forall|k: int|
            0 <= k < states.len() - 1 ==> #[trigger] server_step(
                config,
                states[k],
                states[k + 1],
                actions[k],
            ),
        0 <= i < states.len(),
    ensures
        states[i].wf(config),
        states[i].registry@.dom().len() <= config.max_players,
    decreases i,
{
    if i > 0 {
        law_server_is_never_overfull(config, states, actions, i - 1);
        assert(server_step(config, states[i - 1], states[i - 1 + 1], actions[i - 1]));
        lemma_step_keeps_room(config, states[i - 1], states[i], actions[i - 1]);
    }
}

proof fn lemma_step_keeps_room(
    config: ServerConfig,
    pre: GameServer,
    post: GameServer,
    action: GameAction,
)
    requires
        pre.wf(config),
        server_step(config, pre, post, action),
    ensures
        post.wf(config),
{
    assert(pre.registry@.dom().finite());
    assert forall|conn: u64| #[trigger] pre.registry@.remove(conn).dom().len()
        <= pre.registry@.dom().len() by {
        assert(pre.registry@.remove(conn).dom() =~= pre.registry@.dom().remove(conn));
    }
    assert forall|conn: u64, p: PlayerView| #[trigger]
        pre.registry@.insert(conn, p).dom().len() <= pre.registry@.dom().len() + 1 by {
        assert(pre.registry@.insert(conn, p).dom() =~= pre.registry@.dom().insert(conn));
    }
}

/// A player who was welcomed is on the server, and nobody else came or went.
pub proof fn law_welcome_means_joined(
    config: ServerConfig,
    pre: GameServer,
    post: GameServer,
    action: GameAction,
    conn: u64,
    stream: u64,
    name: Seq<char>,
)
    requires
        server_step(config, pre, post, action),
        welcomes(action, conn, stream, name),
    ensures
        post.registry@.contains_key(conn),
        post.registry@[conn].username == name,
        forall|other: u64|
            other != conn ==> (#[trigger] post.registry@.contains_key(other)
                == pre.registry@.contains_key(other)),
{
}

/// A player who is turned away changes nothing about who is on the server.
pub proof fn law_turned_away_changes_nothing(
    config: ServerConfig,
    pre: GameServer,
    post: GameServer,
    action: GameAction,
    conn: u64,
    stream: u64,
    why: Seq<char>,
)
    requires
        server_step(config, pre, post, action),
        turns_away(action, conn, stream, why),
    ensures
        post.registry@ == pre.registry@,
{
}

/// What a server does is a step of it.
pub proof fn law_server_steps(
    server: &mut GameServer,
    config: ServerConfig,
    event: GameEvent,
    action: GameAction,
    pre: GameServer,
    post: GameServer,
)
    requires
        *old(server) == pre,
        *final(server) == post,
        call_ensures(GameServer::on_event, (server, &config, &event), action),
    ensures
        game_step(config, pre, event, post, action),
        post.wf(config),
{
}

/// The same, of what it does about a session.
pub proof fn law_server_checks(
    server: &mut GameServer,
    config: ServerConfig,
    event: SessionEvent,
    action: GameAction,
    pre: GameServer,
    post: GameServer,
)
    requires
        *old(server) == pre,
        *final(server) == post,
        call_ensures(GameServer::on_session, (server, &config, event), action),
    ensures
        check_step(pre, event, post, action),
        post.wf(config),
{
}

/// A server has no players at first.
pub proof fn law_server_is_empty_at_first(config: ServerConfig, server: GameServer, conn: u64)
    requires
        call_ensures(GameServer::new, (&config,), server),
    ensures
        !server.registry@.contains_key(conn),
        server.joining is None,
{
}

/// Whether the connection `conn` has the same player, or none, in both.
pub open spec fn same_player(pre: GameServer, post: GameServer, conn: u64) -> bool {
    &&& pre.registry@.contains_key(conn) == post.registry@.contains_key(conn)
    &&& pre.registry@.contains_key(conn) ==> pre.registry@[conn] == post.registry@[conn]
}

/// The connection that an event is about, where it is about one.
pub open spec fn subject(event: GameEvent) -> Option<u64> {
    match event {
        GameEvent::Disconnected { conn } => Some(conn),
        GameEvent::Message { conn, .. } => Some(conn),
        GameEvent::Other => None,
    }
}

/// What happens on one connection changes nothing about the others. After a player has left or
/// is lost, the connection has no player; nothing else that happens on the network changes who
/// is on the server.
pub proof fn law_connections_do_not_touch_each_other(
    config: ServerConfig,
    pre: GameServer,
    event: GameEvent,
    post: GameServer,
    action: GameAction,
    conn: u64,
)
    requires
        game_step(config, pre, event, post, action),
    ensures
        subject(event) != Some(conn) ==> same_player(pre, post, conn),
        event == (GameEvent::Disconnected { conn }) ==> !post.registry@.contains_key(conn),
        event matches GameEvent::Message { conn: c, msg: Some(ClientMsg::Leave), .. } ==> (c == conn
            ==> !post.registry@.contains_key(conn)),
        event matches GameEvent::Message { msg: Some(ClientMsg::Join { .. }), .. } ==> same_player(
            pre,
            post,
            conn,
        ),
        event matches GameEvent::Message { msg: None, .. } ==> same_player(pre, post, conn),
        event is Other ==> same_player(pre, post, conn),
{
}

/// The check of a session changes nothing about other connections than the one that joins, and
/// the one that joins has the player of the session, or none as before.
pub proof fn law_joining_touches_one_connection(
    pre: GameServer,
    event: SessionEvent,
    post: GameServer,
    action: GameAction,
    conn: u64,
)
    requires
        pre.joining is Some,
        check_step(pre, event, post, action),
    ensures
        conn != pre.joining->0.conn ==> same_player(pre, post, conn),
        action matches GameAction::Reply { msg: ServerMsg::Welcome { username }, .. } ==> {
            let joined = pre.joining->0;
            &&& post.registry@.contains_key(joined.conn)
            &&& post.registry@[joined.conn].username == username@
            &&& post.registry@[joined.conn].player_id == joined.check.player_id@
        },
        !(action is Reply && action->msg is Welcome) ==> same_player(pre, post, conn),
{
}

/// A player who asks to join is turned away at once exactly if the connection has a player
/// already, or the server has as many players as it has room for, each with its own reason; the
/// session is then not touched. Any other player's session is read, for this server.
pub proof fn law_who_may_ask_to_join(
    config: ServerConfig,
    pre: GameServer,
    conn: u64,
    stream: u64,
    player_id: String,
    post: GameServer,
    action: GameAction,
)
    requires
        game_step(
            config,
            pre,
            GameEvent::Message { conn, stream, msg: Some(ClientMsg::Join { player_id }) },
            post,
            action,
        ),
    ensures
        pre.registry@.contains_key(conn) ==> turns_away(action, conn, stream, "already joined"@),
        !pre.registry@.contains_key(conn) && pre.registry@.dom().len() >= config.max_players
            ==> turns_away(action, conn, stream, "server full"@),
        !pre.registry@.contains_key(conn) && pre.registry@.dom().len() < config.max_players ==> {
            &&& action matches GameAction::Session(SessionAction::Read { key })
            &&& key@ == "session:"@ + player_id@
            &&& post.joining matches Some(joining)
            &&& joining.conn == conn
            &&& joining.stream == stream
            &&& joining.check.phase is Reading
            &&& joining.check.player_id@ == player_id@
            &&& joining.check.server_id@ == config.id@
        },
        !(action is Session) ==> post.joining is None,
{
}

/// The player who joins gets one answer, by the stream that they asked by: a welcome under the
/// name in the session where the check admits them, and else the reason of the check. Until
/// then the server does what the check asks for.
pub proof fn law_joining_player_is_answered(
    pre: GameServer,
    event: SessionEvent,
    post: GameServer,
    action: GameAction,
    after: SessionCheck,
    asked: SessionAction,
)
    requires
        pre.joining is Some,
        check_step(pre, event, post, action),
        session_step(pre.joining->0.check, event, after, asked),
    ensures
        asked matches SessionAction::Admit { username } ==> welcomes(
            action,
            pre.joining->0.conn,
            pre.joining->0.stream,
            username@,
        ),
        asked matches SessionAction::Refuse { reason } ==> turns_away(
            action,
            pre.joining->0.conn,
            pre.joining->0.stream,
            reason@,
        ),
        action is Session <==> asked is Burn,
        action is Session <==> post.joining is Some,
        action matches GameAction::Session(next) ==> (next matches SessionAction::Burn { key } && key@
            == asked->Burn_key@),
        action is Session ==> {
            &&& post.joining->0.conn == pre.joining->0.conn
            &&& post.joining->0.stream == pre.joining->0.stream
            &&& session_step(
                pre.joining->0.check,
                event,
                post.joining->0.check,
                action->Session_0,
            )
        },
        !(action is Done),
{
}

/// Each welcome adds one player, each player who leaves or is lost takes one off, and nothing
/// else changes how many there are.
pub proof fn law_players_are_counted(
    config: ServerConfig,
    pre: GameServer,
    event: GameEvent,
    post: GameServer,
    action: GameAction,
)
    requires
        game_step(config, pre, event, post, action),
    ensures
        ({
            let goes = event is Disconnected || (event matches GameEvent::Message {
                msg: Some(ClientMsg::Leave),
                ..
            });
            post.registry@.dom().len() == pre.registry@.dom().len() - (if goes
                && pre.registry@.contains_key(subject(event)->0) {
                1int
            } else {
                0int
            })
        }),
{
    assert(pre.registry@.dom().finite());
    if let Some(conn) = subject(event) {
        assert(pre.registry@.remove(conn).dom() =~= pre.registry@.dom().remove(conn));
    }
}

/// The same, of a player who joins.
pub proof fn law_welcome_adds_one_player(
    config: ServerConfig,
    pre: GameServer,
    event: SessionEvent,
    post: GameServer,
    action: GameAction,
)
    requires
        pre.wf(config),
        pre.joining is Some,
        check_step(pre, event, post, action),
    ensures
        post.registry@.dom().len() == pre.registry@.dom().len() + (if action is Reply && action->msg
            is Welcome {
            1int
        } else {
            0int
        }),
{
    assert(pre.registry@.dom().finite());
    let conn = pre.joining->0.conn;
    assert forall|p: PlayerView| #[trigger]
        pre.registry@.insert(conn, p).dom().len() == pre.registry@.dom().len() + 1 by {
        assert(pre.registry@.insert(conn, p).dom() =~= pre.registry@.dom().insert(conn));
    }
}

/// An answer goes to the connection and by the stream that are named, and carries the reason or
/// the name.
pub proof fn law_answers_carry_what_they_say(
    action: GameAction,
    conn: u64,
    stream: u64,
    text: Seq<char>,
)
    ensures
        turns_away(action, conn, stream, text) <==> {
            &&& action is Reply
            &&& action->conn == conn
            &&& action->stream == stream
            &&& action->msg is Error
            &&& action->msg->reason@ == text
        },
        welcomes(action, conn, stream, text) <==> {
            &&& action is Reply
            &&& action->conn == conn
            &&& action->stream == stream
            &&& action->msg is Welcome
            &&& action->msg->username@ == text
        },
{
}

} // verus!
