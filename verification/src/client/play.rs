//! A player on a server. Connections and streams are known by number.

use crate::client::commands::ClientCmd;
use crate::client::commands::ClientEvent;
use crate::client::commands::EventView;
use crate::protocol::ClientMsg;
use crate::protocol::LoginResponse;
use crate::protocol::ServerMsg;
use crate::text::join2;
use vstd::prelude::*;

verus! {

/// What happens to a player.
#[derive(Debug)]
pub enum PlayEvent {
    /// The address of the server cannot be found.
    Unresolved,
    /// The server cannot be reached, and why.
    ConnectFailed(String),
    /// The player is told to go.
    Command(ClientCmd),
    /// The network fails, and why.
    PollFailed(String),
    Connected { conn: u64 },
    /// The stream that was asked for cannot be created, and why.
    CreateStreamFailed(String),
    StreamCreated { stream: u64, reliable: bool },
    /// A message came: what it says, or why it cannot be read.
    Message(Result<ServerMsg, String>),
    Disconnected,
    Other,
}

/// What the player does.
#[derive(Debug)]
pub enum PlayAction {
    /// Wait for what happens next.
    Wait,
    /// Ask for a reliable stream on the connection.
    CreateStream { conn: u64 },
    /// Send a message.
    Send { conn: u64, stream: u64, msg: ClientMsg },
    /// Report this, and play on.
    Report(ClientEvent),
    /// Report this, and go.
    Go(ClientEvent),
    /// Send the word that the player goes, sleep for so many milliseconds, report this, and
    /// go.
    SayAndGo { conn: u64, stream: u64, msg: ClientMsg, sleep_ms: u64, event: ClientEvent },
    /// Nothing: the player has gone.
    Over,
}

/// A player on the way to a server, or on it.
#[derive(Debug)]
pub struct Player {
    pub id: usize,
    pub username: String,
    pub login: LoginResponse,
    pub conn: Option<u64>,
    pub stream: Option<u64>,
    /// Whether the server has welcomed the player.
    pub joined: bool,
    /// Whether the player has gone.
    pub gone: bool,
}

/// Whether `action` goes with an error.
pub open spec fn goes_with_error(action: PlayAction, id: usize, why: Seq<char>) -> bool {
    action matches PlayAction::Go(event) && event@ == (EventView::Errored { id, err: why })
}

/// What a player does when told to go.
pub open spec fn command_step(pre: Player, cmd: ClientCmd, action: PlayAction) -> bool {
    match (cmd, pre.conn, pre.stream) {
        (ClientCmd::Leave, Some(c), Some(s)) if pre.joined => {
            &&& action matches PlayAction::SayAndGo { conn, stream, msg, sleep_ms, event }
            &&& conn == c
            &&& stream == s
            &&& msg is Leave
            &&& sleep_ms == 300
            &&& event@ == EventView::LeftGracefully { id: pre.id }
        },
        (ClientCmd::Leave, _, _) => {
            &&& action matches PlayAction::Go(event)
            &&& event@ == EventView::LeftGracefully { id: pre.id }
        },
        (ClientCmd::Crash, _, _) => {
            &&& action matches PlayAction::Go(event)
            &&& event@ == EventView::Crashed { id: pre.id }
        },
    }
}

/// What a player who has not gone does when `event` happens.
pub open spec fn playing_step(
    pre: Player,
    event: PlayEvent,
    post: Player,
    action: PlayAction,
) -> bool {
    let gone = Player { gone: true, ..pre };
    match event {
        PlayEvent::Unresolved => {
            &&& post == gone
            &&& goes_with_error(action, pre.id, "could not resolve "@ + pre.login.server.ip@)
        },
        PlayEvent::ConnectFailed(e) => {
            &&& post == gone
            &&& goes_with_error(action, pre.id, "QUIC connect: "@ + e@)
        },
        PlayEvent::Command(cmd) => post == gone && command_step(pre, cmd, action),
        PlayEvent::PollFailed(e) => post == gone && goes_with_error(
            action,
            pre.id,
            "poll: "@ + e@,
        ),
        PlayEvent::Connected { conn } => {
            &&& post == Player { conn: Some(conn), ..pre }
            &&& action == PlayAction::CreateStream { conn }
        },
        PlayEvent::CreateStreamFailed(e) => {
            &&& post == gone
            &&& goes_with_error(action, pre.id, "create_stream: "@ + e@)
        },
        PlayEvent::StreamCreated { stream, reliable } => if reliable {
            &&& post == Player { stream: Some(stream), ..pre }
            &&& match pre.conn {
                Some(c) => {
                    &&& action matches PlayAction::Send { conn, stream: s, msg }
                    &&& conn == c
                    &&& s == stream
                    &&& msg matches ClientMsg::Join { player_id }
                    &&& player_id@ == pre.login.player_id@
                },
                None => action is Wait,
            }
        } else {
            post == pre && action is Wait
        },
        PlayEvent::Message(Ok(ServerMsg::Welcome { .. })) => {
            &&& post == Player { joined: true, ..pre }
            &&& action matches PlayAction::Report(event)
            &&& event@ == EventView::Joined {
                id: pre.id,
                username: pre.username@,
                server_ip: pre.login.server.ip@,
                server_port: pre.login.server.port,
            }
        },
        PlayEvent::Message(Ok(ServerMsg::Error { reason })) => {
            &&& post == gone
            &&& goes_with_error(action, pre.id, "DS rejected JOIN: "@ + reason@)
        },
        PlayEvent::Message(Err(e)) => {
            &&& post == gone
            &&& goes_with_error(action, pre.id, "bad message: "@ + e@)
        },
        PlayEvent::Disconnected => post == gone && goes_with_error(action, pre.id, "DS dropped us"@),
        PlayEvent::Other => post == pre && action is Wait,
    }
}

/// What a player does when `event` happens: nothing, once the player has gone.
pub open spec fn play_step(pre: Player, event: PlayEvent, post: Player, action: PlayAction) -> bool {
    if pre.gone {
        post == pre && action is Over
    } else {
        playing_step(pre, event, post, action)
    }
}

impl Player {
    /// A player with a place, on the way to the server.
    pub fn new(id: usize, username: &str, login: LoginResponse) -> (player: Player)
        ensures
            player.id == id,
            player.username@ == username@,
            player.login == login,
            player.conn is None,
            player.stream is None,
            !player.joined,
            !player.gone,
    {
        Player {
            id,
            username: username.to_owned(),
            login,
            conn: None,
            stream: None,
            joined: false,
            gone: false,
        }
    }

    fn go_with_error(&mut self, front: &str, why: &str) -> (action: PlayAction)
        ensures
            *final(self) == (Player { gone: true, ..*old(self) }),
            goes_with_error(action, old(self).id, front@ + why@),
    {
        self.gone = true;
        PlayAction::Go(ClientEvent::Errored { id: self.id, err: join2(front, why) })
    }

    fn on_command(&mut self, cmd: ClientCmd) -> (action: PlayAction)
        ensures
            *final(self) == (Player { gone: true, ..*old(self) }),
            command_step(*old(self), cmd, action),
    {
        self.gone = true;
        match cmd {
            ClientCmd::Leave => {
                let event = ClientEvent::LeftGracefully { id: self.id };
                if self.joined {
                    if let (Some(conn), Some(stream)) = (self.conn, self.stream) {
                        return PlayAction::SayAndGo {
                            conn,
                            stream,
                            msg: ClientMsg::Leave,
                            sleep_ms: 300,
                            event,
                        };
                    }
                }
                PlayAction::Go(event)
            },
            ClientCmd::Crash => PlayAction::Go(ClientEvent::Crashed { id: self.id }),
        }
    }

    /// Takes what happened, and says what to do. A player who has gone does nothing more.
    pub fn step(&mut self, event: PlayEvent) -> (action: PlayAction)
        ensures
            play_step(*old(self), event, *final(self), action),
    {
        if self.gone {
            return PlayAction::Over;
        }
        match event {
            PlayEvent::Unresolved => {
                let ip = self.login.server.ip.clone();
                self.go_with_error("could not resolve ", ip.as_str())
            },
            PlayEvent::ConnectFailed(e) => self.go_with_error("QUIC connect: ", e.as_str()),
            PlayEvent::Command(cmd) => self.on_command(cmd),
            PlayEvent::PollFailed(e) => self.go_with_error("poll: ", e.as_str()),
            PlayEvent::Connected { conn } => {
                self.conn = Some(conn);
                PlayAction::CreateStream { conn }
            },
            PlayEvent::CreateStreamFailed(e) => self.go_with_error("create_stream: ", e.as_str()),
            PlayEvent::StreamCreated { stream, reliable } => {
                if !reliable {
                    return PlayAction::Wait;
                }
                self.stream = Some(stream);
                match self.conn {
                    Some(conn) => PlayAction::Send {
                        conn,
                        stream,
                        msg: ClientMsg::Join { player_id: self.login.player_id.clone() },
                    },
                    None => PlayAction::Wait,
                }
            },
            PlayEvent::Message(Ok(ServerMsg::Welcome { .. })) => {
                self.joined = true;
                PlayAction::Report(
                    ClientEvent::Joined {
                        id: self.id,
                        username: self.username.clone(),
                        server_ip: self.login.server.ip.clone(),
                        server_port: self.login.server.port,
                    },
                )
            },
            PlayEvent::Message(Ok(ServerMsg::Error { reason })) => self.go_with_error(
                "DS rejected JOIN: ",
                reason.as_str(),
            ),
            PlayEvent::Message(Err(e)) => self.go_with_error("bad message: ", e.as_str()),
            PlayEvent::Disconnected => {
                self.gone = true;
                PlayAction::Go(
                    ClientEvent::Errored { id: self.id, err: "DS dropped us".to_owned() },
                )
            },
            PlayEvent::Other => PlayAction::Wait,
        }
    }
}

/// A player says good-bye to the server only after it has welcomed the player, and only when
/// told to leave.
pub proof fn law_only_joined_players_say_goodbye(
    pre: Player,
    event: PlayEvent,
    post: Player,
    action: PlayAction,
)
    requires
        play_step(pre, event, post, action),
        action is SayAndGo,
    ensures
        pre.joined,
        event == PlayEvent::Command(ClientCmd::Leave),
{
}

/// Once welcomed, a player counts as joined from then on.
pub proof fn law_joined_stays(pre: Player, event: PlayEvent, post: Player, action: PlayAction)
    requires
        play_step(pre, event, post, action),
    ensures
        pre.joined ==> post.joined,
        !pre.joined && post.joined ==> (event matches PlayEvent::Message(Ok(msg)) && msg is Welcome),
{
}

// ---- whole runs ----

/// What is reported with `action`, where something is.
pub open spec fn report_of(action: PlayAction) -> Option<EventView> {
    match action {
        PlayAction::Report(event) => Some(event@),
        PlayAction::Go(event) => Some(event@),
        PlayAction::SayAndGo { event, .. } => Some(event@),
        _ => None,
    }
}

/// Whether the player goes with `action`.
pub open spec fn goes(action: PlayAction) -> bool {
    action is Go || action is SayAndGo
}

/// Whether `event` is the word that the server welcomes the player.
pub open spec fn is_welcome(event: PlayEvent) -> bool {
    event matches PlayEvent::Message(Ok(msg)) && msg is Welcome
}

/// Whether `event` makes a player go.
pub open spec fn ends_play(event: PlayEvent) -> bool {
    !(event is Connected || event is StreamCreated || event is Other || is_welcome(event))
}

/// The report that the player `player` has joined.
pub open spec fn joined_report(player: Player) -> EventView {
    EventView::Joined {
        id: player.id,
        username: player.username@,
        server_ip: player.login.server.ip@,
        server_port: player.login.server.port,
    }
}

/// Whether `report` is the last word of the player number `id`: left, crashed, or an error.
pub open spec fn is_last_word(report: EventView, id: usize) -> bool {
    ||| report == EventView::LeftGracefully { id }
    ||| report == EventView::Crashed { id }
    ||| report matches EventView::Errored { id: i, .. } && i == id
}

/// A player as far as they have come: their states, what happened, and what they did about
/// it.
pub struct PlayRun {
    pub states: Seq<Player>,
    pub events: Seq<PlayEvent>,
    pub actions: Seq<PlayAction>,
}

impl PlayRun {
    /// Whether a player can come that way who has not gone at first.
    pub open spec fn valid(self) -> bool {
        &&& self.states.len() == self.events.len() + 1
        &&& self.actions.len() == self.events.len()
        &&& !self.states[0].gone
        &&& forall|i: int| 0 <= i < self.events.len() ==> #[trigger] self.step_at(i)
    }

    /// Whether the step number `i` is one that a player can do.
    pub open spec fn step_at(self, i: int) -> bool {
        play_step(self.states[i], self.events[i], self.states[i + 1], self.actions[i])
    }

    /// What is reported in the first `n` steps, in order.
    pub open spec fn reports(self, n: int) -> Seq<EventView>
        decreases n,
    {
        if n <= 0 {
            Seq::empty()
        } else {
            match report_of(self.actions[n - 1]) {
                Some(report) => self.reports(n - 1).push(report),
                None => self.reports(n - 1),
            }
        }
    }

    /// How often the server welcomes the player in the first `n` steps, before the player
    /// has gone.
    pub open spec fn welcomes(self, n: int) -> nat
        decreases n,
    {
        if n <= 0 {
            0
        } else if is_welcome(self.events[n - 1]) && !self.states[n - 1].gone {
            self.welcomes(n - 1) + 1
        } else {
            self.welcomes(n - 1)
        }
    }
}

/// As long as a player has not gone, all that is reported is that they have joined, once for
/// each welcome. The first event that makes the player go leads to one last word: that the
/// player has left, crashed, or met an error. Nothing is reported after it.
pub proof fn law_player_has_one_last_word(run: PlayRun, n: int)
    requires
        run.valid(),
        0 <= n <= run.events.len(),
    ensures
        ({
            let reports = run.reports(n);
            let welcomes = run.welcomes(n) as int;
            let first = run.states[0];
            &&& run.states[n].gone <==> exists|i: int|
                0 <= i < n && ends_play(#[trigger] run.events[i])
            &&& forall|k: int|
                0 <= k < welcomes ==> #[trigger] reports[k] == joined_report(first)
            &&& if run.states[n].gone {
                reports.len() == welcomes + 1 && is_last_word(reports[welcomes], first.id)
            } else {
                reports.len() == welcomes
            }
        }),
        run.states[n].id == run.states[0].id,
        run.states[n].username == run.states[0].username,
        run.states[n].login == run.states[0].login,
    decreases n,
{
    if n > 0 {
        law_player_has_one_last_word(run, n - 1);
        assert(run.step_at(n - 1));
        if run.states[n - 1].gone {
            let i = choose|i: int| 0 <= i < n - 1 && ends_play(#[trigger] run.events[i]);
            assert(0 <= i < n && ends_play(run.events[i]));
        } else {
            assert(run.states[n].gone <==> ends_play(run.events[n - 1]));
            assert(forall|i: int|
                0 <= i < n && i != n - 1 ==> !ends_play(#[trigger] run.events[i]));
        }
    }
}

/// A player goes with one action at most: before it the player has not gone, and after it
/// the player does nothing more.
pub proof fn law_player_goes_once(run: PlayRun, i: int, j: int)
    requires
        run.valid(),
        0 <= i < j < run.events.len(),
        goes(run.actions[i]),
    ensures
        !run.states[i].gone,
        run.states[j].gone,
        run.actions[j] is Over,
    decreases j,
{
    assert(run.step_at(i));
    assert(run.step_at(j));
    if j > i + 1 {
        law_player_goes_once(run, i, j - 1);
        assert(run.step_at(j - 1));
    }
}

// ---- laws of single steps ----

/// What a player does is a step of theirs.
pub proof fn law_player_steps(
    player: &mut Player,
    event: PlayEvent,
    action: PlayAction,
    pre: Player,
    post: Player,
)
    requires
        *old(player) == pre,
        *final(player) == post,
        call_ensures(Player::step, (player, event), action),
    ensures
        play_step(pre, event, post, action),
{
}

/// A player is on the way at first, with the place that was given.
pub proof fn law_player_begins(id: usize, username: &str, login: LoginResponse, player: Player)
    requires
        call_ensures(Player::new, (id, username, login), player),
    ensures
        player.id == id,
        player.username@ == username@,
        player.login == login,
        player.conn is None && player.stream is None,
        !player.joined && !player.gone,
{
}

/// A player asks for a reliable stream on a connection exactly when it stands, and asks to join
/// with the identifier that was given, by that stream, exactly when it is there. What else is
/// created is not used.
pub proof fn law_player_asks_to_join(pre: Player, event: PlayEvent, post: Player, action: PlayAction)
    requires
        !pre.gone,
        play_step(pre, event, post, action),
    ensures
        action is CreateStream <==> event is Connected,
        event matches PlayEvent::Connected { conn } ==> action == (PlayAction::CreateStream { conn })
            && post.conn == Some(conn),
        !(event is Connected) ==> post.conn == pre.conn,
        action is Send <==> (event matches PlayEvent::StreamCreated { reliable, .. } && reliable
            && pre.conn is Some),
        action matches PlayAction::Send { conn, stream, msg } ==> {
            &&& pre.conn == Some(conn)
            &&& event->StreamCreated_stream == stream
            &&& post.stream == Some(stream)
            &&& msg matches ClientMsg::Join { player_id }
            &&& player_id@ == pre.login.player_id@
        },
        !(event matches PlayEvent::StreamCreated { reliable, .. } && reliable) ==> post.stream
            == pre.stream,
        post.joined <==> pre.joined || is_welcome(event),
{
}

/// A player who is told to leave leaves, with a word to the server where they have joined; one
/// who is told to crash just goes. Each way to fail is reported with its reason.
pub proof fn law_player_goes_for_a_reason(
    pre: Player,
    event: PlayEvent,
    post: Player,
    action: PlayAction,
)
    requires
        !pre.gone,
        play_step(pre, event, post, action),
    ensures
        goes(action) <==> ends_play(event),
        goes(action) <==> post.gone,
        action is SayAndGo <==> event == PlayEvent::Command(ClientCmd::Leave) && pre.joined
            && pre.conn is Some && pre.stream is Some,
        action matches PlayAction::SayAndGo { conn, stream, msg, sleep_ms, .. } ==> pre.conn == Some(
            conn,
        ) && pre.stream == Some(stream) && msg is Leave && sleep_ms == 300,
        goes(action) ==> report_of(action)->0 == match event {
            PlayEvent::Command(ClientCmd::Leave) => EventView::LeftGracefully { id: pre.id },
            PlayEvent::Command(ClientCmd::Crash) => EventView::Crashed { id: pre.id },
            PlayEvent::Unresolved => EventView::Errored {
                id: pre.id,
                err: "could not resolve "@ + pre.login.server.ip@,
            },
            PlayEvent::ConnectFailed(e) => EventView::Errored {
                id: pre.id,
                err: "QUIC connect: "@ + e@,
            },
            PlayEvent::PollFailed(e) => EventView::Errored { id: pre.id, err: "poll: "@ + e@ },
            PlayEvent::CreateStreamFailed(e) => EventView::Errored {
                id: pre.id,
                err: "create_stream: "@ + e@,
            },
            PlayEvent::Message(Ok(ServerMsg::Error { reason })) => EventView::Errored {
                id: pre.id,
                err: "DS rejected JOIN: "@ + reason@,
            },
            PlayEvent::Message(Err(e)) => EventView::Errored {
                id: pre.id,
                err: "bad message: "@ + e@,
            },
            _ => EventView::Errored { id: pre.id, err: "DS dropped us"@ },
        },
{
}

/// That a player has joined is reported with their number, their name and their server.
pub proof fn law_welcome_is_reported(pre: Player, event: PlayEvent, post: Player, action: PlayAction)
    requires
        !pre.gone,
        play_step(pre, event, post, action),
    ensures
        action is Report <==> is_welcome(event),
        action matches PlayAction::Report(report) ==> report@ == (EventView::Joined {
            id: pre.id,
            username: pre.username@,
            server_ip: pre.login.server.ip@,
            server_port: pre.login.server.port,
        }),
{
}

} // verus!
