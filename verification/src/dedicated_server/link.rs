//! The link to the orchestrator, and the heartbeats on it. Connections and streams are known
//! by number.

use crate::dedicated_server::config::ServerConfig;
use crate::protocol::Heartbeat;
use vstd::prelude::*;

verus! {

/// The state of the link.
#[derive(Debug, Clone, Copy, PartialEq, Eq, Structural)]
pub struct OrchLink {
    pub conn: Option<u64>,
    pub unreliable_stream: Option<u64>,
}

/// What happened on the link.
#[derive(Debug, Clone, Copy)]
pub enum LinkEvent {
    Connected { conn: u64 },
    StreamCreated { stream: u64, reliable: bool },
    Disconnected,
    Other,
}

/// What a link that was `pre` is after `event`.
pub open spec fn link_after(pre: OrchLink, event: LinkEvent) -> OrchLink {
    match event {
        LinkEvent::Connected { conn } => OrchLink { conn: Some(conn), ..pre },
        LinkEvent::StreamCreated { stream, reliable } => if reliable {
            pre
        } else {
            OrchLink { unreliable_stream: Some(stream), ..pre }
        },
        LinkEvent::Disconnected => OrchLink { conn: None, unreliable_stream: None },
        LinkEvent::Other => pre,
    }
}

impl OrchLink {
    /// A link that does not stand.
    pub fn new() -> (link: OrchLink)
        ensures
            link == (OrchLink { conn: None, unreliable_stream: None }),
    {
        OrchLink { conn: None, unreliable_stream: None }
    }

    /// Takes what happened on the link. Where a connection is given, an unreliable stream is
    /// to be created on it.
    pub fn on_event(&mut self, event: LinkEvent) -> (create_stream_on: Option<u64>)
        ensures
            *final(self) == link_after(*old(self), event),
            create_stream_on == (match event {
                LinkEvent::Connected { conn } => Some(conn),
                _ => None,
            }),
    {
        match event {
            LinkEvent::Connected { conn } => {
                self.conn = Some(conn);
                Some(conn)
            },
            LinkEvent::StreamCreated { stream, reliable } => {
                if !reliable {
                    self.unreliable_stream = Some(stream);
                }
                None
            },
            LinkEvent::Disconnected => {
                self.conn = None;
                self.unreliable_stream = None;
                None
            },
            LinkEvent::Other => None,
        }
    }
}

/// How many seconds pass from one heartbeat to the next.
pub const HEARTBEAT_PERIOD_SECS: u64 = 5;

/// A heartbeat, and where to send it.
#[derive(Debug)]
pub struct Beat {
    pub conn: u64,
    pub stream: u64,
    pub heartbeat: Heartbeat,
}

/// Whether `hb` is the heartbeat of the server `config` with so many players.
pub open spec fn is_heartbeat_of(config: ServerConfig, player_count: usize, hb: Heartbeat) -> bool {
    &&& hb.id@ == config.id@
    &&& hb.ip@ == config.advertise_host@
    &&& hb.port == config.port
    &&& hb.zone@ == config.zone@
    &&& hb.player_count == player_count
    &&& hb.max_players == config.max_players
}

/// The heartbeat of a server with so many players, where there is a stream to send it on.
pub fn send_heartbeat(config: &ServerConfig, link: &OrchLink, player_count: usize) -> (beat: Option<
    Beat,
>)
    ensures
        match (link.conn, link.unreliable_stream) {
            (Some(conn), Some(stream)) => {
                &&& beat matches Some(beat)
                &&& beat.conn == conn
                &&& beat.stream == stream
                &&& is_heartbeat_of(*config, player_count, beat.heartbeat)
            },
            _ => beat is None,
        },
{
    match (link.conn, link.unreliable_stream) {
        (Some(conn), Some(stream)) => Some(
            Beat {
                conn,
                stream,
                heartbeat: Heartbeat {
                    id: config.id.clone(),
                    ip: config.advertise_host.clone(),
                    port: config.port,
                    zone: config.zone.clone(),
                    player_count,
                    max_players: config.max_players,
                },
            },
        ),
        _ => None,
    }
}

// ---- laws ----

/// The link keeps the connection and the unreliable stream that it was told of last, and loses
/// both with the connection. An unreliable stream is asked for on each new connection, and on no
/// other occasion. A reliable stream changes nothing.
pub proof fn law_link_follows_the_network(
    link: &mut OrchLink,
    event: LinkEvent,
    create: Option<u64>,
    pre: OrchLink,
    post: OrchLink,
)
    requires
        *old(link) == pre,
        *final(link) == post,
        call_ensures(OrchLink::on_event, (link, event), create),
    ensures
        create == match event {
            LinkEvent::Connected { conn } => Some(conn),
            _ => None,
        },
        event matches LinkEvent::Connected { conn } ==> post.conn == Some(conn)
            && post.unreliable_stream == pre.unreliable_stream,
        event matches LinkEvent::StreamCreated { stream, reliable } ==> post.conn == pre.conn
            && post.unreliable_stream == if reliable {
            pre.unreliable_stream
        } else {
            Some(stream)
        },
        event is Disconnected ==> post.conn is None && post.unreliable_stream is None,
        event is Other ==> post == pre,
{
}

/// A heartbeat is sent exactly if there are a connection and an unreliable stream, and by those.
/// It says who the server is, where it is reached, and how many players it has and has room for.
pub proof fn law_heartbeat_tells_the_load(
    config: ServerConfig,
    link: OrchLink,
    player_count: usize,
    beat: Option<Beat>,
)
    requires
        call_ensures(send_heartbeat, (&config, &link, player_count), beat),
    ensures
        beat is Some <==> link.conn is Some && link.unreliable_stream is Some,
        beat matches Some(b) ==> {
            &&& link.conn == Some(b.conn)
            &&& link.unreliable_stream == Some(b.stream)
            &&& b.heartbeat.id@ == config.id@
            &&& b.heartbeat.ip@ == config.advertise_host@
            &&& b.heartbeat.port == config.port
            &&& b.heartbeat.zone@ == config.zone@
            &&& b.heartbeat.player_count == player_count
            &&& b.heartbeat.max_players == config.max_players
        },
{
}

/// A link has neither connection nor stream at first.
pub proof fn law_link_is_down_at_first(link: OrchLink)
    requires
        call_ensures(OrchLink::new, (), link),
    ensures
        link.conn is None,
        link.unreliable_stream is None,
{
}

} // verus!
