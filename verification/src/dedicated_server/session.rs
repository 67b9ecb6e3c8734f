//! Checking the session of a player who wants to join: it is read, burned, and only then
//! looked at, so that it is good for one join.

use crate::gatekeeper::allocation::is_session;
use crate::gatekeeper::sessions::session_write;
use crate::store::field;
use crate::store::lemma_last_field_wins;
use crate::store::make_session_key;
use crate::store::session_key;
use crate::store::FieldMap;
use crate::store::HashWriteView;
use crate::store::TextMap;
use crate::text::same_text;
use vstd::prelude::*;

verus! {

/// What is to be done next.
#[derive(Debug)]
pub enum SessionAction {
    /// Read the hash under the key.
    Read { key: String },
    /// Delete the key.
    Burn { key: String },
    /// The session is good, for a player of this name.
    Admit { username: String },
    /// The session is not good, and why.
    Refuse { reason: &'static str },
}

/// What came of it.
#[derive(Debug)]
pub enum SessionEvent {
    /// The hash; an empty one where there is none.
    Read(TextMap),
    /// How many keys were deleted.
    Burned(i64),
    /// The store failed.
    Failed,
}

/// What a check is waiting for.
#[derive(Debug)]
pub enum SessionPhase {
    Reading,
    Burning { session: TextMap },
    Over,
}

/// The check of one session.
#[derive(Debug)]
pub struct SessionCheck {
    pub player_id: String,
    pub server_id: String,
    pub phase: SessionPhase,
}

/// What a session that was burned in time says for the server `server_id`: the name of the
/// player, or why it is not good.
pub open spec fn session_verdict(session: FieldMap, server_id: Seq<char>) -> Result<
    Seq<char>,
    Seq<char>,
> {
    if field(session, "server_id"@) != Some(server_id) {
        Err("token bound to different server"@)
    } else {
        match field(session, "username"@) {
            Some(username) => Ok(username),
            None => Err("malformed session"@),
        }
    }
}

/// Whether `action` is the one that `verdict` asks for.
pub open spec fn follows_verdict(
    verdict: Result<Seq<char>, Seq<char>>,
    action: SessionAction,
) -> bool {
    match verdict {
        Ok(name) => action matches SessionAction::Admit { username } && username@ == name,
        Err(why) => action matches SessionAction::Refuse { reason } && reason@ == why,
    }
}

/// What a check that is at `pre` does when it is told `event`.
pub open spec fn session_step(
    pre: SessionCheck,
    event: SessionEvent,
    post: SessionCheck,
    action: SessionAction,
) -> bool {
    let over = SessionCheck { phase: SessionPhase::Over, ..pre };
    match (pre.phase, event) {
        (SessionPhase::Reading, SessionEvent::Read(session)) => if session@ == FieldMap::empty() {
            &&& follows_verdict(Err("invalid or expired session"@), action)
            &&& post == over
        } else {
            &&& action matches SessionAction::Burn { key }
            &&& key@ == session_key(pre.player_id@)
            &&& post == SessionCheck { phase: SessionPhase::Burning { session }, ..pre }
        },
        (SessionPhase::Burning { session }, SessionEvent::Burned(deleted)) => {
            &&& follows_verdict(
                if deleted == 0 {
                    Err("token already used"@)
                } else {
                    session_verdict(session@, pre.server_id@)
                },
                action,
            )
            &&& post == over
        },
        (_, _) => follows_verdict(Err("redis unavailable"@), action) && post == over,
    }
}

impl SessionCheck {
    /// Begins the check of the session of `player_id`, who wants to join `server_id`.
    pub fn begin(player_id: &str, server_id: &str) -> (begun: (SessionCheck, SessionAction))
        ensures
            begun.0.player_id@ == player_id@,
            begun.0.server_id@ == server_id@,
            begun.0.phase is Reading,
            begun.1 matches SessionAction::Read { key } && key@ == session_key(player_id@),
    {
        let check = SessionCheck {
            player_id: player_id.to_owned(),
            server_id: server_id.to_owned(),
            phase: SessionPhase::Reading,
        };
        (check, SessionAction::Read { key: make_session_key(player_id) })
    }

    /// Takes what came of the last action, and says what to do next. An event that does not
    /// answer that action counts as a failure of the store.
    pub fn step(&mut self, event: SessionEvent) -> (action: SessionAction)
        ensures
            session_step(*old(self), event, *final(self), action),
    {
        let mut phase = SessionPhase::Over;
        std::mem::swap(&mut phase, &mut self.phase);
        match (phase, event) {
            (SessionPhase::Reading, SessionEvent::Read(session)) => {
                if session.is_empty() {
                    SessionAction::Refuse { reason: "invalid or expired session" }
                } else {
                    self.phase = SessionPhase::Burning { session };
                    SessionAction::Burn { key: make_session_key(self.player_id.as_str()) }
                }
            },
            (SessionPhase::Burning { session }, SessionEvent::Burned(deleted)) => {
                if deleted == 0 {
                    return SessionAction::Refuse { reason: "token already used" };
                }
                let bound_here = match session.get("server_id") {
                    Some(id) => same_text(id.as_str(), self.server_id.as_str()),
                    None => false,
                };
                if !bound_here {
                    return SessionAction::Refuse { reason: "token bound to different server" };
                }
                match session.get("username") {
                    Some(username) => SessionAction::Admit { username },
                    None => SessionAction::Refuse { reason: "malformed session" },
                }
            },
            (_, _) => SessionAction::Refuse { reason: "redis unavailable" },
        }
    }
}

// ---- laws ----

/// A session that the gatekeeper wrote is good on the server that it was written for, under
/// the name that it was written with, and on no other server.
pub proof fn law_session_is_good_where_it_was_issued(
    player_id: Seq<char>,
    username: Seq<char>,
    issued_for: Seq<char>,
    now: i64,
    ttl: usize,
    before: FieldMap,
    server_id: Seq<char>,
)
    ensures
        ({
            let session = session_write(player_id, username, issued_for, now, ttl).applied_to(
                before,
            );
            session_verdict(session, server_id) == (if server_id == issued_for {
                Ok::<Seq<char>, Seq<char>>(username)
            } else {
                Err("token bound to different server"@)
            })
        }),
{
    reveal_strlit("username");
    reveal_strlit("server_id");
    reveal_strlit("issued_at");
    assert("username"@[0] == 'u');
    assert("server_id"@[0] == 's');
    assert("issued_at"@[0] == 'i');
    let fields = session_write(player_id, username, issued_for, now, ttl).fields;
    lemma_last_field_wins(before, fields, 0);
    lemma_last_field_wins(before, fields, 1);
}

/// A player is admitted only when the session was there and this check was the one that
/// deleted it.
pub proof fn law_admission_burns_session(
    pre: SessionCheck,
    event: SessionEvent,
    post: SessionCheck,
    action: SessionAction,
)
    requires
        session_step(pre, event, post, action),
        action is Admit,
    ensures
        pre.phase is Burning,
        event matches SessionEvent::Burned(deleted) && deleted != 0,
{
}

/// A session that is gone, as it is after it was burned or has expired, admits nobody.
pub proof fn law_burned_session_is_refused(
    pre: SessionCheck,
    event: SessionEvent,
    post: SessionCheck,
    action: SessionAction,
)
    requires
        session_step(pre, event, post, action),
        pre.phase is Reading,
        event matches SessionEvent::Read(session) && session@ == FieldMap::empty(),
    ensures
        post.phase is Over,
        action matches SessionAction::Refuse { reason } && reason@
            == "invalid or expired session"@,
{
}

/// A player who was given a place on a server, and comes to it while the session is there,
/// is admitted under the name that the player logged in with.
pub proof fn law_granted_player_is_admitted(
    write: HashWriteView,
    player_id: Seq<char>,
    username: Seq<char>,
    server_id: Seq<char>,
    ttl: usize,
    check: SessionCheck,
    session: TextMap,
    read: SessionCheck,
    first: SessionAction,
    deleted: i64,
    over: SessionCheck,
    last: SessionAction,
)
    requires
        is_session(write, player_id, username, server_id, ttl),
        check.phase is Reading,
        check.player_id@ == player_id,
        check.server_id@ == server_id,
        session@ == write.applied_to(FieldMap::empty()),
        session_step(check, SessionEvent::Read(session), read, first),
        deleted != 0,
        session_step(read, SessionEvent::Burned(deleted), over, last),
    ensures
        write.key == session_key(player_id),
        first matches SessionAction::Burn { key } && key@ == write.key,
        last matches SessionAction::Admit { username: name } && name@ == username,
{
    let now = choose|now: i64|
        write == #[trigger] session_write(player_id, username, server_id, now, ttl);
    law_session_is_good_where_it_was_issued(
        player_id,
        username,
        server_id,
        now,
        ttl,
        FieldMap::empty(),
        server_id,
    );
    if session@ == FieldMap::empty() {
        assert(field(session@, "server_id"@) is None);
    }
}

/// Of two checks of one session at most one admits a player, as the store deletes the
/// session for one of them at most.
pub proof fn law_session_admits_once(
    one: SessionCheck,
    one_deleted: i64,
    one_over: SessionCheck,
    one_action: SessionAction,
    other: SessionCheck,
    other_deleted: i64,
    other_over: SessionCheck,
    other_action: SessionAction,
)
    requires
        session_step(one, SessionEvent::Burned(one_deleted), one_over, one_action),
        session_step(other, SessionEvent::Burned(other_deleted), other_over, other_action),
        one_deleted == 0 || other_deleted == 0,
    ensures
        !(one_action is Admit && other_action is Admit),
{
}

/// What a check says after its beginning is a step of it.
pub proof fn law_session_check_steps(
    check: &mut SessionCheck,
    event: SessionEvent,
    action: SessionAction,
    pre: SessionCheck,
    post: SessionCheck,
)
    requires
        *old(check) == pre,
        *final(check) == post,
        call_ensures(SessionCheck::step, (check, event), action),
    ensures
        session_step(pre, event, post, action),
{
}

/// A check begins by reading the session of the player.
pub proof fn law_session_check_begins(
    player_id: &str,
    server_id: &str,
    begun: (SessionCheck, SessionAction),
)
    requires
        call_ensures(SessionCheck::begin, (player_id, server_id), begun),
    ensures
        begun.0.player_id@ == player_id@,
        begun.0.server_id@ == server_id@,
        begun.0.phase is Reading,
        begun.1 matches SessionAction::Read { key } && key@ == "session:"@ + player_id@,
{
}

/// A session that is there is deleted before anything else is done with it, and only this
/// player's.
pub proof fn law_session_is_burned_first(
    pre: SessionCheck,
    session: TextMap,
    post: SessionCheck,
    action: SessionAction,
)
    requires
        pre.phase is Reading,
        session_step(pre, SessionEvent::Read(session), post, action),
    ensures
        session@ != FieldMap::empty() ==> {
            &&& action matches SessionAction::Burn { key }
            &&& key@ == "session:"@ + pre.player_id@
            &&& post.phase == SessionPhase::Burning { session }
            &&& post.player_id == pre.player_id
            &&& post.server_id == pre.server_id
        },
        session@ == FieldMap::empty() ==> (action matches SessionAction::Refuse { reason } && reason@
            == "invalid or expired session"@),
{
}

/// After that, a player is admitted exactly if this check deleted the session, and the session
/// names this server and a player; the player then goes by the name in the session. Each other
/// case is refused with its own reason.
pub proof fn law_who_is_admitted(
    pre: SessionCheck,
    deleted: i64,
    post: SessionCheck,
    action: SessionAction,
)
    requires
        pre.phase is Burning,
        session_step(pre, SessionEvent::Burned(deleted), post, action),
    ensures
        ({
            let session = pre.phase->session@;
            let bound = session.contains_key("server_id"@) && session["server_id"@]
                == pre.server_id@;
            let named = session.contains_key("username"@);
            &&& action is Admit <==> deleted != 0 && bound && named
            &&& action matches SessionAction::Admit { username } ==> username@
                == session["username"@]
            &&& deleted == 0 ==> (action matches SessionAction::Refuse { reason } && reason@
                == "token already used"@)
            &&& deleted != 0 && !bound ==> (action matches SessionAction::Refuse { reason }
                && reason@ == "token bound to different server"@)
            &&& deleted != 0 && bound && !named ==> (action matches SessionAction::Refuse { reason }
                && reason@ == "malformed session"@)
            &&& post.phase is Over
        }),
{
}

/// Where the store fails, the player is refused, whatever was read before.
pub proof fn law_nobody_is_admitted_without_the_store(
    pre: SessionCheck,
    post: SessionCheck,
    action: SessionAction,
)
    requires
        session_step(pre, SessionEvent::Failed, post, action),
    ensures
        action matches SessionAction::Refuse { reason } && reason@ == "redis unavailable"@,
        post.phase is Over,
{
}

} // verus!
