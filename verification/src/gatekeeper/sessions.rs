//! Sessions, and the slots that they take on a server.

use crate::gatekeeper::servers::candidate;
use crate::numbers::decimal;
use crate::numbers::law_decimal_parses_back;
use crate::numbers::signed_decimal;
use crate::numbers::to_signed_decimal;
use crate::store::field;
use crate::store::lemma_last_field_wins;
use crate::store::make_session_key;
use crate::store::session_key;
use crate::store::FieldMap;
use crate::store::HashWrite;
use crate::store::HashWriteView;
use vstd::prelude::*;

verus! {

/// What is written for the player `player_id`, who may join the server `server_id` as
/// `username`.
pub open spec fn session_write(
    player_id: Seq<char>,
    username: Seq<char>,
    server_id: Seq<char>,
    now: i64,
    ttl: usize,
) -> HashWriteView {
    HashWriteView {
        key: session_key(player_id),
        fields: seq![
            ("username"@, username),
            ("server_id"@, server_id),
            ("issued_at"@, signed_decimal(now as int)),
        ],
        ttl_secs: ttl as i64,
    }
}

/// What is written for the player `player_id`.
pub fn write_session(
    player_id: &str,
    username: &str,
    server_id: &str,
    now: i64,
    ttl: usize,
) -> (write: HashWrite)
    ensures
        write@ == session_write(player_id@, username@, server_id@, now, ttl),
{
    let mut write = HashWrite::new(make_session_key(player_id), ttl as i64);
    write.set("username", username);
    write.set("server_id", server_id);
    write.set("issued_at", to_signed_decimal(now).as_str());
    assert(write@.fields == session_write(player_id@, username@, server_id@, now, ttl).fields);
    write
}

/// The script that the store runs to claim a slot of a server, in one piece: one player
/// more, unless the server has as many as it has room for. Its reply is 1 where the slot
/// was claimed, whatever the count of players was, and -1 where it was not.
pub const CLAIM_SCRIPT: &'static str = "
local cur = tonumber(redis.call('HGET', KEYS[1], 'player_count') or '0')
local max = tonumber(redis.call('HGET', KEYS[1], 'max_players') or '0')
if max == 0 then return -1 end
if cur >= max then return -1 end
redis.call('HINCRBY', KEYS[1], 'player_count', 1)
return 1
";

/// Whether the script takes a slot of a server with `cur` players and room for `max`.
pub open spec fn takes_slot(cur: int, max: int) -> bool {
    max != 0 && cur < max
}

/// What the script replies for a server with `cur` players and room for `max`.
pub open spec fn claim_reply(cur: int, max: int) -> int {
    if takes_slot(cur, max) {
        1
    } else {
        -1
    }
}

/// The players that the server has when the script has run, with `cur` players before and
/// room for `max`.
pub open spec fn claimed_count(cur: int, max: int) -> int {
    if takes_slot(cur, max) {
        cur + 1
    } else {
        cur
    }
}

/// The entry as the script leaves it, of a server with `cur` players and room for `max`.
pub open spec fn claimed_entry(hash: FieldMap, cur: int, max: int) -> FieldMap {
    if takes_slot(cur, max) {
        hash.insert("player_count"@, signed_decimal(claimed_count(cur, max)))
    } else {
        hash
    }
}

/// The entry with one player less, of a server with `cur` players.
pub open spec fn released_entry(hash: FieldMap, cur: int) -> FieldMap {
    hash.insert("player_count"@, signed_decimal(cur + RELEASE_STEP))
}

/// Whether a reply of the script says that the slot was claimed.
pub open spec fn says_claimed(reply: int) -> bool {
    reply >= 0
}

/// Whether the reply of the script says that the slot was claimed.
pub fn claimed(reply: i64) -> (res: bool)
    ensures
        res == says_claimed(reply as int),
{
    reply >= 0
}

/// By how much the count of players changes when a claimed slot is given back.
pub const RELEASE_STEP: i64 = -1;

/// The reply says whether a slot was claimed, and a slot is claimed only where the server
/// then has no more players than it has room for.
pub proof fn law_claim_stays_within_room(cur: int, max: int)
    ensures
        says_claimed(claim_reply(cur, max)) <==> takes_slot(cur, max),
        takes_slot(cur, max) ==> claimed_count(cur, max) == cur + 1 <= max,
        !takes_slot(cur, max) ==> claimed_count(cur, max) == cur,
{
}

/// Of `n` claims in a row, on a server with `cur` players before them and room for `max`,
/// those whose reply says that the slot was claimed.
pub open spec fn claims_granted(n: nat, cur: int, max: int) -> nat
    decreases n,
{
    if n == 0 {
        0
    } else {
        let rest = claims_granted((n - 1) as nat, claimed_count(cur, max), max);
        if says_claimed(claim_reply(cur, max)) {
            rest + 1
        } else {
            rest
        }
    }
}

/// The players that the server has after `n` claims in a row.
pub open spec fn count_after_claims(n: nat, cur: int, max: int) -> int
    decreases n,
{
    if n == 0 {
        cur
    } else {
        count_after_claims((n - 1) as nat, claimed_count(cur, max), max)
    }
}

/// Of `n` claims in a row as many are granted as there are free slots, or all where there
/// are more slots than claims, and each takes one slot.
pub proof fn law_claims_fill_the_room(n: nat, cur: int, max: int)
    requires
        cur <= max,
        0 <= cur || 0 < max,
    ensures
        claims_granted(n, cur, max) == if n <= max - cur {
            n as int
        } else {
            max - cur
        },
        count_after_claims(n, cur, max) == cur + claims_granted(n, cur, max),
    decreases n,
{
    if n > 0 {
        law_claims_fill_the_room((n - 1) as nat, claimed_count(cur, max), max);
    }
}

/// Giving back a claimed slot leaves the entry as it was before the claim.
pub proof fn law_release_undoes_claim(hash: FieldMap, cur: int, max: int)
    requires
        field(hash, "player_count"@) == Some(signed_decimal(cur)),
        takes_slot(cur, max),
    ensures
        released_entry(claimed_entry(hash, cur, max), cur + 1) == hash,
{
    assert(released_entry(claimed_entry(hash, cur, max), cur + 1) =~= hash);
}

/// The script takes a slot of every server that is listed as one with room; when it has
/// claimed the last slot, the server is not listed.
pub proof fn law_claim_agrees_with_listing(
    key: Seq<char>,
    hash: FieldMap,
    players: usize,
    max: usize,
)
    requires
        field(hash, "player_count"@) == Some(decimal(players as nat)),
        field(hash, "max_players"@) == Some(decimal(max as nat)),
    ensures
        candidate(key, hash) is Some ==> takes_slot(players as int, max as int),
        players + 1 >= max ==> candidate(key, claimed_entry(hash, players as int, max as int))
            is None,
{
    law_decimal_parses_back(players as nat, usize::MAX as nat);
    law_decimal_parses_back(max as nat, usize::MAX as nat);
    if takes_slot(players as int, max as int) {
        law_decimal_parses_back((players + 1) as nat, usize::MAX as nat);
        reveal_strlit("player_count");
        reveal_strlit("max_players");
        assert("player_count"@[0] == 'p');
        assert("max_players"@[0] == 'm');
    }
}

/// The session of a player is kept under the identifier of the player, for the time that is
/// set. It says the name of the player, the server that it is good for, and when it was issued.
pub proof fn law_session_says_who_may_join_where(
    player_id: &str,
    username: &str,
    server_id: &str,
    now: i64,
    ttl: usize,
    write: HashWrite,
    before: FieldMap,
)
    requires
        call_ensures(write_session, (player_id, username, server_id, now, ttl), write),
    ensures
        write.key@ == "session:"@ + player_id@,
        write.ttl_secs == ttl as i64,
        field(write@.applied_to(before), "username"@) == Some(username@),
        field(write@.applied_to(before), "server_id"@) == Some(server_id@),
        field(write@.applied_to(before), "issued_at"@) == Some(signed_decimal(now as int)),
{
    reveal_strlit("username");
    reveal_strlit("server_id");
    reveal_strlit("issued_at");
    assert("username"@[0] == 'u');
    assert("server_id"@[0] == 's');
    assert("issued_at"@[0] == 'i');
    lemma_last_field_wins(before, write@.fields, 0);
    lemma_last_field_wins(before, write@.fields, 1);
    lemma_last_field_wins(before, write@.fields, 2);
}

/// A slot of a server is taken exactly if the server has room at all and fewer players than
/// that, and the reply is then no less than zero. Giving it back takes off one player.
pub proof fn law_slots_are_taken_where_there_is_room(
    cur: int,
    max: int,
    reply: i64,
    taken: bool,
    hash: FieldMap,
)
    requires
        call_ensures(claimed, (reply,), taken),
        reply == claim_reply(cur, max),
    ensures
        taken <==> max != 0 && cur < max,
        taken ==> claimed_entry(hash, cur, max) == hash.insert(
            "player_count"@,
            signed_decimal(cur + 1),
        ),
        !taken ==> claimed_entry(hash, cur, max) == hash,
        released_entry(hash, cur) == hash.insert("player_count"@, signed_decimal(cur - 1)),
        reply >= 0 <==> taken,
{
}

} // verus!
