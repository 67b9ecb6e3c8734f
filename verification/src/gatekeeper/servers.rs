//! Which servers take another player, and which of them comes first.

use crate::numbers::law_decimal_parses_back;
use crate::numbers::law_only_digits_spell_a_number;
use crate::numbers::parse_u16;
use crate::numbers::parse_usize_or_zero;
use crate::numbers::parsed;
use crate::numbers::parsed_or_zero;
use crate::orchestrator::registry::heartbeat_write;
use crate::orchestrator::registry::law_heartbeat_fills_entry;
use crate::orchestrator::registry::law_starting_reads_back;
use crate::orchestrator::registry::snapshot;
use crate::orchestrator::registry::starting_write;
use crate::orchestrator::registry::Location;
use crate::protocol::law_server_status_names_differ;
use crate::protocol::Heartbeat;
use crate::protocol::ServerStatus;
use crate::store::field;
use crate::store::law_keys_read_back;
use crate::store::law_only_own_keys_are_read;
use crate::store::server_id;
use crate::store::server_of_key;
use crate::store::FieldMap;
use crate::store::TextMap;
use crate::text::same_text;
use vstd::prelude::*;

verus! {

/// A server that a player may be sent to.
#[derive(Debug)]
pub struct ChosenServer {
    pub id: String,
    pub ip: String,
    pub port: u16,
    pub zone: String,
}

/// What a [`ChosenServer`] says.
#[verifier::ext_equal]
pub struct ChosenView {
    pub id: Seq<char>,
    pub ip: Seq<char>,
    pub port: u16,
    pub zone: Seq<char>,
}

impl View for ChosenServer {
    type V = ChosenView;

    open spec fn view(&self) -> ChosenView {
        ChosenView { id: self.id@, ip: self.ip@, port: self.port, zone: self.zone@ }
    }
}

impl DeepView for ChosenServer {
    type V = ChosenView;

    open spec fn deep_view(&self) -> ChosenView {
        self@
    }
}

/// A server with room, and how many players it has.
#[verifier::ext_equal]
pub struct Candidate {
    pub players: nat,
    pub server: ChosenView,
}

/// The server with room whose entry is `hash`, kept under `key`: its status is available, it
/// has fewer players than it has room for, and it says where it listens. A number of players
/// that is missing or cannot be read counts as 0, a zone that is missing as `zone_A`.
pub open spec fn candidate(key: Seq<char>, hash: FieldMap) -> Option<Candidate> {
    let max = parsed_or_zero(field(hash, "max_players"@), usize::MAX as nat);
    let players = parsed_or_zero(field(hash, "player_count"@), usize::MAX as nat);
    if field(hash, "status"@) != Some("available"@) || players >= max {
        None
    } else {
        match (server_id(key), field(hash, "ip"@), field(hash, "port"@)) {
            (Some(id), Some(ip), Some(port)) => match parsed(port, u16::MAX as nat) {
                Some(port) => Some(
                    Candidate {
                        players,
                        server: ChosenView {
                            id,
                            ip,
                            port: port as u16,
                            zone: match field(hash, "zone"@) {
                                Some(zone) => zone,
                                None => "zone_A"@,
                            },
                        },
                    },
                ),
                None => None,
            },
            _ => None,
        }
    }
}

/// The servers with room among `entries`, in order.
pub open spec fn candidates(entries: Seq<(Seq<char>, FieldMap)>) -> Seq<Candidate>
    decreases entries.len(),
{
    if entries.len() == 0 {
        Seq::empty()
    } else {
        let before = candidates(entries.drop_last());
        match candidate(entries.last().0, entries.last().1) {
            Some(found) => before.push(found),
            None => before,
        }
    }
}

/// `c` put into `list` before the first with fewer players.
pub open spec fn insert_ranked(list: Seq<Candidate>, c: Candidate) -> Seq<Candidate>
    decreases list.len(),
{
    if list.len() > 0 && list.last().players < c.players {
        insert_ranked(list.drop_last(), c).push(list.last())
    } else {
        list.push(c)
    }
}

/// `list` with the fullest first; what has as many players stays in order.
pub open spec fn ranked(list: Seq<Candidate>) -> Seq<Candidate>
    decreases list.len(),
{
    if list.len() == 0 {
        list
    } else {
        insert_ranked(ranked(list.drop_last()), list.last())
    }
}

/// Those of `list` that have so many players, in order.
pub open spec fn with_players(list: Seq<Candidate>, players: nat) -> Seq<Candidate>
    decreases list.len(),
{
    if list.len() == 0 {
        list
    } else {
        let before = with_players(list.drop_last(), players);
        if list.last().players == players {
            before.push(list.last())
        } else {
            before
        }
    }
}

/// The servers with room among `entries`, the fullest first.
pub open spec fn available_servers(entries: Seq<(Seq<char>, FieldMap)>) -> Seq<ChosenView> {
    ranked(candidates(entries)).map_values(|c: Candidate| c.server)
}

proof fn lemma_insert_ranked(list: Seq<Candidate>, c: Candidate, players: nat)
    ensures
        with_players(insert_ranked(list, c), players) == (if c.players == players {
            with_players(list, players).push(c)
        } else {
            with_players(list, players)
        }),
        insert_ranked(list, c).len() == list.len() + 1,
    decreases list.len(),
{
    if list.len() > 0 && list.last().players < c.players {
        lemma_insert_ranked(list.drop_last(), c, players);
        let inner = insert_ranked(list.drop_last(), c);
        assert(inner.push(list.last()).drop_last() == inner);
    } else {
        assert(list.push(c).drop_last() == list);
    }
}

/// Ranking keeps every server, and those with as many players in their order.
pub proof fn law_ranking_is_stable(list: Seq<Candidate>, players: nat)
    ensures
        ranked(list).len() == list.len(),
        with_players(ranked(list), players) == with_players(list, players),
    decreases list.len(),
{
    if list.len() > 0 {
        law_ranking_is_stable(list.drop_last(), players);
        lemma_insert_ranked(ranked(list.drop_last()), list.last(), players);
    }
}

/// Whether no server stands behind one with fewer players.
pub open spec fn fullest_first(list: Seq<Candidate>) -> bool {
    forall|i: int, j: int|
        0 <= i <= j < list.len() ==> (#[trigger] list[i]).players >= (#[trigger] list[j]).players
}

proof fn lemma_insert_keeps_order(list: Seq<Candidate>, c: Candidate)
    requires
        fullest_first(list),
    ensures
        fullest_first(insert_ranked(list, c)),
        forall|i: int|
            0 <= i < insert_ranked(list, c).len() ==> list.contains(
                #[trigger] insert_ranked(list, c)[i],
            ) || insert_ranked(list, c)[i] == c,
    decreases list.len(),
{
    if list.len() > 0 && list.last().players < c.players {
        let short = list.drop_last();
        assert(fullest_first(short));
        lemma_insert_keeps_order(short, c);
        let inner = insert_ranked(short, c);
        let whole = insert_ranked(list, c);
        assert forall|i: int| 0 <= i < inner.len() implies (#[trigger] inner[i]).players
            >= list.last().players by {
            if short.contains(inner[i]) {
                let k = choose|k: int| 0 <= k < short.len() && short[k] == inner[i];
                assert(list[k] == inner[i]);
                assert(list[k].players >= list[list.len() - 1].players);
            }
        }
        assert forall|i: int| 0 <= i < whole.len() implies list.contains(#[trigger] whole[i])
            || whole[i] == c by {
            if i < inner.len() {
                assert(whole[i] == inner[i]);
                if short.contains(inner[i]) {
                    let k = choose|k: int| 0 <= k < short.len() && short[k] == inner[i];
                    assert(list[k] == whole[i]);
                }
            } else {
                assert(list[list.len() - 1] == whole[i]);
            }
        }
    } else {
        let whole = list.push(c);
        assert forall|i: int| 0 <= i < whole.len() implies list.contains(#[trigger] whole[i])
            || whole[i] == c by {
            if i < list.len() {
                assert(list[i] == whole[i]);
            }
        }
        assert forall|i: int, j: int| 0 <= i <= j < whole.len() implies (
        #[trigger] whole[i]).players >= (#[trigger] whole[j]).players by {
            if i < list.len() {
                assert(list[i].players >= list[list.len() - 1].players);
            }
        }
    }
}

/// Ranking puts the fullest first.
pub proof fn law_ranking_puts_fullest_first(list: Seq<Candidate>)
    ensures
        fullest_first(ranked(list)),
    decreases list.len(),
{
    if list.len() > 0 {
        law_ranking_puts_fullest_first(list.drop_last());
        lemma_insert_keeps_order(ranked(list.drop_last()), list.last());
    }
}

/// A server is among those with room right after its heartbeat exactly if it has fewer
/// players than it has room for, and then a player is sent where the heartbeat says.
pub proof fn law_heartbeat_makes_candidate(hb: Heartbeat, ttl: usize, before: FieldMap)
    ensures
        candidate(heartbeat_write(hb, ttl).key, heartbeat_write(hb, ttl).applied_to(before)) == (
        if hb.player_count < hb.max_players {
            Some(
                Candidate {
                    players: hb.player_count as nat,
                    server: ChosenView { id: hb.id@, ip: hb.ip@, port: hb.port, zone: hb.zone@ },
                },
            )
        } else {
            None
        }),
{
    law_heartbeat_fills_entry(hb, ttl, before);
    law_keys_read_back(hb.id@);
    law_decimal_parses_back(hb.player_count as nat, usize::MAX as nat);
    law_decimal_parses_back(hb.max_players as nat, usize::MAX as nat);
    law_decimal_parses_back(hb.port as nat, u16::MAX as nat);
    law_server_status_names_differ(ServerStatus::Available, ServerStatus::Full);
}

/// No player is sent to a server that has not been heard of yet.
pub proof fn law_starting_server_is_no_candidate(
    ds_id: Seq<char>,
    port: u16,
    location: Location,
    config: crate::orchestrator::config::Config,
    before: FieldMap,
)
    ensures
        ({
            let write = starting_write(ds_id, port, location, config);
            candidate(write.key, write.applied_to(before)) is None
        }),
{
    let write = starting_write(ds_id, port, location, config);
    let after = write.applied_to(before);
    law_starting_reads_back(ds_id, port, location, config, before);
    law_server_status_names_differ(ServerStatus::Available, ServerStatus::Starting);
    assert(snapshot(write.key, after)->0.status == ServerStatus::Starting.name());
}

struct Ranked {
    players: usize,
    server: ChosenServer,
}

impl DeepView for Ranked {
    type V = Candidate;

    closed spec fn deep_view(&self) -> Candidate {
        Candidate { players: self.players as nat, server: self.server@ }
    }
}

fn read_candidate(key: &str, hash: &TextMap) -> (found: Option<Ranked>)
    ensures
        found.deep_view() == candidate(key@, hash@),
{
    let is_available = match hash.get("status") {
        Some(status) => same_text(status.as_str(), "available"),
        None => false,
    };
    let max: usize = parse_usize_or_zero(hash.get("max_players"));
    let players: usize = parse_usize_or_zero(hash.get("player_count"));
    if !is_available || players >= max {
        return None;
    }
    let id = match server_of_key(key) {
        Some(id) => id,
        None => {
            return None;
        },
    };
    let ip = match hash.get("ip") {
        Some(ip) => ip,
        None => {
            return None;
        },
    };
    let port_text = match hash.get("port") {
        Some(port) => port,
        None => {
            return None;
        },
    };
    let port = match parse_u16(port_text.as_str()) {
        Some(port) => port,
        None => {
            return None;
        },
    };
    let zone = match hash.get("zone") {
        Some(zone) => zone,
        None => "zone_A".to_owned(),
    };
    let found = Ranked { players, server: ChosenServer { id, ip, port, zone } };
    assert(found.deep_view() == candidate(key@, hash@)->0);
    Some(found)
}

fn rank(list: &mut Vec<Ranked>, found: Ranked)
    ensures
        final(list).deep_view() == insert_ranked(old(list).deep_view(), found.deep_view()),
{
    let ghost before = list.deep_view();
    let ghost c = found.deep_view();
    let mut at: usize = list.len();
    assert(before.take(before.len() as int) == before);
    assert(before.skip(before.len() as int) == Seq::<Candidate>::empty());
    assert(insert_ranked(before, c) == insert_ranked(before, c) + Seq::<Candidate>::empty());
    while at > 0 && list[at - 1].players < found.players
        invariant
            at <= list.len(),
            before == list.deep_view(),
            c == found.deep_view(),
            insert_ranked(before, c) == insert_ranked(before.take(at as int), c) + before.skip(
                at as int,
            ),
        decreases at,
    {
        let ghost head = before.take(at as int);
        let ghost tail = before.skip(at as int);
        assert(head.last() == list[at as int - 1].deep_view());
        assert(head.drop_last() == before.take(at as int - 1));
        assert(seq![head.last()] + tail == before.skip(at as int - 1));
        assert(insert_ranked(before.take(at as int - 1), c).push(head.last()) + tail
            == insert_ranked(before.take(at as int - 1), c) + (seq![head.last()] + tail));
        at = at - 1;
    }
    let ghost head = before.take(at as int);
    assert(at > 0 ==> head.last() == list[at as int - 1].deep_view());
    assert(insert_ranked(head, c) == head.push(c));
    list.insert(at, found);
    assert(list.deep_view() == head.push(c) + before.skip(at as int));
}

/// The servers with room among `entries`, each a key and the hash under it, the fullest
/// first.
pub fn list_available_servers(entries: &Vec<(String, TextMap)>) -> (servers: Vec<ChosenServer>)
    ensures
        servers.deep_view() == available_servers(entries.deep_view()),
{
    let ghost all = entries.deep_view();
    let mut list: Vec<Ranked> = Vec::new();
    let mut i: usize = 0;
    assert(all.take(0) == Seq::<(Seq<char>, FieldMap)>::empty());
    assert(list.deep_view() == Seq::<Candidate>::empty());
    while i < entries.len()
        invariant
            i <= entries.len(),
            all == entries.deep_view(),
            list.deep_view() == ranked(candidates(all.take(i as int))),
        decreases entries.len() - i,
    {
        let ghost before = candidates(all.take(i as int));
        assert(all.take(i as int + 1).drop_last() == all.take(i as int));
        assert(all[i as int] == (entries[i as int].0@, entries[i as int].1@));
        if let Some(found) = read_candidate(entries[i].0.as_str(), &entries[i].1) {
            assert(before.push(found.deep_view()).drop_last() == before);
            rank(&mut list, found);
        }
        i = i + 1;
    }
    assert(all.take(all.len() as int) == all);
    let ghost order = list.deep_view();
    let mut servers: Vec<ChosenServer> = Vec::new();
    let mut j: usize = 0;
    while j < list.len()
        invariant
            j <= list.len(),
            order == list.deep_view(),
            servers.deep_view() == order.take(j as int).map_values(|c: Candidate| c.server),
        decreases list.len() - j,
    {
        let ghost done = servers.deep_view();
        let server = &list[j].server;
        let copy = ChosenServer {
            id: server.id.clone(),
            ip: server.ip.clone(),
            port: server.port,
            zone: server.zone.clone(),
        };
        let ghost seen = copy@;
        servers.push(copy);
        assert(servers.deep_view() == done.push(seen));
        assert(order[j as int].server == seen);
        assert(servers.deep_view() == order.take(j as int + 1).map_values(
            |c: Candidate| c.server,
        ));
        j = j + 1;
    }
    assert(order.take(order.len() as int) == order);
    servers
}

/// The fullest of the servers with room among `entries`.
pub fn find_available_server(entries: &Vec<(String, TextMap)>) -> (server: Option<ChosenServer>)
    ensures
        match server {
            Some(server) => available_servers(entries.deep_view()).len() > 0 && server@
                == available_servers(entries.deep_view())[0],
            None => available_servers(entries.deep_view()).len() == 0,
        },
{
    let mut servers = list_available_servers(entries);
    if servers.len() == 0 {
        None
    } else {
        let ghost all = servers.deep_view();
        assert(all[0] == servers[0]@);
        Some(servers.remove(0))
    }
}

/// An entry makes a server one with room exactly if it is kept under the key of the server,
/// says that the server is available and has fewer players than it has room for, and says
/// where it listens. The server is the one that the entry describes.
pub proof fn law_entry_makes_candidate(key: Seq<char>, hash: FieldMap, c: Candidate)
    ensures
        candidate(key, hash) == Some(c) <==> {
            &&& key == "server:"@ + c.server.id
            &&& hash.contains_key("status"@) && hash["status"@] == "available"@
            &&& c.players == parsed_or_zero(field(hash, "player_count"@), usize::MAX as nat)
            &&& c.players < parsed_or_zero(field(hash, "max_players"@), usize::MAX as nat)
            &&& hash.contains_key("ip"@) && hash["ip"@] == c.server.ip
            &&& hash.contains_key("port"@) && parsed(hash["port"@], 65535) == Some(
                c.server.port as nat,
            )
            &&& hash.contains_key("zone"@) ==> hash["zone"@] == c.server.zone
            &&& !hash.contains_key("zone"@) ==> c.server.zone == "zone_A"@
        },
{
    law_only_own_keys_are_read(key, c.server.id);
    if hash.contains_key("port"@) {
        if let Some(n) = parsed(hash["port"@], 65535) {
            law_only_digits_spell_a_number(hash["port"@], 65535, n);
        }
    }
}

/// Every entry counts on its own, whatever stands before or behind it.
pub proof fn law_candidates_are_found_one_by_one(
    a: Seq<(Seq<char>, FieldMap)>,
    one: (Seq<char>, FieldMap),
    b: Seq<(Seq<char>, FieldMap)>,
)
    ensures
        candidates(a.push(one) + b) == candidates(a) + (match candidate(one.0, one.1) {
            Some(found) => seq![found],
            None => Seq::empty(),
        }) + candidates(b),
        candidates(Seq::empty()) == Seq::<Candidate>::empty(),
    decreases b.len(),
{
    let mid = match candidate(one.0, one.1) {
        Some(found) => seq![found],
        None => Seq::empty(),
    };
    if b.len() == 0 {
        assert(a.push(one) + b == a.push(one));
        assert(a.push(one).drop_last() == a);
        assert(candidates(a.push(one)) == candidates(a) + mid + candidates(b));
    } else {
        law_candidates_are_found_one_by_one(a, one, b.drop_last());
        assert((a.push(one) + b).drop_last() == a.push(one) + b.drop_last());
        assert(candidates(a.push(one) + b) == candidates(a) + mid + candidates(b));
    }
}

/// Whether the entry number `i` makes `c` a server with room.
pub open spec fn makes(entries: Seq<(Seq<char>, FieldMap)>, i: int, c: Candidate) -> bool {
    0 <= i < entries.len() && candidate(entries[i].0, entries[i].1) == Some(c)
}

proof fn lemma_candidates_are_made(entries: Seq<(Seq<char>, FieldMap)>, c: Candidate)
    ensures
        candidates(entries).contains(c) <==> exists|i: int| #[trigger] makes(entries, i, c),
    decreases entries.len(),
{
    if entries.len() > 0 {
        let short = entries.drop_last();
        let n = entries.len() - 1;
        lemma_candidates_are_made(short, c);
        let found = candidates(entries);
        if found.contains(c) {
            let k = choose|k: int| 0 <= k < found.len() && found[k] == c;
            if k < candidates(short).len() {
                assert(candidates(short)[k] == c);
                assert(candidates(short).contains(c));
                let i = choose|i: int| #[trigger] makes(short, i, c);
                assert(makes(entries, i, c));
            } else {
                assert(makes(entries, n, c));
            }
        }
        if exists|i: int| #[trigger] makes(entries, i, c) {
            let i = choose|i: int| #[trigger] makes(entries, i, c);
            if i < n {
                assert(makes(short, i, c));
                let k = choose|k: int| 0 <= k < candidates(short).len() && candidates(short)[k] == c;
                assert(found[k] == c);
            } else {
                assert(found.last() == c);
                assert(found[found.len() - 1] == c);
            }
        }
    }
}

proof fn lemma_ranked_multiset(list: Seq<Candidate>)
    ensures
        ranked(list).to_multiset() == list.to_multiset(),
    decreases list.len(),
{
    broadcast use vstd::seq_lib::group_to_multiset_ensures;

    if list.len() > 0 {
        lemma_ranked_multiset(list.drop_last());
        lemma_insert_multiset(ranked(list.drop_last()), list.last());
        assert(list == list.drop_last().push(list.last()));
    }
}

proof fn lemma_insert_multiset(list: Seq<Candidate>, c: Candidate)
    ensures
        insert_ranked(list, c).to_multiset() == list.to_multiset().insert(c),
    decreases list.len(),
{
    broadcast use vstd::seq_lib::group_to_multiset_ensures;

    if list.len() > 0 && list.last().players < c.players {
        lemma_insert_multiset(list.drop_last(), c);
        assert(list == list.drop_last().push(list.last()));
        assert(list.drop_last().to_multiset().insert(c).insert(list.last())
            =~= list.drop_last().to_multiset().insert(list.last()).insert(c));
    }
}

/// The servers that are listed are those that some entry makes one with room, each as often as
/// entries make it one, and no other. The fullest comes first, and among servers with as many
/// players the one whose entry comes first.
pub proof fn law_listed_servers_are_the_candidates(
    entries: Vec<(String, TextMap)>,
    servers: Vec<ChosenServer>,
    c: Candidate,
    i: int,
)
    requires
        call_ensures(list_available_servers, (&entries,), servers),
    ensures
        makes(entries.deep_view(), i, c) ==> servers.deep_view().contains(c.server),
        0 <= i < servers.len() ==> exists|k: int, d: Candidate| #[trigger]
            makes(entries.deep_view(), k, d) && d.server == servers.deep_view()[i],
        exists|list: Seq<Candidate>|
            {
                &&& servers.deep_view() == list.map_values(|c: Candidate| c.server)
                &&& list.to_multiset() == candidates(entries.deep_view()).to_multiset()
                &&& #[trigger] fullest_first(list)
                &&& forall|players: nat| #[trigger]
                    with_players(list, players) == with_players(
                        candidates(entries.deep_view()),
                        players,
                    )
            },
{
    broadcast use vstd::seq_lib::group_to_multiset_ensures;

    let all = entries.deep_view();
    let found = candidates(all);
    let list = ranked(found);
    let order = servers.deep_view();
    assert(order == list.map_values(|c: Candidate| c.server));
    assert(order.len() == servers.len());
    law_ranking_puts_fullest_first(found);
    lemma_ranked_multiset(found);
    assert forall|players: nat| #[trigger] with_players(list, players) == with_players(
        found,
        players,
    ) by {
        law_ranking_is_stable(found, players);
    }
    if makes(all, i, c) {
        lemma_candidates_are_made(all, c);
        assert(found.contains(c));
        assert(found.to_multiset().count(c) > 0);
        assert(list.to_multiset().count(c) > 0);
        assert(list.contains(c));
        let k = choose|k: int| 0 <= k < list.len() && list[k] == c;
        assert(order[k] == c.server);
    }
    if 0 <= i < servers.len() {
        let d = list[i];
        assert(list.contains(d));
        assert(list.to_multiset().count(d) > 0);
        assert(found.to_multiset().count(d) > 0);
        assert(found.contains(d));
        lemma_candidates_are_made(all, d);
        let k = choose|k: int| #[trigger] makes(all, k, d);
        assert(makes(all, k, d) && d.server == order[i]);
    }
}

/// An entry that makes no server one with room changes nothing, wherever it stands.
pub proof fn law_other_entries_change_nothing(
    a: Seq<(Seq<char>, FieldMap)>,
    one: (Seq<char>, FieldMap),
    b: Seq<(Seq<char>, FieldMap)>,
)
    requires
        candidate(one.0, one.1) is None,
    ensures
        available_servers(a.push(one) + b) == available_servers(a + b),
{
    law_candidates_are_found_one_by_one(a, one, b);
    lemma_candidates_append(a, b);
    assert(candidates(a) + Seq::<Candidate>::empty() + candidates(b) == candidates(a)
        + candidates(b));
}

proof fn lemma_candidates_append(a: Seq<(Seq<char>, FieldMap)>, b: Seq<(Seq<char>, FieldMap)>)
    ensures
        candidates(a + b) == candidates(a) + candidates(b),
    decreases b.len(),
{
    if b.len() == 0 {
        assert(a + b == a);
        assert(candidates(a) + candidates(b) == candidates(a));
    } else {
        lemma_candidates_append(a, b.drop_last());
        assert((a + b).drop_last() == a + b.drop_last());
        assert(candidates(a + b) == candidates(a) + candidates(b));
    }
}

/// Whether the entry number `i` makes the fullest server with room, and the first of those.
pub open spec fn is_fullest(entries: Seq<(Seq<char>, FieldMap)>, i: int, c: Candidate) -> bool {
    &&& makes(entries, i, c)
    &&& forall|j: int, d: Candidate| #[trigger]
        makes(entries, j, d) ==> d.players < c.players || (d.players == c.players && i <= j)
}

proof fn lemma_insert_first(list: Seq<Candidate>, c: Candidate)
    requires
        fullest_first(list),
    ensures
        insert_ranked(list, c).len() > 0,
        insert_ranked(list, c)[0] == if list.len() > 0 && list[0].players >= c.players {
            list[0]
        } else {
            c
        },
    decreases list.len(),
{
    if list.len() > 0 && list.last().players < c.players {
        let short = list.drop_last();
        assert(fullest_first(short));
        lemma_insert_first(short, c);
        if short.len() > 0 {
            assert(short[0] == list[0]);
        }
    } else if list.len() > 0 {
        assert(list[0].players >= list[list.len() - 1].players);
    }
}

proof fn lemma_first_is_fullest(entries: Seq<(Seq<char>, FieldMap)>) -> (at: int)
    ensures
        ranked(candidates(entries)).len() > 0 ==> is_fullest(
            entries,
            at,
            ranked(candidates(entries))[0],
        ),
        ranked(candidates(entries)).len() == 0 ==> forall|j: int, d: Candidate|
            !#[trigger] makes(entries, j, d),
    decreases entries.len(),
{
    if entries.len() == 0 {
        0
    } else {
        let short = entries.drop_last();
        let n = entries.len() - 1;
        let before = lemma_first_is_fullest(short);
        let list = ranked(candidates(short));
        law_ranking_puts_fullest_first(candidates(short));
        assert forall|j: int, d: Candidate| #[trigger] makes(entries, j, d) && j < n implies makes(
            short,
            j,
            d,
        ) by {}
        match candidate(entries.last().0, entries.last().1) {
            Some(c) => {
                lemma_insert_first(list, c);
                assert(candidates(entries).drop_last() == candidates(short));
                assert(makes(entries, n, c));
                if list.len() > 0 && list[0].players >= c.players {
                    assert(makes(short, before, list[0]));
                    assert(makes(entries, before, list[0]));
                    assert(is_fullest(entries, before, list[0]));
                    before
                } else {
                    assert(is_fullest(entries, n, c));
                    n
                }
            },
            None => {
                if list.len() > 0 {
                    assert(makes(short, before, list[0]));
                    assert(makes(entries, before, list[0]));
                    assert(is_fullest(entries, before, list[0]));
                }
                before
            },
        }
    }
}

/// The server that is found is the fullest with room, and of several as full the one whose
/// entry comes first. None is found exactly if no entry makes a server one with room.
pub proof fn law_fullest_server_is_found(
    entries: Vec<(String, TextMap)>,
    server: Option<ChosenServer>,
)
    requires
        call_ensures(find_available_server, (&entries,), server),
    ensures
        match server {
            Some(server) => exists|i: int, c: Candidate| #[trigger]
                is_fullest(entries.deep_view(), i, c) && c.server == server@,
            None => forall|i: int, c: Candidate| !#[trigger] makes(entries.deep_view(), i, c),
        },
{
    let all = entries.deep_view();
    let at = lemma_first_is_fullest(all);
    let list = ranked(candidates(all));
    assert(available_servers(all).len() == list.len());
    if server is Some {
        assert(available_servers(all)[0] == list[0].server);
        assert(is_fullest(all, at, list[0]));
    }
}

/// Servers are listed exactly if some entry makes a server one with room.
pub proof fn lemma_listed_where_made(entries: Seq<(Seq<char>, FieldMap)>)
    ensures
        available_servers(entries).len() > 0 <==> exists|i: int, c: Candidate| #[trigger]
            makes(entries, i, c),
{
    let at = lemma_first_is_fullest(entries);
    let list = ranked(candidates(entries));
    assert(available_servers(entries).len() == list.len());
    if list.len() > 0 {
        assert(makes(entries, at, list[0]));
    }
}

/// A server is known by its identifier, its address, its port and its zone.
pub proof fn law_chosen_server_is_told_whole(server: ChosenServer)
    ensures
        server@.id == server.id@,
        server@.ip == server.ip@,
        server@.port == server.port,
        server@.zone == server.zone@,
        server.deep_view() == server@,
{
}

} // verus!
