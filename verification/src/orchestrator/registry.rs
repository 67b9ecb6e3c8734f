//! The entries of dedicated servers in the shared store.

use crate::numbers::decimal;
use crate::numbers::law_decimal_parses_back;
use crate::numbers::parse_usize_or_zero;
use crate::numbers::parsed_or_zero;
use crate::numbers::to_decimal;
use crate::orchestrator::config::Config;
use crate::protocol::status_of_load;
use crate::protocol::Heartbeat;
use crate::protocol::ServerStatus;
use crate::store::field;
use crate::store::law_keys_read_back;
use crate::store::law_only_own_keys_are_read;
use crate::store::law_write_sets_its_fields;
use crate::store::lemma_last_field_wins;
use crate::store::make_server_key;
use crate::store::server_id;
use crate::store::server_key;
use crate::store::server_of_key;
use crate::store::FieldMap;
use crate::store::HashWrite;
use crate::store::HashWriteView;
use crate::store::TextMap;
use vstd::prelude::*;

verus! {

/// A container that runs somewhere in the fleet. It outlives the orchestrator.
#[derive(Debug, Clone)]
pub struct Location {
    pub host: String,
    pub container_id: String,
}

/// What a heartbeat writes to the entry of its server.
pub open spec fn heartbeat_write(hb: Heartbeat, ttl: usize) -> HashWriteView {
    HashWriteView {
        key: server_key(hb.id@),
        fields: seq![
            ("ip"@, hb.ip@),
            ("port"@, decimal(hb.port as nat)),
            ("zone"@, hb.zone@),
            ("status"@, status_of_load(hb.player_count as nat, hb.max_players as nat).name()),
            ("player_count"@, decimal(hb.player_count as nat)),
            ("max_players"@, decimal(hb.max_players as nat)),
        ],
        ttl_secs: ttl as i64,
    }
}

/// What a heartbeat writes to the entry of its server.
pub fn write_heartbeat(hb: &Heartbeat, ttl: usize) -> (write: HashWrite)
    ensures
        write@ == heartbeat_write(*hb, ttl),
{
    let status = hb.status();
    let mut write = HashWrite::new(make_server_key(hb.id.as_str()), ttl as i64);
    write.set("ip", hb.ip.as_str());
    write.set("port", to_decimal(hb.port as u64).as_str());
    write.set("zone", hb.zone.as_str());
    write.set("status", status.as_str());
    write.set("player_count", to_decimal(hb.player_count as u64).as_str());
    write.set("max_players", to_decimal(hb.max_players as u64).as_str());
    assert(write@.fields == heartbeat_write(*hb, ttl).fields);
    write
}

/// What is written for a server that was started and has not been heard of yet.
pub open spec fn starting_write(
    ds_id: Seq<char>,
    port: u16,
    location: Location,
    config: Config,
) -> HashWriteView {
    HashWriteView {
        key: server_key(ds_id),
        fields: seq![
            ("port"@, decimal(port as nat)),
            ("host"@, location.host@),
            ("container_id"@, location.container_id@),
            ("status"@, ServerStatus::Starting.name()),
            ("player_count"@, decimal(0)),
            ("max_players"@, decimal(config.ds_max_players as nat)),
            ("zone"@, config.ds_zone@),
            ("ip"@, config.ds_advertise_host@),
        ],
        ttl_secs: config.server_ttl_secs as i64,
    }
}

/// What is written for a server that was started and has not been heard of yet.
pub fn write_starting(ds_id: &str, port: u16, location: &Location, config: &Config) -> (write:
    HashWrite)
    ensures
        write@ == starting_write(ds_id@, port, *location, *config),
{
    let mut write = HashWrite::new(make_server_key(ds_id), config.server_ttl_secs as i64);
    write.set("port", to_decimal(port as u64).as_str());
    write.set("host", location.host.as_str());
    write.set("container_id", location.container_id.as_str());
    write.set("status", ServerStatus::Starting.as_str());
    write.set("player_count", to_decimal(0).as_str());
    write.set("max_players", to_decimal(config.ds_max_players as u64).as_str());
    write.set("zone", config.ds_zone.as_str());
    write.set("ip", config.ds_advertise_host.as_str());
    assert(write@.fields == starting_write(ds_id@, port, *location, *config).fields);
    write
}

/// What the scaler knows of one server.
#[derive(Debug)]
pub struct ServerSnapshot {
    pub id: String,
    pub status: String,
    pub player_count: usize,
    pub max_players: usize,
}

/// What a [`ServerSnapshot`] says.
#[verifier::ext_equal]
pub struct SnapshotView {
    pub id: Seq<char>,
    pub status: Seq<char>,
    pub player_count: nat,
    pub max_players: nat,
}

impl View for ServerSnapshot {
    type V = SnapshotView;

    open spec fn view(&self) -> SnapshotView {
        SnapshotView {
            id: self.id@,
            status: self.status@,
            player_count: self.player_count as nat,
            max_players: self.max_players as nat,
        }
    }
}

impl DeepView for ServerSnapshot {
    type V = SnapshotView;

    open spec fn deep_view(&self) -> SnapshotView {
        self@
    }
}

/// The server whose entry is `hash`, kept under `key`. A field that is missing counts as
/// empty, a number that is missing or cannot be read as 0.
pub open spec fn snapshot(key: Seq<char>, hash: FieldMap) -> Option<SnapshotView> {
    match server_id(key) {
        Some(id) => Some(
            SnapshotView {
                id,
                status: match field(hash, "status"@) {
                    Some(status) => status,
                    None => Seq::empty(),
                },
                player_count: parsed_or_zero(field(hash, "player_count"@), usize::MAX as nat),
                max_players: parsed_or_zero(field(hash, "max_players"@), usize::MAX as nat),
            },
        ),
        None => None,
    }
}

/// The server whose entry is `hash`, kept under `key`.
pub fn read_server(key: &str, hash: &TextMap) -> (server: Option<ServerSnapshot>)
    ensures
        server.deep_view() == snapshot(key@, hash@),
{
    let id = match server_of_key(key) {
        Some(id) => id,
        None => {
            return None;
        },
    };
    let status = match hash.get("status") {
        Some(status) => status,
        None => String::new(),
    };
    let server = ServerSnapshot {
        id,
        status,
        player_count: parse_usize_or_zero(hash.get("player_count")),
        max_players: parse_usize_or_zero(hash.get("max_players")),
    };
    assert(server@ == snapshot(key@, hash@)->0);
    Some(server)
}

/// The servers of `entries`, in order; a key that is no server's is passed over.
pub open spec fn snapshots(entries: Seq<(Seq<char>, FieldMap)>) -> Seq<SnapshotView>
    decreases entries.len(),
{
    if entries.len() == 0 {
        Seq::empty()
    } else {
        let before = snapshots(entries.drop_last());
        match snapshot(entries.last().0, entries.last().1) {
            Some(server) => before.push(server),
            None => before,
        }
    }
}

/// The servers of `entries`, each a key and the hash under it.
pub fn read_servers(entries: &Vec<(String, TextMap)>) -> (servers: Vec<ServerSnapshot>)
    ensures
        servers.deep_view() == snapshots(entries.deep_view()),
{
    let mut servers: Vec<ServerSnapshot> = Vec::new();
    let ghost all = entries.deep_view();
    let mut i: usize = 0;
    assert(all.take(0) == Seq::<(Seq<char>, FieldMap)>::empty());
    assert(servers.deep_view() == Seq::<SnapshotView>::empty());
    while i < entries.len()
        invariant
            i <= entries.len(),
            all == entries.deep_view(),
            servers.deep_view() == snapshots(all.take(i as int)),
        decreases entries.len() - i,
    {
        let ghost before = servers.deep_view();
        assert(all.take(i as int + 1).drop_last() == all.take(i as int));
        assert(all[i as int] == (entries[i as int].0@, entries[i as int].1@));
        if let Some(server) = read_server(entries[i].0.as_str(), &entries[i].1) {
            let ghost seen = server@;
            servers.push(server);
            assert(servers.deep_view() == before.push(seen));
        }
        i = i + 1;
    }
    assert(all.take(all.len() as int) == all);
    servers
}

proof fn lemma_server_fields_distinct()
    ensures
        "ip"@ != "port"@,
        "ip"@ != "zone"@,
        "ip"@ != "status"@,
        "ip"@ != "player_count"@,
        "ip"@ != "max_players"@,
        "port"@ != "host"@,
        "port"@ != "container_id"@,
        "port"@ != "zone"@,
        "port"@ != "status"@,
        "port"@ != "player_count"@,
        "port"@ != "max_players"@,
        "zone"@ != "status"@,
        "zone"@ != "player_count"@,
        "zone"@ != "max_players"@,
        "status"@ != "player_count"@,
        "status"@ != "max_players"@,
        "player_count"@ != "max_players"@,
{
    reveal_strlit("ip");
    reveal_strlit("port");
    reveal_strlit("host");
    reveal_strlit("container_id");
    reveal_strlit("zone");
    reveal_strlit("status");
    reveal_strlit("player_count");
    reveal_strlit("max_players");
    assert("ip"@[0] == 'i');
    assert("port"@[0] == 'p');
    assert("host"@[0] == 'h');
    assert("container_id"@[0] == 'c');
    assert("zone"@[0] == 'z');
    assert("status"@[0] == 's');
    assert("player_count"@[0] == 'p');
    assert("player_count"@[1] == 'l');
    assert("max_players"@[0] == 'm');
}

/// The fields of an entry right after a heartbeat are those of the heartbeat, whatever
/// they were before.
pub proof fn law_heartbeat_fills_entry(hb: Heartbeat, ttl: usize, before: FieldMap)
    ensures
        ({
            let after = heartbeat_write(hb, ttl).applied_to(before);
            &&& field(after, "ip"@) == Some(hb.ip@)
            &&& field(after, "port"@) == Some(decimal(hb.port as nat))
            &&& field(after, "zone"@) == Some(hb.zone@)
            &&& field(after, "status"@) == Some(
                status_of_load(hb.player_count as nat, hb.max_players as nat).name(),
            )
            &&& field(after, "player_count"@) == Some(decimal(hb.player_count as nat))
            &&& field(after, "max_players"@) == Some(decimal(hb.max_players as nat))
        }),
{
    lemma_server_fields_distinct();
    let fields = heartbeat_write(hb, ttl).fields;
    lemma_last_field_wins(before, fields, 0);
    lemma_last_field_wins(before, fields, 1);
    lemma_last_field_wins(before, fields, 2);
    lemma_last_field_wins(before, fields, 3);
    lemma_last_field_wins(before, fields, 4);
    lemma_last_field_wins(before, fields, 5);
}

/// The scaler reads from the store what the last heartbeat of a server wrote there.
pub proof fn law_heartbeat_reads_back(hb: Heartbeat, ttl: usize, before: FieldMap)
    ensures
        snapshot(heartbeat_write(hb, ttl).key, heartbeat_write(hb, ttl).applied_to(before))
            == Some(
            SnapshotView {
                id: hb.id@,
                status: status_of_load(hb.player_count as nat, hb.max_players as nat).name(),
                player_count: hb.player_count as nat,
                max_players: hb.max_players as nat,
            },
        ),
{
    law_heartbeat_fills_entry(hb, ttl, before);
    law_keys_read_back(hb.id@);
    law_decimal_parses_back(hb.player_count as nat, usize::MAX as nat);
    law_decimal_parses_back(hb.max_players as nat, usize::MAX as nat);
}

/// A server that was started, and not been heard of, is known as starting, empty, with the
/// room that new servers have.
pub proof fn law_starting_reads_back(
    ds_id: Seq<char>,
    port: u16,
    location: Location,
    config: Config,
    before: FieldMap,
)
    ensures
        ({
            let write = starting_write(ds_id, port, location, config);
            snapshot(write.key, write.applied_to(before)) == Some(
                SnapshotView {
                    id: ds_id,
                    status: ServerStatus::Starting.name(),
                    player_count: 0,
                    max_players: config.ds_max_players as nat,
                },
            )
        }),
        ({
            let write = starting_write(ds_id, port, location, config);
            field(write.applied_to(before), "port"@) == Some(decimal(port as nat))
        }),
{
    lemma_server_fields_distinct();
    let fields = starting_write(ds_id, port, location, config).fields;
    lemma_last_field_wins(before, fields, 0);
    lemma_last_field_wins(before, fields, 3);
    lemma_last_field_wins(before, fields, 4);
    lemma_last_field_wins(before, fields, 5);
    law_keys_read_back(ds_id);
    law_decimal_parses_back(0, usize::MAX as nat);
    law_decimal_parses_back(config.ds_max_players as nat, usize::MAX as nat);
}

/// A heartbeat goes to the entry of its own server, lives for the time that is set, and
/// leaves the other fields of the entry as they were.
pub proof fn law_heartbeat_goes_to_its_server(
    hb: Heartbeat,
    ttl: usize,
    write: HashWrite,
    before: FieldMap,
    other: Seq<char>,
)
    requires
        call_ensures(write_heartbeat, (&hb, ttl), write),
    ensures
        write.key@ == "server:"@ + hb.id@,
        write.ttl_secs == ttl as i64,
        ({
            let after = write@.applied_to(before);
            &&& field(after, "ip"@) == Some(hb.ip@)
            &&& field(after, "port"@) == Some(decimal(hb.port as nat))
            &&& field(after, "zone"@) == Some(hb.zone@)
            &&& field(after, "status"@) == Some(
                if hb.player_count < hb.max_players {
                    "available"@
                } else {
                    "full"@
                },
            )
            &&& field(after, "player_count"@) == Some(decimal(hb.player_count as nat))
            &&& field(after, "max_players"@) == Some(decimal(hb.max_players as nat))
        }),
        other == "host"@ || other == "container_id"@ ==> field(write@.applied_to(before), other)
            == field(before, other),
{
    law_heartbeat_fills_entry(hb, ttl, before);
    lemma_server_fields_distinct();
    reveal_strlit("host");
    reveal_strlit("container_id");
    assert("host"@[0] == 'h');
    assert("container_id"@[0] == 'c');
    reveal_strlit("ip");
    reveal_strlit("zone");
    reveal_strlit("status");
    reveal_strlit("player_count");
    reveal_strlit("max_players");
    assert("ip"@[0] == 'i' && "zone"@[0] == 'z' && "status"@[0] == 's');
    assert("player_count"@[0] == 'p' && "max_players"@[0] == 'm');
    law_write_sets_its_fields(write@, before, other);
}

/// The entry of a server that was started says where it runs and how it is to be reached, by
/// the settings, and that it is starting and empty.
pub proof fn law_starting_fills_entry(
    ds_id: Seq<char>,
    port: u16,
    location: Location,
    config: Config,
    before: FieldMap,
)
    ensures
        starting_write(ds_id, port, location, config).key == "server:"@ + ds_id,
        starting_write(ds_id, port, location, config).ttl_secs == config.server_ttl_secs as i64,
        ({
            let after = starting_write(ds_id, port, location, config).applied_to(before);
            &&& field(after, "port"@) == Some(decimal(port as nat))
            &&& field(after, "host"@) == Some(location.host@)
            &&& field(after, "container_id"@) == Some(location.container_id@)
            &&& field(after, "status"@) == Some("starting"@)
            &&& field(after, "player_count"@) == Some(decimal(0))
            &&& field(after, "max_players"@) == Some(decimal(config.ds_max_players as nat))
            &&& field(after, "zone"@) == Some(config.ds_zone@)
            &&& field(after, "ip"@) == Some(config.ds_advertise_host@)
        }),
{
    lemma_server_fields_distinct();
    reveal_strlit("host");
    reveal_strlit("container_id");
    reveal_strlit("ip");
    reveal_strlit("zone");
    reveal_strlit("status");
    reveal_strlit("player_count");
    reveal_strlit("max_players");
    reveal_strlit("port");
    assert("host"@[0] == 'h' && "container_id"@[0] == 'c' && "port"@[0] == 'p');
    assert("ip"@[0] == 'i' && "zone"@[0] == 'z' && "status"@[0] == 's');
    assert("player_count"@[0] == 'p' && "max_players"@[0] == 'm');
    let fields = starting_write(ds_id, port, location, config).fields;
    lemma_last_field_wins(before, fields, 0);
    lemma_last_field_wins(before, fields, 1);
    lemma_last_field_wins(before, fields, 2);
    lemma_last_field_wins(before, fields, 3);
    lemma_last_field_wins(before, fields, 4);
    lemma_last_field_wins(before, fields, 5);
    lemma_last_field_wins(before, fields, 6);
    lemma_last_field_wins(before, fields, 7);
}

/// The same, of what is written for a server that was started.
pub proof fn law_started_server_has_its_entry(
    ds_id: &str,
    port: u16,
    location: Location,
    config: Config,
    write: HashWrite,
    before: FieldMap,
)
    requires
        call_ensures(write_starting, (ds_id, port, &location, &config), write),
    ensures
        write.key@ == "server:"@ + ds_id@,
        write.ttl_secs == config.server_ttl_secs as i64,
        ({
            let after = write@.applied_to(before);
            &&& field(after, "port"@) == Some(decimal(port as nat))
            &&& field(after, "host"@) == Some(location.host@)
            &&& field(after, "container_id"@) == Some(location.container_id@)
            &&& field(after, "status"@) == Some("starting"@)
            &&& field(after, "player_count"@) == Some(decimal(0))
            &&& field(after, "max_players"@) == Some(decimal(config.ds_max_players as nat))
            &&& field(after, "zone"@) == Some(config.ds_zone@)
            &&& field(after, "ip"@) == Some(config.ds_advertise_host@)
        }),
{
    law_starting_fills_entry(ds_id@, port, location, config, before);
}

/// A server is read from an entry exactly if the entry is kept under the key of a server; its
/// status and its counts are those that the entry holds.
pub proof fn law_server_is_read_from_its_entry(
    key: &str,
    hash: TextMap,
    server: Option<ServerSnapshot>,
    id: Seq<char>,
)
    requires
        call_ensures(read_server, (key, &hash), server),
    ensures
        (server is Some && server->0.id@ == id) <==> key@ == "server:"@ + id,
        server matches Some(s) ==> {
            &&& hash@.contains_key("status"@) ==> s.status@ == hash@["status"@]
            &&& !hash@.contains_key("status"@) ==> s.status@ == Seq::<char>::empty()
            &&& s.player_count == parsed_or_zero(field(hash@, "player_count"@), usize::MAX as nat)
            &&& s.max_players == parsed_or_zero(field(hash@, "max_players"@), usize::MAX as nat)
        },
{
    law_only_own_keys_are_read(key@, id);
    if server is Some {
        assert(server.deep_view() == Some(server->0@));
    }
}

/// Every entry counts on its own, whatever stands before or behind it, and the servers keep
/// the order of their entries.
pub proof fn law_entries_are_read_one_by_one(
    a: Seq<(Seq<char>, FieldMap)>,
    one: (Seq<char>, FieldMap),
    b: Seq<(Seq<char>, FieldMap)>,
)
    ensures
        snapshots(a.push(one) + b) == snapshots(a) + (match snapshot(one.0, one.1) {
            Some(server) => seq![server],
            None => Seq::empty(),
        }) + snapshots(b),
        snapshots(Seq::empty()) == Seq::<SnapshotView>::empty(),
    decreases b.len(),
{
    let mid = match snapshot(one.0, one.1) {
        Some(server) => seq![server],
        None => Seq::empty(),
    };
    if b.len() == 0 {
        assert(a.push(one) + b == a.push(one));
        assert(a.push(one).drop_last() == a);
        assert(snapshots(a.push(one)) == snapshots(a) + mid + snapshots(b));
    } else {
        law_entries_are_read_one_by_one(a, one, b.drop_last());
        assert((a.push(one) + b).drop_last() == a.push(one) + b.drop_last());
        assert(snapshots(a.push(one) + b) == snapshots(a) + mid + snapshots(b));
    }
}

/// The servers that are read are those of the entries.
pub proof fn law_all_entries_are_read(
    entries: Vec<(String, TextMap)>,
    servers: Vec<ServerSnapshot>,
)
    requires
        call_ensures(read_servers, (&entries,), servers),
    ensures
        servers.deep_view() == snapshots(entries.deep_view()),
{
}

/// What is known of a server leaves nothing out.
pub proof fn law_snapshot_is_told_whole(server: ServerSnapshot)
    ensures
        server@.id == server.id@,
        server@.status == server.status@,
        server@.player_count == server.player_count,
        server@.max_players == server.max_players,
        server.deep_view() == server@,
{
}

} // verus!
