//! The shared store: hashes of text fields under text keys, and writes to them.

use crate::text::after_prefix;
use crate::text::join2;
use crate::text::strip_prefix;
use crate::text_laws::law_prefix_and_rest_make_the_text;
use vstd::prelude::*;

verus! {

/// The fields of one hash, by name.
pub type FieldMap = Map<Seq<char>, Seq<char>>;

/// `hash` with each of `fields` set, one after the other.
pub open spec fn with_fields(hash: FieldMap, fields: Seq<(Seq<char>, Seq<char>)>) -> FieldMap
    decreases fields.len(),
{
    if fields.len() == 0 {
        hash
    } else {
        with_fields(hash, fields.drop_last()).insert(fields.last().0, fields.last().1)
    }
}

/// The field `name` of `hash`, where it is set.
pub open spec fn field(hash: FieldMap, name: Seq<char>) -> Option<Seq<char>> {
    if hash.contains_key(name) {
        Some(hash[name])
    } else {
        None
    }
}

/// Text values by text names: the fields of a hash, or an environment.
#[derive(Debug, Clone)]
pub struct TextMap {
    entries: Vec<(String, String)>,
}

impl View for TextMap {
    type V = FieldMap;

    closed spec fn view(&self) -> FieldMap {
        with_fields(Map::empty(), self.entries.deep_view())
    }
}

impl DeepView for TextMap {
    type V = FieldMap;

    open spec fn deep_view(&self) -> FieldMap {
        self@
    }
}

proof fn lemma_fields_without(hash: FieldMap, fields: Seq<(Seq<char>, Seq<char>)>, name: Seq<char>)
    requires
        forall|i: int| 0 <= i < fields.len() ==> (#[trigger] fields[i]).0 != name,
    ensures
        with_fields(hash, fields).contains_key(name) == hash.contains_key(name),
        hash.contains_key(name) ==> with_fields(hash, fields)[name] == hash[name],
    decreases fields.len(),
{
    if fields.len() > 0 {
        let before = fields.drop_last();
        assert forall|i: int| 0 <= i < before.len() implies (#[trigger] before[i]).0 != name by {
            assert(before[i] == fields[i]);
        }
        lemma_fields_without(hash, before, name);
        assert(fields.last() == fields[fields.len() - 1]);
    }
}

/// A field has the value that it was given last.
pub proof fn lemma_last_field_wins(hash: FieldMap, fields: Seq<(Seq<char>, Seq<char>)>, at: int)
    requires
        0 <= at < fields.len(),
        forall|i: int| at < i < fields.len() ==> (#[trigger] fields[i]).0 != fields[at].0,
    ensures
        with_fields(hash, fields).contains_key(fields[at].0),
        with_fields(hash, fields)[fields[at].0] == fields[at].1,
    decreases fields.len(),
{
    if at < fields.len() - 1 {
        let before = fields.drop_last();
        assert forall|i: int| at < i < before.len() implies (#[trigger] before[i]).0
            != before[at].0 by {
            assert(before[i] == fields[i]);
        }
        lemma_last_field_wins(hash, before, at);
        assert(fields.last() == fields[fields.len() - 1]);
    }
}

impl TextMap {
    /// No values.
    pub fn new() -> (map: TextMap)
        ensures
            map@ == FieldMap::empty(),
    {
        let map = TextMap { entries: Vec::new() };
        assert(map.entries.deep_view() == Seq::<(Seq<char>, Seq<char>)>::empty());
        map
    }

    /// Gives `name` the value `value`, in place of an earlier one.
    pub fn set(&mut self, name: String, value: String)
        ensures
            final(self)@ == old(self)@.insert(name@, value@),
    {
        let ghost before = self.entries.deep_view();
        let ghost pair = (name@, value@);
        self.entries.push((name, value));
        assert(self.entries.deep_view() == before.push(pair));
        assert(before.push(pair).drop_last() == before);
    }

    /// The value of `name`.
    pub fn get(&self, name: &str) -> (value: Option<String>)
        ensures
            value.deep_view() == field(self@, name@),
    {
        let ghost all = self.entries.deep_view();
        let wanted = name.to_owned();
        let mut i: usize = self.entries.len();
        while i > 0
            invariant
                i <= self.entries.len(),
                all == self.entries.deep_view(),
                wanted@ == name@,
                forall|j: int| i <= j < all.len() ==> (#[trigger] all[j]).0 != name@,
            decreases i,
        {
            i = i - 1;
            assert(all[i as int] == (self.entries[i as int].0@, self.entries[i as int].1@));
            if self.entries[i].0 == wanted {
                proof {
                    lemma_last_field_wins(Map::empty(), all, i as int);
                }
                return Some(self.entries[i].1.clone());
            }
        }
        proof {
            lemma_fields_without(Map::empty(), all, name@);
        }
        None
    }

    /// Whether there are no values.
    pub fn is_empty(&self) -> (empty: bool)
        ensures
            empty == (self@ == FieldMap::empty()),
    {
        let ghost all = self.entries.deep_view();
        proof {
            if all.len() > 0 {
                assert(self@.contains_key(all.last().0));
            }
        }
        self.entries.len() == 0
    }
}

/// Fields to set in one hash, all at once, and the time it has to live after that.
#[derive(Debug, Clone)]
pub struct HashWrite {
    /// Where the hash is kept.
    pub key: String,
    /// The fields to set, in order.
    pub fields: Vec<(String, String)>,
    /// Seconds until the hash expires.
    pub ttl_secs: i64,
}

/// What a [`HashWrite`] says.
#[verifier::ext_equal]
pub struct HashWriteView {
    pub key: Seq<char>,
    pub fields: Seq<(Seq<char>, Seq<char>)>,
    pub ttl_secs: i64,
}

impl View for HashWrite {
    type V = HashWriteView;

    open spec fn view(&self) -> HashWriteView {
        HashWriteView {
            key: self.key@,
            fields: self.fields.deep_view(),
            ttl_secs: self.ttl_secs,
        }
    }
}

impl HashWriteView {
    /// The hash as the write leaves it, where it was `hash` before.
    pub open spec fn applied_to(self, hash: FieldMap) -> FieldMap {
        with_fields(hash, self.fields)
    }
}

impl HashWrite {
    /// A write of no fields.
    pub fn new(key: String, ttl_secs: i64) -> (write: HashWrite)
        ensures
            write@ == (HashWriteView { key: key@, fields: Seq::empty(), ttl_secs }),
    {
        let write = HashWrite { key, fields: Vec::new(), ttl_secs };
        assert(write.fields.deep_view() == Seq::<(Seq<char>, Seq<char>)>::empty());
        write
    }

    /// Adds the field `name` with the value `value`.
    pub fn set(&mut self, name: &str, value: &str)
        ensures
            final(self)@ == (HashWriteView {
                fields: old(self)@.fields.push((name@, value@)),
                ..old(self)@
            }),
    {
        let ghost before = self.fields.deep_view();
        self.fields.push((name.to_owned(), value.to_owned()));
        assert(self.fields.deep_view() == before.push((name@, value@)));
    }
}

/// Where the entry of the server `id` is kept.
pub open spec fn server_key(id: Seq<char>) -> Seq<char> {
    "server:"@ + id
}

/// Where the entry of the host `name` is kept.
pub open spec fn host_key(name: Seq<char>) -> Seq<char> {
    "host:"@ + name
}

/// Where the session of the player `id` is kept.
pub open spec fn session_key(id: Seq<char>) -> Seq<char> {
    "session:"@ + id
}

/// The server whose entry is kept under `key`.
pub open spec fn server_id(key: Seq<char>) -> Option<Seq<char>> {
    after_prefix(key, "server:"@)
}

/// The host whose entry is kept under `key`.
pub open spec fn host_name(key: Seq<char>) -> Option<Seq<char>> {
    after_prefix(key, "host:"@)
}

/// Where the entry of the server `id` is kept.
pub fn make_server_key(id: &str) -> (key: String)
    ensures
        key@ == server_key(id@),
{
    join2("server:", id)
}

/// Where the entry of the host `name` is kept.
pub fn make_host_key(name: &str) -> (key: String)
    ensures
        key@ == host_key(name@),
{
    join2("host:", name)
}

/// Where the session of the player `id` is kept.
pub fn make_session_key(id: &str) -> (key: String)
    ensures
        key@ == session_key(id@),
{
    join2("session:", id)
}

/// The server whose entry is kept under `key`.
pub fn server_of_key(key: &str) -> (id: Option<String>)
    ensures
        id.deep_view() == server_id(key@),
{
    strip_prefix(key, "server:")
}

/// The host whose entry is kept under `key`.
pub fn host_of_key(key: &str) -> (name: Option<String>)
    ensures
        name.deep_view() == host_name(key@),
{
    strip_prefix(key, "host:")
}

proof fn lemma_prefix_comes_off(prefix: Seq<char>, rest: Seq<char>)
    ensures
        after_prefix(prefix + rest, prefix) == Some(rest),
{
    assert((prefix + rest).take(prefix.len() as int) == prefix);
    assert((prefix + rest).skip(prefix.len() as int) == rest);
}

/// A key leads back to the server or host that it was made for.
pub proof fn law_keys_read_back(name: Seq<char>)
    ensures
        server_id(server_key(name)) == Some(name),
        host_name(host_key(name)) == Some(name),
{
    lemma_prefix_comes_off("server:"@, name);
    lemma_prefix_comes_off("host:"@, name);
}

/// Two servers, two hosts or two players never share a key, and neither do a server
/// and a host, a server and a player, or a host and a player.
pub proof fn law_keys_are_distinct(a: Seq<char>, b: Seq<char>)
    ensures
        server_key(a) == server_key(b) ==> a == b,
        host_key(a) == host_key(b) ==> a == b,
        session_key(a) == session_key(b) ==> a == b,
        server_key(a) != host_key(b),
        server_key(a) != session_key(b),
        host_key(a) != session_key(b),
{
    lemma_prefix_comes_off("server:"@, a);
    lemma_prefix_comes_off("server:"@, b);
    lemma_prefix_comes_off("host:"@, a);
    lemma_prefix_comes_off("host:"@, b);
    lemma_prefix_comes_off("session:"@, a);
    lemma_prefix_comes_off("session:"@, b);
    reveal_strlit("server:");
    reveal_strlit("host:");
    reveal_strlit("session:");
    assert(server_key(a)[1] == 'e');
    assert(server_key(a)[2] == 'r');
    assert(host_key(a)[0] == 'h');
    assert(host_key(b)[0] == 'h');
    assert(session_key(b)[0] == 's');
    assert(session_key(b)[2] == 's');
    assert(server_key(a)[0] == 's');
}

/// The keys as the programs of the fleet share them.
pub proof fn law_keys_name_their_kind(id: Seq<char>)
    ensures
        server_key(id) == "server:"@ + id,
        host_key(id) == "host:"@ + id,
        session_key(id) == "session:"@ + id,
{
}

/// Only the key of a server leads to a server, and only the key of a host to a host.
pub proof fn law_only_own_keys_are_read(key: Seq<char>, id: Seq<char>)
    ensures
        server_id(key) == Some(id) <==> key == "server:"@ + id,
        host_name(key) == Some(id) <==> key == "host:"@ + id,
{
    law_prefix_and_rest_make_the_text(key, "server:"@, id);
    law_prefix_and_rest_make_the_text(key, "host:"@, id);
}

/// A field is read as it was set last; setting it leaves the others as they were.
pub proof fn law_fields_are_kept(hash: FieldMap, name: Seq<char>, value: Seq<char>, other: Seq<char>)
    ensures
        field(hash.insert(name, value), name) == Some(value),
        other != name ==> field(hash.insert(name, value), other) == field(hash, other),
        field(hash, name) is None <==> !hash.contains_key(name),
        field(FieldMap::empty(), name) is None,
{
}

/// A write sets its fields one after the other, and leaves the fields that it does not name as
/// they were.
pub proof fn law_write_sets_its_fields(write: HashWriteView, hash: FieldMap, name: Seq<char>)
    ensures
        (forall|i: int| 0 <= i < write.fields.len() ==> (#[trigger] write.fields[i]).0 != name)
            ==> field(write.applied_to(hash), name) == field(hash, name),
        forall|at: int|
            0 <= at < write.fields.len() && write.fields[at].0 == name && (forall|i: int|
                at < i < write.fields.len() ==> (#[trigger] write.fields[i]).0 != name) ==> field(
                write.applied_to(hash),
                name,
            ) == Some((#[trigger] write.fields[at]).1),
{
    if forall|i: int| 0 <= i < write.fields.len() ==> (#[trigger] write.fields[i]).0 != name {
        lemma_fields_without(hash, write.fields, name);
    }
    assert forall|at: int|
        0 <= at < write.fields.len() && write.fields[at].0 == name && (forall|i: int|
            at < i < write.fields.len() ==> (#[trigger] write.fields[i]).0 != name) implies field(
        write.applied_to(hash),
        name,
    ) == Some((#[trigger] write.fields[at]).1) by {
        lemma_last_field_wins(hash, write.fields, at);
    }
}

/// A value is read back as it was set, and setting it leaves the others as they were.
pub proof fn law_values_are_kept(
    map: &mut TextMap,
    name: String,
    value: String,
    pre: TextMap,
    post: TextMap,
    wanted: &str,
    read: Option<String>,
    empty: bool,
)
    requires
        *old(map) == pre,
        *final(map) == post,
        call_ensures(TextMap::set, (map, name, value), ()),
        call_ensures(TextMap::get, (&post, wanted), read),
        call_ensures(TextMap::is_empty, (&post,), empty),
    ensures
        wanted@ == name@ ==> read is Some && read->0@ == value@,
        wanted@ != name@ ==> (read is Some <==> pre@.contains_key(wanted@)),
        wanted@ != name@ && read is Some ==> read->0@ == pre@[wanted@],
        !empty,
{
    if read is Some {
        assert(read.deep_view() == Some(read->0@));
    }
    assert(post@.contains_key(name@));
}

/// A write has the key and the time that it is made with, and the fields that are added to it,
/// in that order.
pub proof fn law_writes_hold_what_is_added(
    key: String,
    ttl_secs: i64,
    fresh: HashWrite,
    write: &mut HashWrite,
    name: &str,
    value: &str,
    pre: HashWrite,
    post: HashWrite,
)
    requires
        call_ensures(HashWrite::new, (key, ttl_secs), fresh),
        *old(write) == pre,
        *final(write) == post,
        call_ensures(HashWrite::set, (write, name, value), ()),
    ensures
        fresh.key@ == key@ && fresh.ttl_secs == ttl_secs && fresh@.fields.len() == 0,
        post.key@ == pre.key@ && post.ttl_secs == pre.ttl_secs,
        post@.fields == pre@.fields.push((name@, value@)),
        post@.key == post.key@ && post@.ttl_secs == post.ttl_secs,
{
}

/// Keys are made and read as they are shared.
pub proof fn law_keys_are_made_and_read(
    id: &str,
    server: String,
    host: String,
    session: String,
    key: &str,
    of_server: Option<String>,
    of_host: Option<String>,
)
    requires
        call_ensures(make_server_key, (id,), server),
        call_ensures(make_host_key, (id,), host),
        call_ensures(make_session_key, (id,), session),
        call_ensures(server_of_key, (key,), of_server),
        call_ensures(host_of_key, (key,), of_host),
    ensures
        server@ == "server:"@ + id@,
        host@ == "host:"@ + id@,
        session@ == "session:"@ + id@,
        (of_server is Some && of_server->0@ == id@) <==> key@ == "server:"@ + id@,
        (of_host is Some && of_host->0@ == id@) <==> key@ == "host:"@ + id@,
{
    law_only_own_keys_are_read(key@, id@);
    if of_server is Some {
        assert(of_server.deep_view() == Some(of_server->0@));
    }
    if of_host is Some {
        assert(of_host.deep_view() == Some(of_host->0@));
    }
}

} // verus!
