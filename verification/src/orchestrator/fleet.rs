//! Dedicated servers on the hosts of a fleet, each with an agent that is spoken to over
//! HTTP.

use crate::numbers::decimal;
use crate::numbers::signed_decimal;
use crate::numbers::to_decimal;
use crate::numbers::to_signed_decimal;
use crate::orchestrator::config::Config;
use crate::orchestrator::config::SpawnerKind;
use crate::orchestrator::local::AdoptedDs;
use crate::orchestrator::local::AdoptedView;
use crate::orchestrator::registry::Location;
use crate::orchestrator::scaler::SpawnEnv;
use crate::protocol::AgentDsInfo;
use crate::protocol::AgentStatus;
use crate::protocol::HostStatus;
use crate::protocol::KillRequest;
use crate::protocol::SpawnRequest;
use crate::protocol::SpawnResponse;
use crate::store::field;
use crate::store::host_key;
use crate::store::host_name;
use crate::store::host_of_key;
use crate::store::law_keys_read_back;
use crate::store::law_only_own_keys_are_read;
use crate::store::lemma_last_field_wins;
use crate::store::make_host_key;
use crate::store::FieldMap;
use crate::store::HashWrite;
use crate::store::HashWriteView;
use crate::store::TextMap;
use crate::text::join2;
use crate::text::join3;
use crate::text::no_texts;
use crate::text::push_text;
use crate::text::same_text;
use vstd::prelude::*;

verus! {

// ---- where an agent listens ----

/// The address of `path` at the agent of `host`.
pub open spec fn agent_address(host: Seq<char>, port: u16, path: Seq<char>) -> Seq<char> {
    "http://"@ + host + ":"@ + decimal(port as nat) + path
}

/// The address of `path` at the agent of `host`.
pub fn agent_url(host: &str, port: u16, path: &str) -> (url: String)
    ensures
        url@ == agent_address(host@, port, path@),
{
    let front = join3("http://", host, ":");
    join3(front.as_str(), to_decimal(port as u64).as_str(), path)
}

// ---- hosts in the store ----

/// The hosts whose entries are kept under `keys`, in order; a key that is no host's is
/// passed over.
pub open spec fn hosts_of(keys: Seq<Seq<char>>) -> Seq<Seq<char>>
    decreases keys.len(),
{
    if keys.len() == 0 {
        Seq::empty()
    } else {
        let before = hosts_of(keys.drop_last());
        match host_name(keys.last()) {
            Some(name) => before.push(name),
            None => before,
        }
    }
}

/// The hosts whose entries are kept under `keys`.
pub fn known_hosts(keys: &Vec<String>) -> (hosts: Vec<String>)
    ensures
        hosts.deep_view() == hosts_of(keys.deep_view()),
{
    let ghost all = keys.deep_view();
    let mut hosts = no_texts();
    let mut i: usize = 0;
    assert(all.take(0) == Seq::<Seq<char>>::empty());
    while i < keys.len()
        invariant
            i <= keys.len(),
            all == keys.deep_view(),
            hosts.deep_view() == hosts_of(all.take(i as int)),
        decreases keys.len() - i,
    {
        assert(all.take(i as int + 1).drop_last() == all.take(i as int));
        assert(all[i as int] == keys[i as int]@);
        if let Some(name) = host_of_key(keys[i].as_str()) {
            push_text(&mut hosts, name.as_str());
        }
        i = i + 1;
    }
    assert(all.take(all.len() as int) == all);
    hosts
}

// ---- searching the hosts ----

/// What is looked for among the hosts.
#[derive(Debug)]
pub enum HostQuery {
    /// A host that is idle.
    Idle,
    /// The host on which a dedicated server runs.
    Runs { ds_id: String },
}

/// What was found.
#[derive(Debug)]
pub enum HostAnswer {
    /// An idle host.
    Idle(String),
    /// Where the dedicated server runs.
    Runs(Location),
}

/// What a [`HostAnswer`] says.
pub enum AnswerView {
    Idle(Seq<char>),
    Runs { host: Seq<char>, container_id: Seq<char> },
}

impl View for HostAnswer {
    type V = AnswerView;

    open spec fn view(&self) -> AnswerView {
        match self {
            HostAnswer::Idle(host) => AnswerView::Idle(host@),
            HostAnswer::Runs(location) => AnswerView::Runs {
                host: location.host@,
                container_id: location.container_id@,
            },
        }
    }
}

/// What the entry `hash`, kept under `key`, answers. An idle host says so in its status. The
/// host of a dedicated server names it, and the container, which is not empty.
pub open spec fn host_answer(query: HostQuery, key: Seq<char>, hash: FieldMap) -> Option<
    AnswerView,
> {
    match (query, host_name(key)) {
        (HostQuery::Idle, Some(host)) => if field(hash, "status"@) == Some("idle"@) {
            Some(AnswerView::Idle(host))
        } else {
            None
        },
        (HostQuery::Runs { ds_id }, Some(host)) => match field(hash, "container_id"@) {
            Some(container_id) if field(hash, "ds_id"@) == Some(ds_id@) && container_id.len()
                > 0 => Some(AnswerView::Runs { host, container_id }),
            _ => None,
        },
        (_, None) => None,
    }
}

fn has_field(hash: &TextMap, name: &str, value: &str) -> (has: bool)
    ensures
        has == (field(hash@, name@) == Some(value@)),
{
    match hash.get(name) {
        Some(found) => same_text(found.as_str(), value),
        None => false,
    }
}

/// What the entry `hash`, kept under `key`, answers.
pub fn ask_host(query: &HostQuery, key: &str, hash: &TextMap) -> (answer: Option<HostAnswer>)
    ensures
        match answer {
            Some(answer) => host_answer(*query, key@, hash@) == Some(answer@),
            None => host_answer(*query, key@, hash@) is None,
        },
{
    let host = match host_of_key(key) {
        Some(host) => host,
        None => {
            return None;
        },
    };
    match query {
        HostQuery::Idle => if has_field(hash, "status", "idle") {
            Some(HostAnswer::Idle(host))
        } else {
            None
        },
        HostQuery::Runs { ds_id } => {
            if !has_field(hash, "ds_id", ds_id.as_str()) {
                return None;
            }
            let container_id = match hash.get("container_id") {
                Some(id) => id,
                None => {
                    return None;
                },
            };
            if container_id.as_str().is_empty() {
                return None;
            }
            Some(HostAnswer::Runs(Location { host, container_id }))
        },
    }
}

/// A search through the entries of the hosts, one after the other.
#[derive(Debug)]
pub struct HostSearch {
    pub query: HostQuery,
    /// The keys of the entries.
    pub keys: Vec<String>,
    /// The entry to look at next.
    pub next: usize,
}

/// What is to be done next.
#[derive(Debug)]
pub enum SearchAction {
    /// Read the entry under a key.
    Read { key: String },
    /// The search is over: this was found.
    Found(HostAnswer),
    /// The search is over: nothing was found.
    NotFound,
}

/// From `search` on, the next entry is to be read, or nothing was found.
pub open spec fn search_goes_on(search: HostSearch, action: SearchAction) -> bool {
    if search.next < search.keys.len() {
        &&& action matches SearchAction::Read { key }
        &&& key@ == search.keys[search.next as int]@
    } else {
        action is NotFound
    }
}

impl HostSearch {
    /// Whether the search has not gone past its end.
    pub open spec fn wf(self) -> bool {
        self.next <= self.keys.len()
    }

    fn go_on(&self) -> (action: SearchAction)
        requires
            self.wf(),
        ensures
            search_goes_on(*self, action),
    {
        if self.next < self.keys.len() {
            SearchAction::Read { key: self.keys[self.next].clone() }
        } else {
            SearchAction::NotFound
        }
    }

    /// Begins a search through the entries under `keys`.
    pub fn begin(query: HostQuery, keys: Vec<String>) -> (begun: (HostSearch, SearchAction))
        ensures
            begun.0.wf(),
            begun.0 == (HostSearch { query, keys, next: 0 }),
            search_goes_on(begun.0, begun.1),
    {
        let search = HostSearch { query, keys, next: 0 };
        let action = search.go_on();
        (search, action)
    }

    /// Takes the entry that was to be read, and says what to do next.
    pub fn step(&mut self, hash: &TextMap) -> (action: SearchAction)
        requires
            old(self).wf(),
            old(self).next < old(self).keys.len(),
        ensures
            final(self).wf(),
            search_step(*old(self), hash@, *final(self), action),
    {
        let answer = ask_host(&self.query, self.keys[self.next].as_str(), hash);
        self.next = self.next + 1;
        match answer {
            Some(answer) => SearchAction::Found(answer),
            None => self.go_on(),
        }
    }
}

/// A search as far as it has come: its states, what it asked for, and the entries that it
/// was given.
pub struct SearchRun {
    pub states: Seq<HostSearch>,
    pub actions: Seq<SearchAction>,
    pub hashes: Seq<FieldMap>,
}

/// What one step of a search does with the entry `hash`.
pub open spec fn search_step(
    pre: HostSearch,
    hash: FieldMap,
    post: HostSearch,
    action: SearchAction,
) -> bool {
    &&& pre.next < pre.keys.len()
    &&& post == HostSearch { next: (pre.next + 1) as usize, ..pre }
    &&& match host_answer(pre.query, pre.keys[pre.next as int]@, hash) {
        Some(answer) => action matches SearchAction::Found(found) && found@ == answer,
        None => search_goes_on(post, action),
    }
}

impl SearchRun {
    /// Whether a search for `query` under `keys` can run like this.
    pub open spec fn valid(self, query: HostQuery, keys: Vec<String>) -> bool {
        &&& self.states.len() == self.hashes.len() + 1
        &&& self.actions.len() == self.hashes.len() + 1
        &&& self.states[0] == HostSearch { query, keys, next: 0 }
        &&& search_goes_on(self.states[0], self.actions[0])
        &&& forall|i: int|
            0 <= i < self.hashes.len() ==> self.actions[i] is Read && #[trigger] search_step(
                self.states[i],
                self.hashes[i],
                self.states[i + 1],
                self.actions[i + 1],
            )
    }
}

proof fn lemma_search_states(query: HostQuery, keys: Vec<String>, run: SearchRun, i: int)
    requires
        run.valid(query, keys),
        0 <= i < run.states.len(),
    ensures
        i <= keys.len(),
        run.states[i] == (HostSearch { query, keys, next: i as usize }),
    decreases i,
{
    if i > 0 {
        lemma_search_states(query, keys, run, i - 1);
        assert(search_step(
            run.states[i - 1],
            run.hashes[i - 1],
            run.states[i - 1 + 1],
            run.actions[i - 1 + 1],
        ));
    }
}

/// A search ends with the answer of the first entry that has one, and with nothing only
/// where it has read every entry and none has an answer.
pub proof fn law_search_finds_first(query: HostQuery, keys: Vec<String>, run: SearchRun)
    requires
        run.valid(query, keys),
        !(run.actions.last() is Read),
    ensures
        forall|i: int|
            0 <= i < run.hashes.len() - 1 ==> (#[trigger] host_answer(
                query,
                keys[i]@,
                run.hashes[i],
            )) is None,
        match run.actions.last() {
            SearchAction::Found(found) => run.hashes.len() > 0 && host_answer(
                query,
                keys[run.hashes.len() - 1]@,
                run.hashes.last(),
            ) == Some(found@),
            _ => run.hashes.len() == keys.len() && (run.hashes.len() > 0 ==> host_answer(
                query,
                keys[run.hashes.len() - 1]@,
                run.hashes.last(),
            ) is None),
        },
{
    assert forall|i: int| 0 <= i < run.hashes.len() - 1 implies (#[trigger] host_answer(
        query,
        keys[i]@,
        run.hashes[i],
    )) is None by {
        lemma_search_states(query, keys, run, i);
        assert(search_step(
            run.states[i],
            run.hashes[i],
            run.states[i + 1],
            run.actions[i + 1],
        ));
        let j = i + 1;
        assert(search_step(
            run.states[j],
            run.hashes[j],
            run.states[j + 1],
            run.actions[j + 1],
        ));
    }
    lemma_search_states(query, keys, run, run.hashes.len() as int);
    if run.hashes.len() > 0 {
        let i = run.hashes.len() - 1;
        lemma_search_states(query, keys, run, i);
        assert(search_step(
            run.states[i],
            run.hashes[i],
            run.states[i + 1],
            run.actions[i + 1],
        ));
    }
}

// ---- asking an agent ----

/// What an agent said to a request.
#[derive(Debug)]
pub enum AgentReply<T> {
    /// Yes, and this.
    Done(T),
    /// No: how it answered, in words, and what it sent along.
    Refused { status: String, body: String },
    /// Nothing that could be understood, and why.
    Failed(String),
}

/// The request that starts the dedicated server `ds_id` on `port`.
pub fn spawn_request(ds_id: &str, port: u16, env: &SpawnEnv) -> (request: SpawnRequest)
    ensures
        request.ds_id@ == ds_id@,
        request.ds_port == port,
        request.ds_advertise_host@ == env.ds_advertise_host@,
        request.ds_zone@ == env.ds_zone@,
        request.ds_max_players == env.ds_max_players,
        request.orch_host@ == env.orch_host@,
        request.orch_port == env.orch_port,
        request.redis_url@ == env.redis_url@,
{
    SpawnRequest {
        ds_id: ds_id.to_owned(),
        ds_port: port,
        ds_advertise_host: env.ds_advertise_host.clone(),
        ds_zone: env.ds_zone.clone(),
        ds_max_players: env.ds_max_players,
        orch_host: env.orch_host.clone(),
        orch_port: env.orch_port,
        redis_url: env.redis_url.clone(),
    }
}

/// Where the dedicated server runs that the agent of a host was asked to start, by what it
/// replied, or what went wrong. No host was asked where none was idle.
pub fn remote_spawned(asked: Option<(String, AgentReply<SpawnResponse>)>) -> (location: Result<
    Location,
    String,
>)
    ensures
        match asked {
            None => location matches Err(e) && e@ == "no idle host available in fleet"@,
            Some((host, AgentReply::Done(response))) => location matches Ok(location)
                && location.host@ == host@ && location.container_id@ == response.container_id@,
            Some((host, AgentReply::Refused { status, body })) => location matches Err(e) && e@
                == "agent /spawn on "@ + host@ + " failed: "@ + status@ + " "@ + body@,
            Some((_, AgentReply::Failed(why))) => location matches Err(e) && e@ == why@,
        },
{
    match asked {
        None => Err("no idle host available in fleet".to_owned()),
        Some((host, AgentReply::Done(response))) => Ok(
            Location { host, container_id: response.container_id },
        ),
        Some((host, AgentReply::Refused { status, body })) => {
            let front = join3("agent /spawn on ", host.as_str(), " failed: ");
            let whole = join3(front.as_str(), status.as_str(), " ");
            Err(join2(whole.as_str(), body.as_str()))
        },
        Some((_, AgentReply::Failed(why))) => Err(why),
    }
}

/// The request that stops the container at `location`.
pub fn kill_request(location: &Location) -> (request: KillRequest)
    ensures
        request.container_id@ == location.container_id@,
{
    KillRequest { container_id: location.container_id.clone() }
}

/// Whether the container counts as stopped that an agent was asked to stop, by what it
/// replied, and if not, why. It does where the agent answered, even if it refused.
pub fn remote_killed(reply: AgentReply<()>) -> (killed: Result<(), String>)
    ensures
        match reply {
            AgentReply::Done(_) => killed is Ok,
            AgentReply::Refused { .. } => killed is Ok,
            AgentReply::Failed(why) => killed matches Err(e) && e@ == why@,
        },
{
    match reply {
        AgentReply::Done(_) => Ok(()),
        AgentReply::Refused { .. } => Ok(()),
        AgentReply::Failed(why) => Err(why),
    }
}

/// The dedicated servers of one host, as its agent lists them.
pub open spec fn agent_servers(host: Seq<char>, listing: Seq<AgentDsInfo>) -> Seq<AdoptedView> {
    listing.map_values(
        |info: AgentDsInfo|
            AdoptedView {
                ds_id: info.ds_id@,
                port: info.port,
                host,
                container_id: info.container_id@,
            },
    )
}

/// The dedicated servers of the fleet: those that the agents list, host by host. An agent
/// that did not answer with a list counts for none.
pub open spec fn fleet_servers(replies: Seq<(String, AgentReply<Vec<AgentDsInfo>>)>) -> Seq<
    AdoptedView,
>
    decreases replies.len(),
{
    if replies.len() == 0 {
        Seq::empty()
    } else {
        let before = fleet_servers(replies.drop_last());
        match replies.last().1 {
            AgentReply::Done(listing) => before + agent_servers(replies.last().0@, listing@),
            _ => before,
        }
    }
}

fn add_agent_servers(host: &str, listing: &Vec<AgentDsInfo>, found: &mut Vec<AdoptedDs>)
    ensures
        final(found).deep_view() == old(found).deep_view() + agent_servers(host@, listing@),
{
    let ghost before = found.deep_view();
    let mut i: usize = 0;
    assert(listing@.take(0) == Seq::<AgentDsInfo>::empty());
    assert(before + agent_servers(host@, listing@.take(0)) == before);
    while i < listing.len()
        invariant
            i <= listing.len(),
            found.deep_view() == before + agent_servers(host@, listing@.take(i as int)),
        decreases listing.len() - i,
    {
        let ghost so_far = found.deep_view();
        let info = &listing[i];
        let server = AdoptedDs {
            ds_id: info.ds_id.clone(),
            port: info.port,
            location: Location {
                host: host.to_owned(),
                container_id: info.container_id.clone(),
            },
        };
        let ghost seen = server@;
        found.push(server);
        assert(found.deep_view() == so_far.push(seen));
        assert(agent_servers(host@, listing@.take(i as int + 1)) == agent_servers(
            host@,
            listing@.take(i as int),
        ).push(seen));
        i = i + 1;
    }
    assert(listing@.take(listing@.len() as int) == listing@);
}

/// The dedicated servers of the fleet, by what the agents of the hosts answered.
pub fn remote_listed(replies: &Vec<(String, AgentReply<Vec<AgentDsInfo>>)>) -> (found: Vec<
    AdoptedDs,
>)
    ensures
        found.deep_view() == fleet_servers(replies@),
{
    let mut found: Vec<AdoptedDs> = Vec::new();
    let mut i: usize = 0;
    assert(replies@.take(0) == Seq::<(String, AgentReply<Vec<AgentDsInfo>>)>::empty());
    assert(found.deep_view() == Seq::<AdoptedView>::empty());
    while i < replies.len()
        invariant
            i <= replies.len(),
            found.deep_view() == fleet_servers(replies@.take(i as int)),
        decreases replies.len() - i,
    {
        assert(replies@.take(i as int + 1).drop_last() == replies@.take(i as int));
        if let AgentReply::Done(listing) = &replies[i].1 {
            add_agent_servers(replies[i].0.as_str(), listing, &mut found);
        }
        i = i + 1;
    }
    assert(replies@.take(replies@.len() as int) == replies@);
    found
}

// ---- probing hosts at the start ----

/// Those of `candidates` that are not among `known`, in order.
pub open spec fn unknown_hosts(candidates: Seq<Seq<char>>, known: Seq<Seq<char>>) -> Seq<Seq<char>>
    decreases candidates.len(),
{
    if candidates.len() == 0 {
        Seq::empty()
    } else {
        let before = unknown_hosts(candidates.drop_last(), known);
        if known.contains(candidates.last()) {
            before
        } else {
            before.push(candidates.last())
        }
    }
}

/// The hosts to probe at the start, where `keys` are the keys of the entries of hosts: those
/// that the settings list and that have no entry. There are none unless servers run on the
/// hosts of a fleet.
pub open spec fn probed_hosts(config: Config, keys: Seq<Seq<char>>) -> Seq<Seq<char>> {
    if config.spawner_kind == SpawnerKind::RemoteDocker {
        unknown_hosts(config.ds_hosts.deep_view(), hosts_of(keys))
    } else {
        Seq::empty()
    }
}

fn has_text(list: &Vec<String>, text: &str) -> (has: bool)
    ensures
        has == list.deep_view().contains(text@),
{
    let ghost all = list.deep_view();
    let mut i: usize = 0;
    while i < list.len()
        invariant
            i <= list.len(),
            all == list.deep_view(),
            forall|j: int| 0 <= j < i ==> #[trigger] all[j] != text@,
        decreases list.len() - i,
    {
        assert(all[i as int] == list[i as int]@);
        if same_text(list[i].as_str(), text) {
            return true;
        }
        i = i + 1;
    }
    false
}

/// The hosts to probe at the start.
pub fn hosts_to_probe(config: &Config, keys: &Vec<String>) -> (hosts: Vec<String>)
    ensures
        hosts.deep_view() == probed_hosts(*config, keys.deep_view()),
{
    let mut hosts = no_texts();
    if config.spawner_kind != SpawnerKind::RemoteDocker {
        return hosts;
    }
    let known = known_hosts(keys);
    let ghost all = config.ds_hosts.deep_view();
    let mut i: usize = 0;
    assert(all.take(0) == Seq::<Seq<char>>::empty());
    while i < config.ds_hosts.len()
        invariant
            i <= config.ds_hosts.len(),
            all == config.ds_hosts.deep_view(),
            hosts.deep_view() == unknown_hosts(all.take(i as int), known.deep_view()),
        decreases config.ds_hosts.len() - i,
    {
        assert(all.take(i as int + 1).drop_last() == all.take(i as int));
        assert(all[i as int] == config.ds_hosts[i as int]@);
        if !has_text(&known, config.ds_hosts[i].as_str()) {
            push_text(&mut hosts, config.ds_hosts[i].as_str());
        }
        i = i + 1;
    }
    assert(all.take(all.len() as int) == all);
    hosts
}

/// Whether any host is to be probed at all.
pub fn probes_hosts(config: &Config) -> (probes: bool)
    ensures
        probes == (config.spawner_kind == SpawnerKind::RemoteDocker && config.ds_hosts.len() > 0),
{
    config.spawner_kind == SpawnerKind::RemoteDocker && config.ds_hosts.len() > 0
}

/// The text, or an empty one where there is none.
pub open spec fn or_empty(text: Option<Seq<char>>) -> Seq<char> {
    match text {
        Some(text) => text,
        None => Seq::empty(),
    }
}

/// The text, or an empty one where there is none.
pub fn or_empty_text(text: &Option<String>) -> (res: String)
    ensures
        res@ == or_empty(text.deep_view()),
{
    match text {
        Some(text) => text.clone(),
        None => String::new(),
    }
}

/// What is written to the entry of a host.
pub open spec fn host_write(
    host: Seq<char>,
    status: HostStatus,
    container_id: Option<Seq<char>>,
    ds_id: Option<Seq<char>>,
    now: i64,
    ttl_secs: i64,
) -> HashWriteView {
    HashWriteView {
        key: host_key(host),
        fields: seq![
            ("status"@, status.name()),
            ("container_id"@, or_empty(container_id)),
            ("ds_id"@, or_empty(ds_id)),
            ("last_heartbeat"@, signed_decimal(now as int)),
        ],
        ttl_secs,
    }
}

/// What is written to the entry of a host.
pub fn write_host(
    host: &str,
    status: HostStatus,
    container_id: &Option<String>,
    ds_id: &Option<String>,
    now: i64,
    ttl_secs: i64,
) -> (write: HashWrite)
    ensures
        write@ == host_write(
            host@,
            status,
            container_id.deep_view(),
            ds_id.deep_view(),
            now,
            ttl_secs,
        ),
{
    let mut write = HashWrite::new(make_host_key(host), ttl_secs);
    write.set("status", status.as_str());
    write.set("container_id", or_empty_text(container_id).as_str());
    write.set("ds_id", or_empty_text(ds_id).as_str());
    write.set("last_heartbeat", to_signed_decimal(now).as_str());
    assert(write@.fields == host_write(
        host@,
        status,
        container_id.deep_view(),
        ds_id.deep_view(),
        now,
        ttl_secs,
    ).fields);
    write
}

/// For how many seconds the entry lives that a probe leaves behind.
pub const PROBE_TTL_SECS: i64 = 60;

/// What is written for a host whose agent answered a probe.
pub fn register_probed(host: &str, status: &AgentStatus, now: i64) -> (write: HashWrite)
    ensures
        write@ == host_write(
            host@,
            status.status,
            status.container_id.deep_view(),
            status.ds_id.deep_view(),
            now,
            60,
        ),
{
    write_host(host, status.status, &status.container_id, &status.ds_id, now, PROBE_TTL_SECS)
}

/// What is written for a host that was probed: its state, where its agent told it, and
/// nothing otherwise.
pub fn register_answer(host: &str, reply: &AgentReply<AgentStatus>, now: i64) -> (write: Option<
    HashWrite,
>)
    ensures
        match *reply {
            AgentReply::Done(status) => {
                &&& write matches Some(write)
                &&& write@ == host_write(
                    host@,
                    status.status,
                    status.container_id.deep_view(),
                    status.ds_id.deep_view(),
                    now,
                    60,
                )
            },
            AgentReply::Refused { .. } => write is None,
            AgentReply::Failed(_) => write is None,
        },
{
    match reply {
        AgentReply::Done(status) => Some(register_probed(host, status, now)),
        AgentReply::Refused { .. } => None,
        AgentReply::Failed(_) => None,
    }
}

// ---- laws ----

proof fn lemma_host_fields(
    host: Seq<char>,
    status: HostStatus,
    container_id: Option<Seq<char>>,
    ds_id: Option<Seq<char>>,
    now: i64,
    ttl_secs: i64,
    before: FieldMap,
)
    ensures
        ({
            let after = host_write(host, status, container_id, ds_id, now, ttl_secs).applied_to(
                before,
            );
            &&& field(after, "status"@) == Some(status.name())
            &&& field(after, "container_id"@) == Some(or_empty(container_id))
            &&& field(after, "ds_id"@) == Some(or_empty(ds_id))
        }),
{
    reveal_strlit("status");
    reveal_strlit("container_id");
    reveal_strlit("ds_id");
    reveal_strlit("last_heartbeat");
    assert("status"@[0] == 's');
    assert("container_id"@[0] == 'c');
    assert("ds_id"@[0] == 'd');
    assert("last_heartbeat"@[0] == 'l');
    let fields = host_write(host, status, container_id, ds_id, now, ttl_secs).fields;
    lemma_last_field_wins(before, fields, 0);
    lemma_last_field_wins(before, fields, 1);
    lemma_last_field_wins(before, fields, 2);
}

/// A host is picked for a new server exactly if what was last written for it says that it
/// is idle.
pub proof fn law_idle_host_is_picked(
    host: Seq<char>,
    status: HostStatus,
    container_id: Option<Seq<char>>,
    ds_id: Option<Seq<char>>,
    now: i64,
    ttl_secs: i64,
    before: FieldMap,
)
    ensures
        ({
            let write = host_write(host, status, container_id, ds_id, now, ttl_secs);
            host_answer(HostQuery::Idle, write.key, write.applied_to(before)) == (if status
                == HostStatus::Idle {
                Some(AnswerView::Idle(host))
            } else {
                None
            })
        }),
{
    lemma_host_fields(host, status, container_id, ds_id, now, ttl_secs, before);
    law_keys_read_back(host);
    crate::protocol::law_host_status_reads_back(HostStatus::Idle, status.name());
    crate::protocol::law_host_status_reads_back(status, status.name());
}

/// A dedicated server is found on the host, and in the container, that were last written
/// for it.
pub proof fn law_running_server_is_located(
    host: Seq<char>,
    status: HostStatus,
    container_id: Seq<char>,
    ds_id: String,
    now: i64,
    ttl_secs: i64,
    before: FieldMap,
)
    requires
        container_id.len() > 0,
    ensures
        ({
            let write = host_write(
                host,
                status,
                Some(container_id),
                Some(ds_id@),
                now,
                ttl_secs,
            );
            host_answer(HostQuery::Runs { ds_id }, write.key, write.applied_to(before)) == Some(
                AnswerView::Runs { host, container_id },
            )
        }),
{
    lemma_host_fields(host, status, Some(container_id), Some(ds_id@), now, ttl_secs, before);
    law_keys_read_back(host);
}

/// A host that has an entry is not probed.
pub proof fn law_known_host_is_not_probed(config: Config, keys: Seq<Seq<char>>, host: Seq<char>)
    requires
        hosts_of(keys).contains(host),
    ensures
        !probed_hosts(config, keys).contains(host),
{
    lemma_unknown_are_unknown(config.ds_hosts.deep_view(), hosts_of(keys), host);
}

proof fn lemma_unknown_are_unknown(
    candidates: Seq<Seq<char>>,
    known: Seq<Seq<char>>,
    host: Seq<char>,
)
    ensures
        unknown_hosts(candidates, known).contains(host) <==> candidates.contains(host)
            && !known.contains(host),
    decreases candidates.len(),
{
    if candidates.len() > 0 {
        let before = candidates.drop_last();
        lemma_unknown_are_unknown(before, known, host);
        let found = unknown_hosts(before, known);
        assert(candidates == before.push(candidates.last()));
        assert forall|x: Seq<char>| #[trigger] before.push(x).contains(host) <==> before.contains(
            host,
        ) || x == host by {
            lemma_push_contains(before, x, host);
        }
        lemma_push_contains(found, candidates.last(), host);
    }
}

proof fn lemma_push_contains(list: Seq<Seq<char>>, x: Seq<char>, y: Seq<char>)
    ensures
        list.push(x).contains(y) <==> list.contains(y) || x == y,
{
    let longer = list.push(x);
    if list.contains(y) {
        let i = choose|i: int| 0 <= i < list.len() && list[i] == y;
        assert(longer[i] == y);
    }
    if x == y {
        assert(longer[list.len() as int] == y);
    }
    if longer.contains(y) {
        let i = choose|i: int| 0 <= i < longer.len() && longer[i] == y;
        if i < list.len() {
            assert(list[i] == y);
        }
    }
}

/// A listed host is probed exactly if it has no entry, where servers run on the hosts of a
/// fleet.
pub proof fn law_listed_host_is_probed(config: Config, keys: Seq<Seq<char>>, host: Seq<char>)
    requires
        config.spawner_kind == SpawnerKind::RemoteDocker,
        config.ds_hosts.deep_view().contains(host),
    ensures
        probed_hosts(config, keys).contains(host) <==> !hosts_of(keys).contains(host),
{
    lemma_unknown_are_unknown(config.ds_hosts.deep_view(), hosts_of(keys), host);
}

/// The agent of a host is reached there, at the port that is set, under the path.
pub proof fn law_agent_is_reached_at_its_host(host: &str, port: u16, path: &str, url: String)
    requires
        call_ensures(agent_url, (host, port, path), url),
    ensures
        url@ == "http://"@ + host@ + ":"@ + decimal(port as nat) + path@,
{
}

/// A host answers that it is idle exactly if its own entry says so. It answers that a server
/// runs on it exactly if its entry names that very server, and the container that it answers
/// is the one that the entry names.
pub proof fn law_host_answers_for_itself(
    query: HostQuery,
    key: &str,
    hash: TextMap,
    answer: Option<HostAnswer>,
    host: Seq<char>,
    container_id: Seq<char>,
)
    requires
        call_ensures(ask_host, (&query, key, &hash), answer),
    ensures
        query is Idle ==> ((answer is Some && answer->0@ == AnswerView::Idle(host)) <==> {
            &&& key@ == "host:"@ + host
            &&& hash@.contains_key("status"@)
            &&& hash@["status"@] == "idle"@
        }),
        query matches HostQuery::Runs { ds_id } ==> ((answer is Some && answer->0@
            == (AnswerView::Runs { host, container_id })) <==> {
            &&& key@ == "host:"@ + host
            &&& hash@.contains_key("ds_id"@)
            &&& hash@["ds_id"@] == ds_id@
            &&& hash@.contains_key("container_id"@)
            &&& hash@["container_id"@] == container_id
            &&& container_id.len() > 0
        }),
        query is Idle && answer is Some ==> answer->0 is Idle,
        query is Runs && answer is Some ==> answer->0 is Runs,
{
    law_only_own_keys_are_read(key@, host);
}

/// What was written for one server gives no answer to the search for another.
pub proof fn law_other_server_is_not_located(
    host: Seq<char>,
    status: HostStatus,
    container_id: Option<Seq<char>>,
    ds_id: Option<Seq<char>>,
    now: i64,
    ttl_secs: i64,
    before: FieldMap,
    wanted: String,
)
    requires
        ds_id != Some(wanted@),
        ds_id is Some || wanted@.len() > 0,
    ensures
        ({
            let write = host_write(host, status, container_id, ds_id, now, ttl_secs);
            host_answer(HostQuery::Runs { ds_id: wanted }, write.key, write.applied_to(before))
                is None
        }),
{
    lemma_host_fields(host, status, container_id, ds_id, now, ttl_secs, before);
    law_keys_read_back(host);
}

/// Two searches for different servers never both get an answer from one entry.
pub proof fn law_entry_answers_for_one_server(
    key: Seq<char>,
    hash: FieldMap,
    one: String,
    other: String,
)
    requires
        one@ != other@,
    ensures
        host_answer(HostQuery::Runs { ds_id: one }, key, hash) is None || host_answer(
            HostQuery::Runs { ds_id: other },
            key,
            hash,
        ) is None,
{
}

/// What a search says is how a search begins, and then a step of it.
pub proof fn law_search_steps(
    search: &mut HostSearch,
    hash: TextMap,
    action: SearchAction,
    pre: HostSearch,
    post: HostSearch,
)
    requires
        *old(search) == pre,
        *final(search) == post,
        call_ensures(HostSearch::step, (search, &hash), action),
    ensures
        search_step(pre, hash@, post, action),
{
}

/// A search begins with the first key, or without a result where there is none, and goes on
/// with the key behind the one whose entry was read.
pub proof fn law_search_reads_every_entry(
    query: HostQuery,
    keys: Vec<String>,
    begun: (HostSearch, SearchAction),
    run: SearchRun,
    i: int,
)
    requires
        call_ensures(HostSearch::begin, (query, keys), begun),
        run.valid(query, keys),
        0 <= i < run.actions.len(),
    ensures
        begun.0.query == query && begun.0.keys == keys && begun.0.next == 0,
        keys.len() == 0 ==> begun.1 is NotFound,
        keys.len() > 0 ==> (begun.1 matches SearchAction::Read { key } && key@ == keys[0]@),
        run.actions[i] is Read ==> i < keys.len() && run.actions[i]->key@ == keys[i]@,
{
    lemma_search_states(query, keys, run, i);
    if i > 0 {
        lemma_search_states(query, keys, run, i - 1);
        assert(search_step(
            run.states[i - 1],
            run.hashes[i - 1],
            run.states[i - 1 + 1],
            run.actions[i - 1 + 1],
        ));
    }
}

/// A host is known exactly if an entry is kept under its key: every key counts on its own, and
/// the hosts keep the order of their keys.
pub proof fn law_keys_are_read_one_by_one(a: Seq<Seq<char>>, key: Seq<char>, b: Seq<Seq<char>>)
    ensures
        forall|host: Seq<char>|
            key == #[trigger] ("host:"@ + host) ==> hosts_of(a.push(key) + b) == hosts_of(a).push(
                host,
            ) + hosts_of(b),
        (forall|host: Seq<char>| key != #[trigger] ("host:"@ + host)) ==> hosts_of(
            a.push(key) + b,
        ) == hosts_of(a) + hosts_of(b),
        hosts_of(Seq::empty()) == Seq::<Seq<char>>::empty(),
    decreases b.len(),
{
    assert forall|host: Seq<char>| key == #[trigger] ("host:"@ + host) implies host_name(key)
        == Some(host) by {
        law_only_own_keys_are_read(key, host);
    }
    if host_name(key) is Some {
        law_only_own_keys_are_read(key, host_name(key)->0);
    }
    if b.len() == 0 {
        assert(a.push(key) + b == a.push(key));
        assert(a.push(key).drop_last() == a);
        assert(forall|x: Seq<Seq<char>>| #[trigger] (x + hosts_of(b)) == x);
    } else {
        law_keys_are_read_one_by_one(a, key, b.drop_last());
        assert((a.push(key) + b).drop_last() == a.push(key) + b.drop_last());
        let front = match host_name(key) {
            Some(host) => hosts_of(a).push(host),
            None => hosts_of(a),
        };
        assert(hosts_of(a.push(key) + b) == front + hosts_of(b));
    }
}

/// The hosts to probe are those that are listed and not known, in the order of the list; each
/// counts on its own. There are none where servers run on this host.
pub proof fn law_hosts_are_probed_one_by_one(
    config: Config,
    keys: Vec<String>,
    hosts: Vec<String>,
    a: Seq<Seq<char>>,
    host: Seq<char>,
    b: Seq<Seq<char>>,
    known: Seq<Seq<char>>,
)
    requires
        call_ensures(hosts_to_probe, (&config, &keys), hosts),
    ensures
        config.spawner_kind != SpawnerKind::RemoteDocker ==> hosts.len() == 0,
        config.spawner_kind == SpawnerKind::RemoteDocker ==> hosts.deep_view() == unknown_hosts(
            config.ds_hosts.deep_view(),
            hosts_of(keys.deep_view()),
        ),
        unknown_hosts(a.push(host) + b, known) == unknown_hosts(a, known) + (if known.contains(
            host,
        ) {
            Seq::empty()
        } else {
            seq![host]
        }) + unknown_hosts(b, known),
        unknown_hosts(Seq::empty(), known) == Seq::<Seq<char>>::empty(),
    decreases b.len(),
{
    assert(hosts.deep_view().len() == hosts.len());
    let mid = if known.contains(host) {
        Seq::empty()
    } else {
        seq![host]
    };
    if b.len() == 0 {
        assert(a.push(host) + b == a.push(host));
        assert(a.push(host).drop_last() == a);
        assert(unknown_hosts(a.push(host), known) == unknown_hosts(a, known) + mid + unknown_hosts(
            b,
            known,
        ));
    } else {
        law_hosts_are_probed_one_by_one(config, keys, hosts, a, host, b.drop_last(), known);
        assert((a.push(host) + b).drop_last() == a.push(host) + b.drop_last());
        assert(unknown_hosts(a.push(host) + b, known) == unknown_hosts(a, known) + mid
            + unknown_hosts(b, known));
    }
}

/// Hosts are probed at all exactly if servers run on the hosts of a fleet and some are listed.
pub proof fn law_when_hosts_are_probed(config: Config, probes: bool)
    requires
        call_ensures(probes_hosts, (&config,), probes),
    ensures
        probes <==> config.spawner_kind == SpawnerKind::RemoteDocker && config.ds_hosts.len() > 0,
{
}

/// What is written for a host goes to its own entry, and says its status, the container and
/// the server that it runs, empty where there are none, and the time.
pub proof fn law_host_has_its_entry(
    host: &str,
    status: HostStatus,
    container_id: Option<String>,
    ds_id: Option<String>,
    now: i64,
    ttl_secs: i64,
    write: HashWrite,
    before: FieldMap,
)
    requires
        call_ensures(write_host, (host, status, &container_id, &ds_id, now, ttl_secs), write),
    ensures
        write.key@ == "host:"@ + host@,
        write.ttl_secs == ttl_secs,
        ({
            let after = write@.applied_to(before);
            &&& field(after, "status"@) == Some(
                match status {
                    HostStatus::Idle => "idle"@,
                    HostStatus::Running => "running"@,
                    HostStatus::Starting => "starting"@,
                    HostStatus::Stopping => "stopping"@,
                },
            )
            &&& field(after, "container_id"@) == Some(
                match container_id {
                    Some(id) => id@,
                    None => Seq::empty(),
                },
            )
            &&& field(after, "ds_id"@) == Some(
                match ds_id {
                    Some(id) => id@,
                    None => Seq::empty(),
                },
            )
            &&& field(after, "last_heartbeat"@) == Some(signed_decimal(now as int))
        }),
{
    lemma_host_fields(
        host@,
        status,
        container_id.deep_view(),
        ds_id.deep_view(),
        now,
        ttl_secs,
        before,
    );
    lemma_last_field_wins(before, write@.fields, 3);
}

/// A probed host gets an entry exactly if its agent told its state, and the entry holds what
/// was told, for one minute.
pub proof fn law_probed_host_gets_an_entry(
    host: &str,
    reply: AgentReply<AgentStatus>,
    now: i64,
    write: Option<HashWrite>,
    before: FieldMap,
)
    requires
        call_ensures(register_answer, (host, &reply, now), write),
    ensures
        write is Some <==> reply is Done,
        reply matches AgentReply::Done(told) ==> {
            let after = write->0@.applied_to(before);
            &&& write->0.key@ == "host:"@ + host@
            &&& write->0.ttl_secs == 60
            &&& field(after, "status"@) == Some(told.status.name())
            &&& field(after, "container_id"@) == Some(or_empty(told.container_id.deep_view()))
            &&& field(after, "ds_id"@) == Some(or_empty(told.ds_id.deep_view()))
            &&& field(after, "last_heartbeat"@) == Some(signed_decimal(now as int))
        },
{
    if let AgentReply::Done(told) = reply {
        lemma_host_fields(
            host@,
            told.status,
            told.container_id.deep_view(),
            told.ds_id.deep_view(),
            now,
            60,
            before,
        );
        lemma_last_field_wins(before, write->0@.fields, 3);
    }
}

/// An agent is asked to start just the server that is wanted, with what it is to be told.
pub proof fn law_agent_is_asked_for_the_server(
    ds_id: &str,
    port: u16,
    env: SpawnEnv,
    request: SpawnRequest,
)
    requires
        call_ensures(spawn_request, (ds_id, port, &env), request),
    ensures
        request.ds_id@ == ds_id@,
        request.ds_port == port,
        request.ds_advertise_host@ == env.ds_advertise_host@,
        request.ds_zone@ == env.ds_zone@,
        request.ds_max_players == env.ds_max_players,
        request.orch_host@ == env.orch_host@,
        request.orch_port == env.orch_port,
        request.redis_url@ == env.redis_url@,
{
}

/// A server counts as started exactly if an idle host was found and its agent said so; it then
/// runs on that host, in the container that the agent named. Without an idle host nothing is
/// started, and what went wrong is passed on.
pub proof fn law_agent_decides_about_the_start(
    asked: Option<(String, AgentReply<SpawnResponse>)>,
    location: Result<Location, String>,
)
    requires
        call_ensures(remote_spawned, (asked,), location),
    ensures
        location is Ok <==> asked is Some && (asked->0).1 is Done,
        location matches Ok(l) ==> l.host@ == (asked->0).0@ && l.container_id@
            == (asked->0).1->Done_0.container_id@,
        asked is None ==> location->Err_0@ == "no idle host available in fleet"@,
        asked matches Some((_, AgentReply::Failed(why))) ==> location->Err_0@ == why@,
        asked matches Some((host, AgentReply::Refused { status, body })) ==> location->Err_0@
            == "agent /spawn on "@ + host@ + " failed: "@ + status@ + " "@ + body@,
{
}

/// The container that is to be stopped is the one that was located. A kill fails exactly if
/// the agent did not answer.
pub proof fn law_agent_is_asked_to_stop_the_container(
    location: Location,
    request: KillRequest,
    reply: AgentReply<()>,
    killed: Result<(), String>,
)
    requires
        call_ensures(kill_request, (&location,), request),
        call_ensures(remote_killed, (reply,), killed),
    ensures
        request.container_id@ == location.container_id@,
        killed is Err <==> reply is Failed,
        reply matches AgentReply::Failed(why) ==> killed->Err_0@ == why@,
{
}

/// The servers of the fleet are those that the agents list, each on the host whose agent lists
/// it; a host whose agent gives no list counts for none, and keeps no other from counting.
pub proof fn law_hosts_are_listed_one_by_one(
    a: Seq<(String, AgentReply<Vec<AgentDsInfo>>)>,
    one: (String, AgentReply<Vec<AgentDsInfo>>),
    b: Seq<(String, AgentReply<Vec<AgentDsInfo>>)>,
)
    ensures
        fleet_servers(a.push(one) + b) == fleet_servers(a) + (match one.1 {
            AgentReply::Done(listing) => Seq::new(
                listing@.len(),
                |i: int|
                    AdoptedView {
                        ds_id: listing@[i].ds_id@,
                        port: listing@[i].port,
                        host: one.0@,
                        container_id: listing@[i].container_id@,
                    },
            ),
            _ => Seq::empty(),
        }) + fleet_servers(b),
        fleet_servers(Seq::empty()) == Seq::<AdoptedView>::empty(),
    decreases b.len(),
{
    let mid = match one.1 {
        AgentReply::Done(listing) => Seq::new(
            listing@.len(),
            |i: int|
                AdoptedView {
                    ds_id: listing@[i].ds_id@,
                    port: listing@[i].port,
                    host: one.0@,
                    container_id: listing@[i].container_id@,
                },
        ),
        _ => Seq::empty(),
    };
    if b.len() == 0 {
        assert(a.push(one) + b == a.push(one));
        assert(a.push(one).drop_last() == a);
        if let AgentReply::Done(listing) = one.1 {
            assert(mid == agent_servers(one.0@, listing@));
        }
        assert(fleet_servers(a.push(one)) == fleet_servers(a) + mid + fleet_servers(b));
    } else {
        law_hosts_are_listed_one_by_one(a, one, b.drop_last());
        assert((a.push(one) + b).drop_last() == a.push(one) + b.drop_last());
        assert(fleet_servers(a.push(one) + b) == fleet_servers(a) + mid + fleet_servers(b));
    }
}

/// The servers that are found are those of the fleet.
pub proof fn law_fleet_is_listed(
    replies: Vec<(String, AgentReply<Vec<AgentDsInfo>>)>,
    found: Vec<AdoptedDs>,
)
    requires
        call_ensures(remote_listed, (&replies,), found),
    ensures
        found.deep_view() == fleet_servers(replies@),
{
}

/// An answer names the host, and the container where there is one.
pub proof fn law_answer_is_told_whole(answer: HostAnswer, keys: Vec<String>, hosts: Vec<String>)
    requires
        call_ensures(known_hosts, (&keys,), hosts),
    ensures
        answer matches HostAnswer::Idle(host) ==> answer@ == AnswerView::Idle(host@),
        answer matches HostAnswer::Runs(l) ==> answer@ == (AnswerView::Runs {
            host: l.host@,
            container_id: l.container_id@,
        }),
        hosts.deep_view() == hosts_of(keys.deep_view()),
{
}

} // verus!
