//! Dedicated servers in containers of this host.

use crate::boundary::lossy;
use crate::boundary::lossy_text;
use crate::boundary::quoted;
use crate::boundary::quoted_text;
use crate::boundary::utf8_complaint;
use crate::containers::find_args;
use crate::containers::law_run_arguments_start_the_server;
use crate::containers::make_find_args;
use crate::containers::make_run_args;
use crate::containers::printed;
use crate::containers::printed_text;
use crate::containers::read_started_container;
use crate::containers::run_args;
use crate::containers::started_container;
use crate::containers::starts_server;
use crate::containers::CommandOutput;
use crate::containers::RunParams;
use crate::containers::RunView;
use crate::numbers::decimal;
use crate::numbers::is_digit;
use crate::numbers::law_decimal_parses_back;
use crate::numbers::law_only_digits_spell_a_number;
use crate::numbers::lemma_decimal_reads_back;
use crate::numbers::parse_u16;
use crate::numbers::parsed;
use crate::orchestrator::registry::Location;
use crate::orchestrator::scaler::SpawnEnv;
use crate::text::is_white_space;
use crate::text::join2;
use crate::text::join3;
use crate::text::lemma_pieces_grow;
use crate::text::lemma_pieces_start_anew;
use crate::text::lines;
use crate::text::no_texts;
use crate::text::pieces;
use crate::text::push_text;
use crate::text::split;
use crate::text::split_lines;
use crate::text::trim;
use crate::text::trimmed;
use crate::text::without_cr;
use crate::text::Separator;
use vstd::prelude::*;
use vstd::utf8::decode_utf8;
use vstd::utf8::valid_utf8;

verus! {

/// A dedicated server that was found running.
#[derive(Debug, Clone)]
pub struct AdoptedDs {
    pub ds_id: String,
    pub port: u16,
    pub location: Location,
}

/// What an [`AdoptedDs`] says.
#[verifier::ext_equal]
pub struct AdoptedView {
    pub ds_id: Seq<char>,
    pub port: u16,
    pub host: Seq<char>,
    pub container_id: Seq<char>,
}

impl View for AdoptedDs {
    type V = AdoptedView;

    open spec fn view(&self) -> AdoptedView {
        AdoptedView {
            ds_id: self.ds_id@,
            port: self.port,
            host: self.location.host@,
            container_id: self.location.container_id@,
        }
    }
}

impl DeepView for AdoptedDs {
    type V = AdoptedView;

    open spec fn deep_view(&self) -> AdoptedView {
        self@
    }
}

/// Starts, finds and stops dedicated servers on this host.
#[derive(Debug)]
pub struct LocalDockerSpawner {
    pub image: String,
    pub network: String,
}

/// What a container on this host is started with.
pub open spec fn local_run(
    spawner: LocalDockerSpawner,
    ds_id: Seq<char>,
    port: u16,
    env: SpawnEnv,
) -> RunView {
    RunView {
        network: spawner.network@,
        label_port: true,
        ds_id,
        port,
        zone: env.ds_zone@,
        max_players: env.ds_max_players,
        advertise_host: env.ds_advertise_host@,
        orch_host: env.orch_host@,
        orch_port: env.orch_port,
        redis_url: env.redis_url@,
        image: spawner.image@,
    }
}

/// Why a container was not started, where the command ended badly.
pub open spec fn run_failure(output: CommandOutput) -> Seq<char> {
    "docker run exit "@ + output.status@ + ": stderr="@ + quoted(printed(output.stderr@))
        + " stdout="@ + quoted(printed(output.stdout@))
}

/// What came of the command that starts a container: where it runs, or what went wrong.
pub open spec fn local_spawned(output: Result<CommandOutput, String>) -> Result<
    Seq<char>,
    Seq<char>,
> {
    match output {
        Ok(output) => if output.success {
            started_container(output.stdout@)
        } else {
            Err(run_failure(output))
        },
        Err(e) => Err("could not invoke docker CLI: "@ + e@),
    }
}

/// The arguments that list the dedicated servers of this host: identifier, server and port
/// of each, with tabs between.
pub open spec fn list_args() -> Seq<Seq<char>> {
    seq![
        "ps"@,
        "--filter"@,
        "label=mmorpg.role=ds"@,
        "--format"@,
        "{{.ID}}\t{{.Label \"mmorpg.ds_id\"}}\t{{.Label \"mmorpg.ds_port\"}}"@,
    ]
}

/// The dedicated server that a line of the list names, where it names one.
pub open spec fn listed_server(line: Seq<char>) -> Option<AdoptedView> {
    let parts = pieces(line, Separator::Char('\t'));
    if parts.len() != 3 {
        None
    } else {
        let container_id = trimmed(parts[0]);
        let ds_id = trimmed(parts[1]);
        match parsed(trimmed(parts[2]), u16::MAX as nat) {
            Some(port) if ds_id.len() > 0 && container_id.len() > 0 => Some(
                AdoptedView { ds_id, port: port as u16, host: "localhost"@, container_id },
            ),
            _ => None,
        }
    }
}

/// The dedicated servers that lines of the list name, in order.
pub open spec fn listed_servers(all: Seq<Seq<char>>) -> Seq<AdoptedView>
    decreases all.len(),
{
    if all.len() == 0 {
        Seq::empty()
    } else {
        let before = listed_servers(all.drop_last());
        match listed_server(all.last()) {
            Some(server) => before.push(server),
            None => before,
        }
    }
}

/// The dedicated server that a line of the list names.
pub fn read_listed_server(line: &str) -> (server: Option<AdoptedDs>)
    ensures
        server.deep_view() == listed_server(line@),
{
    let parts = split(line, Separator::Char('\t'));
    let ghost all = parts.deep_view();
    if parts.len() != 3 {
        return None;
    }
    assert(all[0] == parts[0]@ && all[1] == parts[1]@ && all[2] == parts[2]@);
    let container_id = trim(parts[0].as_str());
    let ds_id = trim(parts[1].as_str());
    let port = match parse_u16(trim(parts[2].as_str()).as_str()) {
        Some(port) => port,
        None => {
            return None;
        },
    };
    if ds_id.as_str().is_empty() || container_id.as_str().is_empty() {
        return None;
    }
    let server = AdoptedDs {
        ds_id,
        port,
        location: Location { host: "localhost".to_owned(), container_id },
    };
    assert(server@ == listed_server(line@)->0);
    Some(server)
}

impl LocalDockerSpawner {
    /// The arguments that start the dedicated server `ds_id` on `port`.
    pub fn spawn_args(&self, ds_id: &str, port: u16, env: &SpawnEnv) -> (args: Vec<String>)
        ensures
            args.deep_view() == run_args(local_run(*self, ds_id@, port, *env)),
    {
        let params = RunParams {
            network: self.network.as_str(),
            label_port: true,
            ds_id,
            port,
            zone: env.ds_zone.as_str(),
            max_players: env.ds_max_players,
            advertise_host: env.ds_advertise_host.as_str(),
            orch_host: env.orch_host.as_str(),
            orch_port: env.orch_port,
            redis_url: env.redis_url.as_str(),
            image: self.image.as_str(),
        };
        assert(params@ == local_run(*self, ds_id@, port, *env));
        make_run_args(&params)
    }

    /// Where the container that a command started runs, or what went wrong.
    pub fn spawned(output: Result<CommandOutput, String>) -> (location: Result<Location, String>)
        ensures
            match location {
                Ok(location) => location.host@ == "localhost"@ && local_spawned(output) == Ok::<
                    Seq<char>,
                    Seq<char>,
                >(location.container_id@),
                Err(e) => local_spawned(output) == Err::<Seq<char>, Seq<char>>(e@),
            },
    {
        let output = match output {
            Ok(output) => output,
            Err(e) => {
                return Err(join2("could not invoke docker CLI: ", e.as_str()));
            },
        };
        if !output.success {
            let stderr = quoted_text(printed_text(&output.stderr).as_str());
            let stdout = quoted_text(printed_text(&output.stdout).as_str());
            let front = join3("docker run exit ", output.status.as_str(), ": stderr=");
            return Err(
                join2(join3(front.as_str(), stderr.as_str(), " stdout=").as_str(), stdout.as_str()),
            );
        }
        match read_started_container(output.stdout) {
            Ok(container_id) => Ok(Location { host: "localhost".to_owned(), container_id }),
            Err(e) => Err(e),
        }
    }

    /// The arguments that find the container of the dedicated server `ds_id`.
    pub fn locate_args(ds_id: &str) -> (args: Vec<String>)
        ensures
            args.deep_view() == find_args("mmorpg.ds_id="@ + ds_id@),
    {
        make_find_args(join2("mmorpg.ds_id=", ds_id).as_str())
    }

    /// Where the dedicated server runs, by what the command that looks for it printed.
    pub fn located(stdout: &Vec<u8>) -> (location: Option<Location>)
        ensures
            match location {
                Some(location) => printed(stdout@).len() > 0 && location.host@ == "localhost"@
                    && location.container_id@ == printed(stdout@),
                None => printed(stdout@).len() == 0,
            },
    {
        let id = printed_text(stdout);
        if id.as_str().is_empty() {
            None
        } else {
            Some(Location { host: "localhost".to_owned(), container_id: id })
        }
    }

    /// The arguments that stop and remove a container.
    pub fn kill_args(location: &Location) -> (args: Vec<String>)
        ensures
            args.deep_view() == seq!["rm"@, "-f"@, location.container_id@],
    {
        let mut args = no_texts();
        push_text(&mut args, "rm");
        push_text(&mut args, "-f");
        push_text(&mut args, location.container_id.as_str());
        args
    }

    /// The arguments that list the dedicated servers of this host.
    pub fn list_args() -> (args: Vec<String>)
        ensures
            args.deep_view() == list_args(),
    {
        let mut args = no_texts();
        push_text(&mut args, "ps");
        push_text(&mut args, "--filter");
        push_text(&mut args, "label=mmorpg.role=ds");
        push_text(&mut args, "--format");
        push_text(
            &mut args,
            "{{.ID}}\t{{.Label \"mmorpg.ds_id\"}}\t{{.Label \"mmorpg.ds_port\"}}",
        );
        assert(args.deep_view() == list_args());
        args
    }

    /// The dedicated servers of this host, by what the command that lists them left behind.
    pub fn listed(output: &CommandOutput) -> (servers: Result<Vec<AdoptedDs>, String>)
        ensures
            match servers {
                Ok(servers) => output.success && servers.deep_view() == listed_servers(
                    lines(lossy(output.stdout@)),
                ),
                Err(e) => !output.success && e@ == "docker ps failed: "@ + lossy(output.stderr@),
            },
    {
        if !output.success {
            return Err(join2("docker ps failed: ", lossy_text(&output.stderr).as_str()));
        }
        let found = split_lines(lossy_text(&output.stdout).as_str());
        let ghost all = found.deep_view();
        let mut servers: Vec<AdoptedDs> = Vec::new();
        let mut i: usize = 0;
        assert(all.take(0) == Seq::<Seq<char>>::empty());
        assert(servers.deep_view() == Seq::<AdoptedView>::empty());
        while i < found.len()
            invariant
                i <= found.len(),
                all == found.deep_view(),
                servers.deep_view() == listed_servers(all.take(i as int)),
            decreases found.len() - i,
        {
            let ghost before = servers.deep_view();
            assert(all.take(i as int + 1).drop_last() == all.take(i as int));
            assert(all[i as int] == found[i as int]@);
            if let Some(server) = read_listed_server(found[i].as_str()) {
                let ghost seen = server@;
                servers.push(server);
                assert(servers.deep_view() == before.push(seen));
            }
            i = i + 1;
        }
        assert(all.take(all.len() as int) == all);
        Ok(servers)
    }
}

// ---- laws ----

/// The line that is printed for a container that was started for a dedicated server.
pub open spec fn listed_line(server: AdoptedView) -> Seq<char> {
    server.container_id.push('\t') + server.ds_id.push('\t') + decimal(server.port as nat)
}

/// What is printed for containers, one line each.
pub open spec fn listing(servers: Seq<AdoptedView>) -> Seq<char>
    decreases servers.len(),
{
    if servers.len() == 0 {
        Seq::empty()
    } else {
        listing(servers.drop_last()) + listed_line(servers.last()).push('\n')
    }
}

/// Whether the server runs on this host, and it and its container have names without white
/// space.
pub open spec fn is_listable(server: AdoptedView) -> bool {
    &&& server.host == "localhost"@
    &&& server.ds_id.len() > 0
    &&& server.container_id.len() > 0
    &&& forall|i: int| 0 <= i < server.ds_id.len() ==> !is_white_space(#[trigger] server.ds_id[i])
    &&& forall|i: int|
        0 <= i < server.container_id.len() ==> !is_white_space(#[trigger] server.container_id[i])
}

proof fn lemma_listed_line(server: AdoptedView)
    requires
        is_listable(server),
    ensures
        listed_server(listed_line(server)) == Some(server),
        forall|i: int|
            0 <= i < listed_line(server).len() ==> #[trigger] listed_line(server)[i] != '\n',
        without_cr(listed_line(server)) == listed_line(server),
{
    let tab = Separator::Char('\t');
    let empty = Seq::<char>::empty();
    let id = server.container_id;
    let port = decimal(server.port as nat);
    lemma_decimal_reads_back(server.port as nat);
    law_decimal_parses_back(server.port as nat, u16::MAX as nat);
    assert forall|i: int| 0 <= i < port.len() implies !is_white_space(#[trigger] port[i]) by {
        assert(is_digit(port[i]));
    }

    lemma_pieces_grow(empty, id, tab);
    assert(empty + id == id);
    assert(pieces(id, tab) == seq![id]);
    lemma_pieces_start_anew(id, '\t', tab);
    let first = id.push('\t');
    lemma_pieces_grow(first, server.ds_id, tab);
    assert(empty + server.ds_id == server.ds_id);
    assert(pieces(first + server.ds_id, tab) == seq![id, server.ds_id]);
    lemma_pieces_start_anew(first + server.ds_id, '\t', tab);
    let second = (first + server.ds_id).push('\t');
    assert(second == first + server.ds_id.push('\t'));
    lemma_pieces_grow(second, port, tab);
    assert(empty + port == port);
    assert(pieces(listed_line(server), tab) == seq![id, server.ds_id, port]);

    let line = listed_line(server);
    assert(line.last() == port.last());
    assert(!is_white_space(port[port.len() - 1]));
    assert forall|i: int| 0 <= i < line.len() implies #[trigger] line[i] != '\n' by {
        if i < id.len() {
            assert(line[i] == id[i]);
        } else if id.len() < i < first.len() + server.ds_id.len() {
            assert(line[i] == server.ds_id[i - first.len()]);
        } else if i >= second.len() {
            assert(line[i] == port[i - second.len()]);
        }
    }
    assert(listed_server(line) == Some(server));
}

proof fn lemma_listing(servers: Seq<AdoptedView>)
    requires
        forall|i: int| 0 <= i < servers.len() ==> is_listable(#[trigger] servers[i]),
    ensures
        pieces(listing(servers), Separator::Char('\n')) == servers.map_values(
            |s: AdoptedView| listed_line(s),
        ).push(Seq::empty()),
    decreases servers.len(),
{
    let sep = Separator::Char('\n');
    let empty = Seq::<char>::empty();
    let line = |s: AdoptedView| listed_line(s);
    if servers.len() == 0 {
        assert(servers.map_values(line).push(empty) == seq![empty]);
    } else {
        let before = servers.drop_last();
        let last = listed_line(servers.last());
        lemma_listing(before);
        assert(is_listable(servers[servers.len() - 1]));
        lemma_listed_line(servers.last());
        lemma_pieces_grow(listing(before), last, sep);
        assert(empty + last == last);
        lemma_pieces_start_anew(listing(before) + last, '\n', sep);
        assert((listing(before) + last).push('\n') == listing(servers));
        assert(before.map_values(line).push(last) == servers.map_values(line));
    }
}

proof fn lemma_listed_lines(servers: Seq<AdoptedView>)
    requires
        forall|i: int| 0 <= i < servers.len() ==> is_listable(#[trigger] servers[i]),
    ensures
        listed_servers(servers.map_values(|s: AdoptedView| listed_line(s))) == servers,
    decreases servers.len(),
{
    let line = |s: AdoptedView| listed_line(s);
    if servers.len() > 0 {
        let before = servers.drop_last();
        lemma_listed_lines(before);
        assert(is_listable(servers[servers.len() - 1]));
        lemma_listed_line(servers.last());
        assert(servers.map_values(line).drop_last() == before.map_values(line));
        assert(before.push(servers.last()) == servers);
    }
}

/// The containers that were started here for dedicated servers are found again, each with
/// its server and its port, by what is printed for them.
pub proof fn law_started_servers_are_found_again(servers: Seq<AdoptedView>)
    requires
        forall|i: int| 0 <= i < servers.len() ==> is_listable(#[trigger] servers[i]),
    ensures
        listed_servers(lines(listing(servers))) == servers,
{
    let line = |s: AdoptedView| listed_line(s);
    lemma_listing(servers);
    lemma_listed_lines(servers);
    assert forall|i: int| 0 <= i < servers.len() implies without_cr(
        #[trigger] servers.map_values(line)[i],
    ) == servers.map_values(line)[i] by {
        assert(is_listable(servers[i]));
        lemma_listed_line(servers[i]);
    }
    assert(lines(listing(servers)) == servers.map_values(line));
}

/// A container of this host is started for the server that is asked for, with what the server
/// is to be told, from the image and on the network of the spawner.
pub proof fn law_local_container_is_started(
    spawner: LocalDockerSpawner,
    ds_id: &str,
    port: u16,
    env: SpawnEnv,
    args: Vec<String>,
)
    requires
        call_ensures(LocalDockerSpawner::spawn_args, (&spawner, ds_id, port, &env), args),
    ensures
        starts_server(
            args.deep_view(),
            spawner.network@,
            true,
            ds_id@,
            port,
            (
                env.ds_zone@,
                env.ds_max_players,
                env.ds_advertise_host@,
                env.orch_host@,
                env.orch_port,
                env.redis_url@,
            ),
            spawner.image@,
        ),
{
    law_run_arguments_start_the_server(local_run(spawner, ds_id@, port, env));
}

/// A server counts as started exactly if the command could be run, ended well and printed
/// text; it then runs on this host, in the container that was printed. Otherwise what went
/// wrong is passed on.
pub proof fn law_command_decides_about_the_start(
    output: Result<CommandOutput, String>,
    location: Result<Location, String>,
)
    requires
        call_ensures(LocalDockerSpawner::spawned, (output,), location),
    ensures
        location is Ok <==> output is Ok && output->Ok_0.success && valid_utf8(
            output->Ok_0.stdout@,
        ),
        location matches Ok(l) ==> l.host@ == "localhost"@ && l.container_id@ == trimmed(
            decode_utf8(output->Ok_0.stdout@),
        ),
        output matches Err(why) ==> location->Err_0@ == "could not invoke docker CLI: "@ + why@,
        output matches Ok(o) ==> (!o.success ==> location->Err_0@ == "docker run exit "@ + o.status@
            + ": stderr="@ + quoted(trimmed(lossy(o.stderr@))) + " stdout="@ + quoted(
            trimmed(lossy(o.stdout@)),
        )),
        output matches Ok(o) ==> (o.success && !valid_utf8(o.stdout@) ==> location->Err_0@
            == utf8_complaint(o.stdout@)),
{
}

/// A server is looked for by the label with its identifier. It runs on this host exactly if
/// something was printed, which then is its container; that container is the one that is
/// removed.
pub proof fn law_local_container_is_located_and_removed(
    ds_id: &str,
    args: Vec<String>,
    stdout: Vec<u8>,
    location: Option<Location>,
    place: Location,
    kill: Vec<String>,
)
    requires
        call_ensures(LocalDockerSpawner::locate_args, (ds_id,), args),
        call_ensures(LocalDockerSpawner::located, (&stdout,), location),
        call_ensures(LocalDockerSpawner::kill_args, (&place,), kill),
    ensures
        args.deep_view() == seq!["ps"@, "-q"@, "--filter"@, "label="@ + ("mmorpg.ds_id="@ + ds_id@)],
        location is Some <==> trimmed(lossy(stdout@)).len() > 0,
        location matches Some(l) ==> l.host@ == "localhost"@ && l.container_id@ == trimmed(
            lossy(stdout@),
        ),
        kill.deep_view() == seq!["rm"@, "-f"@, place.container_id@],
{
}

/// Every line of a list counts on its own, and the servers keep the order of the lines.
pub proof fn law_lines_are_read_one_by_one(a: Seq<Seq<char>>, line: Seq<char>, b: Seq<Seq<char>>)
    ensures
        listed_servers(a.push(line) + b) == listed_servers(a) + (match listed_server(line) {
            Some(server) => seq![server],
            None => Seq::empty(),
        }) + listed_servers(b),
        listed_servers(Seq::empty()) == Seq::<AdoptedView>::empty(),
    decreases b.len(),
{
    let mid = match listed_server(line) {
        Some(server) => seq![server],
        None => Seq::empty(),
    };
    if b.len() == 0 {
        assert(a.push(line) + b == a.push(line));
        assert(a.push(line).drop_last() == a);
        assert(listed_servers(a.push(line)) == listed_servers(a) + mid + listed_servers(b));
    } else {
        law_lines_are_read_one_by_one(a, line, b.drop_last());
        assert((a.push(line) + b).drop_last() == a.push(line) + b.drop_last());
        assert(listed_servers(a.push(line) + b) == listed_servers(a) + mid + listed_servers(b));
    }
}

/// A line names a server exactly if two tabs part it into a container, a server and a port:
/// neither name is empty without the white space around it, and the port is a number.
pub proof fn law_line_names_a_server(line: Seq<char>, server: AdoptedView)
    ensures
        listed_server(line) == Some(server) <==> {
            let parts = pieces(line, Separator::Char('\t'));
            &&& parts.len() == 3
            &&& server.container_id == trimmed(parts[0]) && server.container_id.len() > 0
            &&& server.ds_id == trimmed(parts[1]) && server.ds_id.len() > 0
            &&& parsed(trimmed(parts[2]), 65535) == Some(server.port as nat)
            &&& server.host == "localhost"@
        },
{
    let parts = pieces(line, Separator::Char('\t'));
    if let Some(n) = parsed(trimmed(parts[2]), 65535) {
        law_only_digits_spell_a_number(trimmed(parts[2]), 65535, n);
    }
}

/// The servers of this host are listed with all that it takes to find them again. A command
/// that ended badly lists none, and says why.
pub proof fn law_local_servers_are_listed(
    args: Vec<String>,
    output: CommandOutput,
    servers: Result<Vec<AdoptedDs>, String>,
)
    requires
        call_ensures(LocalDockerSpawner::list_args, (), args),
        call_ensures(LocalDockerSpawner::listed, (&output,), servers),
    ensures
        args.deep_view() == seq![
            "ps"@,
            "--filter"@,
            "label=mmorpg.role=ds"@,
            "--format"@,
            "{{.ID}}\t{{.Label \"mmorpg.ds_id\"}}\t{{.Label \"mmorpg.ds_port\"}}"@,
        ],
        servers is Ok <==> output.success,
        servers matches Ok(found) ==> found.deep_view() == listed_servers(
            lines(lossy(output.stdout@)),
        ),
        servers matches Err(e) ==> e@ == "docker ps failed: "@ + lossy(output.stderr@),
{
}

/// What is known of a server that was found leaves nothing out, and it is the one that its line
/// names.
pub proof fn law_found_server_is_told_whole(
    line: &str,
    found: Option<AdoptedDs>,
    server: AdoptedDs,
)
    requires
        call_ensures(read_listed_server, (line,), found),
    ensures
        found.deep_view() == listed_server(line@),
        server.deep_view() == server@,
        server@.ds_id == server.ds_id@,
        server@.port == server.port,
        server@.host == server.location.host@,
        server@.container_id == server.location.container_id@,
{
}

} // verus!
