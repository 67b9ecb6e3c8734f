//! Containers and the command line that starts, finds and stops them.

use crate::boundary::exact_text;
use crate::boundary::lossy;
use crate::boundary::lossy_text;
use crate::boundary::utf8_complaint;
use crate::numbers::decimal;
use crate::numbers::to_decimal;
use crate::text::join2;
use crate::text::join3;
use crate::text::no_texts;
use crate::text::push_joined;
use crate::text::push_text;
use crate::text::trim;
use crate::text::trimmed;
use vstd::prelude::*;
use vstd::utf8::decode_utf8;
use vstd::utf8::valid_utf8;

verus! {

/// What a command left behind.
#[derive(Debug)]
pub struct CommandOutput {
    /// Whether it ended well.
    pub success: bool,
    /// How it ended, in words.
    pub status: String,
    pub stdout: Vec<u8>,
    pub stderr: Vec<u8>,
}

/// What a container is started with.
#[derive(Debug)]
pub struct RunParams<'a> {
    pub network: &'a str,
    /// Whether the container is labelled with its port.
    pub label_port: bool,
    pub ds_id: &'a str,
    pub port: u16,
    pub zone: &'a str,
    pub max_players: usize,
    pub advertise_host: &'a str,
    pub orch_host: &'a str,
    pub orch_port: u16,
    pub redis_url: &'a str,
    pub image: &'a str,
}

/// What [`RunParams`] say.
#[verifier::ext_equal]
pub struct RunView {
    pub network: Seq<char>,
    pub label_port: bool,
    pub ds_id: Seq<char>,
    pub port: u16,
    pub zone: Seq<char>,
    pub max_players: usize,
    pub advertise_host: Seq<char>,
    pub orch_host: Seq<char>,
    pub orch_port: u16,
    pub redis_url: Seq<char>,
    pub image: Seq<char>,
}

impl<'a> View for RunParams<'a> {
    type V = RunView;

    open spec fn view(&self) -> RunView {
        RunView {
            network: self.network@,
            label_port: self.label_port,
            ds_id: self.ds_id@,
            port: self.port,
            zone: self.zone@,
            max_players: self.max_players,
            advertise_host: self.advertise_host@,
            orch_host: self.orch_host@,
            orch_port: self.orch_port,
            redis_url: self.redis_url@,
            image: self.image@,
        }
    }
}

/// The label that all containers of dedicated servers carry.
pub open spec fn role_label() -> Seq<char> {
    "mmorpg.role=ds"@
}

/// A port of the host and the same port of the container, for datagrams.
pub open spec fn port_mapping(port: u16) -> Seq<char> {
    decimal(port as nat) + ":"@ + decimal(port as nat) + "/udp"@
}

/// The arguments that start a container in the background, which is removed when it ends.
pub open spec fn run_args(p: RunView) -> Seq<Seq<char>> {
    let front = seq![
        "run"@,
        "-d"@,
        "--rm"@,
        "--network"@,
        p.network,
        "-p"@,
        port_mapping(p.port),
        "--label"@,
        role_label(),
        "--label"@,
        "mmorpg.ds_id="@ + p.ds_id,
    ];
    let label = if p.label_port {
        seq!["--label"@, "mmorpg.ds_port="@ + decimal(p.port as nat)]
    } else {
        Seq::empty()
    };
    let back = seq![
        "-e"@,
        "DS_ID="@ + p.ds_id,
        "-e"@,
        "DS_PORT="@ + decimal(p.port as nat),
        "-e"@,
        "DS_ZONE="@ + p.zone,
        "-e"@,
        "DS_MAX_PLAYERS="@ + decimal(p.max_players as nat),
        "-e"@,
        "DS_ADVERTISE_HOST="@ + p.advertise_host,
        "-e"@,
        "ORCH_HOST="@ + p.orch_host,
        "-e"@,
        "ORCH_PORT="@ + decimal(p.orch_port as nat),
        "-e"@,
        "REDIS_URL="@ + p.redis_url,
        p.image,
    ];
    front + label + back
}

/// The arguments that start a container.
pub fn make_run_args(p: &RunParams) -> (args: Vec<String>)
    ensures
        args.deep_view() == run_args(p@),
{
    let port = to_decimal(p.port as u64);
    let mapping = join2(join3(port.as_str(), ":", port.as_str()).as_str(), "/udp");
    let mut args = no_texts();
    push_text(&mut args, "run");
    push_text(&mut args, "-d");
    push_text(&mut args, "--rm");
    push_text(&mut args, "--network");
    push_text(&mut args, p.network);
    push_text(&mut args, "-p");
    push_text(&mut args, mapping.as_str());
    push_text(&mut args, "--label");
    push_text(&mut args, "mmorpg.role=ds");
    push_text(&mut args, "--label");
    push_joined(&mut args, "mmorpg.ds_id=", p.ds_id);
    if p.label_port {
        push_text(&mut args, "--label");
        push_joined(&mut args, "mmorpg.ds_port=", port.as_str());
    }
    push_text(&mut args, "-e");
    push_joined(&mut args, "DS_ID=", p.ds_id);
    push_text(&mut args, "-e");
    push_joined(&mut args, "DS_PORT=", port.as_str());
    push_text(&mut args, "-e");
    push_joined(&mut args, "DS_ZONE=", p.zone);
    push_text(&mut args, "-e");
    push_joined(&mut args, "DS_MAX_PLAYERS=", to_decimal(p.max_players as u64).as_str());
    push_text(&mut args, "-e");
    push_joined(&mut args, "DS_ADVERTISE_HOST=", p.advertise_host);
    push_text(&mut args, "-e");
    push_joined(&mut args, "ORCH_HOST=", p.orch_host);
    push_text(&mut args, "-e");
    push_joined(&mut args, "ORCH_PORT=", to_decimal(p.orch_port as u64).as_str());
    push_text(&mut args, "-e");
    push_joined(&mut args, "REDIS_URL=", p.redis_url);
    push_text(&mut args, p.image);
    assert(args.deep_view() == run_args(p@));
    args
}

/// The arguments that list the identifiers of the running containers with a label.
pub open spec fn find_args(label: Seq<char>) -> Seq<Seq<char>> {
    seq!["ps"@, "-q"@, "--filter"@, "label="@ + label]
}

/// The arguments that list the identifiers of the running containers with a label.
pub fn make_find_args(label: &str) -> (args: Vec<String>)
    ensures
        args.deep_view() == find_args(label@),
{
    let mut args = no_texts();
    push_text(&mut args, "ps");
    push_text(&mut args, "-q");
    push_text(&mut args, "--filter");
    push_joined(&mut args, "label=", label);
    assert(args.deep_view() == find_args(label@));
    args
}

/// What a command printed, trimmed.
pub open spec fn printed(stdout: Seq<u8>) -> Seq<char> {
    trimmed(lossy(stdout))
}

/// What a command printed, trimmed.
pub fn printed_text(stdout: &Vec<u8>) -> (text: String)
    ensures
        text@ == printed(stdout@),
{
    trim(lossy_text(stdout).as_str())
}

/// The container that a command says it started: what it printed, trimmed, where that is
/// text, and the words of the error where it is not.
pub open spec fn started_container(stdout: Seq<u8>) -> Result<Seq<char>, Seq<char>> {
    if valid_utf8(stdout) {
        Ok(trimmed(decode_utf8(stdout)))
    } else {
        Err(utf8_complaint(stdout))
    }
}

/// The container that a command says it started.
pub fn read_started_container(stdout: Vec<u8>) -> (id: Result<String, String>)
    ensures
        match id {
            Ok(id) => started_container(stdout@) == Ok::<Seq<char>, Seq<char>>(id@),
            Err(e) => started_container(stdout@) == Err::<Seq<char>, Seq<char>>(e@),
        },
{
    match exact_text(stdout) {
        Ok(text) => Ok(trim(text.as_str())),
        Err(e) => Err(e),
    }
}

// ---- laws ----

/// Whether `value` stands right behind `option` in `args`.
pub open spec fn has_option(args: Seq<Seq<char>>, option: Seq<char>, value: Seq<char>) -> bool {
    exists|i: int| 0 <= i < args.len() - 1 && #[trigger] args[i] == option && args[i + 1] == value
}

/// Whether `args` start a container in the background on the network and with the port that
/// were asked for, with the labels by which it is found again, whose server is told its
/// identifier, its port, its zone, its room, the host that it is reached by, where the
/// orchestrator listens and where the store is. Nothing else is passed on, and the image comes
/// last.
pub open spec fn starts_server(
    args: Seq<Seq<char>>,
    network: Seq<char>,
    label_port: bool,
    ds_id: Seq<char>,
    port: u16,
    told: (Seq<char>, usize, Seq<char>, Seq<char>, u16, Seq<char>),
    image: Seq<char>,
) -> bool {
    let (zone, max_players, advertise_host, orch_host, orch_port, redis_url) = told;
    let p = decimal(port as nat);
    &&& args.len() == if label_port {
        30int
    } else {
        28int
    }
    &&& args[0] == "run"@ && args[1] == "-d"@ && args[2] == "--rm"@
    &&& args.last() == image
    &&& has_option(args, "--network"@, network)
    &&& has_option(args, "-p"@, p + ":"@ + p + "/udp"@)
    &&& has_option(args, "--label"@, "mmorpg.role=ds"@)
    &&& has_option(args, "--label"@, "mmorpg.ds_id="@ + ds_id)
    &&& label_port ==> has_option(args, "--label"@, "mmorpg.ds_port="@ + p)
    &&& has_option(args, "-e"@, "DS_ID="@ + ds_id)
    &&& has_option(args, "-e"@, "DS_PORT="@ + p)
    &&& has_option(args, "-e"@, "DS_ZONE="@ + zone)
    &&& has_option(args, "-e"@, "DS_MAX_PLAYERS="@ + decimal(max_players as nat))
    &&& has_option(args, "-e"@, "DS_ADVERTISE_HOST="@ + advertise_host)
    &&& has_option(args, "-e"@, "ORCH_HOST="@ + orch_host)
    &&& has_option(args, "-e"@, "ORCH_PORT="@ + decimal(orch_port as nat))
    &&& has_option(args, "-e"@, "REDIS_URL="@ + redis_url)
}

/// The arguments that start a container start the server that is asked for.
pub proof fn law_run_arguments_start_the_server(p: RunView)
    ensures
        starts_server(
            run_args(p),
            p.network,
            p.label_port,
            p.ds_id,
            p.port,
            (p.zone, p.max_players, p.advertise_host, p.orch_host, p.orch_port, p.redis_url),
            p.image,
        ),
{
    let a = run_args(p);
    let k: int = if p.label_port {
        2
    } else {
        0
    };
    assert(a[3] == "--network"@);
    assert(a[5] == "-p"@);
    assert(a[7] == "--label"@);
    assert(a[9] == "--label"@);
    assert(a[11] == "--label"@ || !p.label_port);
    assert(a[11 + k] == "-e"@);
    assert(a[13 + k] == "-e"@);
    assert(a[15 + k] == "-e"@);
    assert(a[17 + k] == "-e"@);
    assert(a[19 + k] == "-e"@);
    assert(a[21 + k] == "-e"@);
    assert(a[23 + k] == "-e"@);
    assert(a[25 + k] == "-e"@);
    assert(a[12 + k] == "DS_ID="@ + p.ds_id);
    assert(a[14 + k] == "DS_PORT="@ + decimal(p.port as nat));
    assert(a[16 + k] == "DS_ZONE="@ + p.zone);
    assert(a[18 + k] == "DS_MAX_PLAYERS="@ + decimal(p.max_players as nat));
    assert(a[20 + k] == "DS_ADVERTISE_HOST="@ + p.advertise_host);
    assert(a[22 + k] == "ORCH_HOST="@ + p.orch_host);
    assert(a[24 + k] == "ORCH_PORT="@ + decimal(p.orch_port as nat));
    assert(a[26 + k] == "REDIS_URL="@ + p.redis_url);
}

/// The same, of the arguments that are made.
pub proof fn law_container_is_told_everything(p: RunParams, args: Vec<String>)
    requires
        call_ensures(make_run_args, (&p,), args),
    ensures
        starts_server(
            args.deep_view(),
            p.network@,
            p.label_port,
            p.ds_id@,
            p.port,
            (
                p.zone@,
                p.max_players,
                p.advertise_host@,
                p.orch_host@,
                p.orch_port,
                p.redis_url@,
            ),
            p.image@,
        ),
{
    law_run_arguments_start_the_server(p@);
}

/// Running containers are looked for by the label alone.
pub proof fn law_containers_are_found_by_label(label: &str, args: Vec<String>)
    requires
        call_ensures(make_find_args, (label,), args),
    ensures
        args.len() == 4,
        args[0]@ == "ps"@ && args[1]@ == "-q"@,
        args[2]@ == "--filter"@ && args[3]@ == "label="@ + label@,
{
    let a = args.deep_view();
    assert(a == find_args(label@));
    assert(a.len() == args.len());
    assert(a[0] == args[0]@ && a[1] == args[1]@ && a[2] == args[2]@ && a[3] == args[3]@);
}

/// A container that was started is what the command printed, without the white space around
/// it. Bytes that are no text start none, and the complaint about them is passed on.
pub proof fn law_started_container_is_what_was_printed(stdout: Vec<u8>, id: Result<String, String>)
    requires
        call_ensures(read_started_container, (stdout,), id),
    ensures
        id is Ok <==> valid_utf8(stdout@),
        id matches Ok(id) ==> id@ == trimmed(decode_utf8(stdout@)),
        id matches Err(e) ==> e@ == utf8_complaint(stdout@),
{
}

} // verus!
