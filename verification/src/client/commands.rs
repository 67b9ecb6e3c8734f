//! What is typed at the prompt, and what is printed.

use crate::numbers::decimal;
use crate::numbers::law_decimal_is_injective;
use crate::numbers::parse_usize;
use crate::numbers::parsed;
use crate::numbers::to_decimal;
use crate::text::join2;
use crate::text::join3;
use crate::text::no_texts;
use crate::text::push_text;
use crate::text::same_text;
use crate::text::split_words;
use crate::text::trim;
use crate::text::trimmed;
use crate::text::words;
use vstd::prelude::*;
use vstd::seq_lib::group_to_multiset_ensures;

verus! {

// ---- commands ----

/// How a player is to go.
#[derive(Debug, Clone, Copy, PartialEq, Eq, Structural)]
pub enum ClientCmd {
    /// With a word to the server.
    Leave,
    /// Without.
    Crash,
}

impl ClientCmd {
    /// The name of the command as a programmer writes it.
    pub open spec fn name(self) -> Seq<char> {
        match self {
            ClientCmd::Leave => "Leave"@,
            ClientCmd::Crash => "Crash"@,
        }
    }

    /// The word that is typed for it.
    pub open spec fn keyword(self) -> Seq<char> {
        match self {
            ClientCmd::Leave => "quit"@,
            ClientCmd::Crash => "crash"@,
        }
    }

    fn to_name(self) -> (name: &'static str)
        ensures
            name@ == self.name(),
    {
        match self {
            ClientCmd::Leave => "Leave",
            ClientCmd::Crash => "Crash",
        }
    }

    fn to_keyword(self) -> (word: &'static str)
        ensures
            word@ == self.keyword(),
    {
        match self {
            ClientCmd::Leave => "quit",
            ClientCmd::Crash => "crash",
        }
    }
}

/// What is typed at the prompt.
#[derive(Debug)]
pub enum Command {
    /// An empty line.
    Nothing,
    /// So many players more, with names on this base.
    Spawn { count: usize, base: Option<String> },
    List,
    /// A player, or all, to go.
    Disconnect { target: String, cmd: ClientCmd },
    Help,
    Exit,
    Unknown,
}

/// What a [`Command`] says.
pub enum CommandView {
    Nothing,
    Spawn { count: nat, base: Option<Seq<char>> },
    List,
    Disconnect { target: Seq<char>, cmd: ClientCmd },
    Help,
    Exit,
    Unknown,
}

impl View for Command {
    type V = CommandView;

    open spec fn view(&self) -> CommandView {
        match self {
            Command::Nothing => CommandView::Nothing,
            Command::Spawn { count, base } => CommandView::Spawn {
                count: *count as nat,
                base: base.deep_view(),
            },
            Command::List => CommandView::List,
            Command::Disconnect { target, cmd } => CommandView::Disconnect {
                target: target@,
                cmd: *cmd,
            },
            Command::Help => CommandView::Help,
            Command::Exit => CommandView::Exit,
            Command::Unknown => CommandView::Unknown,
        }
    }
}

/// The word number `i`, where there are so many.
pub open spec fn word_at(parts: Seq<Seq<char>>, i: int) -> Option<Seq<char>> {
    if i < parts.len() {
        Some(parts[i])
    } else {
        None
    }
}

/// The number that the text spells, or 1.
pub open spec fn number_or_one(text: Option<Seq<char>>) -> nat {
    match text {
        Some(text) => match parsed(text, usize::MAX as nat) {
            Some(n) => n,
            None => 1,
        },
        None => 1,
    }
}

/// What the words of a line ask for.
pub open spec fn meaning(parts: Seq<Seq<char>>) -> CommandView {
    let target = match word_at(parts, 1) {
        Some(target) => target,
        None => Seq::empty(),
    };
    if parts.len() == 0 {
        CommandView::Nothing
    } else if parts[0] == "spawn"@ {
        CommandView::Spawn {
            count: number_or_one(word_at(parts, 1)),
            base: word_at(parts, 2),
        }
    } else if parts[0] == "list"@ {
        CommandView::List
    } else if parts[0] == "quit"@ {
        CommandView::Disconnect { target, cmd: ClientCmd::Leave }
    } else if parts[0] == "crash"@ {
        CommandView::Disconnect { target, cmd: ClientCmd::Crash }
    } else if parts[0] == "help"@ || parts[0] == "?"@ {
        CommandView::Help
    } else if parts[0] == "exit"@ {
        CommandView::Exit
    } else {
        CommandView::Unknown
    }
}

fn word(parts: &Vec<String>, i: usize) -> (text: Option<String>)
    ensures
        text.deep_view() == word_at(parts.deep_view(), i as int),
{
    if i < parts.len() {
        assert(parts.deep_view()[i as int] == parts[i as int]@);
        Some(parts[i].clone())
    } else {
        None
    }
}

fn word_or_empty(parts: &Vec<String>, i: usize) -> (text: String)
    ensures
        text@ == (match word_at(parts.deep_view(), i as int) {
            Some(text) => text,
            None => Seq::empty(),
        }),
{
    match word(parts, i) {
        Some(text) => text,
        None => String::new(),
    }
}

/// What a line asks for.
pub fn parse_command(line: &str) -> (command: Command)
    ensures
        command@ == meaning(words(trimmed(line@))),
{
    let parts = split_words(trim(line).as_str());
    if parts.len() == 0 {
        return Command::Nothing;
    }
    assert(parts.deep_view()[0] == parts[0]@);
    let first = parts[0].as_str();
    if same_text(first, "spawn") {
        let count: usize = match word(&parts, 1) {
            Some(text) => match parse_usize(text.as_str()) {
                Some(n) => n,
                None => 1,
            },
            None => 1,
        };
        Command::Spawn { count, base: word(&parts, 2) }
    } else if same_text(first, "list") {
        Command::List
    } else if same_text(first, "quit") {
        Command::Disconnect { target: word_or_empty(&parts, 1), cmd: ClientCmd::Leave }
    } else if same_text(first, "crash") {
        Command::Disconnect { target: word_or_empty(&parts, 1), cmd: ClientCmd::Crash }
    } else if same_text(first, "help") || same_text(first, "?") {
        Command::Help
    } else if same_text(first, "exit") {
        Command::Exit
    } else {
        Command::Unknown
    }
}

/// The name of player number `id` of `count` that were asked for: the base and the number;
/// but a single player without a base of its own is called by the default alone.
pub open spec fn player_name(
    count: nat,
    base: Option<Seq<char>>,
    default: Seq<char>,
    id: nat,
) -> Seq<char> {
    match base {
        None if count == 1 => default,
        None => default + "_"@ + decimal(id),
        Some(base) => base + "_"@ + decimal(id),
    }
}

/// The name of player number `id` of `count` that were asked for.
pub fn make_player_name(count: usize, base: &Option<String>, default: &str, id: usize) -> (name:
    String)
    ensures
        name@ == player_name(count as nat, base.deep_view(), default@, id as nat),
{
    match base {
        Some(base) => join3(base.as_str(), "_", to_decimal(id as u64).as_str()),
        None => if count == 1 {
            default.to_owned()
        } else {
            join3(default, "_", to_decimal(id as u64).as_str())
        },
    }
}

// ---- the list of players ----

/// A player who is on a server.
#[derive(Debug)]
pub struct ClientRow {
    pub id: usize,
    pub username: String,
    pub server_ip: String,
    pub server_port: u16,
}

/// `text` with spaces behind it, up to `width` characters.
pub open spec fn padded(text: Seq<char>, width: int) -> Seq<char>
    decreases width - text.len(),
{
    if text.len() < width {
        padded(text.push(' '), width)
    } else {
        text
    }
}

/// The line that stands for a player in the list.
pub open spec fn row_line(row: ClientRow) -> Seq<char> {
    "  #"@ + padded(decimal(row.id as nat), 3) + " "@ + padded(row.username@, 20) + " → "@
        + row.server_ip@ + ":"@ + decimal(row.server_port as nat)
}

fn pad(text: &str, width: usize) -> (res: String)
    ensures
        res@ == padded(text@, width as int),
{
    let mut len: usize = crate::text::chars_of(text).len();
    let mut res = text.to_owned();
    while len < width
        invariant
            len == res@.len(),
            padded(res@, width as int) == padded(text@, width as int),
        decreases width - len,
    {
        res.push(' ');
        len = len + 1;
    }
    res
}

fn make_row_line(row: &ClientRow) -> (line: String)
    ensures
        line@ == row_line(*row),
{
    let id = pad(to_decimal(row.id as u64).as_str(), 3);
    let name = pad(row.username.as_str(), 20);
    let front = join3("  #", id.as_str(), " ");
    let middle = join3(front.as_str(), name.as_str(), " → ");
    let address = join3(middle.as_str(), row.server_ip.as_str(), ":");
    join2(address.as_str(), to_decimal(row.server_port as u64).as_str())
}

/// Whether the rows stand in the order of their numbers.
pub open spec fn in_order(rows: Seq<ClientRow>) -> bool {
    forall|i: int, j: int|
        0 <= i <= j < rows.len() ==> (#[trigger] rows[i]).id <= (#[trigger] rows[j]).id
}

/// Puts the rows in the order of their numbers.
pub fn sort_rows(rows: Vec<ClientRow>) -> (sorted: Vec<ClientRow>)
    ensures
        in_order(sorted@),
        sorted@.to_multiset() == rows@.to_multiset(),
{
    broadcast use group_to_multiset_ensures;

    let ghost all = rows@;
    let mut rest = rows;
    let mut sorted: Vec<ClientRow> = Vec::new();
    assert(sorted@.to_multiset().add(rest@.to_multiset()) =~= all.to_multiset());
    while rest.len() > 0
        invariant
            in_order(sorted@),
            sorted@.to_multiset().add(rest@.to_multiset()) =~= all.to_multiset(),
        decreases rest.len(),
    {
        let ghost before = sorted@;
        let ghost left = rest@;
        let row = match rest.pop() {
            Some(row) => row,
            None => {
                return sorted;
            },
        };
        let ghost one = row;
        assert(left == rest@.push(one));
        let mut at: usize = sorted.len();
        while at > 0 && sorted[at - 1].id > row.id
            invariant
                at <= sorted.len(),
                in_order(sorted@),
                forall|i: int| at <= i < sorted.len() ==> row.id < (#[trigger] sorted[i]).id,
            decreases at,
        {
            at = at - 1;
        }
        assert(forall|i: int|
            0 <= i < at ==> (#[trigger] sorted@[i]).id <= sorted@[at as int - 1].id);
        sorted.insert(at, row);
        assert(sorted@ == before.insert(at as int, one));
        assert(in_order(sorted@));
        proof {
            vstd::seq_lib::to_multiset_insert(before, at as int, one);
            vstd::seq_lib::to_multiset_build(rest@, one);
            assert(left.to_multiset() == rest@.to_multiset().insert(one));
        }
    }
    assert(rest@ =~= Seq::<ClientRow>::empty());
    sorted
}

/// Whether `lines` is the list of `rows`: a heading and a line for each, in the order of
/// their numbers; or one line that says that there are none.
pub open spec fn is_list_of(rows: Seq<ClientRow>, lines: Seq<Seq<char>>) -> bool {
    if rows.len() == 0 {
        lines == seq!["(no active clients)"@]
    } else {
        exists|sorted: Seq<ClientRow>|
            {
                &&& #[trigger] in_order(sorted)
                &&& sorted.to_multiset() == rows.to_multiset()
                &&& lines == seq!["active clients:"@] + sorted.map_values(
                    |row: ClientRow| row_line(row),
                )
            }
    }
}

/// The list of the players.
pub fn list_lines(rows: Vec<ClientRow>) -> (lines: Vec<String>)
    ensures
        is_list_of(rows@, lines.deep_view()),
{
    let mut lines = no_texts();
    if rows.len() == 0 {
        push_text(&mut lines, "(no active clients)");
        assert(lines.deep_view() == seq!["(no active clients)"@]);
        return lines;
    }
    let sorted = sort_rows(rows);
    push_text(&mut lines, "active clients:");
    let ghost head = seq!["active clients:"@];
    let mut i: usize = 0;
    assert(lines.deep_view() == head + sorted@.take(0).map_values(|row: ClientRow| row_line(row)));
    while i < sorted.len()
        invariant
            i <= sorted.len(),
            head.len() == 1,
            lines.deep_view() == head + sorted@.take(i as int).map_values(
                |row: ClientRow| row_line(row),
            ),
        decreases sorted.len() - i,
    {
        let ghost before = lines.deep_view();
        let line = make_row_line(&sorted[i]);
        push_text(&mut lines, line.as_str());
        assert(lines.deep_view() == head + sorted@.take(i as int + 1).map_values(
            |row: ClientRow| row_line(row),
        ));
        i = i + 1;
    }
    assert(sorted@.take(sorted@.len() as int) == sorted@);
    assert(in_order(sorted@));
    lines
}

// ---- letting players go ----

/// What is to be done about players who are to go.
#[derive(Debug)]
pub enum DisconnectPlan {
    /// Tell every player.
    All,
    /// Tell one player.
    One { id: usize },
    /// Tell nobody, and print this.
    Say { text: String },
}

/// What a [`DisconnectPlan`] says.
pub enum DisconnectView {
    All,
    One { id: nat },
    Say { text: Seq<char> },
}

impl View for DisconnectPlan {
    type V = DisconnectView;

    open spec fn view(&self) -> DisconnectView {
        match self {
            DisconnectPlan::All => DisconnectView::All,
            DisconnectPlan::One { id } => DisconnectView::One { id: *id as nat },
            DisconnectPlan::Say { text } => DisconnectView::Say { text: text@ },
        }
    }
}

/// What is to be done where `target` is to go and `ids` are there.
pub open spec fn disconnect_plan(
    target: Seq<char>,
    cmd: ClientCmd,
    ids: Seq<usize>,
) -> DisconnectView {
    if target == "all"@ {
        DisconnectView::All
    } else {
        match parsed(target, usize::MAX as nat) {
            Some(id) => if ids.contains(id as usize) {
                DisconnectView::One { id }
            } else {
                DisconnectView::Say { text: "no client with id #"@ + decimal(id) }
            },
            None => if target.len() == 0 {
                DisconnectView::Say { text: "usage: "@ + cmd.keyword() + " <id|all>"@ }
            } else {
                DisconnectView::Say { text: "invalid target: "@ + target }
            },
        }
    }
}

fn has_id(ids: &Vec<usize>, id: usize) -> (has: bool)
    ensures
        has == ids@.contains(id),
{
    let mut i: usize = 0;
    while i < ids.len()
        invariant
            i <= ids.len(),
            forall|j: int| 0 <= j < i ==> ids@[j] != id,
        decreases ids.len() - i,
    {
        if ids[i] == id {
            return true;
        }
        i = i + 1;
    }
    false
}

/// What is to be done where `target` is to go and `ids` are there.
pub fn disconnect(target: &str, cmd: ClientCmd, ids: &Vec<usize>) -> (plan: DisconnectPlan)
    ensures
        plan@ == disconnect_plan(target@, cmd, ids@),
{
    if same_text(target, "all") {
        return DisconnectPlan::All;
    }
    match parse_usize(target) {
        Some(id) => if has_id(ids, id) {
            DisconnectPlan::One { id }
        } else {
            DisconnectPlan::Say {
                text: join2("no client with id #", to_decimal(id as u64).as_str()),
            }
        },
        None => if target.is_empty() {
            DisconnectPlan::Say { text: join3("usage: ", cmd.to_keyword(), " <id|all>") }
        } else {
            DisconnectPlan::Say { text: join2("invalid target: ", target) }
        },
    }
}

/// What is printed for a player who is gone already.
pub fn gone_line(id: usize) -> (line: String)
    ensures
        line@ == "[#"@ + decimal(id as nat) + "] could not send (already gone)"@,
{
    join3("[#", to_decimal(id as u64).as_str(), "] could not send (already gone)")
}

/// What is printed when the players were told to go: all of them, or one.
pub fn sent_line(cmd: ClientCmd, to: Option<usize>) -> (line: String)
    ensures
        line@ == (match to {
            None => "(sent "@ + cmd.name() + " to all)"@,
            Some(id) => "(sent "@ + cmd.name() + " to #"@ + decimal(id as nat) + ")"@,
        }),
{
    match to {
        None => join3("(sent ", cmd.to_name(), " to all)"),
        Some(id) => {
            let front = join3("(sent ", cmd.to_name(), " to #");
            join3(front.as_str(), to_decimal(id as u64).as_str(), ")")
        },
    }
}

// ---- what players report ----

/// What a player reports.
#[derive(Debug)]
pub enum ClientEvent {
    Waiting { id: usize, username: String, message: String, elapsed_ms: u64 },
    Joined { id: usize, username: String, server_ip: String, server_port: u16 },
    LeftGracefully { id: usize },
    Crashed { id: usize },
    Errored { id: usize, err: String },
}

/// What a [`ClientEvent`] says.
pub enum EventView {
    Waiting { id: usize, username: Seq<char>, message: Seq<char>, elapsed_ms: u64 },
    Joined { id: usize, username: Seq<char>, server_ip: Seq<char>, server_port: u16 },
    LeftGracefully { id: usize },
    Crashed { id: usize },
    Errored { id: usize, err: Seq<char> },
}

impl View for ClientEvent {
    type V = EventView;

    open spec fn view(&self) -> EventView {
        match self {
            ClientEvent::Waiting { id, username, message, elapsed_ms } => EventView::Waiting {
                id: *id,
                username: username@,
                message: message@,
                elapsed_ms: *elapsed_ms,
            },
            ClientEvent::Joined { id, username, server_ip, server_port } => EventView::Joined {
                id: *id,
                username: username@,
                server_ip: server_ip@,
                server_port: *server_port,
            },
            ClientEvent::LeftGracefully { id } => EventView::LeftGracefully { id: *id },
            ClientEvent::Crashed { id } => EventView::Crashed { id: *id },
            ClientEvent::Errored { id, err } => EventView::Errored { id: *id, err: err@ },
        }
    }
}

/// The number in front of a line.
pub open spec fn tag(id: usize) -> Seq<char> {
    "[#"@ + decimal(id as nat) + "] "@
}

/// What is printed for a report.
pub open spec fn event_line(event: EventView) -> Seq<char> {
    match event {
        EventView::Waiting { id, username, message, elapsed_ms } => tag(id) + username
            + " waiting... "@ + message + " (elapsed "@ + decimal(elapsed_ms as nat) + "ms)"@,
        EventView::Joined { id, username, server_ip, server_port } => tag(id) + username
            + " joined → "@ + server_ip + ":"@ + decimal(server_port as nat),
        EventView::LeftGracefully { id } => tag(id) + "left gracefully"@,
        EventView::Crashed { id } => tag(id) + "crashed"@,
        EventView::Errored { id, err } => tag(id) + "ERROR: "@ + err,
    }
}

/// The player who is gone after a report, where one is.
pub open spec fn gone_after(event: EventView) -> Option<usize> {
    match event {
        EventView::LeftGracefully { id } => Some(id),
        EventView::Crashed { id } => Some(id),
        EventView::Errored { id, .. } => Some(id),
        _ => None,
    }
}

fn make_tag(id: usize) -> (text: String)
    ensures
        text@ == tag(id),
{
    join3("[#", to_decimal(id as u64).as_str(), "] ")
}

/// What is printed for a report, and the player who is gone after it, where one is.
pub fn print_event(event: &ClientEvent) -> (printed: (String, Option<usize>))
    ensures
        printed.0@ == event_line(event@),
        printed.1 == gone_after(event@),
{
    match event {
        ClientEvent::Waiting { id, username, message, elapsed_ms } => {
            let front = join3(make_tag(*id).as_str(), username.as_str(), " waiting... ");
            let middle = join3(front.as_str(), message.as_str(), " (elapsed ");
            (join3(middle.as_str(), to_decimal(*elapsed_ms).as_str(), "ms)"), None)
        },
        ClientEvent::Joined { id, username, server_ip, server_port } => {
            let front = join3(make_tag(*id).as_str(), username.as_str(), " joined → ");
            let middle = join3(front.as_str(), server_ip.as_str(), ":");
            (join2(middle.as_str(), to_decimal(*server_port as u64).as_str()), None)
        },
        ClientEvent::LeftGracefully { id } => (
            join2(make_tag(*id).as_str(), "left gracefully"),
            Some(*id),
        ),
        ClientEvent::Crashed { id } => (join2(make_tag(*id).as_str(), "crashed"), Some(*id)),
        ClientEvent::Errored { id, err } => (
            join3(make_tag(*id).as_str(), "ERROR: ", err.as_str()),
            Some(*id),
        ),
    }
}

// ---- laws ----

/// The first word of a line says what is asked for: players to be spawned, as many as the
/// second word says or one, on the base of the third; the list; players to leave or to crash,
/// named by the second word; help; or the end. A line without a word asks for nothing, any
/// other word is not known.
pub proof fn law_first_word_is_the_command(line: &str, command: Command)
    requires
        call_ensures(parse_command, (line,), command),
    ensures
        ({
            let parts = words(trimmed(line@));
            let first = parts[0];
            let some = parts.len() > 0;
            &&& command is Nothing <==> !some
            &&& command is Spawn <==> some && first == "spawn"@
            &&& command is List <==> some && first == "list"@
            &&& command is Help <==> some && (first == "help"@ || first == "?"@)
            &&& command is Exit <==> some && first == "exit"@
            &&& command is Disconnect <==> some && (first == "quit"@ || first == "crash"@)
            &&& command matches Command::Disconnect { target, cmd } ==> {
                &&& cmd == ClientCmd::Leave <==> first == "quit"@
                &&& parts.len() > 1 ==> target@ == parts[1]
                &&& parts.len() == 1 ==> target@.len() == 0
            }
            &&& command matches Command::Spawn { count, base } ==> {
                &&& parts.len() > 1 && parsed(parts[1], usize::MAX as nat) is Some ==> parsed(
                    parts[1],
                    usize::MAX as nat,
                ) == Some(count as nat)
                &&& parts.len() == 1 || parsed(parts[1], usize::MAX as nat) is None ==> count == 1
                &&& parts.len() > 2 ==> base is Some && base->0@ == parts[2]
                &&& parts.len() <= 2 ==> base is None
            }
        }),
{
    reveal_strlit("spawn");
    reveal_strlit("list");
    reveal_strlit("quit");
    reveal_strlit("crash");
    reveal_strlit("help");
    reveal_strlit("?");
    reveal_strlit("exit");
    assert("spawn"@[0] == 's');
    assert("list"@[0] == 'l');
    assert("quit"@[0] == 'q');
    assert("crash"@[0] == 'c');
    assert("help"@[0] == 'h');
    assert("?"@[0] == '?');
    assert("exit"@[0] == 'e');
    if let Command::Spawn { count, base } = command {
        if base is Some {
            assert(base.deep_view() == Some(base->0@));
        }
    }
}

/// A single player without a base is called by the default name; every other one by the base,
/// or the default where there is none, an underscore and the number, so that players with
/// different numbers have different names.
pub proof fn law_players_are_named(
    count: usize,
    base: Option<String>,
    default: &str,
    id: usize,
    name: String,
    other: usize,
    other_name: String,
)
    requires
        call_ensures(make_player_name, (count, &base, default, id), name),
        call_ensures(make_player_name, (count, &base, default, other), other_name),
    ensures
        base is None && count == 1 ==> name@ == default@,
        base is None && count != 1 ==> name@ == default@ + "_"@ + decimal(id as nat),
        base is Some ==> name@ == base->0@ + "_"@ + decimal(id as nat),
        (base is Some || count != 1) && id != other ==> name@ != other_name@,
{
    if base is Some {
        assert(base.deep_view() == Some(base->0@));
    }
    if (base is Some || count != 1) && id != other && name@ == other_name@ {
        let front = (match base {
            Some(base) => base@,
            None => default@,
        }) + "_"@;
        assert(name@ == front + decimal(id as nat));
        assert(other_name@ == front + decimal(other as nat));
        assert(name@.skip(front.len() as int) == decimal(id as nat));
        assert(other_name@.skip(front.len() as int) == decimal(other as nat));
        law_decimal_is_injective(id as nat, other as nat);
    }
}

proof fn lemma_padded(text: Seq<char>, width: int)
    ensures
        padded(text, width).len() == if text.len() < width {
            width
        } else {
            text.len() as int
        },
        padded(text, width).take(text.len() as int) == text,
        forall|i: int|
            text.len() <= i < padded(text, width).len() ==> #[trigger] padded(text, width)[i] == ' ',
    decreases width - text.len(),
{
    if text.len() < width {
        lemma_padded(text.push(' '), width);
        let whole = padded(text, width);
        assert(whole.take(text.len() as int + 1) == text.push(' '));
        assert(whole[text.len() as int] == text.push(' ')[text.len() as int]);
        assert(whole.take(text.len() as int) == text) by {
            assert forall|i: int| 0 <= i < text.len() implies #[trigger] whole[i] == text[i] by {
                assert(whole.take(text.len() as int + 1)[i] == text.push(' ')[i]);
            }
        }
    } else {
        assert(text.take(text.len() as int) == text);
    }
}

/// The line of a player gives the number, three wide, the name, twenty wide, and the server;
/// what is longer is not cut.
pub proof fn law_line_of_a_player(row: ClientRow)
    ensures
        exists|a: Seq<char>, b: Seq<char>|
            {
                &&& #[trigger] is_spaces(a) && #[trigger] is_spaces(b)
                &&& a.len() == if decimal(row.id as nat).len() < 3 {
                    3 - decimal(row.id as nat).len()
                } else {
                    0
                }
                &&& b.len() == if row.username@.len() < 20 {
                    20 - row.username@.len()
                } else {
                    0
                }
                &&& row_line(row) == "  #"@ + (decimal(row.id as nat) + a) + " "@ + (row.username@
                    + b) + " → "@ + row.server_ip@ + ":"@ + decimal(row.server_port as nat)
            },
{
    let id = decimal(row.id as nat);
    let name = row.username@;
    lemma_padded(id, 3);
    lemma_padded(name, 20);
    let a = padded(id, 3).skip(id.len() as int);
    let b = padded(name, 20).skip(name.len() as int);
    assert(padded(id, 3) == id + a);
    assert(padded(name, 20) == name + b);
    assert(is_spaces(a) && is_spaces(b));
}

/// Whether `s` holds spaces only.
pub open spec fn is_spaces(s: Seq<char>) -> bool {
    forall|i: int| 0 <= i < s.len() ==> #[trigger] s[i] == ' '
}

/// The list has a heading and a line for each player, and every line is that of a player; the
/// players come in the order of their numbers. Without players it says so.
pub proof fn law_list_shows_every_player(rows: Vec<ClientRow>, lines: Vec<String>, k: int)
    requires
        call_ensures(list_lines, (rows,), lines),
    ensures
        rows.len() == 0 ==> lines.deep_view() == seq!["(no active clients)"@],
        rows.len() > 0 ==> {
            let all = lines.deep_view();
            &&& all.len() == rows.len() + 1
            &&& all[0] == "active clients:"@
            &&& 0 <= k < rows.len() ==> all.contains(row_line(rows[k]))
            &&& exists|sorted: Seq<ClientRow>|
                {
                    &&& sorted.len() == rows.len()
                    &&& #[trigger] in_order(sorted)
                    &&& forall|i: int|
                        0 <= i < sorted.len() ==> rows@.contains(#[trigger] sorted[i]) && all[i + 1]
                            == row_line(sorted[i])
                }
        },
{
    broadcast use group_to_multiset_ensures;

    if rows.len() > 0 {
        let all = lines.deep_view();
        let sorted = choose|sorted: Seq<ClientRow>|
            {
                &&& #[trigger] in_order(sorted)
                &&& sorted.to_multiset() == rows@.to_multiset()
                &&& all == seq!["active clients:"@] + sorted.map_values(
                    |row: ClientRow| row_line(row),
                )
            };
        assert(sorted.len() == sorted.to_multiset().len());
        assert(rows@.len() == rows@.to_multiset().len());
        assert forall|i: int| 0 <= i < sorted.len() implies rows@.contains(#[trigger] sorted[i])
            && all[i + 1] == row_line(sorted[i]) by {
            assert(sorted.contains(sorted[i]));
            assert(sorted.to_multiset().count(sorted[i]) > 0);
            assert(rows@.to_multiset().count(sorted[i]) > 0);
        }
        if 0 <= k < rows.len() {
            let row = rows@[k];
            assert(rows@.contains(row));
            assert(rows@.to_multiset().count(row) > 0);
            assert(sorted.to_multiset().count(row) > 0);
            assert(sorted.contains(row));
            let i = choose|i: int| 0 <= i < sorted.len() && sorted[i] == row;
            assert(all[i + 1] == row_line(sorted[i]));
        }
    }
}

/// All players are told to go exactly if the word is `all`, and one exactly if the word spells
/// the number of one who is there. Otherwise nobody is told, and it is said why.
pub proof fn law_who_is_told_to_go(
    target: &str,
    cmd: ClientCmd,
    ids: Vec<usize>,
    plan: DisconnectPlan,
)
    requires
        call_ensures(disconnect, (target, cmd, &ids), plan),
    ensures
        plan is All <==> target@ == "all"@,
        plan matches DisconnectPlan::One { id } ==> ids@.contains(id) && parsed(
            target@,
            usize::MAX as nat,
        ) == Some(id as nat),
        target@ != "all"@ ==> (parsed(target@, usize::MAX as nat) matches Some(n) ==> {
            &&& ids@.contains(n as usize) ==> plan is One
            &&& !ids@.contains(n as usize) ==> (plan matches DisconnectPlan::Say { text } && text@
                == "no client with id #"@ + decimal(n))
        }),
        target@ != "all"@ && parsed(target@, usize::MAX as nat) is None && target@.len() > 0 ==> (
        plan matches DisconnectPlan::Say { text } && text@ == "invalid target: "@ + target@),
        target@.len() == 0 ==> (plan matches DisconnectPlan::Say { text } && text@ == "usage: "@ + (
        match cmd {
            ClientCmd::Leave => "quit"@,
            ClientCmd::Crash => "crash"@,
        }) + " <id|all>"@),
{
    reveal_strlit("all");
}

/// What is printed names the player, or all, and what they were told.
pub proof fn law_what_is_printed_of_orders(
    id: usize,
    gone: String,
    cmd: ClientCmd,
    to: Option<usize>,
    sent: String,
)
    requires
        call_ensures(gone_line, (id,), gone),
        call_ensures(sent_line, (cmd, to), sent),
    ensures
        gone@ == "[#"@ + decimal(id as nat) + "] could not send (already gone)"@,
        ({
            let order = match cmd {
                ClientCmd::Leave => "Leave"@,
                ClientCmd::Crash => "Crash"@,
            };
            &&& to is None ==> sent@ == "(sent "@ + order + " to all)"@
            &&& to is Some ==> sent@ == "(sent "@ + order + " to #"@ + decimal(to->0 as nat) + ")"@
        }),
{
}

/// A report is printed with the number of the player in front and what it says behind, and a
/// player is gone exactly after one that they left, crashed or met an error.
pub proof fn law_what_is_printed_of_reports(event: ClientEvent, printed: (String, Option<usize>))
    requires
        call_ensures(print_event, (&event,), printed),
    ensures
        match event {
            ClientEvent::Waiting { id, username, message, elapsed_ms } => {
                &&& printed.1 is None
                &&& printed.0@ == "[#"@ + decimal(id as nat) + "] "@ + username@ + " waiting... "@
                    + message@ + " (elapsed "@ + decimal(elapsed_ms as nat) + "ms)"@
            },
            ClientEvent::Joined { id, username, server_ip, server_port } => {
                &&& printed.1 is None
                &&& printed.0@ == "[#"@ + decimal(id as nat) + "] "@ + username@ + " joined → "@
                    + server_ip@ + ":"@ + decimal(server_port as nat)
            },
            ClientEvent::LeftGracefully { id } => {
                &&& printed.1 == Some(id)
                &&& printed.0@ == "[#"@ + decimal(id as nat) + "] "@ + "left gracefully"@
            },
            ClientEvent::Crashed { id } => {
                &&& printed.1 == Some(id)
                &&& printed.0@ == "[#"@ + decimal(id as nat) + "] "@ + "crashed"@
            },
            ClientEvent::Errored { id, err } => {
                &&& printed.1 == Some(id)
                &&& printed.0@ == "[#"@ + decimal(id as nat) + "] "@ + "ERROR: "@ + err@
            },
        },
{
}

/// What is said of reports, plans and commands leaves nothing out.
pub proof fn law_views_leave_nothing_out(event: ClientEvent, plan: DisconnectPlan)
    ensures
        event@ == match event {
            ClientEvent::Waiting { id, username, message, elapsed_ms } => EventView::Waiting {
                id,
                username: username@,
                message: message@,
                elapsed_ms,
            },
            ClientEvent::Joined { id, username, server_ip, server_port } => EventView::Joined {
                id,
                username: username@,
                server_ip: server_ip@,
                server_port,
            },
            ClientEvent::LeftGracefully { id } => EventView::LeftGracefully { id },
            ClientEvent::Crashed { id } => EventView::Crashed { id },
            ClientEvent::Errored { id, err } => EventView::Errored { id, err: err@ },
        },
        plan@ == match plan {
            DisconnectPlan::All => DisconnectView::All,
            DisconnectPlan::One { id } => DisconnectView::One { id: id as nat },
            DisconnectPlan::Say { text } => DisconnectView::Say { text: text@ },
        },
{
}

} // verus!
