//! How a player gets in: by the stream of the gatekeeper.

use crate::boundary::percent_encode;
use crate::boundary::percent_encoded;
use crate::client::commands::ClientEvent;
use crate::client::commands::EventView;
use crate::protocol::LoginEvent;
use crate::protocol::LoginResponse;
use crate::text::join2;
use crate::text::join3;
use vstd::prelude::*;
use vstd::utf8::encode_utf8;

verus! {

/// Where the stream is found.
pub open spec fn stream_address(
    gatekeeper: Seq<char>,
    username: Seq<char>,
    password: Seq<char>,
) -> Seq<char> {
    gatekeeper + "/login/stream?username="@ + percent_encoded(encode_utf8(username))
        + "&password="@ + percent_encoded(encode_utf8(password))
}

/// Where the stream is found.
pub fn stream_url(gatekeeper: &str, username: &str, password: &str) -> (url: String)
    ensures
        url@ == stream_address(gatekeeper@, username@, password@),
{
    let front = join2(gatekeeper, "/login/stream?username=");
    let name = percent_encode(username);
    let middle = join3(front.as_str(), name.as_str(), "&password=");
    join2(middle.as_str(), percent_encode(password).as_str())
}

/// Why a player does not get as far as the stream.
#[derive(Debug)]
pub enum ConnectFailure {
    /// There is no client to connect with, and why.
    Client(String),
    /// The gatekeeper cannot be reached, and why.
    Connect(String),
    /// The gatekeeper says no: how, in words, and what it sent along.
    Refused { status: String, body: String },
}

/// What went wrong, in words.
pub fn connect_failure(failure: &ConnectFailure) -> (text: String)
    ensures
        text@ == (match *failure {
            ConnectFailure::Client(e) => "http client: "@ + e@,
            ConnectFailure::Connect(e) => "stream connect: "@ + e@,
            ConnectFailure::Refused { status, body } => "stream "@ + status@ + ": "@ + body@,
        }),
{
    match failure {
        ConnectFailure::Client(e) => join2("http client: ", e.as_str()),
        ConnectFailure::Connect(e) => join2("stream connect: ", e.as_str()),
        ConnectFailure::Refused { status, body } => {
            let front = join3("stream ", status.as_str(), ": ");
            join2(front.as_str(), body.as_str())
        },
    }
}

/// What comes from the stream.
#[derive(Debug)]
pub enum StreamItem {
    /// An event, with what it says, where it can be read.
    Event(Option<LoginEvent>),
    /// Something that is no event, and why.
    Broken(String),
    /// The end.
    End,
}

/// What a player does about it.
#[derive(Debug)]
pub enum ReaderAction {
    /// Read on.
    Read,
    /// Report this, and read on.
    Report(ClientEvent),
    /// Go to the server.
    Play(LoginResponse),
    /// Report this, and give up.
    GiveUp(ClientEvent),
    /// Nothing: the login has come to its end.
    Over,
}

/// A player who reads the stream.
#[derive(Debug)]
pub struct LoginReader {
    pub id: usize,
    pub username: String,
    /// Whether the player was told to wait before.
    pub saw_first_waiting: bool,
    /// Whether the login has come to its end.
    pub over: bool,
}

/// Whether `action` gives up with an error.
pub open spec fn gives_up(action: ReaderAction, id: usize, why: Seq<char>) -> bool {
    action matches ReaderAction::GiveUp(event) && event@ == (EventView::Errored { id, err: why })
}

/// What a player who still reads does about an item of the stream. That the player has to
/// wait is reported, but not the first time, where no time has passed.
pub open spec fn reading_step(
    pre: LoginReader,
    item: StreamItem,
    post: LoginReader,
    action: ReaderAction,
) -> bool {
    let over = LoginReader { over: true, ..pre };
    match item {
        StreamItem::Event(Some(LoginEvent::Waiting { message, elapsed_ms })) => {
            &&& post == LoginReader { saw_first_waiting: true, ..pre }
            &&& if elapsed_ms > 0 || pre.saw_first_waiting {
                &&& action matches ReaderAction::Report(event)
                &&& event@ == EventView::Waiting {
                    id: pre.id,
                    username: pre.username@,
                    message: message@,
                    elapsed_ms,
                }
            } else {
                action is Read
            }
        },
        StreamItem::Event(Some(LoginEvent::Ready(response))) => {
            &&& post == over
            &&& action == ReaderAction::Play(response)
        },
        StreamItem::Event(Some(LoginEvent::Error { error })) => {
            &&& post == over
            &&& gives_up(action, pre.id, "gatekeeper: "@ + error@)
        },
        StreamItem::Event(None) => post == pre && action is Read,
        StreamItem::Broken(e) => post == over && gives_up(action, pre.id, "sse parse: "@ + e@),
        StreamItem::End => {
            &&& post == over
            &&& gives_up(action, pre.id, "stream ended without ready event"@)
        },
    }
}

/// What a player does about an item of the stream: nothing, once the login has come to its
/// end.
pub open spec fn reader_step(
    pre: LoginReader,
    item: StreamItem,
    post: LoginReader,
    action: ReaderAction,
) -> bool {
    if pre.over {
        post == pre && action is Over
    } else {
        reading_step(pre, item, post, action)
    }
}

impl LoginReader {
    /// A player who was not told anything yet.
    pub fn new(id: usize, username: &str) -> (reader: LoginReader)
        ensures
            reader.id == id,
            reader.username@ == username@,
            !reader.saw_first_waiting,
            !reader.over,
    {
        LoginReader { id, username: username.to_owned(), saw_first_waiting: false, over: false }
    }

    fn give_up(&mut self, why: &str) -> (action: ReaderAction)
        ensures
            *final(self) == (LoginReader { over: true, ..*old(self) }),
            gives_up(action, old(self).id, why@),
    {
        self.over = true;
        ReaderAction::GiveUp(ClientEvent::Errored { id: self.id, err: why.to_owned() })
    }

    /// Takes an item of the stream, and says what to do about it. After the end of the login
    /// that is nothing.
    pub fn step(&mut self, item: StreamItem) -> (action: ReaderAction)
        ensures
            reader_step(*old(self), item, *final(self), action),
    {
        if self.over {
            return ReaderAction::Over;
        }
        match item {
            StreamItem::Event(Some(LoginEvent::Waiting { message, elapsed_ms })) => {
                let report = elapsed_ms > 0 || self.saw_first_waiting;
                self.saw_first_waiting = true;
                if report {
                    ReaderAction::Report(
                        ClientEvent::Waiting {
                            id: self.id,
                            username: self.username.clone(),
                            message,
                            elapsed_ms,
                        },
                    )
                } else {
                    ReaderAction::Read
                }
            },
            StreamItem::Event(Some(LoginEvent::Ready(response))) => {
                self.over = true;
                ReaderAction::Play(response)
            },
            StreamItem::Event(Some(LoginEvent::Error { error })) => self.give_up(
                join2("gatekeeper: ", error.as_str()).as_str(),
            ),
            StreamItem::Event(None) => ReaderAction::Read,
            StreamItem::Broken(e) => self.give_up(join2("sse parse: ", e.as_str()).as_str()),
            StreamItem::End => self.give_up("stream ended without ready event"),
        }
    }
}

// ---- whole runs ----

/// Whether a login comes to its end with `item`: with a place, an error, or the end of the
/// stream.
pub open spec fn ends_login(item: StreamItem) -> bool {
    match item {
        StreamItem::Event(Some(LoginEvent::Waiting { .. })) => false,
        StreamItem::Event(None) => false,
        _ => true,
    }
}

/// Whether `report` tells that the player number `id` has to wait.
pub open spec fn is_waiting_report(report: EventView, id: usize, name: Seq<char>) -> bool {
    report matches EventView::Waiting { id: i, username, .. } && i == id && username == name
}

/// A login as far as it has come: the states of the player, what came from the stream, and
/// what the player did about it.
pub struct ReaderRun {
    pub states: Seq<LoginReader>,
    pub items: Seq<StreamItem>,
    pub actions: Seq<ReaderAction>,
}

impl ReaderRun {
    /// Whether a login can come that way that is not over at first.
    pub open spec fn valid(self) -> bool {
        &&& self.states.len() == self.items.len() + 1
        &&& self.actions.len() == self.items.len()
        &&& !self.states[0].over
        &&& forall|i: int| 0 <= i < self.items.len() ==> #[trigger] self.step_at(i)
    }

    /// Whether the step number `i` is one that a player can do.
    pub open spec fn step_at(self, i: int) -> bool {
        reader_step(self.states[i], self.items[i], self.states[i + 1], self.actions[i])
    }

    /// How many of the first `n` actions end the login: by going to the server, or by giving
    /// up.
    pub open spec fn endings(self, n: int) -> nat
        decreases n,
    {
        if n <= 0 {
            0
        } else if self.actions[n - 1] is Play || self.actions[n - 1] is GiveUp {
            self.endings(n - 1) + 1
        } else {
            self.endings(n - 1)
        }
    }
}

/// The first item that ends a login leads to one action that ends it: the player goes to the
/// server, or gives up. There is no other such action.
pub proof fn law_login_has_one_end(run: ReaderRun, n: int)
    requires
        run.valid(),
        0 <= n <= run.items.len(),
    ensures
        run.states[n].over <==> exists|i: int| 0 <= i < n && ends_login(#[trigger] run.items[i]),
        run.endings(n) == if run.states[n].over {
            1int
        } else {
            0int
        },
        run.states[n].id == run.states[0].id,
        run.states[n].username == run.states[0].username,
    decreases n,
{
    if n > 0 {
        law_login_has_one_end(run, n - 1);
        assert(run.step_at(n - 1));
        if run.states[n - 1].over {
            let i = choose|i: int| 0 <= i < n - 1 && ends_login(#[trigger] run.items[i]);
            assert(0 <= i < n && ends_login(run.items[i]));
        } else {
            assert(run.states[n].over <==> ends_login(run.items[n - 1]));
            assert(forall|i: int|
                0 <= i < n && i != n - 1 ==> !ends_login(#[trigger] run.items[i]));
        }
    }
}

/// Before the action that ends a login, nothing is reported but that this player has to
/// wait. That action is the place that came, or an error of this player. After it, the
/// player does nothing more.
pub proof fn law_only_waiting_is_reported_before_the_end(run: ReaderRun, n: int)
    requires
        run.valid(),
        0 <= n < run.items.len(),
    ensures
        match run.actions[n] {
            ReaderAction::Read => !run.states[n + 1].over,
            ReaderAction::Report(event) => !run.states[n + 1].over && is_waiting_report(
                event@,
                run.states[0].id,
                run.states[0].username@,
            ),
            ReaderAction::Play(response) => {
                &&& !run.states[n].over && run.states[n + 1].over
                &&& run.items[n] == StreamItem::Event(Some(LoginEvent::Ready(response)))
            },
            ReaderAction::GiveUp(event) => {
                &&& !run.states[n].over && run.states[n + 1].over
                &&& event@ matches EventView::Errored { id, .. } && id == run.states[0].id
            },
            ReaderAction::Over => run.states[n].over,
        },
        run.states[n].over ==> run.actions[n] is Over,
{
    law_login_has_one_end(run, n);
    assert(run.step_at(n));
}

// ---- laws of single steps ----

/// The stream is asked for at the gatekeeper, with the name and the password of the player,
/// percent-encoded, each in its place.
pub proof fn law_stream_is_asked_for_the_player(
    gatekeeper: &str,
    username: &str,
    password: &str,
    url: String,
)
    requires
        call_ensures(stream_url, (gatekeeper, username, password), url),
    ensures
        url@ == gatekeeper@ + "/login/stream?username="@ + percent_encoded(encode_utf8(username@))
            + "&password="@ + percent_encoded(encode_utf8(password@)),
{
}

/// What went wrong is passed on, behind a word on where.
pub proof fn law_failures_are_passed_on(failure: ConnectFailure, text: String)
    requires
        call_ensures(connect_failure, (&failure,), text),
    ensures
        failure matches ConnectFailure::Client(e) ==> text@ == "http client: "@ + e@,
        failure matches ConnectFailure::Connect(e) ==> text@ == "stream connect: "@ + e@,
        failure matches ConnectFailure::Refused { status, body } ==> text@ == "stream "@ + status@
            + ": "@ + body@,
{
}

/// What a reader does is a step of it.
pub proof fn law_reader_steps(
    reader: &mut LoginReader,
    item: StreamItem,
    action: ReaderAction,
    pre: LoginReader,
    post: LoginReader,
)
    requires
        *old(reader) == pre,
        *final(reader) == post,
        call_ensures(LoginReader::step, (reader, item), action),
    ensures
        reader_step(pre, item, post, action),
{
}

/// A reader has not been told to wait at first.
pub proof fn law_reader_begins(id: usize, username: &str, reader: LoginReader)
    requires
        call_ensures(LoginReader::new, (id, username), reader),
    ensures
        reader.id == id,
        reader.username@ == username@,
        !reader.saw_first_waiting,
        !reader.over,
{
}

impl ReaderRun {
    /// Whether the player was told to wait among the first `n` items.
    pub open spec fn was_told(self, n: int) -> bool {
        exists|i: int| 0 <= i < n && is_wait(#[trigger] self.items[i])
    }
}

/// Whether `item` tells the player to wait.
pub open spec fn is_wait(item: StreamItem) -> bool {
    item matches StreamItem::Event(Some(event)) && event is Waiting
}

proof fn lemma_was_told(run: ReaderRun, n: int)
    requires
        run.valid(),
        !run.states[0].saw_first_waiting,
        0 <= n <= run.items.len(),
    ensures
        !run.states[n].over ==> (run.states[n].saw_first_waiting <==> run.was_told(n)),
    decreases n,
{
    if n > 0 {
        lemma_was_told(run, n - 1);
        assert(run.step_at(n - 1));
        if !run.states[n].over {
            if run.was_told(n - 1) {
                let i = choose|i: int| 0 <= i < n - 1 && is_wait(#[trigger] run.items[i]);
                assert(0 <= i < n && is_wait(run.items[i]));
            }
            if is_wait(run.items[n - 1]) {
                assert(run.was_told(n));
            }
            if run.was_told(n) && !is_wait(run.items[n - 1]) {
                let i = choose|i: int| 0 <= i < n && is_wait(#[trigger] run.items[i]);
                assert(0 <= i < n - 1 && is_wait(run.items[i]));
            }
        }
    }
}

/// As long as a login is not over: that the player has to wait is reported with the words and
/// the time that came, except for the first such event where no time has passed. What cannot be
/// read is passed over. A place is taken as it came, and each way to fail is reported with its
/// reason.
pub proof fn law_reader_passes_on_what_came(run: ReaderRun, n: int)
    requires
        run.valid(),
        !run.states[0].saw_first_waiting,
        0 <= n < run.items.len(),
        !run.states[n].over,
    ensures
        ({
            let id = run.states[0].id;
            let name = run.states[0].username@;
            match run.items[n] {
                StreamItem::Event(Some(LoginEvent::Waiting { message, elapsed_ms })) => if elapsed_ms
                    == 0 && !run.was_told(n) {
                    run.actions[n] is Read
                } else {
                    &&& run.actions[n] matches ReaderAction::Report(event)
                    &&& event@ == EventView::Waiting {
                        id,
                        username: name,
                        message: message@,
                        elapsed_ms,
                    }
                },
                StreamItem::Event(Some(LoginEvent::Ready(response))) => run.actions[n]
                    == ReaderAction::Play(response),
                StreamItem::Event(Some(LoginEvent::Error { error })) => gives_up(
                    run.actions[n],
                    id,
                    "gatekeeper: "@ + error@,
                ),
                StreamItem::Event(None) => run.actions[n] is Read,
                StreamItem::Broken(e) => gives_up(run.actions[n], id, "sse parse: "@ + e@),
                StreamItem::End => gives_up(
                    run.actions[n],
                    id,
                    "stream ended without ready event"@,
                ),
            }
        }),
{
    lemma_was_told(run, n);
    law_login_has_one_end(run, n);
    assert(run.step_at(n));
}

/// Giving up is reported as an error of the player, with the reason.
pub proof fn law_giving_up_carries_the_reason(action: ReaderAction, id: usize, why: Seq<char>)
    ensures
        gives_up(action, id, why) <==> {
            &&& action is GiveUp
            &&& action->GiveUp_0@ == (EventView::Errored { id, err: why })
        },
{
}

} // verus!
