//! A login that waits for a server, and says so meanwhile.

use crate::gatekeeper::allocation::alloc_step;
use crate::gatekeeper::allocation::answers;
use crate::gatekeeper::allocation::law_allocation_has_one_outcome;
use crate::gatekeeper::allocation::phase_fits;
use crate::gatekeeper::allocation::AllocAction;
use crate::gatekeeper::allocation::AllocEvent;
use crate::gatekeeper::allocation::Allocated;
use crate::gatekeeper::allocation::Allocation;
use crate::gatekeeper::config::Config;
use crate::gatekeeper::login::check_credentials;
use crate::gatekeeper::login::make_response;
use crate::gatekeeper::login::refusal;
use crate::gatekeeper::login::sends_to;
use crate::numbers::decimal;
use crate::numbers::to_decimal;
use crate::protocol::LoginEvent;
use crate::text::join3;
use crate::text::trimmed;
use vstd::prelude::*;

verus! {

/// The name under which an event is sent.
pub open spec fn event_name(event: LoginEvent) -> Seq<char> {
    match event {
        LoginEvent::Waiting { .. } => "waiting"@,
        LoginEvent::Ready(_) => "ready"@,
        LoginEvent::Error { .. } => "error"@,
    }
}

/// The name under which an event is sent.
pub fn to_event_name(event: &LoginEvent) -> (name: &'static str)
    ensures
        name@ == event_name(*event),
{
    match event {
        LoginEvent::Waiting { .. } => "waiting",
        LoginEvent::Ready(_) => "ready",
        LoginEvent::Error { .. } => "error",
    }
}

/// What is sent in place of an event that cannot be written as JSON.
pub const SERIALIZE_ERROR: &'static str = "{\"kind\":\"error\",\"error\":\"serialize\"}";

/// Whether an event is the last of a stream.
pub open spec fn is_terminal(event: LoginEvent) -> bool {
    !(event is Waiting)
}

/// What is to be done next.
#[derive(Debug)]
pub enum StreamAction {
    /// Do what the allocation asks for.
    Allocate(AllocAction),
    /// Read how much time has passed since the stream began.
    ReadClock,
    /// Read it once more, in milliseconds.
    ReadElapsed,
    /// Sleep for so many milliseconds.
    Sleep { ms: u64 },
    /// End the stream.
    Close,
}

/// What came of it.
#[derive(Debug)]
pub enum StreamInput {
    /// What came of what the allocation asked for.
    Allocation(AllocEvent),
    /// So many nanoseconds have passed.
    Clock { ns: u128 },
    /// So many milliseconds have passed.
    Elapsed { ms: u64 },
    /// The sleep is over.
    Slept,
}

/// What a stream is waiting for.
#[derive(Debug)]
pub enum StreamPhase {
    Allocating(Allocation),
    Timing,
    Reporting,
    Sleeping,
    Over,
}

/// A login that waits for a server.
#[derive(Debug)]
pub struct LoginStream {
    pub username: String,
    pub phase: StreamPhase,
    /// When the player was last told to wait, in nanoseconds since the stream began.
    pub last_ping_ns: u128,
}

/// The nanoseconds of `secs` seconds.
pub open spec fn nanos(secs: u64) -> int {
    secs * 1_000_000_000
}

fn to_nanos(secs: u64) -> (ns: u128)
    ensures
        ns == nanos(secs),
{
    (secs as u128) * 1_000_000_000u128
}

/// Whether only the error `error` is sent.
pub open spec fn sends_error(sent: Seq<LoginEvent>, error: Seq<char>) -> bool {
    &&& sent.len() == 1
    &&& sent[0] matches LoginEvent::Error { error: e }
    &&& e@ == error
}

/// Whether `event` tells the player to wait.
pub open spec fn is_waiting(event: LoginEvent, message: Seq<char>, ms: u64) -> bool {
    event matches LoginEvent::Waiting { message: m, elapsed_ms } && m@ == message && elapsed_ms
        == ms
}

/// From `pre`, the stream looks for a place.
pub open spec fn tries(config: Config, pre: LoginStream, post: LoginStream, action: StreamAction) -> bool {
    &&& action == StreamAction::Allocate(AllocAction::List)
    &&& post.username == pre.username
    &&& post.last_ping_ns == pre.last_ping_ns
    &&& post.phase matches StreamPhase::Allocating(allocation)
    &&& allocation.phase is Listing
    &&& allocation.username@ == pre.username@
    &&& allocation.session_ttl_secs == config.session_ttl_secs
}

/// From `pre`, the stream ends.
pub open spec fn closes(pre: LoginStream, post: LoginStream, action: StreamAction) -> bool {
    &&& action is Close
    &&& post == LoginStream { phase: StreamPhase::Over, ..pre }
}

/// What a stream does with what its allocation asks for.
pub open spec fn stream_follows(
    pre: LoginStream,
    allocation: Allocation,
    asked: AllocAction,
    post: LoginStream,
    sent: Seq<LoginEvent>,
    action: StreamAction,
) -> bool {
    match asked {
        AllocAction::Finish(Allocated::Granted { player_id, server }) => {
            &&& sent.len() == 1
            &&& sent[0] matches LoginEvent::Ready(response)
            &&& sends_to(response, player_id@, server@)
            &&& closes(pre, post, action)
        },
        AllocAction::Finish(Allocated::NoServer) => {
            &&& sent.len() == 0
            &&& action is ReadClock
            &&& post == LoginStream { phase: StreamPhase::Timing, ..pre }
        },
        AllocAction::Finish(Allocated::Failed) => {
            &&& sends_error(sent, "registry unavailable"@)
            &&& closes(pre, post, action)
        },
        _ => {
            &&& sent.len() == 0
            &&& action == StreamAction::Allocate(asked)
            &&& post == LoginStream { phase: StreamPhase::Allocating(allocation), ..pre }
        },
    }
}

/// How a stream begins: the player is told to wait, and then either why there is no place
/// for this player, or a place is looked for.
pub open spec fn stream_begin(
    config: Config,
    username: Seq<char>,
    password: Seq<char>,
    post: LoginStream,
    sent: Seq<LoginEvent>,
    action: StreamAction,
) -> bool {
    &&& post.username@ == username
    &&& post.last_ping_ns == 0
    &&& sent.len() > 0
    &&& is_waiting(sent[0], "looking for a server..."@, 0)
    &&& match refusal(username, password, config.password@) {
        Some(error) => {
            &&& sends_error(sent.skip(1), error)
            &&& closes(post, post, action)
        },
        None => sent.len() == 1 && tries(config, post, post, action),
    }
}

/// `a - b`, or 0 where `b` is greater.
pub open spec fn since(a: u128, b: u128) -> int {
    if a >= b {
        a - b
    } else {
        0
    }
}

/// What a stream that is at `pre` does when it is told `input`.
pub open spec fn stream_step(
    config: Config,
    pre: LoginStream,
    input: StreamInput,
    post: LoginStream,
    sent: Seq<LoginEvent>,
    action: StreamAction,
) -> bool {
    match (pre.phase, input) {
        (StreamPhase::Allocating(allocation), StreamInput::Allocation(event)) => exists|
            after: Allocation,
            asked: AllocAction,
        |
            #[trigger] alloc_step(allocation, event, after, asked) && stream_follows(
                pre,
                after,
                asked,
                post,
                sent,
                action,
            ),
        (StreamPhase::Timing, StreamInput::Clock { ns }) => if ns >= nanos(
            config.login_wait_secs,
        ) {
            &&& sends_error(
                sent,
                "No server available after "@ + decimal(config.login_wait_secs as nat) + "s wait"@,
            )
            &&& closes(pre, post, action)
        } else if since(ns, pre.last_ping_ns) >= nanos(config.waiting_ping_secs) {
            &&& sent.len() == 0
            &&& action is ReadElapsed
            &&& post == LoginStream { phase: StreamPhase::Reporting, last_ping_ns: ns, ..pre }
        } else {
            &&& sent.len() == 0
            &&& action == StreamAction::Sleep { ms: config.login_poll_ms }
            &&& post == LoginStream { phase: StreamPhase::Sleeping, ..pre }
        },
        (StreamPhase::Reporting, StreamInput::Elapsed { ms }) => {
            &&& sent.len() == 1
            &&& is_waiting(sent[0], "no server available yet, fleet is scaling up"@, ms)
            &&& action == StreamAction::Sleep { ms: config.login_poll_ms }
            &&& post == LoginStream { phase: StreamPhase::Sleeping, ..pre }
        },
        (StreamPhase::Sleeping, StreamInput::Slept) => sent.len() == 0 && tries(
            config,
            pre,
            post,
            action,
        ),
        (StreamPhase::Over, _) => sent.len() == 0 && closes(pre, post, action),
        (_, _) => sends_error(sent, "registry unavailable"@) && closes(pre, post, action),
    }
}

fn only_error(error: &str) -> (sent: Vec<LoginEvent>)
    ensures
        sends_error(sent@, error@),
{
    let mut sent: Vec<LoginEvent> = Vec::new();
    sent.push(LoginEvent::Error { error: error.to_owned() });
    sent
}

impl LoginStream {
    /// Whether the allocation is well-formed, where there is one.
    pub open spec fn wf(self) -> bool {
        self.phase matches StreamPhase::Allocating(allocation) ==> allocation.wf()
    }

    /// Begins a stream: the events to send, and what to do then. Time counts from here.
    pub fn begin(config: &Config, username: &str, password: &str) -> (begun: (
        LoginStream,
        Vec<LoginEvent>,
        StreamAction,
    ))
        ensures
            begun.0.wf(),
            stream_begin(*config, username@, password@, begun.0, begun.1@, begun.2),
    {
        let mut sent: Vec<LoginEvent> = Vec::new();
        sent.push(
            LoginEvent::Waiting {
                message: "looking for a server...".to_owned(),
                elapsed_ms: 0,
            },
        );
        let mut stream = LoginStream {
            username: username.to_owned(),
            phase: StreamPhase::Over,
            last_ping_ns: 0,
        };
        match check_credentials(username, password, config.password.as_str()) {
            Some(error) => {
                sent.push(LoginEvent::Error { error });
                (stream, sent, StreamAction::Close)
            },
            None => {
                let action = stream.try_place(config);
                (stream, sent, action)
            },
        }
    }

    fn try_place(&mut self, config: &Config) -> (action: StreamAction)
        ensures
            final(self).wf(),
            tries(*config, *old(self), *final(self), action),
    {
        let (allocation, first) = Allocation::begin(
            self.username.as_str(),
            config.session_ttl_secs,
        );
        self.phase = StreamPhase::Allocating(allocation);
        StreamAction::Allocate(first)
    }

    fn follow(&mut self, allocation: Allocation, asked: AllocAction) -> (next: (
        Vec<LoginEvent>,
        StreamAction,
    ))
        requires
            allocation.wf(),
        ensures
            final(self).wf(),
            stream_follows(*old(self), allocation, asked, *final(self), next.0@, next.1),
    {
        match asked {
            AllocAction::Finish(end) => match end {
                Allocated::Granted { player_id, server } => {
                    self.phase = StreamPhase::Over;
                    let mut sent: Vec<LoginEvent> = Vec::new();
                    sent.push(LoginEvent::Ready(make_response(player_id, server)));
                    (sent, StreamAction::Close)
                },
                Allocated::NoServer => {
                    self.phase = StreamPhase::Timing;
                    (Vec::new(), StreamAction::ReadClock)
                },
                Allocated::Failed => {
                    self.phase = StreamPhase::Over;
                    (only_error("registry unavailable"), StreamAction::Close)
                },
            },
            _ => {
                self.phase = StreamPhase::Allocating(allocation);
                (Vec::new(), StreamAction::Allocate(asked))
            },
        }
    }

    /// Takes what came of the last action: the events to send, and what to do then. An input
    /// that does not answer that action counts as a failure of the store.
    pub fn step(&mut self, config: &Config, input: StreamInput) -> (next: (
        Vec<LoginEvent>,
        StreamAction,
    ))
        requires
            old(self).wf(),
        ensures
            final(self).wf(),
            stream_step(*config, *old(self), input, *final(self), next.0@, next.1),
    {
        let mut phase = StreamPhase::Over;
        std::mem::swap(&mut phase, &mut self.phase);
        match (phase, input) {
            (StreamPhase::Allocating(allocation), StreamInput::Allocation(event)) => {
                let mut allocation = allocation;
                let asked = allocation.step(event);
                self.follow(allocation, asked)
            },
            (StreamPhase::Timing, StreamInput::Clock { ns }) => {
                if ns >= to_nanos(config.login_wait_secs) {
                    let error = join3(
                        "No server available after ",
                        to_decimal(config.login_wait_secs).as_str(),
                        "s wait",
                    );
                    return (only_error(error.as_str()), StreamAction::Close);
                }
                let waited: u128 = if ns >= self.last_ping_ns {
                    ns - self.last_ping_ns
                } else {
                    0
                };
                if waited >= to_nanos(config.waiting_ping_secs) {
                    self.phase = StreamPhase::Reporting;
                    self.last_ping_ns = ns;
                    (Vec::new(), StreamAction::ReadElapsed)
                } else {
                    self.phase = StreamPhase::Sleeping;
                    (Vec::new(), StreamAction::Sleep { ms: config.login_poll_ms })
                }
            },
            (StreamPhase::Reporting, StreamInput::Elapsed { ms }) => {
                self.phase = StreamPhase::Sleeping;
                let mut sent: Vec<LoginEvent> = Vec::new();
                sent.push(
                    LoginEvent::Waiting {
                        message: "no server available yet, fleet is scaling up".to_owned(),
                        elapsed_ms: ms,
                    },
                );
                (sent, StreamAction::Sleep { ms: config.login_poll_ms })
            },
            (StreamPhase::Sleeping, StreamInput::Slept) => {
                let action = self.try_place(config);
                (Vec::new(), action)
            },
            (StreamPhase::Over, _) => (Vec::new(), StreamAction::Close),
            (_, _) => (only_error("registry unavailable"), StreamAction::Close),
        }
    }
}

// ---- laws ----

/// A stream as far as it has come: its states, the events that it sent on the way to each,
/// the actions it asked for, and what came of each but the last.
pub struct StreamRun {
    pub states: Seq<LoginStream>,
    pub sent: Seq<Seq<LoginEvent>>,
    pub actions: Seq<StreamAction>,
    pub inputs: Seq<StreamInput>,
}

impl StreamRun {
    /// Whether a stream can run like this.
    pub open spec fn valid(
        self,
        config: Config,
        username: Seq<char>,
        password: Seq<char>,
    ) -> bool {
        &&& self.states.len() == self.inputs.len() + 1
        &&& self.sent.len() == self.inputs.len() + 1
        &&& self.actions.len() == self.inputs.len() + 1
        &&& stream_begin(
            config,
            username,
            password,
            self.states[0],
            self.sent[0],
            self.actions[0],
        )
        &&& forall|i: int| 0 <= i < self.inputs.len() ==> #[trigger] self.step_at(config, i)
    }

    /// Whether the step number `i` is one that a stream can do.
    pub open spec fn step_at(self, config: Config, i: int) -> bool {
        stream_step(
            config,
            self.states[i],
            self.inputs[i],
            self.states[i + 1],
            self.sent[i + 1],
            self.actions[i + 1],
        )
    }

    /// The number of terminal events that were sent up to and with state number `i`.
    pub open spec fn terminals(self, i: int) -> nat
        decreases i + 1,
    {
        if i < 0 {
            0
        } else {
            self.terminals(i - 1) + count_terminals(self.sent[i])
        }
    }
}

/// The number of terminal events in `sent`.
pub open spec fn count_terminals(sent: Seq<LoginEvent>) -> nat
    decreases sent.len(),
{
    if sent.len() == 0 {
        0
    } else {
        let before = count_terminals(sent.drop_last());
        if is_terminal(sent.last()) {
            before + 1
        } else {
            before
        }
    }
}

/// A stream sends one terminal event, and that is when it is over: before, it has sent none;
/// from then on, it sends nothing and asks to be closed. The terminal event is the last that
/// is sent.
pub proof fn law_stream_sends_one_terminal_event(
    config: Config,
    username: Seq<char>,
    password: Seq<char>,
    run: StreamRun,
    i: int,
)
    requires
        run.valid(config, username, password),
        0 <= i < run.states.len(),
    ensures
        run.terminals(i) == (if run.states[i].phase is Over {
            1nat
        } else {
            0nat
        }),
        run.states[i].phase is Over <==> run.actions[i] is Close,
        i > 0 && run.states[i - 1].phase is Over ==> run.states[i].phase is Over && run.sent[i].len()
            == 0,
        count_terminals(run.sent[i]) > 0 ==> is_terminal(run.sent[i].last()),
    decreases i,
{
    reveal_with_fuel(count_terminals, 3);
    let sent = run.sent[i];
    if i == 0 {
        assert(run.terminals(-1) == 0);
        if refusal(username, password, config.password@) is Some {
            assert(sent.skip(1)[0] == sent[1]);
            assert(sent.drop_last().last() == sent[0]);
        }
    } else {
        law_stream_sends_one_terminal_event(config, username, password, run, i - 1);
        assert(run.step_at(config, i - 1));
    }
}

/// A player who may not be let in is told so at once, and no place is looked for.
pub proof fn law_refused_stream_looks_for_no_place(
    config: Config,
    username: Seq<char>,
    password: Seq<char>,
    stream: LoginStream,
    sent: Seq<LoginEvent>,
    action: StreamAction,
)
    requires
        stream_begin(config, username, password, stream, sent, action),
    ensures
        refusal(username, password, config.password@) is Some <==> action is Close,
        action is Close ==> sent.len() == 2 && sent[0] is Waiting && sent[1] is Error,
{
    if refusal(username, password, config.password@) is Some {
        assert(sent.skip(1)[0] == sent[1]);
    }
}

// ---- when what is sent ----

/// Each event of the stream goes by its own name.
pub proof fn law_events_go_by_their_names(event: LoginEvent, name: &'static str)
    requires
        call_ensures(to_event_name, (&event,), name),
    ensures
        event is Waiting ==> name@ == "waiting"@,
        event is Ready ==> name@ == "ready"@,
        event is Error ==> name@ == "error"@,
{
}

/// What a stream says after its beginning is a step of it.
pub proof fn law_stream_steps(
    stream: &mut LoginStream,
    config: Config,
    input: StreamInput,
    next: (Vec<LoginEvent>, StreamAction),
    pre: LoginStream,
    post: LoginStream,
)
    requires
        *old(stream) == pre,
        *final(stream) == post,
        call_ensures(LoginStream::step, (stream, &config, input), next),
    ensures
        stream_step(config, pre, input, post, next.0@, next.1),
        post.wf(),
{
}

/// A stream begins with a sign of life. A player who is refused is told why next, and that is
/// the end; for another one a place is looked for.
pub proof fn law_stream_begins(
    config: Config,
    username: &str,
    password: &str,
    begun: (LoginStream, Vec<LoginEvent>, StreamAction),
)
    requires
        call_ensures(LoginStream::begin, (&config, username, password), begun),
    ensures
        stream_begin(config, username@, password@, begun.0, begun.1@, begun.2),
        begun.1.len() > 0 && is_waiting(begun.1[0], "looking for a server..."@, 0),
        trimmed(username@).len() > 0 && password@ == config.password@ ==> begun.1.len() == 1
            && begun.2 == StreamAction::Allocate(AllocAction::List),
        trimmed(username@).len() == 0 ==> begun.1.len() == 2 && begun.2 is Close && (begun.1[1]
            matches LoginEvent::Error { error } && error@ == "username required"@),
        trimmed(username@).len() > 0 && password@ != config.password@ ==> begun.1.len() == 2
            && begun.2 is Close && (begun.1[1] matches LoginEvent::Error { error } && error@
            == "invalid credentials"@),
{
    if begun.1.len() > 1 {
        assert(begun.1@.skip(1)[0] == begun.1@[1]);
    }
}

/// Whether `input` is something that can come of `action`.
pub open spec fn stream_answers(action: StreamAction, input: StreamInput) -> bool {
    match action {
        StreamAction::Allocate(asked) => input matches StreamInput::Allocation(event) && answers(
            asked,
            event,
        ),
        StreamAction::ReadClock => input is Clock,
        StreamAction::ReadElapsed => input is Elapsed,
        StreamAction::Sleep { .. } => input is Slept,
        StreamAction::Close => false,
    }
}

impl StreamRun {
    /// Whether every input answers the action before it.
    pub open spec fn in_turn(self) -> bool {
        forall|i: int|
            0 <= i < self.inputs.len() ==> stream_answers(
                self.actions[i],
                #[trigger] self.inputs[i],
            )
    }

    /// The reading of the clock, among the first `n` inputs, at which the player was last told
    /// to wait, or 0 where there was none.
    pub open spec fn last_told(self, n: int) -> int
        decreases n,
    {
        if n <= 0 {
            0
        } else if self.inputs[n - 1] is Clock && self.actions[n] is ReadElapsed {
            self.inputs[n - 1]->ns as int
        } else {
            self.last_told(n - 1)
        }
    }
}

proof fn lemma_stream_state(
    config: Config,
    username: Seq<char>,
    password: Seq<char>,
    run: StreamRun,
    i: int,
)
    requires
        run.valid(config, username, password),
        run.in_turn(),
        0 <= i < run.states.len(),
    ensures
        run.states[i].last_ping_ns == run.last_told(i),
        run.states[i].username@ == username,
        match run.actions[i] {
            StreamAction::Allocate(asked) => {
                &&& run.states[i].phase matches StreamPhase::Allocating(allocation)
                &&& phase_fits(allocation.phase, asked)
                &&& allocation.wf()
                &&& !(asked is Finish)
                &&& allocation.username@ == username
                &&& allocation.session_ttl_secs == config.session_ttl_secs
            },
            StreamAction::ReadClock => run.states[i].phase is Timing,
            StreamAction::ReadElapsed => run.states[i].phase is Reporting,
            StreamAction::Sleep { .. } => run.states[i].phase is Sleeping,
            StreamAction::Close => run.states[i].phase is Over,
        },
    decreases i,
{
    if i > 0 {
        lemma_stream_state(config, username, password, run, i - 1);
        assert(run.step_at(config, i - 1));
        assert(stream_answers(run.actions[i - 1], run.inputs[i - 1]));
    }
}

/// A stream gives up for want of a server exactly at a reading of the clock at which the time
/// that is set has passed since the stream began, and not before. At an earlier reading it tells
/// the player to wait if the time between two such events has passed since the last one, and
/// how long it has been; it then sleeps for as long as is set, and looks for a place again.
pub proof fn law_stream_waits_as_long_as_is_set(
    config: Config,
    username: Seq<char>,
    password: Seq<char>,
    run: StreamRun,
    i: int,
)
    requires
        run.valid(config, username, password),
        run.in_turn(),
        0 <= i < run.inputs.len(),
    ensures
        run.inputs[i] matches StreamInput::Clock { ns } ==> {
            let waited = ns >= config.login_wait_secs * 1_000_000_000;
            let due = ns - run.last_told(i) >= config.waiting_ping_secs * 1_000_000_000
                || config.waiting_ping_secs == 0;
            &&& waited ==> run.actions[i + 1] is Close && run.sent[i + 1].len() == 1 && (
            run.sent[i + 1][0] matches LoginEvent::Error { error } && error@
                == "No server available after "@ + decimal(config.login_wait_secs as nat)
                + "s wait"@)
            &&& !waited ==> run.sent[i + 1].len() == 0
            &&& !waited && due ==> run.actions[i + 1] is ReadElapsed
            &&& !waited && !due ==> run.actions[i + 1] == (StreamAction::Sleep {
                ms: config.login_poll_ms,
            })
        },
        run.inputs[i] matches StreamInput::Elapsed { ms } ==> {
            &&& run.sent[i + 1].len() == 1
            &&& is_waiting(
                run.sent[i + 1][0],
                "no server available yet, fleet is scaling up"@,
                ms,
            )
            &&& run.actions[i + 1] == (StreamAction::Sleep { ms: config.login_poll_ms })
        },
        run.inputs[i] is Slept ==> run.sent[i + 1].len() == 0 && run.actions[i + 1]
            == StreamAction::Allocate(AllocAction::List),
{
    lemma_stream_state(config, username, password, run, i);
    lemma_stream_state(config, username, password, run, i + 1);
    assert(run.step_at(config, i));
    assert(stream_answers(run.actions[i], run.inputs[i]));
}

/// An error is sent, after the beginning, only where the time is over or the store failed.
pub proof fn law_stream_errors_have_a_reason(
    config: Config,
    username: Seq<char>,
    password: Seq<char>,
    run: StreamRun,
    i: int,
    k: int,
)
    requires
        run.valid(config, username, password),
        run.in_turn(),
        0 <= i < run.inputs.len(),
        0 <= k < run.sent[i + 1].len(),
        run.sent[i + 1][k] is Error,
    ensures
        match run.inputs[i] {
            StreamInput::Clock { ns } => ns >= config.login_wait_secs * 1_000_000_000,
            StreamInput::Allocation(event) => event is ListFailed || event is ClaimFailed || event
                is Released,
            _ => false,
        },
{
    lemma_stream_state(config, username, password, run, i);
    assert(run.step_at(config, i));
    assert(stream_answers(run.actions[i], run.inputs[i]));
}

/// The player is told that a place is ready exactly when the session was written: the
/// identifier is the one of the session, and the address the one of the server whose slot was
/// claimed. Where the store fails the player is told so, and where no server takes the player
/// the clock is read.
pub proof fn law_stream_follows_the_allocation(
    config: Config,
    username: Seq<char>,
    password: Seq<char>,
    run: StreamRun,
    i: int,
    after: Allocation,
    asked: AllocAction,
)
    requires
        run.valid(config, username, password),
        run.in_turn(),
        0 <= i < run.inputs.len(),
        run.inputs[i] is Allocation,
        run.states[i].phase is Allocating,
        alloc_step(
            run.states[i].phase->Allocating_0,
            run.inputs[i]->Allocation_0,
            after,
            asked,
        ),
    ensures
        run.inputs[i]->Allocation_0 is Written ==> {
            let allocation = run.states[i].phase->Allocating_0;
            let server = allocation.servers[allocation.next as int];
            &&& run.actions[i + 1] is Close
            &&& run.sent[i + 1].len() == 1
            &&& run.sent[i + 1][0] matches LoginEvent::Ready(r)
            &&& r.player_id@ == allocation.phase->player_id@
            &&& r.server.ip@ == server.ip@
            &&& r.server.port == server.port
            &&& r.server.zone@ == server.zone@
        },
        !(run.inputs[i]->Allocation_0 is Written) ==> forall|k: int|
            0 <= k < run.sent[i + 1].len() ==> !(#[trigger] run.sent[i + 1][k] is Ready),
        asked == AllocAction::Finish(Allocated::Failed) ==> run.actions[i + 1] is Close
            && run.sent[i + 1].len() == 1 && (run.sent[i + 1][0] matches LoginEvent::Error { error }
            && error@ == "registry unavailable"@),
        asked == AllocAction::Finish(Allocated::NoServer) <==> run.actions[i + 1] is ReadClock,
        asked == AllocAction::Finish(Allocated::NoServer) ==> run.sent[i + 1].len() == 0,
        !(asked is Finish) ==> run.sent[i + 1].len() == 0 && run.actions[i + 1] is Allocate,
        run.actions[i + 1] matches StreamAction::Allocate(next) ==> {
            &&& run.states[i + 1].phase is Allocating
            &&& alloc_step(
                run.states[i].phase->Allocating_0,
                run.inputs[i]->Allocation_0,
                run.states[i + 1].phase->Allocating_0,
                next,
            )
        },
{
    lemma_stream_state(config, username, password, run, i);
    lemma_stream_state(config, username, password, run, i + 1);
    assert(run.step_at(config, i));
    assert(stream_answers(run.actions[i], run.inputs[i]));
    let allocation = run.states[i].phase->Allocating_0;
    let event = run.inputs[i]->Allocation_0;
    let (then, wanted) = choose|then: Allocation, wanted: AllocAction|
        #[trigger] alloc_step(allocation, event, then, wanted) && stream_follows(
            run.states[i],
            then,
            wanted,
            run.states[i + 1],
            run.sent[i + 1],
            run.actions[i + 1],
        );
    law_allocation_has_one_outcome(allocation, event, then, wanted, after, asked);
}

/// A stream looks for a place for the player who asked, with sessions that live as long as is
/// set.
pub proof fn law_stream_looks_for_its_player(
    config: Config,
    username: Seq<char>,
    password: Seq<char>,
    run: StreamRun,
    i: int,
)
    requires
        run.valid(config, username, password),
        run.in_turn(),
        0 <= i < run.actions.len(),
        run.actions[i] is Allocate,
    ensures
        run.states[i].phase matches StreamPhase::Allocating(allocation) && allocation.username@
            == username && allocation.session_ttl_secs == config.session_ttl_secs,
{
    lemma_stream_state(config, username, password, run, i);
}

/// A waiting event carries the message and the time, both.
pub proof fn law_waiting_event_carries_message_and_time(
    event: LoginEvent,
    message: Seq<char>,
    ms: u64,
)
    ensures
        is_waiting(event, message, ms) <==> {
            &&& event is Waiting
            &&& event->message@ == message
            &&& event->elapsed_ms == ms
        },
        is_terminal(event) <==> event is Ready || event is Error,
{
}

} // verus!
