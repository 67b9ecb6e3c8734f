//! A login that is answered at once.

use crate::gatekeeper::allocation::alloc_step;
use crate::gatekeeper::allocation::law_allocation_has_one_outcome;
use crate::gatekeeper::allocation::AllocAction;
use crate::gatekeeper::allocation::AllocEvent;
use crate::gatekeeper::allocation::Allocated;
use crate::gatekeeper::allocation::Allocation;
use crate::gatekeeper::config::Config;
use crate::gatekeeper::servers::available_servers;
use crate::gatekeeper::servers::find_available_server;
use crate::gatekeeper::servers::lemma_listed_where_made;
use crate::gatekeeper::servers::makes;
use crate::gatekeeper::servers::Candidate;
use crate::gatekeeper::servers::ChosenServer;
use crate::gatekeeper::servers::ChosenView;
use crate::protocol::LoginRequest;
use crate::protocol::LoginResponse;
use crate::protocol::ServerInfo;
use crate::store::TextMap;
use crate::text::same_text;
use crate::text::trim;
use crate::text::trimmed;
use vstd::prelude::*;

verus! {

/// Why a player is not let in: without a name, or with another password than the one that is
/// set.
pub open spec fn refusal(username: Seq<char>, password: Seq<char>, set: Seq<char>) -> Option<
    Seq<char>,
> {
    if trimmed(username).len() == 0 {
        Some("username required"@)
    } else if password != set {
        Some("invalid credentials"@)
    } else {
        None
    }
}

/// Why a player is not let in.
pub fn check_credentials(username: &str, password: &str, set: &str) -> (error: Option<String>)
    ensures
        error.deep_view() == refusal(username@, password@, set@),
{
    if trim(username).as_str().is_empty() {
        Some("username required".to_owned())
    } else if !same_text(password, set) {
        Some("invalid credentials".to_owned())
    } else {
        None
    }
}

/// Whether a response sends the player to `server` as `player_id`.
pub open spec fn sends_to(
    response: LoginResponse,
    player_id: Seq<char>,
    server: ChosenView,
) -> bool {
    &&& response.player_id@ == player_id
    &&& response.server.ip@ == server.ip
    &&& response.server.port == server.port
    &&& response.server.zone@ == server.zone
}

/// The response that sends a player to `server`.
pub fn make_response(player_id: String, server: ChosenServer) -> (response: LoginResponse)
    ensures
        sends_to(response, player_id@, server@),
{
    LoginResponse {
        player_id,
        server: ServerInfo { ip: server.ip, port: server.port, zone: server.zone },
    }
}

/// The answer to a login.
#[derive(Debug)]
pub enum LoginReply {
    /// The player has a place.
    Granted(LoginResponse),
    /// The player has none: the HTTP status, and why.
    Refused { status: u16, error: String },
}

/// What is to be done next.
#[derive(Debug)]
pub enum LoginAction {
    /// Read the entries of all servers.
    List,
    /// Do what the allocation asks for.
    Allocate(AllocAction),
    /// Answer the login.
    Reply(LoginReply),
}

/// What came of it.
#[derive(Debug)]
pub enum LoginInput {
    /// The entries of all servers.
    Listed(Vec<(String, TextMap)>),
    /// The entries could not be read.
    ListFailed,
    /// What came of what the allocation asked for.
    Allocation(AllocEvent),
}

/// What a login is waiting for.
#[derive(Debug)]
pub enum LoginPhase {
    /// Whether there is any server with room.
    Looking,
    Allocating(Allocation),
    Over,
}

/// A login that is answered at once.
#[derive(Debug)]
pub struct Login {
    pub username: String,
    pub phase: LoginPhase,
}

/// Whether `action` answers a login with an error.
pub open spec fn refuses(action: LoginAction, status: u16, error: Seq<char>) -> bool {
    action matches LoginAction::Reply(LoginReply::Refused { status: s, error: e }) && s == status
        && e@ == error
}

/// What a login does with what its allocation asks for: the end of the allocation is the
/// end of the login.
pub open spec fn login_follows(
    allocation: Allocation,
    asked: AllocAction,
    post: Login,
    action: LoginAction,
) -> bool {
    match asked {
        AllocAction::Finish(end) => {
            &&& post.phase is Over
            &&& match end {
                Allocated::Granted { player_id, server } => {
                    &&& action matches LoginAction::Reply(LoginReply::Granted(response))
                    &&& sends_to(response, player_id@, server@)
                },
                Allocated::NoServer => refuses(action, 503, "No server available"@),
                Allocated::Failed => refuses(action, 503, "registry unavailable"@),
            }
        },
        _ => {
            &&& action == LoginAction::Allocate(asked)
            &&& post.phase == LoginPhase::Allocating(allocation)
        },
    }
}

/// How a login begins.
pub open spec fn login_begin(
    config: Config,
    request: LoginRequest,
    post: Login,
    action: LoginAction,
) -> bool {
    &&& post.username@ == request.username@
    &&& match refusal(request.username@, request.password@, config.password@) {
        Some(error) => refuses(action, 401, error) && post.phase is Over,
        None => action is List && post.phase is Looking,
    }
}

/// What a login that is at `pre` does when it is told `input`.
pub open spec fn login_step(
    config: Config,
    pre: Login,
    input: LoginInput,
    post: Login,
    action: LoginAction,
) -> bool {
    &&& post.username == pre.username
    &&& match (pre.phase, input) {
        (LoginPhase::Looking, LoginInput::Listed(entries)) => if available_servers(
            entries.deep_view(),
        ).len() == 0 {
            refuses(action, 503, "No server available"@) && post.phase is Over
        } else {
            &&& action == LoginAction::Allocate(AllocAction::List)
            &&& post.phase matches LoginPhase::Allocating(allocation)
            &&& allocation.phase is Listing
            &&& allocation.username@ == pre.username@
            &&& allocation.session_ttl_secs == config.session_ttl_secs
            &&& allocation.servers.len() == 0
            &&& allocation.next == 0
        },
        (LoginPhase::Allocating(allocation), LoginInput::Allocation(event)) => exists|
            after: Allocation,
            asked: AllocAction,
        |
            #[trigger] alloc_step(allocation, event, after, asked) && login_follows(
                after,
                asked,
                post,
                action,
            ),
        (_, _) => refuses(action, 503, "registry unavailable"@) && post.phase is Over,
    }
}

fn refuse(status: u16, error: &str) -> (action: LoginAction)
    ensures
        refuses(action, status, error@),
{
    LoginAction::Reply(LoginReply::Refused { status, error: error.to_owned() })
}

impl Login {
    /// Whether the allocation is well-formed, where there is one.
    pub open spec fn wf(self) -> bool {
        self.phase matches LoginPhase::Allocating(allocation) ==> allocation.wf()
    }

    /// Begins a login, and says what to do first.
    pub fn begin(config: &Config, request: &LoginRequest) -> (begun: (Login, LoginAction))
        ensures
            begun.0.wf(),
            login_begin(*config, *request, begun.0, begun.1),
    {
        let username = request.username.clone();
        match check_credentials(
            request.username.as_str(),
            request.password.as_str(),
            config.password.as_str(),
        ) {
            Some(error) => (
                Login { username, phase: LoginPhase::Over },
                refuse(401, error.as_str()),
            ),
            None => (Login { username, phase: LoginPhase::Looking }, LoginAction::List),
        }
    }

    fn follow(&mut self, allocation: Allocation, asked: AllocAction) -> (action: LoginAction)
        requires
            allocation.wf(),
        ensures
            final(self).wf(),
            final(self).username == old(self).username,
            login_follows(allocation, asked, *final(self), action),
    {
        match asked {
            AllocAction::Finish(end) => {
                self.phase = LoginPhase::Over;
                match end {
                    Allocated::Granted { player_id, server } => LoginAction::Reply(
                        LoginReply::Granted(make_response(player_id, server)),
                    ),
                    Allocated::NoServer => refuse(503, "No server available"),
                    Allocated::Failed => refuse(503, "registry unavailable"),
                }
            },
            _ => {
                self.phase = LoginPhase::Allocating(allocation);
                LoginAction::Allocate(asked)
            },
        }
    }

    /// Takes what came of the last action, and says what to do next. An input that does not
    /// answer that action counts as a failure of the store.
    pub fn step(&mut self, config: &Config, input: LoginInput) -> (action: LoginAction)
        requires
            old(self).wf(),
        ensures
            final(self).wf(),
            login_step(*config, *old(self), input, *final(self), action),
    {
        let mut phase = LoginPhase::Over;
        std::mem::swap(&mut phase, &mut self.phase);
        match (phase, input) {
            (LoginPhase::Looking, LoginInput::Listed(entries)) => {
                if find_available_server(&entries).is_none() {
                    return refuse(503, "No server available");
                }
                let (allocation, first) = Allocation::begin(
                    self.username.as_str(),
                    config.session_ttl_secs,
                );
                self.phase = LoginPhase::Allocating(allocation);
                LoginAction::Allocate(first)
            },
            (LoginPhase::Allocating(allocation), LoginInput::Allocation(event)) => {
                let mut allocation = allocation;
                let asked = allocation.step(event);
                self.follow(allocation, asked)
            },
            (_, _) => refuse(503, "registry unavailable"),
        }
    }
}

/// A login without a name, or with another password than the one that is set, is refused
/// before anything is read from the store or written to it.
pub proof fn law_refused_login_touches_nothing(
    config: Config,
    request: LoginRequest,
    login: Login,
    action: LoginAction,
)
    requires
        login_begin(config, request, login, action),
    ensures
        refusal(request.username@, request.password@, config.password@) is Some <==> (action
            is Reply && login.phase is Over),
        action matches LoginAction::Reply(reply) ==> reply matches LoginReply::Refused {
            status,
            ..
        } && status == 401,
{
}

/// A login is over exactly when it is answered.
pub proof fn law_login_ends_with_reply(
    config: Config,
    request: LoginRequest,
    pre: Login,
    input: LoginInput,
    post: Login,
    action: LoginAction,
)
    ensures
        login_begin(config, request, post, action) ==> (post.phase is Over <==> action is Reply),
        login_step(config, pre, input, post, action) ==> (post.phase is Over <==> action is Reply),
{
}

/// A player is refused exactly if the name is empty without the white space around it, or the
/// password is not the one that is set; the name is looked at first.
pub proof fn law_who_is_refused(username: &str, password: &str, set: &str, error: Option<String>)
    requires
        call_ensures(check_credentials, (username, password, set), error),
    ensures
        error is None <==> trimmed(username@).len() > 0 && password@ == set@,
        trimmed(username@).len() == 0 ==> error->0@ == "username required"@,
        trimmed(username@).len() > 0 && password@ != set@ ==> error->0@ == "invalid credentials"@,
        error.deep_view() == refusal(username@, password@, set@),
{
    if error is Some {
        assert(error.deep_view() == Some(error->0@));
    }
}

/// What a login says is how it begins, and then a step of it.
pub proof fn law_login_steps(
    login: &mut Login,
    config: Config,
    input: LoginInput,
    action: LoginAction,
    pre: Login,
    post: Login,
)
    requires
        *old(login) == pre,
        *final(login) == post,
        call_ensures(Login::step, (login, &config, input), action),
    ensures
        login_step(config, pre, input, post, action),
        post.wf(),
{
}

/// A player who is refused gets a 401 with the reason at once; for another one the servers are
/// listed.
pub proof fn law_login_begins(config: Config, request: LoginRequest, begun: (Login, LoginAction))
    requires
        call_ensures(Login::begin, (&config, &request), begun),
    ensures
        begun.0.username@ == request.username@,
        trimmed(request.username@).len() > 0 && request.password@ == config.password@
            <==> begun.1 is List,
        begun.1 is List <==> begun.0.phase is Looking,
        trimmed(request.username@).len() == 0 ==> refuses(begun.1, 401, "username required"@),
        trimmed(request.username@).len() > 0 && request.password@ != config.password@ ==> refuses(
            begun.1,
            401,
            "invalid credentials"@,
        ),
{
}

/// A login goes on to find a place exactly if some entry makes a server one with room; else it
/// is refused with a 503. The place is looked for in the name of the player.
pub proof fn law_login_looks_for_a_place(
    config: Config,
    pre: Login,
    entries: Vec<(String, TextMap)>,
    post: Login,
    action: LoginAction,
)
    requires
        pre.phase is Looking,
        login_step(config, pre, LoginInput::Listed(entries), post, action),
    ensures
        (exists|i: int, c: Candidate| #[trigger] makes(entries.deep_view(), i, c)) ==> {
            &&& action == LoginAction::Allocate(AllocAction::List)
            &&& post.phase matches LoginPhase::Allocating(allocation)
            &&& allocation.phase is Listing
            &&& allocation.username@ == pre.username@
            &&& allocation.session_ttl_secs == config.session_ttl_secs
        },
        (forall|i: int, c: Candidate| !#[trigger] makes(entries.deep_view(), i, c)) ==> refuses(
            action,
            503,
            "No server available"@,
        ) && post.phase is Over,
{
    lemma_listed_where_made(entries.deep_view());
}

/// A login is granted exactly if its allocation is, with the identifier of the player and the
/// address of the server that it was granted. It is refused with a 503 where no server took the
/// player, or where the store failed, each with its own reason, and goes on otherwise.
pub proof fn law_login_is_answered_as_allocated(
    config: Config,
    pre: Login,
    event: AllocEvent,
    post: Login,
    action: LoginAction,
    after: Allocation,
    asked: AllocAction,
)
    requires
        pre.phase is Allocating,
        pre.wf(),
        alloc_step(pre.phase->Allocating_0, event, after, asked),
        login_step(config, pre, LoginInput::Allocation(event), post, action),
    ensures
        asked is Finish <==> action is Reply,
        event is Written && pre.phase->Allocating_0.phase is Writing ==> {
            let allocation = pre.phase->Allocating_0;
            let server = allocation.servers[allocation.next as int];
            &&& action matches LoginAction::Reply(LoginReply::Granted(r))
            &&& r.player_id@ == allocation.phase->player_id@
            &&& r.server.ip@ == server.ip@
            &&& r.server.port == server.port
            &&& r.server.zone@ == server.zone@
        },
        action matches LoginAction::Reply(LoginReply::Granted(_)) ==> event is Written,
        action matches LoginAction::Allocate(next) ==> {
            &&& post.phase is Allocating
            &&& alloc_step(pre.phase->Allocating_0, event, post.phase->Allocating_0, next)
        },
        asked == AllocAction::Finish(Allocated::NoServer) ==> refuses(
            action,
            503,
            "No server available"@,
        ),
        asked == AllocAction::Finish(Allocated::Failed) ==> refuses(
            action,
            503,
            "registry unavailable"@,
        ),
{
    let (then, wanted) = choose|then: Allocation, wanted: AllocAction|
        #[trigger] alloc_step(pre.phase->Allocating_0, event, then, wanted) && login_follows(
            then,
            wanted,
            post,
            action,
        );
    law_allocation_has_one_outcome(pre.phase->Allocating_0, event, then, wanted, after, asked);
}

/// Where the servers cannot be listed, the login is refused with a 503.
pub proof fn law_login_without_store_is_refused(
    config: Config,
    pre: Login,
    post: Login,
    action: LoginAction,
)
    requires
        pre.phase is Looking,
        login_step(config, pre, LoginInput::ListFailed, post, action),
    ensures
        refuses(action, 503, "registry unavailable"@),
        post.phase is Over,
{
}

/// A refusal carries the status and the reason, both.
pub proof fn law_refusal_carries_status_and_reason(
    action: LoginAction,
    status: u16,
    error: Seq<char>,
)
    ensures
        refuses(action, status, error) <==> {
            &&& action is Reply
            &&& action->Reply_0 is Refused
            &&& action->Reply_0->status == status
            &&& action->Reply_0->error@ == error
        },
{
}

/// A response names the player, and the address, the port and the zone of the server.
pub proof fn law_response_names_player_and_place(
    player_id: String,
    server: ChosenServer,
    response: LoginResponse,
)
    requires
        call_ensures(make_response, (player_id, server), response),
    ensures
        response.player_id@ == player_id@,
        response.server.ip@ == server.ip@,
        response.server.port == server.port,
        response.server.zone@ == server.zone@,
{
}

} // verus!
