//! What the agent answers, and what becomes of the host.

use crate::boundary::header_contents;
use crate::boundary::lossy;
use crate::boundary::utf8_complaint;
use crate::clock::epoch;
use crate::containers::law_run_arguments_start_the_server;
use crate::containers::make_run_args;
use crate::containers::printed;
use crate::containers::printed_text;
use crate::containers::read_started_container;
use crate::containers::run_args;
use crate::containers::started_container;
use crate::containers::starts_server;
use crate::containers::CommandOutput;
use crate::containers::RunParams;
use crate::containers::RunView;
use crate::host_agent::auth::check_auth;
use crate::host_agent::auth::is_authorized;
use crate::host_agent::config::Config;
use crate::numbers::signed_decimal;
use crate::orchestrator::fleet::host_answer;
use crate::orchestrator::fleet::host_write;
use crate::orchestrator::fleet::law_idle_host_is_picked;
use crate::orchestrator::fleet::law_running_server_is_located;
use crate::orchestrator::fleet::or_empty;
use crate::orchestrator::fleet::or_empty_text;
use crate::orchestrator::fleet::write_host;
use crate::orchestrator::fleet::AnswerView;
use crate::orchestrator::fleet::HostQuery;
use crate::protocol::AgentDsInfo;
use crate::protocol::AgentError;
use crate::protocol::AgentStatus;
use crate::protocol::HostStatus;
use crate::protocol::KillRequest;
use crate::protocol::SpawnRequest;
use crate::protocol::SpawnResponse;
use crate::store::field;
use crate::store::lemma_last_field_wins;
use crate::store::FieldMap;
use crate::store::HashWrite;
use crate::store::HashWriteView;
use crate::text::join2;
use crate::text::join3;
use crate::text::no_texts;
use crate::text::push_text;
use crate::text::same_text;
use crate::text::trimmed;
use axum::http::HeaderMap;
use vstd::prelude::*;
use vstd::utf8::decode_utf8;
use vstd::utf8::valid_utf8;

verus! {

// ---- the state of the host ----

/// What the agent knows of its host.
#[derive(Debug, Clone)]
pub struct LocalState {
    pub status: HostStatus,
    pub container_id: Option<String>,
    pub ds_id: Option<String>,
}

/// What a [`LocalState`] says.
#[verifier::ext_equal]
pub struct LocalView {
    pub status: HostStatus,
    pub container_id: Option<Seq<char>>,
    pub ds_id: Option<Seq<char>>,
}

impl View for LocalState {
    type V = LocalView;

    open spec fn view(&self) -> LocalView {
        LocalView {
            status: self.status,
            container_id: self.container_id.deep_view(),
            ds_id: self.ds_id.deep_view(),
        }
    }
}

impl LocalView {
    /// A host that does nothing.
    pub open spec fn idle() -> LocalView {
        LocalView { status: HostStatus::Idle, container_id: None, ds_id: None }
    }

    /// A host that is starting the dedicated server `ds_id`.
    pub open spec fn starting(ds_id: Seq<char>) -> LocalView {
        LocalView { status: HostStatus::Starting, container_id: None, ds_id: Some(ds_id) }
    }

    /// A host on which the dedicated server `ds_id` runs.
    pub open spec fn running(container_id: Seq<char>, ds_id: Option<Seq<char>>) -> LocalView {
        LocalView { status: HostStatus::Running, container_id: Some(container_id), ds_id }
    }

    /// A host that is stopping a container.
    pub open spec fn stopping(container_id: Seq<char>) -> LocalView {
        LocalView { status: HostStatus::Stopping, container_id: Some(container_id), ds_id: None }
    }

    /// Whether what is known fits the status: nothing runs on an idle host, a host that starts
    /// has a server and no container yet, a host that runs or stops has a container.
    pub open spec fn wf(self) -> bool {
        match self.status {
            HostStatus::Idle => self == LocalView::idle(),
            HostStatus::Starting => self.container_id is None && self.ds_id is Some,
            HostStatus::Running => self.container_id is Some,
            HostStatus::Stopping => self.container_id is Some && self.ds_id is None,
        }
    }
}

/// Whether `write` tells the store, at some time, that the host is in `state`.
pub open spec fn reports(write: HashWriteView, config: Config, state: LocalView) -> bool {
    exists|now: i64|
        write == #[trigger] host_write(
            config.hostname@,
            state.status,
            state.container_id,
            state.ds_id,
            now,
            config.heartbeat_ttl_secs as i64,
        )
}

impl LocalState {
    /// A host that does nothing.
    pub fn idle() -> (state: Self)
        ensures
            state@ == LocalView::idle(),
            state@.wf(),
    {
        LocalState { status: HostStatus::Idle, container_id: None, ds_id: None }
    }

    /// What tells the store at the time `now` that the host is in this state.
    pub fn report_at(&self, config: &Config, now: i64) -> (write: HashWrite)
        ensures
            write@ == host_write(
                config.hostname@,
                self@.status,
                self@.container_id,
                self@.ds_id,
                now,
                config.heartbeat_ttl_secs as i64,
            ),
    {
        write_host(
            config.hostname.as_str(),
            self.status,
            &self.container_id,
            &self.ds_id,
            now,
            config.heartbeat_ttl_secs as i64,
        )
    }

    /// What tells the store now that the host is in this state.
    pub fn report(&self, config: &Config) -> (write: HashWrite)
        ensures
            reports(write@, *config, self@),
    {
        let now = epoch();
        self.report_at(config, now)
    }

    /// Puts the host into another state, and gives what tells the store so.
    pub fn transition_state(
        &mut self,
        config: &Config,
        status: HostStatus,
        container_id: Option<String>,
        ds_id: Option<String>,
    ) -> (write: HashWrite)
        ensures
            final(self)@ == (LocalView {
                status,
                container_id: container_id.deep_view(),
                ds_id: ds_id.deep_view(),
            }),
            reports(write@, *config, final(self)@),
    {
        self.status = status;
        self.container_id = container_id;
        self.ds_id = ds_id;
        self.report(config)
    }
}

// ---- answers ----

/// What the agent answers.
#[derive(Debug)]
pub enum AgentAnswer {
    Status(AgentStatus),
    Spawned(SpawnResponse),
    /// Done, and nothing to say.
    NoContent,
    List(Vec<AgentDsInfo>),
    /// The HTTP status, and why.
    Error { code: u16, body: AgentError },
}

/// Whether `answer` is an error.
pub open spec fn is_error(answer: AgentAnswer, code: u16, why: Seq<char>) -> bool {
    answer matches AgentAnswer::Error { code: c, body } && c == code && body.error@ == why
}

fn error(code: u16, why: &str) -> (answer: AgentAnswer)
    ensures
        is_error(answer, code, why@),
{
    AgentAnswer::Error { code, body: AgentError { error: why.to_owned() } }
}

/// What is answered to a request without the token.
pub fn unauthorized() -> (answer: AgentAnswer)
    ensures
        is_error(answer, 401, "unauthorized"@),
{
    error(401, "unauthorized")
}

/// What is answered to the question whether the agent is there.
pub fn health() -> (text: &'static str)
    ensures
        text@ == "ok"@,
{
    "ok"
}

/// Whether `body` says that the host is in `state`.
pub open spec fn tells(body: AgentStatus, config: Config, state: LocalView) -> bool {
    &&& body.hostname@ == config.hostname@
    &&& body.status == state.status
    &&& body.container_id.deep_view() == state.container_id
    &&& body.ds_id.deep_view() == state.ds_id
}

/// What is answered to the question what the host is doing.
pub fn status(config: &Config, local: &LocalState, headers: &HeaderMap) -> (answer: AgentAnswer)
    ensures
        if is_authorized(header_contents(headers), config.agent_token@) {
            answer matches AgentAnswer::Status(body) && tells(body, *config, local@)
        } else {
            is_error(answer, 401, "unauthorized"@)
        },
{
    if !check_auth(headers, config.agent_token.as_str()) {
        return unauthorized();
    }
    AgentAnswer::Status(
        AgentStatus {
            hostname: config.hostname.clone(),
            status: local.status,
            container_id: copy_text(&local.container_id),
            ds_id: copy_text(&local.ds_id),
        },
    )
}

fn copy_text(text: &Option<String>) -> (copy: Option<String>)
    ensures
        copy.deep_view() == text.deep_view(),
{
    match text {
        Some(text) => Some(text.clone()),
        None => None,
    }
}

/// The port that the agent names for its dedicated server.
pub const LISTED_PORT: u16 = 7001;

/// The dedicated server that runs on a host in `state` or is being started there, where it is
/// known, and its container, whose name is empty as long as it is not known.
pub open spec fn listed(state: LocalView) -> Option<(Seq<char>, Seq<char>)> {
    if state.status == HostStatus::Running || state.status == HostStatus::Starting {
        match state.ds_id {
            Some(ds_id) => Some((ds_id, or_empty(state.container_id))),
            None => None,
        }
    } else {
        None
    }
}

/// What is answered to the question which dedicated servers run on the host, or are being
/// started there: the one, where it is known.
pub fn list(config: &Config, local: &LocalState, headers: &HeaderMap) -> (answer: AgentAnswer)
    ensures
        if is_authorized(header_contents(headers), config.agent_token@) {
            &&& answer matches AgentAnswer::List(servers)
            &&& match listed(local@) {
                Some((ds_id, container_id)) => servers.len() == 1 && servers[0].ds_id@ == ds_id
                    && servers[0].port == 7001 && servers[0].container_id@ == container_id,
                None => servers.len() == 0,
            }
        } else {
            is_error(answer, 401, "unauthorized"@)
        },
{
    if !check_auth(headers, config.agent_token.as_str()) {
        return unauthorized();
    }
    let mut servers: Vec<AgentDsInfo> = Vec::new();
    if local.status == HostStatus::Running || local.status == HostStatus::Starting {
        if let Some(ds_id) = &local.ds_id {
            servers.push(
                AgentDsInfo {
                    ds_id: ds_id.clone(),
                    port: LISTED_PORT,
                    container_id: or_empty_text(&local.container_id),
                },
            );
        }
    }
    AgentAnswer::List(servers)
}

// ---- starting a server ----

/// What a container on this host is started with.
pub open spec fn agent_run(request: SpawnRequest, image: Seq<char>) -> RunView {
    RunView {
        network: "host"@,
        label_port: false,
        ds_id: request.ds_id@,
        port: request.ds_port,
        zone: request.ds_zone@,
        max_players: request.ds_max_players,
        advertise_host: request.ds_advertise_host@,
        orch_host: request.orch_host@,
        orch_port: request.orch_port,
        redis_url: request.redis_url@,
        image,
    }
}

/// The arguments that start the dedicated server that was asked for.
pub fn docker_run_args(request: &SpawnRequest, image: &str) -> (args: Vec<String>)
    ensures
        args.deep_view() == run_args(agent_run(*request, image@)),
{
    let params = RunParams {
        network: "host",
        label_port: false,
        ds_id: request.ds_id.as_str(),
        port: request.ds_port,
        zone: request.ds_zone.as_str(),
        max_players: request.ds_max_players,
        advertise_host: request.ds_advertise_host.as_str(),
        orch_host: request.orch_host.as_str(),
        orch_port: request.orch_port,
        redis_url: request.redis_url.as_str(),
        image,
    };
    assert(params@ == agent_run(*request, image@));
    make_run_args(&params)
}

/// What came of the command that starts a container: the container, or what went wrong.
pub open spec fn run_outcome(output: Result<CommandOutput, String>) -> Result<
    Seq<char>,
    Seq<char>,
> {
    match output {
        Ok(output) => if output.success {
            started_container(output.stdout@)
        } else {
            Err("docker run failed: "@ + printed(output.stderr@))
        },
        Err(e) => Err(e@),
    }
}

/// What came of the command that starts a container.
pub fn docker_run(output: Result<CommandOutput, String>) -> (container: Result<String, String>)
    ensures
        match container {
            Ok(id) => run_outcome(output) == Ok::<Seq<char>, Seq<char>>(id@),
            Err(e) => run_outcome(output) == Err::<Seq<char>, Seq<char>>(e@),
        },
{
    match output {
        Ok(output) => if output.success {
            read_started_container(output.stdout)
        } else {
            Err(join2("docker run failed: ", printed_text(&output.stderr).as_str()))
        },
        Err(e) => Err(e),
    }
}

/// The name of a status as a programmer writes it.
pub open spec fn variant_name(status: HostStatus) -> Seq<char> {
    match status {
        HostStatus::Idle => "Idle"@,
        HostStatus::Running => "Running"@,
        HostStatus::Starting => "Starting"@,
        HostStatus::Stopping => "Stopping"@,
    }
}

fn to_variant_name(status: HostStatus) -> (name: &'static str)
    ensures
        name@ == variant_name(status),
{
    match status {
        HostStatus::Idle => "Idle",
        HostStatus::Running => "Running",
        HostStatus::Starting => "Starting",
        HostStatus::Stopping => "Stopping",
    }
}

/// What is to be done about a request.
#[derive(Debug)]
pub enum AgentAction {
    /// Answer it.
    Answer(AgentAnswer),
    /// Write to the store, run the container command with these arguments, and come back with
    /// what came of it.
    Run { write: HashWrite, args: Vec<String> },
    /// Write to the store, and answer.
    Finish { write: HashWrite, answer: AgentAnswer },
}

/// Whether `action` answers with an error, and nothing more.
pub open spec fn rejects(action: AgentAction, code: u16, why: Seq<char>) -> bool {
    action matches AgentAction::Answer(answer) && is_error(answer, code, why)
}

/// What is done about a request to start a server on a host in the state `pre`.
pub open spec fn spawn_step(
    config: Config,
    pre: LocalView,
    authorized: bool,
    request: SpawnRequest,
    image: Seq<char>,
    post: LocalView,
    action: AgentAction,
) -> bool {
    if !authorized {
        rejects(action, 401, "unauthorized"@) && post == pre
    } else if pre.status != HostStatus::Idle {
        &&& rejects(action, 409, "not idle (currently "@ + variant_name(pre.status) + ")"@)
        &&& post == pre
    } else {
        &&& post == LocalView::starting(request.ds_id@)
        &&& action matches AgentAction::Run { write, args }
        &&& reports(write@, config, post)
        &&& args.deep_view() == run_args(agent_run(request, image))
    }
}

/// What is done when the command that starts the server `ds_id` has ended.
pub open spec fn spawn_end(
    config: Config,
    ds_id: Seq<char>,
    output: Result<CommandOutput, String>,
    post: LocalView,
    action: AgentAction,
) -> bool {
    &&& action matches AgentAction::Finish { write, answer }
    &&& reports(write@, config, post)
    &&& match run_outcome(output) {
        Ok(container_id) => {
            &&& post == LocalView::running(container_id, Some(ds_id))
            &&& answer matches AgentAnswer::Spawned(response)
            &&& response.container_id@ == container_id
        },
        Err(why) => {
            &&& post == LocalView::idle()
            &&& is_error(answer, 500, "docker run failed: "@ + why)
        },
    }
}

/// What is done about a request to stop a container on a host in the state `pre`.
pub open spec fn kill_step(
    config: Config,
    pre: LocalView,
    authorized: bool,
    container_id: Seq<char>,
    post: LocalView,
    action: AgentAction,
) -> bool {
    if !authorized {
        rejects(action, 401, "unauthorized"@) && post == pre
    } else if pre.container_id != Some(container_id) {
        rejects(action, 404, "container_id not running here"@) && post == pre
    } else {
        &&& post == LocalView::stopping(container_id)
        &&& action matches AgentAction::Run { write, args }
        &&& reports(write@, config, post)
        &&& args.deep_view() == seq!["stop"@, container_id]
    }
}

/// What is done when the command that stops a container has ended, well or badly.
pub open spec fn kill_end(config: Config, post: LocalView, action: AgentAction) -> bool {
    &&& post == LocalView::idle()
    &&& action matches AgentAction::Finish { write, answer }
    &&& reports(write@, config, post)
    &&& answer is NoContent
}

impl LocalState {
    /// Takes a request to start a server.
    pub fn spawn(
        &mut self,
        config: &Config,
        headers: &HeaderMap,
        request: &SpawnRequest,
        image: &str,
    ) -> (action: AgentAction)
        ensures
            old(self)@.wf() ==> final(self)@.wf(),
            spawn_step(
                *config,
                old(self)@,
                is_authorized(header_contents(headers), config.agent_token@),
                *request,
                image@,
                final(self)@,
                action,
            ),
    {
        if !check_auth(headers, config.agent_token.as_str()) {
            return AgentAction::Answer(unauthorized());
        }
        if self.status != HostStatus::Idle {
            let why = join3("not idle (currently ", to_variant_name(self.status), ")");
            return AgentAction::Answer(error(409, why.as_str()));
        }
        let write = self.transition_state(
            config,
            HostStatus::Starting,
            None,
            Some(request.ds_id.clone()),
        );
        AgentAction::Run { write, args: docker_run_args(request, image) }
    }

    /// Takes what came of the command that starts the server `ds_id`.
    pub fn spawn_ended(
        &mut self,
        config: &Config,
        ds_id: &str,
        output: Result<CommandOutput, String>,
    ) -> (action: AgentAction)
        ensures
            final(self)@.wf(),
            spawn_end(*config, ds_id@, output, final(self)@, action),
    {
        match docker_run(output) {
            Ok(container_id) => {
                let write = self.transition_state(
                    config,
                    HostStatus::Running,
                    Some(container_id.clone()),
                    Some(ds_id.to_owned()),
                );
                AgentAction::Finish {
                    write,
                    answer: AgentAnswer::Spawned(SpawnResponse { container_id }),
                }
            },
            Err(why) => {
                let write = self.transition_state(config, HostStatus::Idle, None, None);
                let text = join2("docker run failed: ", why.as_str());
                AgentAction::Finish { write, answer: error(500, text.as_str()) }
            },
        }
    }

    /// Takes a request to stop a container.
    pub fn kill(&mut self, config: &Config, headers: &HeaderMap, request: &KillRequest) -> (action:
        AgentAction)
        ensures
            old(self)@.wf() ==> final(self)@.wf(),
            kill_step(
                *config,
                old(self)@,
                is_authorized(header_contents(headers), config.agent_token@),
                request.container_id@,
                final(self)@,
                action,
            ),
    {
        if !check_auth(headers, config.agent_token.as_str()) {
            return AgentAction::Answer(unauthorized());
        }
        let runs_here = match &self.container_id {
            Some(id) => same_text(id.as_str(), request.container_id.as_str()),
            None => false,
        };
        if !runs_here {
            return AgentAction::Answer(error(404, "container_id not running here"));
        }
        let write = self.transition_state(
            config,
            HostStatus::Stopping,
            Some(request.container_id.clone()),
            None,
        );
        let mut args = no_texts();
        push_text(&mut args, "stop");
        push_text(&mut args, request.container_id.as_str());
        assert(args.deep_view() == seq!["stop"@, request.container_id@]);
        AgentAction::Run { write, args }
    }

    /// Takes the end of the command that stops a container.
    pub fn kill_ended(&mut self, config: &Config) -> (action: AgentAction)
        ensures
            final(self)@.wf(),
            kill_end(*config, final(self)@, action),
    {
        let write = self.transition_state(config, HostStatus::Idle, None, None);
        AgentAction::Finish { write, answer: AgentAnswer::NoContent }
    }
}

/// Why a container was not stopped, where it was not.
pub fn docker_stop(output: &CommandOutput) -> (failure: Option<String>)
    ensures
        match failure {
            Some(why) => !output.success && why@ == "docker stop failed: "@ + printed(
                output.stderr@,
            ),
            None => output.success,
        },
{
    if output.success {
        None
    } else {
        Some(join2("docker stop failed: ", printed_text(&output.stderr).as_str()))
    }
}

// ---- laws ----

/// A request without the token changes nothing about the host, and runs nothing.
pub proof fn law_unauthorized_changes_nothing(
    config: Config,
    pre: LocalView,
    request: SpawnRequest,
    image: Seq<char>,
    container_id: Seq<char>,
    post: LocalView,
    action: AgentAction,
)
    requires
        spawn_step(config, pre, false, request, image, post, action) || kill_step(
            config,
            pre,
            false,
            container_id,
            post,
            action,
        ),
    ensures
        post == pre,
        action is Answer,
{
}

/// A server is started only on an idle host, and the host is not idle from then on, so that
/// another request is rejected.
pub proof fn law_host_starts_one_server(
    config: Config,
    pre: LocalView,
    request: SpawnRequest,
    image: Seq<char>,
    post: LocalView,
    action: AgentAction,
    again: SpawnRequest,
    end: LocalView,
    second: AgentAction,
)
    requires
        spawn_step(config, pre, true, request, image, post, action),
        action is Run,
        spawn_step(config, post, true, again, image, end, second),
    ensures
        pre.status == HostStatus::Idle,
        second is Answer,
        end == post,
{
}

/// Where a start fails, the host is idle again, as it was before.
pub proof fn law_failed_start_leaves_host_idle(
    config: Config,
    pre: LocalView,
    request: SpawnRequest,
    image: Seq<char>,
    mid: LocalView,
    action: AgentAction,
    output: Result<CommandOutput, String>,
    post: LocalView,
    end: AgentAction,
)
    requires
        pre.wf(),
        spawn_step(config, pre, true, request, image, mid, action),
        action is Run,
        spawn_end(config, request.ds_id@, output, post, end),
        run_outcome(output) is Err,
    ensures
        post == pre,
{
}

/// Starting a server and stopping its container leaves the host idle, as it was before.
pub proof fn law_kill_undoes_spawn(
    config: Config,
    pre: LocalView,
    request: SpawnRequest,
    image: Seq<char>,
    starting: LocalView,
    first: AgentAction,
    output: Result<CommandOutput, String>,
    running: LocalView,
    second: AgentAction,
    container_id: Seq<char>,
    stopping: LocalView,
    third: AgentAction,
    post: LocalView,
    last: AgentAction,
)
    requires
        pre.wf(),
        spawn_step(config, pre, true, request, image, starting, first),
        first is Run,
        spawn_end(config, request.ds_id@, output, running, second),
        run_outcome(output) == Ok::<Seq<char>, Seq<char>>(container_id),
        kill_step(config, running, true, container_id, stopping, third),
        kill_end(config, post, last),
    ensures
        third is Run,
        post == pre,
{
}

/// The orchestrator picks a host exactly if the host last reported that it is idle.
pub proof fn law_reported_idle_host_is_picked(
    config: Config,
    state: LocalView,
    write: HashWriteView,
    before: FieldMap,
)
    requires
        reports(write, config, state),
    ensures
        host_answer(HostQuery::Idle, write.key, write.applied_to(before)) == (if state.status
            == HostStatus::Idle {
            Some(AnswerView::Idle(config.hostname@))
        } else {
            None
        }),
{
    let now = choose|now: i64|
        write == #[trigger] host_write(
            config.hostname@,
            state.status,
            state.container_id,
            state.ds_id,
            now,
            config.heartbeat_ttl_secs as i64,
        );
    law_idle_host_is_picked(
        config.hostname@,
        state.status,
        state.container_id,
        state.ds_id,
        now,
        config.heartbeat_ttl_secs as i64,
        before,
    );
}

/// The orchestrator finds a dedicated server on the host, and in the container, that the
/// host last reported for it.
pub proof fn law_reported_server_is_located(
    config: Config,
    container_id: Seq<char>,
    ds_id: String,
    write: HashWriteView,
    before: FieldMap,
)
    requires
        container_id.len() > 0,
        reports(write, config, LocalView::running(container_id, Some(ds_id@))),
    ensures
        host_answer(HostQuery::Runs { ds_id }, write.key, write.applied_to(before)) == Some(
            AnswerView::Runs { host: config.hostname@, container_id },
        ),
{
    let state = LocalView::running(container_id, Some(ds_id@));
    let now = choose|now: i64|
        write == #[trigger] host_write(
            config.hostname@,
            state.status,
            state.container_id,
            state.ds_id,
            now,
            config.heartbeat_ttl_secs as i64,
        );
    law_running_server_is_located(
        config.hostname@,
        state.status,
        container_id,
        ds_id,
        now,
        config.heartbeat_ttl_secs as i64,
        before,
    );
}

/// Where the orchestrator knows the host by the name that the agent goes by, what it writes
/// after a probe and what the agent reports of the same state go to one entry, and say the
/// same but for the time and how long it holds.
pub proof fn law_probe_and_report_agree(
    config: Config,
    state: LocalView,
    body: AgentStatus,
    report: HashWriteView,
    probe: HashWriteView,
    now: i64,
)
    requires
        tells(body, config, state),
        reports(report, config, state),
        probe == host_write(
            body.hostname@,
            body.status,
            body.container_id.deep_view(),
            body.ds_id.deep_view(),
            now,
            60,
        ),
    ensures
        probe.key == report.key,
        probe.fields.len() == report.fields.len(),
        probe.fields.drop_last() == report.fields.drop_last(),
{
}

/// What is reported of a host goes to its own entry, and says its status, the container and the
/// server that it runs, empty where there are none.
pub proof fn law_report_tells_the_state(
    write: HashWriteView,
    config: Config,
    state: LocalView,
    before: FieldMap,
)
    requires
        reports(write, config, state),
    ensures
        write.key == "host:"@ + config.hostname@,
        write.ttl_secs == config.heartbeat_ttl_secs as i64,
        ({
            let after = write.applied_to(before);
            &&& field(after, "status"@) == Some(state.status.name())
            &&& field(after, "container_id"@) == Some(or_empty(state.container_id))
            &&& field(after, "ds_id"@) == Some(or_empty(state.ds_id))
        }),
{
    let now = choose|now: i64|
        write == #[trigger] host_write(
            config.hostname@,
            state.status,
            state.container_id,
            state.ds_id,
            now,
            config.heartbeat_ttl_secs as i64,
        );
    reveal_strlit("status");
    reveal_strlit("container_id");
    reveal_strlit("ds_id");
    reveal_strlit("last_heartbeat");
    assert("status"@[0] == 's');
    assert("container_id"@[0] == 'c');
    assert("ds_id"@[0] == 'd');
    assert("last_heartbeat"@[0] == 'l');
    lemma_last_field_wins(before, write.fields, 0);
    lemma_last_field_wins(before, write.fields, 1);
    lemma_last_field_wins(before, write.fields, 2);
}

/// A report tells the state of the host, and the time that it is given.
pub proof fn law_report_is_of_the_state(
    local: LocalState,
    config: Config,
    now: i64,
    write: HashWrite,
    latest: HashWrite,
    before: FieldMap,
)
    requires
        call_ensures(LocalState::report_at, (&local, &config, now), write),
        call_ensures(LocalState::report, (&local, &config), latest),
    ensures
        reports(write@, config, local@),
        reports(latest@, config, local@),
        field(write@.applied_to(before), "last_heartbeat"@) == Some(signed_decimal(now as int)),
        local@.status == local.status,
        local@.container_id == local.container_id.deep_view(),
        local@.ds_id == local.ds_id.deep_view(),
{
    assert(write@ == host_write(
        config.hostname@,
        local@.status,
        local@.container_id,
        local@.ds_id,
        now,
        config.heartbeat_ttl_secs as i64,
    ));
    lemma_last_field_wins(before, write@.fields, 3);
}

/// A request to start a server is taken exactly if it carries the token and the host is idle:
/// the host is then starting that server, says so, and starts a container that is told what
/// the request says. Without the token, or on a host that is not idle, the request is rejected
/// with its own status and reason, and nothing changes.
pub proof fn law_when_a_server_is_started(
    local: &mut LocalState,
    config: Config,
    headers: &HeaderMap,
    request: SpawnRequest,
    image: &str,
    action: AgentAction,
    pre: LocalState,
    post: LocalState,
)
    requires
        *old(local) == pre,
        *final(local) == post,
        call_ensures(LocalState::spawn, (local, &config, headers, &request, image), action),
    ensures
        ({
            let authorized = is_authorized(header_contents(headers), config.agent_token@);
            let taken = authorized && pre.status == HostStatus::Idle;
            &&& action is Run <==> taken
            &&& taken ==> {
                &&& post.status == HostStatus::Starting
                &&& post@.container_id is None
                &&& post@.ds_id == Some(request.ds_id@)
                &&& reports(action->Run_write@, config, post@)
                &&& starts_server(
                    action->Run_args.deep_view(),
                    "host"@,
                    false,
                    request.ds_id@,
                    request.ds_port,
                    (
                        request.ds_zone@,
                        request.ds_max_players,
                        request.ds_advertise_host@,
                        request.orch_host@,
                        request.orch_port,
                        request.redis_url@,
                    ),
                    image@,
                )
            }
            &&& !taken ==> post@ == pre@
            &&& !authorized ==> rejects(action, 401, "unauthorized"@)
            &&& authorized && !taken ==> rejects(
                action,
                409,
                "not idle (currently "@ + (match pre.status {
                    HostStatus::Idle => "Idle"@,
                    HostStatus::Running => "Running"@,
                    HostStatus::Starting => "Starting"@,
                    HostStatus::Stopping => "Stopping"@,
                }) + ")"@,
            )
        }),
{
    law_run_arguments_start_the_server(agent_run(request, image@));
}

/// When the command has ended well and printed text, the host runs the server in the container
/// that was printed, and says so in its report and its answer. Otherwise it is idle, and answers
/// with the reason.
pub proof fn law_how_a_start_ends(
    local: &mut LocalState,
    config: Config,
    ds_id: &str,
    output: Result<CommandOutput, String>,
    action: AgentAction,
    post: LocalState,
)
    requires
        *final(local) == post,
        call_ensures(LocalState::spawn_ended, (local, &config, ds_id, output), action),
    ensures
        action is Finish,
        reports(action->Finish_write@, config, post@),
        ({
            let started = output is Ok && output->Ok_0.success && valid_utf8(
                output->Ok_0.stdout@,
            );
            let container = trimmed(decode_utf8(output->Ok_0.stdout@));
            &&& started ==> {
                &&& post.status == HostStatus::Running
                &&& post@.container_id == Some(container)
                &&& post@.ds_id == Some(ds_id@)
                &&& action->answer matches AgentAnswer::Spawned(response)
                &&& response.container_id@ == container
            }
            &&& !started ==> {
                &&& post.status == HostStatus::Idle
                &&& post@.container_id is None
                &&& post@.ds_id is None
                &&& action->answer matches AgentAnswer::Error { code, body }
                &&& code == 500
                &&& body.error@ == "docker run failed: "@ + (match output {
                    Err(why) => why@,
                    Ok(o) => if !o.success {
                        "docker run failed: "@ + trimmed(lossy(o.stderr@))
                    } else {
                        utf8_complaint(o.stdout@)
                    },
                })
            }
        }),
{
}

/// A request to stop a container is taken exactly if it carries the token and names the
/// container of this host, which is then stopped. Otherwise it is rejected with its own status
/// and reason, and nothing changes.
pub proof fn law_when_a_container_is_stopped(
    local: &mut LocalState,
    config: Config,
    headers: &HeaderMap,
    request: KillRequest,
    action: AgentAction,
    pre: LocalState,
    post: LocalState,
)
    requires
        *old(local) == pre,
        *final(local) == post,
        call_ensures(LocalState::kill, (local, &config, headers, &request), action),
    ensures
        ({
            let authorized = is_authorized(header_contents(headers), config.agent_token@);
            let here = pre.container_id is Some && pre.container_id->0@ == request.container_id@;
            &&& action is Run <==> authorized && here
            &&& authorized && here ==> {
                &&& post.status == HostStatus::Stopping
                &&& post@.container_id == Some(request.container_id@)
                &&& post@.ds_id is None
                &&& reports(action->Run_write@, config, post@)
                &&& action->Run_args.deep_view() == seq!["stop"@, request.container_id@]
            }
            &&& !(authorized && here) ==> post@ == pre@
            &&& !authorized ==> rejects(action, 401, "unauthorized"@)
            &&& authorized && !here ==> rejects(action, 404, "container_id not running here"@)
        }),
{
    if pre.container_id is Some {
        assert(pre@.container_id == Some(pre.container_id->0@));
    }
}

/// When the command that stops a container has ended, the host is idle and says so, whatever
/// came of the command; what went wrong is told where something did.
pub proof fn law_how_a_stop_ends(
    local: &mut LocalState,
    config: Config,
    action: AgentAction,
    post: LocalState,
    output: CommandOutput,
    failure: Option<String>,
)
    requires
        *final(local) == post,
        call_ensures(LocalState::kill_ended, (local, &config), action),
        call_ensures(docker_stop, (&output,), failure),
    ensures
        action is Finish && action->answer is NoContent,
        reports(action->Finish_write@, config, post@),
        post.status == HostStatus::Idle,
        post@.container_id is None && post@.ds_id is None,
        failure is None <==> output.success,
        failure matches Some(why) ==> why@ == "docker stop failed: "@ + trimmed(
            lossy(output.stderr@),
        ),
{
}

/// Who carries the token is told the state of the host, and the server that runs there or is
/// being started, where it is known; nobody else is told anything.
pub proof fn law_what_the_agent_tells(
    config: Config,
    local: LocalState,
    headers: &HeaderMap,
    state: AgentAnswer,
    servers: AgentAnswer,
)
    requires
        call_ensures(status, (&config, &local, headers), state),
        call_ensures(list, (&config, &local, headers), servers),
    ensures
        ({
            let authorized = is_authorized(header_contents(headers), config.agent_token@);
            let busy = local.status == HostStatus::Running || local.status == HostStatus::Starting;
            &&& !authorized ==> is_error(state, 401, "unauthorized"@) && is_error(
                servers,
                401,
                "unauthorized"@,
            )
            &&& authorized ==> {
                &&& state matches AgentAnswer::Status(body)
                &&& body.hostname@ == config.hostname@
                &&& body.status == local.status
                &&& body.container_id.deep_view() == local.container_id.deep_view()
                &&& body.ds_id.deep_view() == local.ds_id.deep_view()
            }
            &&& authorized ==> servers is List
            &&& authorized && busy && local.ds_id is Some ==> {
                let found = servers->List_0;
                &&& found.len() == 1
                &&& found[0].ds_id@ == local.ds_id->0@
                &&& found[0].port == 7001
                &&& local.container_id is Some ==> found[0].container_id@
                    == local.container_id->0@
                &&& local.container_id is None ==> found[0].container_id@.len() == 0
            }
            &&& authorized && !(busy && local.ds_id is Some) ==> servers->List_0.len() == 0
        }),
{
    if local.ds_id is Some {
        assert(local@.ds_id == Some(local.ds_id->0@));
    }
    if local.container_id is Some {
        assert(local@.container_id == Some(local.container_id->0@));
    }
}

/// An error carries the status and the reason, both, and a rejection is an error and nothing
/// more.
pub proof fn law_errors_carry_status_and_reason(
    action: AgentAction,
    answer: AgentAnswer,
    code: u16,
    why: Seq<char>,
)
    ensures
        is_error(answer, code, why) <==> {
            &&& answer is Error
            &&& answer->code == code
            &&& answer->body.error@ == why
        },
        rejects(action, code, why) <==> {
            &&& action is Answer
            &&& action->Answer_0 is Error
            &&& action->Answer_0->code == code
            &&& action->Answer_0->body.error@ == why
        },
{
}

/// The agent says that it is there, and who may not ask is told so.
pub proof fn law_agent_is_there(text: &'static str, answer: AgentAnswer)
    requires
        call_ensures(health, (), text),
        call_ensures(unauthorized, (), answer),
    ensures
        text@ == "ok"@,
        answer is Error && answer->code == 401 && answer->body.error@ == "unauthorized"@,
{
}

/// A host is idle at first, and another state is what it is told to be.
pub proof fn law_host_is_as_it_is_told(
    idle: LocalState,
    local: &mut LocalState,
    config: Config,
    status: HostStatus,
    container_id: Option<String>,
    ds_id: Option<String>,
    write: HashWrite,
    post: LocalState,
)
    requires
        call_ensures(LocalState::idle, (), idle),
        *final(local) == post,
        call_ensures(
            LocalState::transition_state,
            (local, &config, status, container_id, ds_id),
            write,
        ),
    ensures
        idle.status == HostStatus::Idle && idle@.container_id is None && idle@.ds_id is None,
        post.status == status,
        post@.container_id == container_id.deep_view(),
        post@.ds_id == ds_id.deep_view(),
        reports(write@, config, post@),
{
}

} // verus!
