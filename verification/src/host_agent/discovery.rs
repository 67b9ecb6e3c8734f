//! Finding out at the start whether a dedicated server runs on the host already.

use crate::boundary::lossy;
use crate::containers::find_args;
use crate::containers::make_find_args;
use crate::containers::printed;
use crate::containers::printed_text;
use crate::host_agent::agent::LocalState;
use crate::host_agent::agent::LocalView;
use crate::protocol::HostStatus;
use crate::text::no_texts;
use crate::text::push_text;
use crate::text::trimmed;
use vstd::prelude::*;

verus! {

/// What is to be done next.
#[derive(Debug)]
pub enum DiscoveryAction {
    /// Run the container command with these arguments.
    Run { args: Vec<String> },
    /// The host starts out in this state.
    Start(LocalState),
}

/// What the search is waiting for.
#[derive(Debug)]
pub enum Discovery {
    /// The containers with the label.
    Finding,
    /// The label of a container that says which server it is.
    Inspecting { container_id: String },
    Over,
}

/// The arguments that read which server a container is.
pub open spec fn inspect_args(container_id: Seq<char>) -> Seq<Seq<char>> {
    seq!["inspect"@, "-f"@, "{{ index .Config.Labels \"mmorpg.ds_id\" }}"@, container_id]
}

/// The text, or nothing where it is empty.
pub open spec fn unless_empty(text: Seq<char>) -> Option<Seq<char>> {
    if text.len() == 0 {
        None
    } else {
        Some(text)
    }
}

/// What a search does when a command has printed `stdout`, or has failed. Where nothing can
/// be found out, the host counts as idle.
pub open spec fn discovery_step(
    pre: Discovery,
    stdout: Option<Seq<u8>>,
    post: Discovery,
    action: DiscoveryAction,
) -> bool {
    match (pre, stdout) {
        (Discovery::Finding, Some(stdout)) if printed(stdout).len() > 0 => {
            &&& post matches Discovery::Inspecting { container_id }
            &&& container_id@ == printed(stdout)
            &&& action matches DiscoveryAction::Run { args }
            &&& args.deep_view() == inspect_args(printed(stdout))
        },
        (Discovery::Inspecting { container_id }, Some(stdout)) => {
            &&& post is Over
            &&& action matches DiscoveryAction::Start(state)
            &&& state@ == LocalView::running(container_id@, unless_empty(printed(stdout)))
        },
        (_, _) => {
            &&& post is Over
            &&& action matches DiscoveryAction::Start(state)
            &&& state@ == LocalView::idle()
        },
    }
}

impl Discovery {
    /// Begins to look for a container with the label.
    pub fn begin(label: &str) -> (begun: (Discovery, DiscoveryAction))
        ensures
            begun.0 is Finding,
            begun.1 matches DiscoveryAction::Run { args } && args.deep_view() == find_args(label@),
    {
        (Discovery::Finding, DiscoveryAction::Run { args: make_find_args(label) })
    }

    /// Takes what the last command printed, or that it failed, and says what to do next.
    pub fn step(&mut self, stdout: Option<Vec<u8>>) -> (action: DiscoveryAction)
        ensures
            discovery_step(*old(self), stdout.deep_view(), *final(self), action),
            action matches DiscoveryAction::Start(state) ==> state@.wf(),
    {
        let mut phase = Discovery::Over;
        std::mem::swap(&mut phase, self);
        let stdout = match stdout {
            Some(stdout) => stdout,
            None => {
                return DiscoveryAction::Start(LocalState::idle());
            },
        };
        assert(stdout.deep_view() == stdout@);
        let text = printed_text(&stdout);
        match phase {
            Discovery::Finding => {
                if text.as_str().is_empty() {
                    return DiscoveryAction::Start(LocalState::idle());
                }
                let mut args = no_texts();
                push_text(&mut args, "inspect");
                push_text(&mut args, "-f");
                push_text(&mut args, "{{ index .Config.Labels \"mmorpg.ds_id\" }}");
                push_text(&mut args, text.as_str());
                assert(args.deep_view() == inspect_args(printed(stdout@)));
                *self = Discovery::Inspecting { container_id: text };
                DiscoveryAction::Run { args }
            },
            Discovery::Inspecting { container_id } => {
                let ds_id = if text.as_str().is_empty() {
                    None
                } else {
                    Some(text)
                };
                DiscoveryAction::Start(
                    LocalState {
                        status: HostStatus::Running,
                        container_id: Some(container_id),
                        ds_id,
                    },
                )
            },
            Discovery::Over => DiscoveryAction::Start(LocalState::idle()),
        }
    }
}

// ---- laws ----

/// What a search says after its beginning is a step of it.
pub proof fn law_discovery_steps(
    search: &mut Discovery,
    stdout: Option<Vec<u8>>,
    action: DiscoveryAction,
    pre: Discovery,
    post: Discovery,
)
    requires
        *old(search) == pre,
        *final(search) == post,
        call_ensures(Discovery::step, (search, stdout), action),
    ensures
        discovery_step(pre, stdout.deep_view(), post, action),
{
}

/// The containers with the label are looked for first.
pub proof fn law_discovery_begins(label: &str, begun: (Discovery, DiscoveryAction))
    requires
        call_ensures(Discovery::begin, (label,), begun),
    ensures
        begun.0 is Finding,
        begun.1 matches DiscoveryAction::Run { args } && args.deep_view() == seq![
            "ps"@,
            "-q"@,
            "--filter"@,
            "label="@ + label@,
        ],
{
}

/// Where a container is found, it is asked which server it is, and the host starts out as
/// running that container and, where the answer is not empty, that server. Where none is found,
/// or a command fails, the host starts out idle.
pub proof fn law_host_starts_with_what_it_runs(
    first: Option<Seq<u8>>,
    between: Discovery,
    action: DiscoveryAction,
    second: Option<Seq<u8>>,
    end: Discovery,
    last: DiscoveryAction,
)
    requires
        discovery_step(Discovery::Finding, first, between, action),
        discovery_step(between, second, end, last),
    ensures
        ({
            let found = first is Some && trimmed(lossy(first->0)).len() > 0;
            &&& !found ==> (action matches DiscoveryAction::Start(state) && state@ == (LocalView {
                status: HostStatus::Idle,
                container_id: None,
                ds_id: None,
            }))
            &&& found ==> (action matches DiscoveryAction::Run { args } && args.deep_view() == seq![
                "inspect"@,
                "-f"@,
                "{{ index .Config.Labels \"mmorpg.ds_id\" }}"@,
                trimmed(lossy(first->0)),
            ])
            &&& found && second is Some ==> (last matches DiscoveryAction::Start(state) && state@
                == (LocalView {
                status: HostStatus::Running,
                container_id: Some(trimmed(lossy(first->0))),
                ds_id: if trimmed(lossy(second->0)).len() == 0 {
                    None
                } else {
                    Some(trimmed(lossy(second->0)))
                },
            }))
            &&& second is None ==> (last matches DiscoveryAction::Start(state) && state@ == (
            LocalView { status: HostStatus::Idle, container_id: None, ds_id: None }))
        }),
{
}

} // verus!
