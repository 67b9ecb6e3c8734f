//! Finding a place for a player, as a machine: it says what to do, is told what came of it,
//! and says what to do next.

use crate::boundary::is_random_uuid;
use crate::boundary::random_uuid;
use crate::clock::epoch;
use crate::gatekeeper::servers::available_servers;
use crate::gatekeeper::servers::list_available_servers;
use crate::gatekeeper::servers::ChosenServer;
use crate::gatekeeper::servers::ChosenView;
use crate::gatekeeper::sessions::claimed;
use crate::gatekeeper::sessions::says_claimed;
use crate::gatekeeper::sessions::session_write;
use crate::gatekeeper::sessions::write_session;
use crate::store::make_server_key;
use crate::store::server_key;
use crate::store::HashWrite;
use crate::store::HashWriteView;
use crate::store::TextMap;
use vstd::prelude::*;

verus! {

/// How it ended.
#[derive(Debug)]
pub enum Allocated {
    /// The player has a place.
    Granted { player_id: String, server: ChosenServer },
    /// No server has room.
    NoServer,
    /// The store failed.
    Failed,
}

/// What is to be done next.
#[derive(Debug)]
pub enum AllocAction {
    /// Read the entries of all servers.
    List,
    /// Claim a slot of the server whose entry is kept under the key.
    Claim { key: String },
    /// Write the session.
    Write(HashWrite),
    /// Give back the slot of the server whose entry is kept under the key.
    Release { key: String },
    /// Nothing more.
    Finish(Allocated),
}

/// What came of it.
#[derive(Debug)]
pub enum AllocEvent {
    /// The entries of all servers.
    Listed(Vec<(String, TextMap)>),
    /// The entries could not be read.
    ListFailed,
    /// What the script replied that claims a slot.
    ClaimReply(i64),
    /// The script could not be run.
    ClaimFailed,
    /// The session was written.
    Written,
    /// The session was not written.
    WriteFailed,
    /// The slot was given back, or could not be.
    Released,
}

/// What an allocation is waiting for.
#[derive(Debug)]
pub enum AllocPhase {
    Listing,
    Claiming,
    Writing { player_id: String },
    Releasing,
    Over,
}

/// The search for a place for one player.
#[derive(Debug)]
pub struct Allocation {
    pub username: String,
    /// Seconds until the session expires.
    pub session_ttl_secs: usize,
    pub phase: AllocPhase,
    /// The servers to try, in order.
    pub servers: Vec<ChosenServer>,
    /// The server whose turn it is.
    pub next: usize,
}

/// Whether `write` is what is written for the player `player_id`, at some time.
pub open spec fn is_session(
    write: HashWriteView,
    player_id: Seq<char>,
    username: Seq<char>,
    server_id: Seq<char>,
    ttl: usize,
) -> bool {
    exists|now: i64| write == #[trigger] session_write(player_id, username, server_id, now, ttl)
}

/// From `pre`, the server is tried whose turn it is, or there is none.
pub open spec fn tries_next(pre: Allocation, post: Allocation, action: AllocAction) -> bool {
    if pre.next < pre.servers.len() {
        &&& action matches AllocAction::Claim { key }
        &&& key@ == server_key(pre.servers[pre.next as int].id@)
        &&& post == Allocation { phase: AllocPhase::Claiming, ..pre }
    } else {
        &&& action == AllocAction::Finish(Allocated::NoServer)
        &&& post == Allocation { phase: AllocPhase::Over, ..pre }
    }
}

/// From `pre`, the allocation fails.
pub open spec fn fails(pre: Allocation, post: Allocation, action: AllocAction) -> bool {
    &&& action == AllocAction::Finish(Allocated::Failed)
    &&& post == Allocation { phase: AllocPhase::Over, ..pre }
}

/// What an allocation that is at `pre` does when it is told `event`.
pub open spec fn alloc_step(
    pre: Allocation,
    event: AllocEvent,
    post: Allocation,
    action: AllocAction,
) -> bool {
    let server = pre.servers[pre.next as int];
    match (pre.phase, event) {
        (AllocPhase::Listing, AllocEvent::Listed(entries)) => {
            &&& post.servers.deep_view() == available_servers(entries.deep_view())
            &&& tries_next(Allocation { servers: post.servers, next: 0, ..pre }, post, action)
        },
        (AllocPhase::Claiming, AllocEvent::ClaimReply(reply)) => if says_claimed(reply as int) {
            &&& post.phase matches AllocPhase::Writing { player_id }
            &&& is_random_uuid(player_id@)
            &&& post == Allocation { phase: post.phase, ..pre }
            &&& action matches AllocAction::Write(write)
            &&& is_session(
                write@,
                player_id@,
                pre.username@,
                server.id@,
                pre.session_ttl_secs,
            )
        } else {
            tries_next(Allocation { next: (pre.next + 1) as usize, ..pre }, post, action)
        },
        (AllocPhase::Writing { player_id }, AllocEvent::Written) => {
            &&& action matches AllocAction::Finish(Allocated::Granted { player_id: id, server: s })
            &&& id == player_id
            &&& s@ == server@
            &&& post == Allocation { phase: AllocPhase::Over, ..pre }
        },
        (AllocPhase::Writing { .. }, AllocEvent::WriteFailed) => {
            &&& action matches AllocAction::Release { key }
            &&& key@ == server_key(server.id@)
            &&& post == Allocation { phase: AllocPhase::Releasing, ..pre }
        },
        (_, _) => fails(pre, post, action),
    }
}

impl Allocation {
    /// Whether there is a server whose turn it is, where one is being tried.
    pub open spec fn wf(self) -> bool {
        self.phase is Claiming || self.phase is Writing || self.phase is Releasing ==> self.next
            < self.servers.len()
    }

    /// Begins the search for a place for `username`: the first thing is to list the servers.
    pub fn begin(username: &str, session_ttl_secs: usize) -> (begun: (Allocation, AllocAction))
        ensures
            begun.0.wf(),
            begun.0.username@ == username@,
            begun.0.session_ttl_secs == session_ttl_secs,
            begun.0.phase is Listing,
            begun.0.servers.len() == 0,
            begun.0.next == 0,
            begun.1 is List,
    {
        let allocation = Allocation {
            username: username.to_owned(),
            session_ttl_secs,
            phase: AllocPhase::Listing,
            servers: Vec::new(),
            next: 0,
        };
        (allocation, AllocAction::List)
    }

    fn try_next(&mut self) -> (action: AllocAction)
        ensures
            final(self).wf(),
            tries_next(*old(self), *final(self), action),
    {
        if self.next < self.servers.len() {
            let key = make_server_key(self.servers[self.next].id.as_str());
            self.phase = AllocPhase::Claiming;
            AllocAction::Claim { key }
        } else {
            self.phase = AllocPhase::Over;
            AllocAction::Finish(Allocated::NoServer)
        }
    }

    /// Takes what came of the last action, and says what to do next. An event that does not
    /// answer that action counts as a failure of the store.
    pub fn step(&mut self, event: AllocEvent) -> (action: AllocAction)
        requires
            old(self).wf(),
        ensures
            final(self).wf(),
            alloc_step(*old(self), event, *final(self), action),
    {
        let mut phase = AllocPhase::Over;
        std::mem::swap(&mut phase, &mut self.phase);
        match (phase, event) {
            (AllocPhase::Listing, AllocEvent::Listed(entries)) => {
                self.servers = list_available_servers(&entries);
                self.next = 0;
                self.try_next()
            },
            (AllocPhase::Claiming, AllocEvent::ClaimReply(reply)) => if claimed(reply) {
                let player_id = random_uuid();
                let now = epoch();
                let write = write_session(
                    player_id.as_str(),
                    self.username.as_str(),
                    self.servers[self.next].id.as_str(),
                    now,
                    self.session_ttl_secs,
                );
                assert(is_session(
                    write@,
                    player_id@,
                    self.username@,
                    self.servers[self.next as int].id@,
                    self.session_ttl_secs,
                ));
                self.phase = AllocPhase::Writing { player_id };
                AllocAction::Write(write)
            } else {
                self.next = self.next + 1;
                self.try_next()
            },
            (AllocPhase::Writing { player_id }, AllocEvent::Written) => {
                let server = &self.servers[self.next];
                let place = ChosenServer {
                    id: server.id.clone(),
                    ip: server.ip.clone(),
                    port: server.port,
                    zone: server.zone.clone(),
                };
                assert(place@ == old(self).servers[old(self).next as int]@);
                AllocAction::Finish(Allocated::Granted { player_id, server: place })
            },
            (AllocPhase::Writing { .. }, AllocEvent::WriteFailed) => {
                let key = make_server_key(self.servers[self.next].id.as_str());
                self.phase = AllocPhase::Releasing;
                AllocAction::Release { key }
            },
            (_, _) => AllocAction::Finish(Allocated::Failed),
        }
    }
}

// ---- laws ----

/// Whether `event` is something that can come of `action`.
pub open spec fn answers(action: AllocAction, event: AllocEvent) -> bool {
    match action {
        AllocAction::List => event is Listed || event is ListFailed,
        AllocAction::Claim { .. } => event is ClaimReply || event is ClaimFailed,
        AllocAction::Write(_) => event is Written || event is WriteFailed,
        AllocAction::Release { .. } => event is Released,
        AllocAction::Finish(_) => false,
    }
}

/// An allocation as far as it has come: its states, the actions it asked for, and what came
/// of each but the last.
pub struct AllocRun {
    pub states: Seq<Allocation>,
    pub actions: Seq<AllocAction>,
    pub events: Seq<AllocEvent>,
}

impl AllocRun {
    /// Whether an allocation can run like this.
    pub open spec fn valid(self) -> bool {
        &&& self.states.len() == self.events.len() + 1
        &&& self.actions.len() == self.events.len() + 1
        &&& self.states[0].phase is Listing
        &&& self.actions[0] is List
        &&& forall|i: int| 0 <= i < self.events.len() ==> #[trigger] self.step_at(i)
    }

    /// Whether the step number `i` is one that an allocation can do.
    pub open spec fn step_at(self, i: int) -> bool {
        &&& answers(self.actions[i], self.events[i])
        &&& alloc_step(self.states[i], self.events[i], self.states[i + 1], self.actions[i + 1])
    }

    /// The run without its last step.
    pub open spec fn before_last(self) -> AllocRun {
        AllocRun {
            states: self.states.drop_last(),
            actions: self.actions.drop_last(),
            events: self.events.drop_last(),
        }
    }

    /// The slots that were claimed in the run, as far as the replies say.
    pub open spec fn claims(self) -> nat
        decreases self.events.len(),
    {
        if self.events.len() == 0 {
            0
        } else {
            let before = self.before_last().claims();
            match self.events.last() {
                AllocEvent::ClaimReply(reply) if says_claimed(reply as int) => before + 1,
                _ => before,
            }
        }
    }

    /// The slots that the run asked to give back.
    pub open spec fn releases(self) -> nat
        decreases self.actions.len(),
    {
        if self.actions.len() == 0 {
            0
        } else {
            let before = self.before_last().releases();
            if self.actions.last() is Release {
                before + 1
            } else {
                before
            }
        }
    }
}

/// What is being waited for is what was asked for.
pub open spec fn phase_fits(phase: AllocPhase, action: AllocAction) -> bool {
    match action {
        AllocAction::List => phase is Listing,
        AllocAction::Claim { .. } => phase is Claiming,
        AllocAction::Write(_) => phase is Writing,
        AllocAction::Release { .. } => phase is Releasing,
        AllocAction::Finish(_) => phase is Over,
    }
}

proof fn lemma_alloc_counts(run: AllocRun)
    requires
        run.valid(),
    ensures
        phase_fits(run.states.last().phase, run.actions.last()),
        run.states.last().wf(),
        run.claims() == run.releases() + (if run.actions.last() is Write || (run.actions.last()
            matches AllocAction::Finish(end) && end is Granted) {
            1int
        } else {
            0int
        }),
    decreases run.events.len(),
{
    if run.events.len() == 0 {
        assert(run.before_last().releases() == 0);
    } else {
        let b = run.before_last();
        assert forall|i: int| 0 <= i < b.events.len() implies #[trigger] b.step_at(i) by {
            assert(run.step_at(i));
        }
        lemma_alloc_counts(b);
        let n = run.events.len() - 1;
        assert(run.step_at(n));
        assert(b.states.last() == run.states[n]);
        assert(b.actions.last() == run.actions[n]);
    }
}

/// When an allocation has ended, every slot that it claimed was given back, but for the one
/// slot of a player who has a place.
pub proof fn law_allocation_keeps_one_slot(run: AllocRun)
    requires
        run.valid(),
        run.actions.last() is Finish,
    ensures
        run.claims() == run.releases() + (if run.actions.last()->Finish_0 is Granted {
            1int
        } else {
            0int
        }),
{
    lemma_alloc_counts(run);
}

/// A player who has a place has a session: the last thing that was written, under the
/// identifier that the player is given, with the player's name, for that server.
pub proof fn law_granted_player_has_session(run: AllocRun)
    requires
        run.valid(),
        run.actions.last() is Finish,
        run.actions.last()->Finish_0 is Granted,
    ensures
        ({
            let n = run.events.len() - 1;
            let end = run.actions.last()->Finish_0;
            &&& run.events[n] is Written
            &&& run.actions[n] matches AllocAction::Write(write)
            &&& is_session(
                write@,
                end->player_id@,
                run.states[0].username@,
                end->server.id@,
                run.states[0].session_ttl_secs,
            )
        }),
{
    let n = run.events.len() - 1;
    assert(run.events.len() > 0);
    assert(run.step_at(n));
    assert(run.states[n].phase is Writing);
    assert(n > 0);
    assert(run.step_at(n - 1));
    lemma_alloc_prefix(run, n - 1);
    lemma_user_stays(run, n - 1);
    lemma_user_stays(run, n);
}

proof fn lemma_alloc_prefix(run: AllocRun, i: int)
    requires
        run.valid(),
        0 <= i < run.states.len(),
    ensures
        phase_fits(run.states[i].phase, run.actions[i]),
        run.states[i].wf(),
    decreases i,
{
    if i > 0 {
        lemma_alloc_prefix(run, i - 1);
        assert(run.step_at(i - 1));
    }
}

proof fn lemma_user_stays(run: AllocRun, i: int)
    requires
        run.valid(),
        0 <= i < run.states.len(),
    ensures
        run.states[i].username == run.states[0].username,
        run.states[i].session_ttl_secs == run.states[0].session_ttl_secs,
    decreases i,
{
    if i > 0 {
        lemma_user_stays(run, i - 1);
        assert(run.step_at(i - 1));
    }
}

/// A slot is given back where it was claimed: the entry is the one that was claimed from
/// last.
pub proof fn law_release_follows_claim(run: AllocRun, i: int)
    requires
        run.valid(),
        0 <= i < run.actions.len(),
        run.actions[i] is Release,
    ensures
        i >= 2,
        run.actions[i - 1] is Write,
        run.events[i - 1] is WriteFailed,
        run.actions[i - 2] matches AllocAction::Claim { key } && key@
            == run.actions[i]->Release_key@,
{
    assert(i > 0);
    assert(run.step_at(i - 1));
    lemma_alloc_prefix(run, i - 1);
    assert(run.states[i - 1].phase is Writing);
    assert(i > 1);
    assert(run.step_at(i - 2));
    lemma_alloc_prefix(run, i - 2);
    assert(run.states[i - 2].phase is Claiming);
    assert(i > 2);
    assert(run.step_at(i - 3));
}

/// How far an allocation is from its end, at most, once the servers are listed.
pub open spec fn steps_left(allocation: Allocation) -> int {
    let turns = 3 * (allocation.servers.len() - allocation.next);
    match allocation.phase {
        AllocPhase::Listing => 0,
        AllocPhase::Claiming => turns,
        AllocPhase::Writing { .. } => turns - 1,
        AllocPhase::Releasing => turns - 2,
        AllocPhase::Over => 0,
    }
}

/// The first step lists the servers; every step after it brings the allocation nearer to
/// its end.
pub proof fn law_allocation_ends(run: AllocRun, i: int)
    requires
        run.valid(),
        0 <= i < run.events.len(),
    ensures
        i == 0 <==> run.states[i].phase is Listing,
        i > 0 ==> 0 <= steps_left(run.states[i + 1]) < steps_left(run.states[i]),
    decreases i,
{
    lemma_alloc_prefix(run, i);
    lemma_alloc_prefix(run, i + 1);
    assert(run.step_at(i));
    if i > 0 {
        law_allocation_ends(run, i - 1);
        assert(run.step_at(i - 1));
    }
}

/// What an allocation says is how it begins, and then a step of it.
pub proof fn law_allocation_steps(
    allocation: &mut Allocation,
    event: AllocEvent,
    action: AllocAction,
    pre: Allocation,
    post: Allocation,
)
    requires
        *old(allocation) == pre,
        *final(allocation) == post,
        call_ensures(Allocation::step, (allocation, event), action),
    ensures
        alloc_step(pre, event, post, action),
        post.wf(),
{
}

/// An allocation begins by listing the servers, for the player and with the time that sessions
/// live.
pub proof fn law_allocation_begins(
    username: &str,
    session_ttl_secs: usize,
    begun: (Allocation, AllocAction),
)
    requires
        call_ensures(Allocation::begin, (username, session_ttl_secs), begun),
    ensures
        begun.1 is List,
        begun.0.phase is Listing,
        begun.0.username@ == username@,
        begun.0.session_ttl_secs == session_ttl_secs,
{
}

/// The servers that an allocation tries, as they were listed to it.
pub open spec fn tried_servers(run: AllocRun) -> Seq<ChosenView> {
    available_servers(run.events[0]->Listed_0.deep_view())
}

/// Whether the replies from event number `from` up to but without `to` all say that no slot
/// was claimed.
pub open spec fn all_refused(run: AllocRun, from: int, to: int) -> bool {
    forall|j: int|
        from <= j < to ==> (#[trigger] run.events[j] matches AllocEvent::ClaimReply(reply) && reply
            < 0)
}

proof fn lemma_claims(run: AllocRun, i: int)
    requires
        run.valid(),
        0 < i < run.states.len(),
    ensures
        run.states[i].phase is Claiming || run.actions[i] == AllocAction::Finish(
            Allocated::NoServer,
        ) ==> {
            &&& run.events[0] is Listed
            &&& run.states[i].servers.deep_view() == tried_servers(run)
            &&& run.states[i].next == i - 1
            &&& all_refused(run, 1, i)
        },
    decreases i,
{
    assert(run.step_at(i - 1));
    lemma_alloc_prefix(run, i - 1);
    lemma_alloc_prefix(run, i);
    law_allocation_ends(run, i - 1);
    if i > 1 {
        lemma_claims(run, i - 1);
    }
}

/// The servers are tried in the order of the list, one claim each, and the next one only when
/// the claim before was refused.
pub proof fn law_servers_are_tried_in_order(run: AllocRun, i: int)
    requires
        run.valid(),
        0 <= i < run.actions.len(),
        run.actions[i] is Claim,
    ensures
        i > 0,
        run.events[0] is Listed,
        i - 1 < tried_servers(run).len(),
        run.actions[i]->Claim_key@ == "server:"@ + tried_servers(run)[i - 1].id,
        all_refused(run, 1, i),
{
    lemma_alloc_prefix(run, i);
    lemma_claims(run, i);
    lemma_alloc_prefix(run, i - 1);
    assert(run.step_at(i - 1));
    let now = run.states[i];
    assert(now.servers.deep_view()[now.next as int] == now.servers[now.next as int]@);
}

/// An allocation finds no place exactly if the servers could be listed and every one of them
/// refused the claim.
pub proof fn law_no_place_means_all_refused(run: AllocRun)
    requires
        run.valid(),
        run.actions.last() == AllocAction::Finish(Allocated::NoServer),
    ensures
        run.events.len() > 0,
        run.events[0] is Listed,
        run.events.len() == tried_servers(run).len() + 1,
        all_refused(run, 1, run.events.len() as int),
{
    let n = run.events.len() as int;
    assert(n > 0);
    lemma_claims(run, n);
    lemma_alloc_prefix(run, n - 1);
    assert(run.step_at(n - 1));
    assert(run.states[n].servers.deep_view().len() == run.states[n].servers.len());
}

/// A claim that is granted is followed by the session, for a new identifier; a session that
/// cannot be written by giving back the slot. An allocation fails only where the store did.
pub proof fn law_allocation_follows_the_store(run: AllocRun, i: int)
    requires
        run.valid(),
        0 <= i < run.events.len(),
    ensures
        run.events[i] matches AllocEvent::ClaimReply(reply) ==> (reply >= 0 <==> run.actions[i + 1]
            is Write),
        run.events[i] is WriteFailed <==> run.actions[i + 1] is Release,
        run.events[i] is Written ==> (run.actions[i + 1] matches AllocAction::Finish(end) && end
            is Granted),
        run.actions[i + 1] == AllocAction::Finish(Allocated::Failed) <==> run.events[i]
            is ListFailed || run.events[i] is ClaimFailed || run.events[i] is Released,
{
    lemma_alloc_prefix(run, i);
    assert(run.step_at(i));
}

/// A player is granted the place whose slot was claimed: the address is that of the server
/// that the claim was made for, and the identifier is a new one.
pub proof fn law_granted_place_is_the_claimed_one(run: AllocRun)
    requires
        run.valid(),
        run.actions.last() is Finish,
        run.actions.last()->Finish_0 is Granted,
    ensures
        ({
            let n = run.events.len() as int;
            let end = run.actions.last()->Finish_0;
            &&& n >= 3
            &&& run.events[0] is Listed
            &&& n - 3 < tried_servers(run).len()
            &&& end->server@ == tried_servers(run)[n - 3]
            &&& run.actions[n - 2] is Claim
            &&& run.actions[n - 2]->Claim_key@ == "server:"@ + end->server.id@
            &&& is_random_uuid(end->player_id@)
        }),
{
    let n = run.events.len() as int;
    assert(n > 0);
    assert(run.step_at(n - 1));
    lemma_alloc_prefix(run, n - 1);
    assert(run.states[n - 1].phase is Writing);
    assert(n > 1);
    assert(run.step_at(n - 2));
    lemma_alloc_prefix(run, n - 2);
    assert(run.states[n - 2].phase is Claiming);
    assert(n > 2);
    assert(run.step_at(n - 3));
    lemma_claims(run, n - 2);
    lemma_alloc_prefix(run, n - 3);
    law_servers_are_tried_in_order(run, n - 2);
    let now = run.states[n - 2];
    assert(now.servers.deep_view()[now.next as int] == now.servers[now.next as int]@);
}

/// From one state and with one event, an allocation goes on or ends in one way.
pub proof fn law_allocation_has_one_outcome(
    pre: Allocation,
    event: AllocEvent,
    post: Allocation,
    action: AllocAction,
    other: Allocation,
    other_action: AllocAction,
)
    requires
        alloc_step(pre, event, post, action),
        alloc_step(pre, event, other, other_action),
    ensures
        action is Finish <==> other_action is Finish,
        action == AllocAction::Finish(Allocated::NoServer) <==> other_action == AllocAction::Finish(
            Allocated::NoServer,
        ),
        action == AllocAction::Finish(Allocated::Failed) <==> other_action == AllocAction::Finish(
            Allocated::Failed,
        ),
        action is Claim <==> other_action is Claim,
        action is Claim ==> action->Claim_key@ == other_action->Claim_key@,
        action is Write <==> other_action is Write,
        action is Release <==> other_action is Release,
        action is Release ==> action->Release_key@ == other_action->Release_key@,
{
    assert(post.servers.deep_view().len() == post.servers.len());
    assert(other.servers.deep_view().len() == other.servers.len());
    if post.next < post.servers.len() && other.next < other.servers.len() {
        assert(post.servers.deep_view()[post.next as int] == post.servers[post.next as int]@);
        assert(other.servers.deep_view()[other.next as int] == other.servers[other.next as int]@);
    }
}

} // verus!
