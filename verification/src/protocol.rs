//! The two services together, and what holds of them under every ordering
//! of calls.
//!
//! The polls service holds only the registry's address and asks it about
//! each voter at the moment of the ballot. Here the two are put side by
//! side as one system, a history is a sequence of calls to either, and the
//! laws below hold of every history.

use crate::polls::PollsError;
use crate::polls::PollsState;
use crate::primitives::Address;
use crate::primitives::U256;
use crate::voter_registry::RegistryState;
use vstd::prelude::*;

verus! {

/// One call to one of the two services.
pub enum Call {
    /// `caller` calls `register` on the registry.
    Register { caller: Address },
    /// `caller` calls `deregister` on the registry.
    Deregister { caller: Address },
    /// `caller` calls `set_registry` on the polls service.
    SetRegistry { caller: Address, registry: Address },
    /// `caller` calls `create_poll` on the polls service.
    CreatePoll { caller: Address, title: Seq<char> },
    /// `caller` calls `vote` on the polls service, which asks the registry.
    Vote { caller: Address, poll_id: U256, support: bool },
    /// `caller` calls `close_poll` on the polls service.
    ClosePoll { caller: Address, poll_id: U256 },
}

/// The registry and the polls service that consults it.
pub struct SystemState {
    pub registry: RegistryState,
    pub polls: PollsState,
}

impl SystemState {
    /// Both services before anyone has called them.
    pub open spec fn init() -> SystemState {
        SystemState { registry: RegistryState::init(), polls: PollsState::init() }
    }

    /// Both services keep their counts in step with their sets.
    pub open spec fn valid(self) -> bool {
        self.registry.valid() && self.polls.valid()
    }

    /// Whether `call` succeeds in this state.
    pub open spec fn accepts(self, call: Call) -> bool {
        match call {
            Call::Register { caller } => self.registry.register(caller) is Ok,
            Call::Deregister { caller } => self.registry.deregister(caller) is Ok,
            Call::SetRegistry { caller, registry } => self.polls.set_registry(caller, registry) is Ok,
            Call::CreatePoll { caller, title } => true,
            Call::Vote { caller, poll_id, support } => self.polls.vote(
                caller,
                poll_id,
                support,
                self.registry.registered.contains(caller),
            ) is Ok,
            Call::ClosePoll { caller, poll_id } => self.polls.close_poll(caller, poll_id) is Ok,
        }
    }

    /// The state after `call`: a call that is refused changes nothing.
    pub open spec fn step(self, call: Call) -> SystemState {
        match call {
            Call::Register { caller } => match self.registry.register(caller) {
                Ok(next) => SystemState { registry: next, ..self },
                Err(_) => self,
            },
            Call::Deregister { caller } => match self.registry.deregister(caller) {
                Ok(next) => SystemState { registry: next, ..self },
                Err(_) => self,
            },
            Call::SetRegistry { caller, registry } => match self.polls.set_registry(
                caller,
                registry,
            ) {
                Ok(next) => SystemState { polls: next, ..self },
                Err(_) => self,
            },
            Call::CreatePoll { caller, title } => SystemState {
                polls: self.polls.create_poll(caller, title),
                ..self
            },
            Call::Vote { caller, poll_id, support } => match self.polls.vote(
                caller,
                poll_id,
                support,
                self.registry.registered.contains(caller),
            ) {
                Ok(next) => SystemState { polls: next, ..self },
                Err(_) => self,
            },
            Call::ClosePoll { caller, poll_id } => match self.polls.close_poll(caller, poll_id) {
                Ok(next) => SystemState { polls: next, ..self },
                Err(_) => self,
            },
        }
    }

    /// The state after the calls of `history`, made in order.
    pub open spec fn run(self, history: Seq<Call>) -> SystemState
        decreases history.len(),
    {
        if history.len() == 0 {
            self
        } else {
            self.run(history.drop_last()).step(history.last())
        }
    }
}

/// The number of `create_poll` calls in `history`.
pub open spec fn polls_created(history: Seq<Call>) -> nat
    decreases history.len(),
{
    if history.len() == 0 {
        0
    } else {
        polls_created(history.drop_last()) + if history.last() is CreatePoll {
            1nat
        } else {
            0nat
        }
    }
}

/// Whether `call` is a ballot by `voter` on the poll `poll_id`.
pub open spec fn is_ballot(call: Call, poll_id: U256, voter: Address) -> bool {
    match call {
        Call::Vote { caller, poll_id: id, support } => caller == voter && id == poll_id,
        _ => false,
    }
}

/// The number of ballots by `voter` on `poll_id` that succeed when
/// `history` is run from `start`.
pub open spec fn ballots_counted(
    start: SystemState,
    history: Seq<Call>,
    poll_id: U256,
    voter: Address,
) -> nat
    decreases history.len(),
{
    if history.len() == 0 {
        0
    } else {
        ballots_counted(start, history.drop_last(), poll_id, voter) + if is_ballot(
            history.last(),
            poll_id,
            voter,
        ) && start.run(history.drop_last()).accepts(history.last()) {
            1nat
        } else {
            0nat
        }
    }
}

/// One if `flag`, zero if not.
pub open spec fn one_if(flag: bool) -> nat {
    if flag {
        1
    } else {
        0
    }
}

/// Tally conservation, one call at a time: no call breaks the agreement of
/// counts and sets. In the registry the voter count stays the number of
/// registered addresses; in every poll the two tallies stay the number of
/// addresses that have voted.
pub proof fn lemma_step_keeps_valid(state: SystemState, call: Call)
    requires
        state.valid(),
    ensures
        state.step(call).valid(),
{
    let next = state.step(call);
    assert forall|i: int| 0 <= i < next.polls.polls.len() implies (
    #[trigger] next.polls.polls[i]).valid() by {
        if i < state.polls.polls.len() {
            assert(state.polls.polls[i].valid());
        }
    }
}

/// Tally conservation: after any history from the start, in every poll the
/// tallies for and against add up to the number of addresses that have
/// voted on it, and the registry's count is the number of registered
/// addresses.
pub proof fn lemma_run_keeps_valid(state: SystemState, history: Seq<Call>)
    requires
        state.valid(),
    ensures
        state.run(history).valid(),
        SystemState::init().valid(),
    decreases history.len(),
{
    if history.len() > 0 {
        lemma_run_keeps_valid(state, history.drop_last());
        lemma_step_keeps_valid(state.run(history.drop_last()), history.last());
    }
}

/// Monotonic id allocation: after any history, the next poll id is the id
/// at the start plus the number of polls created since. So from a fresh
/// service the ids handed out are 0, 1, 2, and so on in call order, without
/// gaps or repeats, whatever other calls come in between.
pub proof fn lemma_ids_count_up(state: SystemState, history: Seq<Call>)
    ensures
        state.run(history).polls.next_poll_id() == state.polls.next_poll_id() + polls_created(
            history,
        ),
        SystemState::init().polls.next_poll_id() == 0,
    decreases history.len(),
{
    if history.len() > 0 {
        lemma_ids_count_up(state, history.drop_last());
    }
}

/// Monotonic id allocation, call by call: the poll that the call at
/// `position` of `history` creates gets as its id the number of polls
/// created before it, counted from the id at the start.
pub proof fn lemma_created_poll_id(state: SystemState, history: Seq<Call>, position: int)
    requires
        0 <= position < history.len(),
        history[position] is CreatePoll,
    ensures
        state.run(history.take(position)).polls.next_poll_id() == state.polls.next_poll_id()
            + polls_created(history.take(position)),
        polls_created(history.take(position + 1)) == polls_created(history.take(position)) + 1,
        state.run(history.take(position + 1)).polls.next_poll_id() == state.run(
            history.take(position),
        ).polls.next_poll_id() + 1,
{
    let before = history.take(position);
    let through = history.take(position + 1);
    assert(through.drop_last() == before);
    assert(through.last() == history[position]);
    lemma_ids_count_up(state, before);
    lemma_ids_count_up(state, through);
}

/// Polls are never deleted: a poll that exists still exists after any
/// history, under the same id and with the same title.
pub proof fn lemma_polls_stay(state: SystemState, history: Seq<Call>, poll_id: U256)
    requires
        state.polls.has_poll(poll_id),
    ensures
        state.run(history).polls.has_poll(poll_id),
        state.run(history).polls.poll(poll_id).title == state.polls.poll(poll_id).title,
    decreases history.len(),
{
    if history.len() > 0 {
        lemma_polls_stay(state, history.drop_last(), poll_id);
    }
}

/// One-vote invariant: over any history, an address has voted on a poll at
/// the end exactly if it had at the start or one of its ballots on that poll
/// succeeded since, and never both nor twice. From a fresh service:
/// `has_voted` is true if and only if exactly one ballot succeeded.
pub proof fn lemma_one_vote(
    state: SystemState,
    history: Seq<Call>,
    poll_id: U256,
    voter: Address,
)
    ensures
        one_if(state.polls.has_voted(poll_id, voter)) + ballots_counted(
            state,
            history,
            poll_id,
            voter,
        ) == one_if(state.run(history).polls.has_voted(poll_id, voter)),
        !SystemState::init().polls.has_voted(poll_id, voter),
    decreases history.len(),
{
    if history.len() > 0 {
        lemma_one_vote(state, history.drop_last(), poll_id, voter);
    }
}

/// A ballot is permanent: an address that has voted on a poll has voted on
/// it after any history.
pub proof fn lemma_ballot_stays(
    state: SystemState,
    history: Seq<Call>,
    poll_id: U256,
    voter: Address,
)
    requires
        state.polls.has_voted(poll_id, voter),
    ensures
        state.run(history).polls.has_voted(poll_id, voter),
        ballots_counted(state, history, poll_id, voter) == 0,
{
    lemma_one_vote(state, history, poll_id, voter);
}

/// A second ballot is refused: once an address has voted on a poll, its
/// every further ballot on that poll fails, whatever the registry says, and
/// changes nothing, the tallies included. The error is `AlreadyVoted` when a
/// registry is configured, the poll is active and the registry lists the
/// address; otherwise it is the error of the earlier check that fails.
pub proof fn lemma_second_vote_refused(
    state: SystemState,
    poll_id: U256,
    voter: Address,
    support: bool,
)
    requires
        state.polls.has_voted(poll_id, voter),
    ensures
        !state.accepts(Call::Vote { caller: voter, poll_id, support }),
        state.step(Call::Vote { caller: voter, poll_id, support }) == state,
        forall|eligible: bool| #[trigger]
            state.polls.vote(voter, poll_id, support, eligible) is Err,
        state.polls.registry@ != 0 && state.polls.is_active(poll_id) ==> state.polls.vote(
            voter,
            poll_id,
            support,
            true,
        ) == Err::<PollsState, PollsError>(PollsError::AlreadyVoted { poll_id, voter }),
{
}

/// Active monotonicity: a closed poll stays closed through any history.
pub proof fn lemma_closed_stays_closed(state: SystemState, history: Seq<Call>, poll_id: U256)
    requires
        state.polls.has_poll(poll_id),
        !state.polls.is_active(poll_id),
    ensures
        state.run(history).polls.has_poll(poll_id),
        !state.run(history).polls.is_active(poll_id),
    decreases history.len(),
{
    if history.len() > 0 {
        lemma_closed_stays_closed(state, history.drop_last(), poll_id);
    }
}

/// Active monotonicity: once `close_poll` has succeeded for a poll, then
/// after any further history `is_active` is false and every ballot on the
/// poll is refused: with `PollNotActive` while a registry is configured,
/// and with `RegistryNotSet` while none is.
pub proof fn lemma_no_vote_after_close(
    state: SystemState,
    closer: Address,
    history: Seq<Call>,
    poll_id: U256,
    voter: Address,
    support: bool,
    eligible: bool,
)
    requires
        state.polls.close_poll(closer, poll_id) is Ok,
    ensures
        ({
            let later = state.step(Call::ClosePoll { caller: closer, poll_id }).run(history);
            &&& !later.polls.is_active(poll_id)
            &&& later.polls.vote(voter, poll_id, support, eligible) == Err::<
                PollsState,
                PollsError,
            >(
                if later.polls.registry@ == 0 {
                    PollsError::RegistryNotSet
                } else {
                    PollsError::PollNotActive { poll_id }
                },
            )
        }),
{
    let closed = state.step(Call::ClosePoll { caller: closer, poll_id });
    lemma_closed_stays_closed(closed, history, poll_id);
}

/// A closed poll is read-only: its title, tallies and voters are the same
/// after any history.
pub proof fn lemma_closed_poll_is_frozen(state: SystemState, history: Seq<Call>, poll_id: U256)
    requires
        state.polls.has_poll(poll_id),
        !state.polls.is_active(poll_id),
    ensures
        state.run(history).polls.has_poll(poll_id),
        state.run(history).polls.poll(poll_id) == state.polls.poll(poll_id),
    decreases history.len(),
{
    if history.len() > 0 {
        lemma_closed_poll_is_frozen(state, history.drop_last(), poll_id);
    }
}

/// Eligibility gating: a ballot that passes the checks on the poll itself
/// succeeds exactly if the registry lists the voter at that moment and the
/// voter has not voted; a voter whom the registry does not list gets
/// `VoterNotRegistered`.
pub proof fn lemma_vote_gated_by_registry(
    state: SystemState,
    voter: Address,
    poll_id: U256,
    support: bool,
)
    requires
        state.polls.registry@ != 0,
        state.polls.is_active(poll_id),
    ensures
        state.accepts(Call::Vote { caller: voter, poll_id, support })
            <==> state.registry.registered.contains(voter) && !state.polls.has_voted(
            poll_id,
            voter,
        ),
        !state.registry.registered.contains(voter) ==> state.polls.vote(
            voter,
            poll_id,
            support,
            false,
        ) == Err::<PollsState, PollsError>(PollsError::VoterNotRegistered { voter }),
{
}

/// Eligibility gating, by toggling: on an open poll, a voter who has not
/// voted can vote right after registering, and cannot right after
/// deregistering.
pub proof fn lemma_registration_toggles_vote(
    state: SystemState,
    voter: Address,
    poll_id: U256,
    support: bool,
)
    requires
        state.polls.registry@ != 0,
        state.polls.is_active(poll_id),
        !state.polls.has_voted(poll_id, voter),
    ensures
        state.step(Call::Register { caller: voter }).accepts(
            Call::Vote { caller: voter, poll_id, support },
        ),
        !state.step(Call::Deregister { caller: voter }).accepts(
            Call::Vote { caller: voter, poll_id, support },
        ),
        state.step(Call::Register { caller: voter }).step(Call::Deregister { caller: voter }).polls.vote(
            voter,
            poll_id,
            support,
            false,
        ) == Err::<PollsState, PollsError>(PollsError::VoterNotRegistered { voter }),
{
}

/// Owner bootstrap: the owner, once there is one, is the same after any
/// history.
pub proof fn lemma_owner_is_fixed(state: SystemState, history: Seq<Call>)
    requires
        state.polls.owner@ != 0,
    ensures
        state.run(history).polls.owner == state.polls.owner,
    decreases history.len(),
{
    if history.len() > 0 {
        lemma_owner_is_fixed(state, history.drop_last());
    }
}

/// Owner bootstrap: on a service without an owner, `set_registry` by any
/// address but zero succeeds and makes that address the owner; after any
/// further history it is still the owner, and `set_registry` and
/// `close_poll` by any other address fail with `Unauthorized`.
pub proof fn lemma_first_configurer_owns(
    state: SystemState,
    first: Address,
    registry: Address,
    history: Seq<Call>,
    other: Address,
    other_registry: Address,
    poll_id: U256,
)
    requires
        state.polls.owner@ == 0,
        first@ != 0,
        other != first,
    ensures
        state.accepts(Call::SetRegistry { caller: first, registry }),
        ({
            let later = state.step(Call::SetRegistry { caller: first, registry }).run(history);
            &&& later.polls.owner == first
            &&& later.polls.set_registry(other, other_registry) == Err::<
                PollsState,
                PollsError,
            >(PollsError::Unauthorized { caller: other })
            &&& later.polls.close_poll(other, poll_id) == Err::<PollsState, PollsError>(
                PollsError::Unauthorized { caller: other },
            )
        }),
{
    lemma_owner_is_fixed(state.step(Call::SetRegistry { caller: first, registry }), history);
}

/// One notification per success: a call that is refused emits nothing, a
/// successful `set_registry` emits nothing, and every other successful call
/// appends exactly one notification to the log of the service it went to.
/// Nothing already emitted is changed.
pub proof fn lemma_step_emits_once(state: SystemState, call: Call)
    ensures
        state.registry.events.is_prefix_of(state.step(call).registry.events),
        state.polls.events.is_prefix_of(state.step(call).polls.events),
        state.step(call).registry.events.len() + state.step(call).polls.events.len()
            == state.registry.events.len() + state.polls.events.len() + one_if(
            state.accepts(call) && !(call is SetRegistry),
        ),
{
}

/// The logs only grow: whatever has been emitted is still there, in the
/// same order, after any history.
pub proof fn lemma_events_are_kept(state: SystemState, history: Seq<Call>)
    ensures
        state.registry.events.is_prefix_of(state.run(history).registry.events),
        state.polls.events.is_prefix_of(state.run(history).polls.events),
    decreases history.len(),
{
    if history.len() > 0 {
        lemma_events_are_kept(state, history.drop_last());
        lemma_step_emits_once(state.run(history.drop_last()), history.last());
    }
}

} // verus!
