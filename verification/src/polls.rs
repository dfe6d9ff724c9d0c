//! The polls service: poll lifecycle, ballots gated on the voter registry,
//! and tallies.
//!
//! A poll is created active with empty tallies, takes at most one ballot
//! from each eligible address while it is active, and is closed once and for
//! all by the owner of the service.

use crate::address_set::AddressSet;
use crate::primitives::lemma_address_set_len_bound;
use crate::primitives::Address;
use crate::primitives::U256;
use crate::poll_rules::authorize_configuration;
use crate::poll_rules::ballot_refusal;
use crate::poll_rules::check_ballot;
use crate::poll_rules::check_close;
use crate::poll_rules::check_exists;
use crate::poll_rules::check_poll_open;
use crate::poll_rules::close_refusal;
use crate::poll_rules::count_ballot;
use crate::poll_rules::may_configure;
use crate::poll_rules::owner_after_configuring;
use crate::poll_rules::poll_open_refusal;
use crate::voter_registry::IVoterRegistry;
use vstd::prelude::*;

verus! {

/// Why a polls operation was refused.
#[derive(Clone, Copy, Debug, PartialEq, Eq, Structural)]
pub enum PollsError {
    /// The poll was never created.
    PollNotFound { poll_id: U256 },
    /// The poll has been closed.
    PollNotActive { poll_id: U256 },
    /// The registry does not list the voter as eligible.
    VoterNotRegistered { voter: Address },
    /// The voter has already voted on the poll.
    AlreadyVoted { poll_id: U256, voter: Address },
    /// The caller asked for something only the owner may do.
    Unauthorized { caller: Address },
    /// No registry has been configured yet.
    RegistryNotSet,
}

/// A notification that the polls service emits for outside observers.
#[derive(Clone, Copy, Debug, PartialEq, Eq, Structural)]
pub enum PollsEvent {
    /// `creator` created the poll `poll_id`.
    PollCreated { poll_id: U256, creator: Address },
    /// `voter` voted on `poll_id`, for if `support` and against if not.
    VoteCast { poll_id: U256, voter: Address, support: bool },
    /// The owner closed `poll_id`.
    PollClosed { poll_id: U256 },
}

/// One poll as a mathematical value.
pub struct PollState {
    /// The title given at creation.
    pub title: Seq<char>,
    /// Whether ballots are still taken.
    pub active: bool,
    /// The number of ballots for.
    pub yes_count: nat,
    /// The number of ballots against.
    pub no_count: nat,
    /// The addresses that have voted.
    pub voters: Set<Address>,
}

impl PollState {
    /// A poll as `create_poll` leaves it: active, with no ballots.
    pub open spec fn fresh(title: Seq<char>) -> PollState {
        PollState { title, active: true, yes_count: 0, no_count: 0, voters: Set::empty() }
    }

    /// The tallies add up to the number of addresses that have voted.
    pub open spec fn valid(self) -> bool {
        &&& self.voters.finite()
        &&& self.yes_count + self.no_count == self.voters.len()
    }

    /// The poll with one more ballot, by `voter`, on the side that `support`
    /// names.
    pub open spec fn record(self, voter: Address, support: bool) -> PollState {
        PollState {
            voters: self.voters.insert(voter),
            yes_count: if support {
                self.yes_count + 1
            } else {
                self.yes_count
            },
            no_count: if support {
                self.no_count
            } else {
                self.no_count + 1
            },
            ..self
        }
    }

    /// The poll, closed.
    pub open spec fn closed(self) -> PollState {
        PollState { active: false, ..self }
    }
}

/// The polls service as a mathematical value.
pub struct PollsState {
    /// The owner; zero while there is none.
    pub owner: Address,
    /// The address of the registry to consult; zero while none is configured.
    pub registry: Address,
    /// The polls created so far; a poll's id is its position.
    pub polls: Seq<PollState>,
    /// Every notification emitted so far, oldest first.
    pub events: Seq<PollsEvent>,
}

impl PollsState {
    /// The service before anyone has called it.
    pub open spec fn init() -> PollsState {
        PollsState {
            owner: Address { high: 0, low: 0 },
            registry: Address { high: 0, low: 0 },
            polls: Seq::empty(),
            events: Seq::empty(),
        }
    }

    /// Every poll's tallies add up to its number of voters.
    pub open spec fn valid(self) -> bool {
        forall|i: int| 0 <= i < self.polls.len() ==> (#[trigger] self.polls[i]).valid()
    }

    /// The id that the next poll will get, which is the number of polls.
    pub open spec fn next_poll_id(self) -> nat {
        self.polls.len()
    }

    /// Whether the poll `poll_id` was created.
    pub open spec fn has_poll(self, poll_id: U256) -> bool {
        poll_id@ < self.polls.len()
    }

    /// The poll `poll_id`, if it was created.
    pub open spec fn poll(self, poll_id: U256) -> PollState
        recommends
            self.has_poll(poll_id),
    {
        self.polls[poll_id@ as int]
    }

    /// Whether the poll `poll_id` was created and still takes ballots.
    pub open spec fn is_active(self, poll_id: U256) -> bool {
        self.has_poll(poll_id) && self.poll(poll_id).active
    }

    /// Whether `voter` has voted on the poll `poll_id`.
    pub open spec fn has_voted(self, poll_id: U256, voter: Address) -> bool {
        self.has_poll(poll_id) && self.poll(poll_id).voters.contains(voter)
    }

    /// What `set_registry` called by `caller` does: the next state, or the
    /// refusal.
    pub open spec fn set_registry(self, caller: Address, registry: Address) -> Result<
        PollsState,
        PollsError,
    > {
        if may_configure(self.owner, caller) {
            Ok(PollsState { owner: owner_after_configuring(self.owner, caller), registry, ..self })
        } else {
            Err(PollsError::Unauthorized { caller })
        }
    }

    /// What `create_poll` called by `caller` does. The new poll's id is
    /// `self.next_poll_id()`.
    pub open spec fn create_poll(self, caller: Address, title: Seq<char>) -> PollsState {
        PollsState {
            polls: self.polls.push(PollState::fresh(title)),
            events: self.events.push(
                PollsEvent::PollCreated {
                    poll_id: U256::spec_from_nat(self.next_poll_id()),
                    creator: caller,
                },
            ),
            ..self
        }
    }

    /// Why a ballot on `poll_id` cannot even be considered, if anything: no
    /// registry is configured, or the poll was never created, or it is
    /// closed. The checks come in this order.
    pub open spec fn poll_refusal(self, poll_id: U256) -> Option<PollsError> {
        poll_open_refusal(self.registry, poll_id, self.has_poll(poll_id), self.is_active(poll_id))
    }

    /// Why `vote` called by `caller` is refused, if it is, when the registry
    /// answers `eligible` for the caller. The checks on the poll come first,
    /// then whether the caller is eligible, then whether it has voted.
    pub open spec fn vote_refusal(
        self,
        caller: Address,
        poll_id: U256,
        eligible: bool,
    ) -> Option<PollsError> {
        match self.poll_refusal(poll_id) {
            Some(error) => Some(error),
            None => ballot_refusal(poll_id, caller, eligible, self.has_voted(poll_id, caller)),
        }
    }

    /// What `vote` called by `caller` does when the registry answers
    /// `eligible` for the caller: the next state, or the refusal.
    pub open spec fn vote(
        self,
        caller: Address,
        poll_id: U256,
        support: bool,
        eligible: bool,
    ) -> Result<PollsState, PollsError> {
        match self.vote_refusal(caller, poll_id, eligible) {
            Some(error) => Err(error),
            None => Ok(
                PollsState {
                    polls: self.polls.update(
                        poll_id@ as int,
                        self.poll(poll_id).record(caller, support),
                    ),
                    events: self.events.push(
                        PollsEvent::VoteCast { poll_id, voter: caller, support },
                    ),
                    ..self
                },
            ),
        }
    }

    /// Whether `vote` called by `caller`, with the registry answering
    /// `eligible`, returns `result` and leaves the service in `after`: on
    /// success the next state, on refusal the error and the state as it was.
    pub open spec fn vote_leads_to(
        self,
        caller: Address,
        poll_id: U256,
        support: bool,
        eligible: bool,
        result: Result<(), PollsError>,
        after: PollsState,
    ) -> bool {
        match self.vote(caller, poll_id, support, eligible) {
            Ok(next) => result == Ok::<(), PollsError>(()) && after == next,
            Err(error) => result == Err::<(), PollsError>(error) && after == self,
        }
    }

    /// What `close_poll` called by `caller` does: the next state, or the
    /// refusal. Closing a closed poll succeeds and emits again.
    pub open spec fn close_poll(self, caller: Address, poll_id: U256) -> Result<
        PollsState,
        PollsError,
    > {
        match close_refusal(self.owner, caller, poll_id, self.has_poll(poll_id)) {
            Some(error) => Err(error),
            None => Ok(
                PollsState {
                    polls: self.polls.update(poll_id@ as int, self.poll(poll_id).closed()),
                    events: self.events.push(PollsEvent::PollClosed { poll_id }),
                    ..self
                },
            ),
        }
    }
}

/// One poll, as the service keeps it.
struct Poll {
    title: String,
    active: bool,
    yes_votes: U256,
    no_votes: U256,
    voters: AddressSet,
}

impl View for Poll {
    type V = PollState;

    closed spec fn view(&self) -> PollState {
        PollState {
            title: self.title@,
            active: self.active,
            yes_count: self.yes_votes@,
            no_count: self.no_votes@,
            voters: self.voters@,
        }
    }
}

/// The polls service.
pub struct Polls {
    owner: Address,
    registry: Address,
    polls: Vec<Poll>,
    events: Vec<PollsEvent>,
}

impl View for Polls {
    type V = PollsState;

    closed spec fn view(&self) -> PollsState {
        PollsState {
            owner: self.owner,
            registry: self.registry,
            polls: self.polls@.map_values(|poll: Poll| poll@),
            events: self.events@,
        }
    }
}

impl Polls {
    /// Whether the service is in a state that its operations can produce.
    pub open spec fn wf(&self) -> bool {
        self@.valid()
    }

    /// A fresh service: no owner, no registry, no polls.
    pub fn new() -> (service: Polls)
        ensures
            service.wf(),
            service@ == PollsState::init(),
    {
        let service = Polls {
            owner: Address::zero(),
            registry: Address::zero(),
            polls: Vec::new(),
            events: Vec::new(),
        };
        assert(service@.polls =~= Seq::empty());
        service
    }

    /// The position of the poll `poll_id`, if it was created.
    fn position(&self, poll_id: U256) -> (position: Option<usize>)
        ensures
            match position {
                Some(index) => self@.has_poll(poll_id) && index == poll_id@,
                None => !self@.has_poll(poll_id),
            },
    {
        let count = self.polls.len();
        assert(self@.polls.len() == count);
        match poll_id.to_usize() {
            Some(index) => if index < count {
                Some(index)
            } else {
                None
            },
            None => None,
        }
    }

    /// Sets the address of the registry to consult.
    ///
    /// While the service has no owner, the caller becomes the owner. Once
    /// it has one, only the owner may call, and anyone else gets
    /// `Unauthorized`. Any address is taken as it is.
    pub fn set_registry(&mut self, caller: Address, registry: Address) -> (result: Result<
        (),
        PollsError,
    >)
        ensures
            old(self).wf() ==> final(self).wf(),
            match old(self)@.set_registry(caller, registry) {
                Ok(next) => result == Ok::<(), PollsError>(()) && final(self)@ == next,
                Err(error) => result == Err::<(), PollsError>(error) && final(self)@ == old(
                    self,
                )@,
            },
    {
        let owner = authorize_configuration(self.owner, caller)?;
        self.owner = owner;
        self.registry = registry;
        Ok(())
    }

    /// Creates a poll titled `title` and returns its id.
    ///
    /// Anyone may call. The poll starts active with empty tallies, and
    /// `PollCreated` is emitted. Ids count up from zero.
    pub fn create_poll(&mut self, caller: Address, title: String) -> (poll_id: U256)
        ensures
            old(self).wf() ==> final(self).wf(),
            poll_id@ == old(self)@.next_poll_id(),
            final(self)@ == old(self)@.create_poll(caller, title@),
    {
        let poll_id = U256::from_usize(self.polls.len());
        self.polls.push(
            Poll {
                title,
                active: true,
                yes_votes: U256::zero(),
                no_votes: U256::zero(),
                voters: AddressSet::new(),
            },
        );
        self.events.push(PollsEvent::PollCreated { poll_id, creator: caller });
        assert(self@.polls =~= old(self)@.polls.push(PollState::fresh(title@)));
        poll_id
    }

    /// Casts the ballot of `caller` on the poll `poll_id`, asking `registry`
    /// whether the caller may vote.
    ///
    /// The service keeps only the address of its registry; whoever calls
    /// hands in the registry that lives there. The checks run in this
    /// order, and the first that fails decides the error: a registry is
    /// configured (`RegistryNotSet`), the poll was created (`PollNotFound`),
    /// the poll is active (`PollNotActive`), `registry` lists the caller
    /// (`VoterNotRegistered`), the caller has not voted on this poll
    /// (`AlreadyVoted`). `registry` is asked once, and only when the first
    /// three have passed; from there on the call does what `cast_ballot`
    /// does with its answer. On success the ballot is counted and
    /// `VoteCast` is emitted; on failure nothing changes.
    pub fn vote<R: IVoterRegistry>(
        &mut self,
        caller: Address,
        registry: &R,
        poll_id: U256,
        support: bool,
    ) -> (result: Result<(), PollsError>)
        requires
            old(self).wf(),
        ensures
            final(self).wf(),
            match old(self)@.poll_refusal(poll_id) {
                Some(error) => result == Err::<(), PollsError>(error) && final(self)@ == old(
                    self,
                )@,
                None => exists|eligible: bool|
                    call_ensures(R::is_registered, (registry, caller), eligible) && old(
                        self,
                    )@.vote_leads_to(caller, poll_id, support, eligible, result, final(self)@),
            },
    {
        let index = self.open_poll(poll_id)?;
        let eligible = registry.is_registered(caller);
        self.take_ballot(index, caller, poll_id, support, eligible)
    }

    /// Casts the ballot of `caller` on the poll `poll_id`, given in
    /// `eligible` what the registry answered for the caller.
    ///
    /// Runs the same checks as `vote`, in the same order, with `eligible`
    /// in place of the registry's answer.
    pub fn cast_ballot(
        &mut self,
        caller: Address,
        poll_id: U256,
        support: bool,
        eligible: bool,
    ) -> (result: Result<(), PollsError>)
        requires
            old(self).wf(),
        ensures
            final(self).wf(),
            old(self)@.vote_leads_to(caller, poll_id, support, eligible, result, final(self)@),
    {
        let index = self.open_poll(poll_id)?;
        self.take_ballot(index, caller, poll_id, support, eligible)
    }

    /// The position of the poll `poll_id` if ballots on it can be
    /// considered, and else why they cannot.
    fn open_poll(&self, poll_id: U256) -> (result: Result<usize, PollsError>)
        ensures
            match self@.poll_refusal(poll_id) {
                Some(error) => result == Err::<usize, PollsError>(error),
                None => result is Ok && result->Ok_0 == poll_id@,
            },
    {
        let position = self.position(poll_id);
        let active = match position {
            Some(index) => self.polls[index].active,
            None => false,
        };
        check_poll_open(self.registry, poll_id, position.is_some(), active)?;
        Ok(position.unwrap())
    }

    /// Checks and counts the ballot of `caller` on the open poll at
    /// `index`, whose id is `poll_id`.
    fn take_ballot(
        &mut self,
        index: usize,
        caller: Address,
        poll_id: U256,
        support: bool,
        eligible: bool,
    ) -> (result: Result<(), PollsError>)
        requires
            old(self).wf(),
            old(self)@.poll_refusal(poll_id) is None,
            index == poll_id@,
        ensures
            final(self).wf(),
            old(self)@.vote_leads_to(caller, poll_id, support, eligible, result, final(self)@),
    {
        let has_voted = self.polls[index].voters.contains(caller);
        check_ballot(poll_id, caller, eligible, has_voted)?;
        proof {
            assert(old(self)@.polls[index as int].valid());
            lemma_address_set_len_bound(old(self)@.polls[index as int].voters);
        }
        let (yes_votes, no_votes) = count_ballot(
            self.polls[index].yes_votes,
            self.polls[index].no_votes,
            support,
        );
        self.polls[index].voters.insert(caller);
        self.polls[index].yes_votes = yes_votes;
        self.polls[index].no_votes = no_votes;
        self.events.push(PollsEvent::VoteCast { poll_id, voter: caller, support });
        assert(self@.polls =~= old(self)@.polls.update(
            index as int,
            old(self)@.polls[index as int].record(caller, support),
        ));
        Ok(())
    }

    /// Closes the poll `poll_id`.
    ///
    /// Only the owner may call (`Unauthorized`), and the poll must have
    /// been created (`PollNotFound`). Closing a closed poll succeeds again.
    /// `PollClosed` is emitted on every success.
    pub fn close_poll(&mut self, caller: Address, poll_id: U256) -> (result: Result<
        (),
        PollsError,
    >)
        ensures
            old(self).wf() ==> final(self).wf(),
            match old(self)@.close_poll(caller, poll_id) {
                Ok(next) => result == Ok::<(), PollsError>(()) && final(self)@ == next,
                Err(error) => result == Err::<(), PollsError>(error) && final(self)@ == old(
                    self,
                )@,
            },
    {
        let position = self.position(poll_id);
        check_close(self.owner, caller, poll_id, position.is_some())?;
        let index = position.unwrap();
        self.polls[index].active = false;
        self.events.push(PollsEvent::PollClosed { poll_id });
        assert(self@.polls =~= old(self)@.polls.update(
            index as int,
            old(self)@.polls[index as int].closed(),
        ));
        Ok(())
    }

    /// The tallies of the poll `poll_id`, for and against, whether it is
    /// active or closed; `PollNotFound` if it was never created.
    pub fn get_results(&self, poll_id: U256) -> (result: Result<(U256, U256), PollsError>)
        ensures
            match result {
                Ok(tallies) => self@.has_poll(poll_id) && tallies.0@ == self@.poll(
                    poll_id,
                ).yes_count && tallies.1@ == self@.poll(poll_id).no_count,
                Err(error) => !self@.has_poll(poll_id) && error == (PollsError::PollNotFound {
                    poll_id,
                }),
            },
    {
        let position = self.position(poll_id);
        check_exists(poll_id, position.is_some())?;
        let index = position.unwrap();
        Ok((self.polls[index].yes_votes, self.polls[index].no_votes))
    }

    /// Whether `voter` has voted on the poll `poll_id`; false for a poll
    /// that was never created.
    pub fn has_voted(&self, poll_id: U256, voter: Address) -> (voted: bool)
        ensures
            voted == self@.has_voted(poll_id, voter),
    {
        match self.position(poll_id) {
            Some(index) => self.polls[index].voters.contains(voter),
            None => false,
        }
    }

    /// Whether the poll `poll_id` still takes ballots; false for a poll
    /// that was never created.
    pub fn is_active(&self, poll_id: U256) -> (active: bool)
        ensures
            active == self@.is_active(poll_id),
    {
        match self.position(poll_id) {
            Some(index) => self.polls[index].active,
            None => false,
        }
    }

    /// The number of polls created, which is the id of the next one.
    pub fn poll_count(&self) -> (count: U256)
        ensures
            count@ == self@.next_poll_id(),
    {
        U256::from_usize(self.polls.len())
    }

    /// The title of the poll `poll_id`; `PollNotFound` if it was never
    /// created.
    pub fn get_title(&self, poll_id: U256) -> (result: Result<String, PollsError>)
        ensures
            match result {
                Ok(title) => self@.has_poll(poll_id) && title@ == self@.poll(poll_id).title,
                Err(error) => !self@.has_poll(poll_id) && error == (PollsError::PollNotFound {
                    poll_id,
                }),
            },
    {
        let position = self.position(poll_id);
        check_exists(poll_id, position.is_some())?;
        let index = position.unwrap();
        Ok(self.polls[index].title.clone())
    }

    /// The address of the registry to consult; zero while none is
    /// configured.
    pub fn registry(&self) -> (registry: Address)
        ensures
            registry == self@.registry,
    {
        self.registry
    }

    /// The owner of the service; zero while there is none.
    pub fn owner(&self) -> (owner: Address)
        ensures
            owner == self@.owner,
    {
        self.owner
    }

    /// Every notification emitted so far, oldest first.
    pub fn events(&self) -> (events: &Vec<PollsEvent>)
        ensures
            events@ == self@.events,
    {
        &self.events
    }
}

} // verus!
