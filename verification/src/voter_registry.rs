//! The voter registry: the service that knows which addresses may vote.
//!
//! Every address is either unregistered or registered, and only the address
//! itself can change that, through `register` and `deregister`. The registry
//! keeps a running count of the registered addresses.

use crate::address_set::AddressSet;
use crate::primitives::lemma_address_set_len_bound;
use crate::primitives::Address;
use crate::primitives::U256;
use vstd::prelude::*;

verus! {

/// Why a registry operation was refused.
#[derive(Clone, Copy, Debug, PartialEq, Eq, Structural)]
pub enum RegistryError {
    /// The caller asked to register but is registered already.
    AlreadyRegistered { voter: Address },
    /// The caller asked to deregister but is not registered.
    NotRegistered { voter: Address },
    /// The caller asked for something only the owner may do.
    Unauthorized { caller: Address },
}

/// A notification that the registry emits for outside observers.
#[derive(Clone, Copy, Debug, PartialEq, Eq, Structural)]
pub enum RegistryEvent {
    /// `voter` became eligible.
    VoterRegistered { voter: Address },
    /// `voter` stopped being eligible.
    VoterDeregistered { voter: Address },
}

/// The registry as a mathematical value.
pub struct RegistryState {
    /// The owner; zero while there is none.
    pub owner: Address,
    /// The addresses that are eligible to vote.
    pub registered: Set<Address>,
    /// The running count of eligible addresses.
    pub voter_count: nat,
    /// Every notification emitted so far, oldest first.
    pub events: Seq<RegistryEvent>,
}

impl RegistryState {
    /// The registry before anyone has called it.
    pub open spec fn init() -> RegistryState {
        RegistryState {
            owner: Address { high: 0, low: 0 },
            registered: Set::empty(),
            voter_count: 0,
            events: Seq::empty(),
        }
    }

    /// The running count is the number of eligible addresses.
    pub open spec fn valid(self) -> bool {
        &&& self.registered.finite()
        &&& self.voter_count == self.registered.len()
    }

    /// What `register` called by `caller` does: the next state, or the
    /// refusal.
    pub open spec fn register(self, caller: Address) -> Result<RegistryState, RegistryError> {
        if self.registered.contains(caller) {
            Err(RegistryError::AlreadyRegistered { voter: caller })
        } else {
            Ok(
                RegistryState {
                    registered: self.registered.insert(caller),
                    voter_count: self.voter_count + 1,
                    events: self.events.push(RegistryEvent::VoterRegistered { voter: caller }),
                    ..self
                },
            )
        }
    }

    /// What `deregister` called by `caller` does: the next state, or the
    /// refusal.
    pub open spec fn deregister(self, caller: Address) -> Result<RegistryState, RegistryError> {
        if !self.registered.contains(caller) {
            Err(RegistryError::NotRegistered { voter: caller })
        } else {
            Ok(
                RegistryState {
                    registered: self.registered.remove(caller),
                    voter_count: (self.voter_count - 1) as nat,
                    events: self.events.push(RegistryEvent::VoterDeregistered { voter: caller }),
                    ..self
                },
            )
        }
    }
}

/// Checks that `voter`, whose eligibility is `registered`, may register.
pub fn check_register(voter: Address, registered: bool) -> (result: Result<(), RegistryError>)
    ensures
        result == if registered {
            Err::<(), RegistryError>(RegistryError::AlreadyRegistered { voter })
        } else {
            Ok::<(), RegistryError>(())
        },
{
    if registered {
        Err(RegistryError::AlreadyRegistered { voter })
    } else {
        Ok(())
    }
}

/// Checks that `voter`, whose eligibility is `registered`, may deregister.
pub fn check_deregister(voter: Address, registered: bool) -> (result: Result<(), RegistryError>)
    ensures
        result == if registered {
            Ok::<(), RegistryError>(())
        } else {
            Err::<(), RegistryError>(RegistryError::NotRegistered { voter })
        },
{
    if registered {
        Ok(())
    } else {
        Err(RegistryError::NotRegistered { voter })
    }
}

/// The read-only face of a registry, which other services consult.
///
/// A service that holds a registry through this trait knows nothing of what
/// the answers are; it may only rely on what the implementation at hand
/// states of them.
pub trait IVoterRegistry {
    /// Whether `voter` is eligible to vote.
    fn is_registered(&self, voter: Address) -> bool;

    /// The running count of eligible addresses.
    fn voter_count(&self) -> U256;
}

/// The voter registry.
pub struct VoterRegistry {
    owner: Address,
    registered_voters: AddressSet,
    voter_count: U256,
    events: Vec<RegistryEvent>,
}

impl View for VoterRegistry {
    type V = RegistryState;

    closed spec fn view(&self) -> RegistryState {
        RegistryState {
            owner: self.owner,
            registered: self.registered_voters@,
            voter_count: self.voter_count@,
            events: self.events@,
        }
    }
}

impl VoterRegistry {
    /// Whether the registry is in a state that its operations can produce.
    pub open spec fn wf(&self) -> bool {
        self@.valid()
    }

    /// A fresh registry: no owner, nobody registered.
    pub fn new() -> (registry: VoterRegistry)
        ensures
            registry.wf(),
            registry@ == RegistryState::init(),
    {
        VoterRegistry {
            owner: Address::zero(),
            registered_voters: AddressSet::new(),
            voter_count: U256::zero(),
            events: Vec::new(),
        }
    }

    /// Registers `caller` as a voter.
    ///
    /// Fails with `AlreadyRegistered` if `caller` is registered; otherwise
    /// marks it eligible, counts it, and emits `VoterRegistered`.
    pub fn register(&mut self, caller: Address) -> (result: Result<(), RegistryError>)
        requires
            old(self).wf(),
        ensures
            final(self).wf(),
            match old(self)@.register(caller) {
                Ok(next) => result == Ok::<(), RegistryError>(()) && final(self)@ == next,
                Err(error) => result == Err::<(), RegistryError>(error) && final(self)@ == old(
                    self,
                )@,
            },
    {
        check_register(caller, self.registered_voters.contains(caller))?;
        self.registered_voters.insert(caller);
        proof {
            lemma_address_set_len_bound(self.registered_voters@);
        }
        self.voter_count = self.voter_count.incremented();
        self.events.push(RegistryEvent::VoterRegistered { voter: caller });
        Ok(())
    }

    /// Removes `caller` from the voter roll.
    ///
    /// Fails with `NotRegistered` if `caller` is not registered; otherwise
    /// marks it ineligible, uncounts it, and emits `VoterDeregistered`.
    pub fn deregister(&mut self, caller: Address) -> (result: Result<(), RegistryError>)
        requires
            old(self).wf(),
        ensures
            final(self).wf(),
            match old(self)@.deregister(caller) {
                Ok(next) => result == Ok::<(), RegistryError>(()) && final(self)@ == next,
                Err(error) => result == Err::<(), RegistryError>(error) && final(self)@ == old(
                    self,
                )@,
            },
    {
        check_deregister(caller, self.registered_voters.contains(caller))?;
        self.registered_voters.remove(caller);
        self.voter_count = self.voter_count.decremented();
        self.events.push(RegistryEvent::VoterDeregistered { voter: caller });
        Ok(())
    }

    /// The owner of the registry; zero while there is none.
    pub fn owner(&self) -> (owner: Address)
        ensures
            owner == self@.owner,
    {
        self.owner
    }

    /// Every notification emitted so far, oldest first.
    pub fn events(&self) -> (events: &Vec<RegistryEvent>)
        ensures
            events@ == self@.events,
    {
        &self.events
    }
}

impl IVoterRegistry for VoterRegistry {
    /// Whether `voter` is registered. Addresses never seen are not.
    fn is_registered(&self, voter: Address) -> (eligible: bool)
        ensures
            eligible == self@.registered.contains(voter),
    {
        self.registered_voters.contains(voter)
    }

    /// The running count of registered addresses.
    fn voter_count(&self) -> (count: U256)
        ensures
            count@ == self@.voter_count,
    {
        self.voter_count
    }
}

} // verus!
