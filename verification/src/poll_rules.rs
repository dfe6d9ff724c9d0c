//! The checks behind each operation of the polls service, as functions of
//! the values it reads.
//!
//! An operation reads a few cells of state, decides, and writes a few cells
//! back. The deciding is here, apart from where the cells are kept, so that
//! the same rules serve any store.

use crate::polls::PollsError;
use crate::primitives::Address;
use crate::primitives::u256_modulus;
use crate::primitives::U256;
use vstd::prelude::*;

verus! {

/// Whether `caller` may act as owner of a service whose stored owner is
/// `owner`: either nobody owns it yet, or `caller` does.
pub open spec fn may_configure(owner: Address, caller: Address) -> bool {
    owner@ == 0 || caller == owner
}

/// The owner of a service after `caller` configures it: the first caller to
/// configure an unowned service becomes its owner, and stays so.
pub open spec fn owner_after_configuring(owner: Address, caller: Address) -> Address {
    if owner@ == 0 {
        caller
    } else {
        owner
    }
}

/// Why a ballot on `poll_id` cannot even be considered, if anything: no
/// registry is configured, or the poll was never created, or it is closed.
pub open spec fn poll_open_refusal(
    registry: Address,
    poll_id: U256,
    created: bool,
    active: bool,
) -> Option<PollsError> {
    if registry@ == 0 {
        Some(PollsError::RegistryNotSet)
    } else if !created {
        Some(PollsError::PollNotFound { poll_id })
    } else if !active {
        Some(PollsError::PollNotActive { poll_id })
    } else {
        None
    }
}

/// Why the ballot of `voter` on the open poll `poll_id` is refused, if it
/// is: the registry does not know the voter, or the voter has voted.
pub open spec fn ballot_refusal(
    poll_id: U256,
    voter: Address,
    eligible: bool,
    has_voted: bool,
) -> Option<PollsError> {
    if !eligible {
        Some(PollsError::VoterNotRegistered { voter })
    } else if has_voted {
        Some(PollsError::AlreadyVoted { poll_id, voter })
    } else {
        None
    }
}

/// Why `caller` may not close `poll_id`, if anything: the caller is not the
/// owner, or the poll was never created.
pub open spec fn close_refusal(
    owner: Address,
    caller: Address,
    poll_id: U256,
    created: bool,
) -> Option<PollsError> {
    if caller != owner {
        Some(PollsError::Unauthorized { caller })
    } else if !created {
        Some(PollsError::PollNotFound { poll_id })
    } else {
        None
    }
}

/// Decides a request by `caller` to configure a service owned by `owner`,
/// and says who owns the service afterwards.
pub fn authorize_configuration(owner: Address, caller: Address) -> (result: Result<
    Address,
    PollsError,
>)
    ensures
        result == if may_configure(owner, caller) {
            Ok::<Address, PollsError>(owner_after_configuring(owner, caller))
        } else {
            Err::<Address, PollsError>(PollsError::Unauthorized { caller })
        },
{
    if owner.is_zero() {
        Ok(caller)
    } else if caller == owner {
        Ok(owner)
    } else {
        Err(PollsError::Unauthorized { caller })
    }
}

/// Checks that a ballot on `poll_id` can be considered at all.
pub fn check_poll_open(registry: Address, poll_id: U256, created: bool, active: bool) -> (result:
    Result<(), PollsError>)
    ensures
        result == match poll_open_refusal(registry, poll_id, created, active) {
            Some(error) => Err::<(), PollsError>(error),
            None => Ok::<(), PollsError>(()),
        },
{
    if registry.is_zero() {
        Err(PollsError::RegistryNotSet)
    } else if !created {
        Err(PollsError::PollNotFound { poll_id })
    } else if !active {
        Err(PollsError::PollNotActive { poll_id })
    } else {
        Ok(())
    }
}

/// Checks the ballot of `voter` on the open poll `poll_id`, given what the
/// registry said of the voter and whether the voter has voted on the poll.
pub fn check_ballot(poll_id: U256, voter: Address, eligible: bool, has_voted: bool) -> (result:
    Result<(), PollsError>)
    ensures
        result == match ballot_refusal(poll_id, voter, eligible, has_voted) {
            Some(error) => Err::<(), PollsError>(error),
            None => Ok::<(), PollsError>(()),
        },
{
    if !eligible {
        Err(PollsError::VoterNotRegistered { voter })
    } else if has_voted {
        Err(PollsError::AlreadyVoted { poll_id, voter })
    } else {
        Ok(())
    }
}

/// Counts one ballot: the tallies `(yes, no)` with the side that `support`
/// names raised by one, modulo 2^256.
pub fn count_ballot(yes: U256, no: U256, support: bool) -> (tallies: (U256, U256))
    ensures
        support ==> tallies.0@ == (yes@ + 1) % u256_modulus() && tallies.1 == no,
        !support ==> tallies.0 == yes && tallies.1@ == (no@ + 1) % u256_modulus(),
{
    if support {
        (yes.incremented(), no)
    } else {
        (yes, no.incremented())
    }
}

/// Checks that `caller` may close `poll_id`.
pub fn check_close(owner: Address, caller: Address, poll_id: U256, created: bool) -> (result:
    Result<(), PollsError>)
    ensures
        result == match close_refusal(owner, caller, poll_id, created) {
            Some(error) => Err::<(), PollsError>(error),
            None => Ok::<(), PollsError>(()),
        },
{
    if caller != owner {
        Err(PollsError::Unauthorized { caller })
    } else if !created {
        Err(PollsError::PollNotFound { poll_id })
    } else {
        Ok(())
    }
}

/// Checks that the poll `poll_id` that a query names was created.
pub fn check_exists(poll_id: U256, created: bool) -> (result: Result<(), PollsError>)
    ensures
        result == if created {
            Ok::<(), PollsError>(())
        } else {
            Err::<(), PollsError>(PollsError::PollNotFound { poll_id })
        },
{
    if created {
        Ok(())
    } else {
        Err(PollsError::PollNotFound { poll_id })
    }
}

} // verus!
