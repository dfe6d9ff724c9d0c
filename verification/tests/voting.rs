use onchain_voting::polls::Polls;
use onchain_voting::polls::PollsError;
use onchain_voting::polls::PollsEvent;
use onchain_voting::primitives::Address;
use onchain_voting::primitives::U256;
use onchain_voting::voter_registry::IVoterRegistry;
use onchain_voting::voter_registry::VoterRegistry;

fn owner() -> Address {
    Address::with_last_byte(0x01)
}

fn alice() -> Address {
    Address::with_last_byte(0xa1)
}

fn bob() -> Address {
    Address::with_last_byte(0xb0)
}

/// A polls service with a registry configured and the poll "Budget 2025".
fn configured() -> Polls {
    let mut polls = Polls::new();
    polls.set_registry(owner(), Address::with_last_byte(0x42)).unwrap();
    assert_eq!(polls.create_poll(owner(), String::from("Budget 2025")), U256::from(0));
    polls
}

/// A stand-in registry that gives the same answer for everyone.
struct Fixed {
    answer: bool,
}

impl IVoterRegistry for Fixed {
    fn is_registered(&self, _voter: Address) -> bool {
        self.answer
    }

    fn voter_count(&self) -> U256 {
        U256::zero()
    }
}

#[test]
fn registered_voter_votes_once() {
    let mut registry = VoterRegistry::new();
    let mut polls = configured();
    registry.register(alice()).unwrap();
    assert_eq!(registry.voter_count(), U256::from(1));
    assert!(registry.is_registered(alice()));

    assert_eq!(polls.vote(alice(), &registry, U256::from(0), true), Ok(()));
    assert_eq!(polls.get_results(U256::from(0)), Ok((U256::from(1), U256::from(0))));
    assert!(polls.has_voted(U256::from(0), alice()));

    assert_eq!(
        polls.vote(alice(), &registry, U256::from(0), false),
        Err(PollsError::AlreadyVoted { poll_id: U256::from(0), voter: alice() })
    );
    assert_eq!(polls.get_results(U256::from(0)), Ok((U256::from(1), U256::from(0))));
}

#[test]
fn unregistered_voter_is_refused() {
    let mut registry = VoterRegistry::new();
    let mut polls = configured();
    registry.register(alice()).unwrap();
    polls.vote(alice(), &registry, U256::from(0), true).unwrap();

    assert_eq!(
        polls.vote(bob(), &registry, U256::from(0), true),
        Err(PollsError::VoterNotRegistered { voter: bob() })
    );
    assert_eq!(polls.get_results(U256::from(0)), Ok((U256::from(1), U256::from(0))));
    assert!(!polls.has_voted(U256::from(0), bob()));
}

#[test]
fn closed_poll_takes_no_ballots() {
    let mut registry = VoterRegistry::new();
    let mut polls = configured();
    registry.register(alice()).unwrap();
    registry.register(bob()).unwrap();
    polls.vote(alice(), &registry, U256::from(0), true).unwrap();

    assert_eq!(polls.close_poll(owner(), U256::from(0)), Ok(()));
    assert!(!polls.is_active(U256::from(0)));
    assert_eq!(
        polls.vote(bob(), &registry, U256::from(0), false),
        Err(PollsError::PollNotActive { poll_id: U256::from(0) })
    );
    // also for someone who has voted already: the poll is looked at first
    assert_eq!(
        polls.vote(alice(), &registry, U256::from(0), false),
        Err(PollsError::PollNotActive { poll_id: U256::from(0) })
    );
    // the tallies can still be read, and stay
    assert_eq!(polls.get_results(U256::from(0)), Ok((U256::from(1), U256::from(0))));
    // and nothing reopens it
    polls.create_poll(bob(), String::from("another"));
    polls.set_registry(owner(), Address::with_last_byte(0x43)).unwrap();
    assert!(!polls.is_active(U256::from(0)));
    assert_eq!(
        polls.vote(bob(), &registry, U256::from(0), true),
        Err(PollsError::PollNotActive { poll_id: U256::from(0) })
    );
}

#[test]
fn stranger_cannot_close() {
    let mut polls = configured();
    assert_eq!(
        polls.close_poll(bob(), U256::from(0)),
        Err(PollsError::Unauthorized { caller: bob() })
    );
    assert!(polls.is_active(U256::from(0)));
}

#[test]
fn vote_on_missing_poll_is_not_found() {
    let mut registry = VoterRegistry::new();
    let mut polls = configured();
    polls.create_poll(owner(), String::from("one"));
    polls.create_poll(owner(), String::from("two"));
    registry.register(alice()).unwrap();
    assert_eq!(polls.poll_count(), U256::from(3));
    assert_eq!(
        polls.vote(alice(), &registry, U256::from(5), true),
        Err(PollsError::PollNotFound { poll_id: U256::from(5) })
    );
    assert_eq!(
        polls.vote(alice(), &registry, U256::from(3), true),
        Err(PollsError::PollNotFound { poll_id: U256::from(3) })
    );
    assert_eq!(polls.vote(alice(), &registry, U256::from(2), true), Ok(()));
}

#[test]
fn vote_without_registry_is_refused_first() {
    let mut registry = VoterRegistry::new();
    let mut polls = Polls::new();
    registry.register(alice()).unwrap();
    // no poll, no registry: the registry is missed first
    assert_eq!(polls.vote(alice(), &registry, U256::from(0), true), Err(PollsError::RegistryNotSet));
    polls.create_poll(alice(), String::from("p"));
    assert_eq!(polls.vote(alice(), &registry, U256::from(0), true), Err(PollsError::RegistryNotSet));
    assert_eq!(polls.get_results(U256::from(0)), Ok((U256::from(0), U256::from(0))));
    // the owner can take the registry away again
    polls.set_registry(owner(), Address::with_last_byte(0x42)).unwrap();
    polls.set_registry(owner(), Address::zero()).unwrap();
    assert_eq!(polls.vote(alice(), &registry, U256::from(0), true), Err(PollsError::RegistryNotSet));
    polls.close_poll(owner(), U256::from(0)).unwrap();
    assert_eq!(polls.vote(alice(), &registry, U256::from(0), true), Err(PollsError::RegistryNotSet));
}

#[test]
fn checks_come_in_order() {
    let mut polls = configured();
    let nobody = Fixed { answer: false };
    let everybody = Fixed { answer: true };
    // missing poll before eligibility
    assert_eq!(
        polls.vote(alice(), &nobody, U256::from(9), true),
        Err(PollsError::PollNotFound { poll_id: U256::from(9) })
    );
    // eligibility before the double-vote check
    assert_eq!(polls.vote(alice(), &everybody, U256::from(0), true), Ok(()));
    assert_eq!(
        polls.vote(alice(), &nobody, U256::from(0), true),
        Err(PollsError::VoterNotRegistered { voter: alice() })
    );
    assert_eq!(
        polls.vote(alice(), &everybody, U256::from(0), true),
        Err(PollsError::AlreadyVoted { poll_id: U256::from(0), voter: alice() })
    );
    // closed poll before eligibility
    polls.close_poll(owner(), U256::from(0)).unwrap();
    assert_eq!(
        polls.vote(bob(), &nobody, U256::from(0), true),
        Err(PollsError::PollNotActive { poll_id: U256::from(0) })
    );
}

#[test]
fn eligibility_follows_the_registry_at_the_moment_of_the_ballot() {
    let mut registry = VoterRegistry::new();
    let mut polls = configured();
    let poll = U256::from(0);
    assert_eq!(
        polls.vote(alice(), &registry, poll, true),
        Err(PollsError::VoterNotRegistered { voter: alice() })
    );
    registry.register(alice()).unwrap();
    registry.deregister(alice()).unwrap();
    assert_eq!(
        polls.vote(alice(), &registry, poll, true),
        Err(PollsError::VoterNotRegistered { voter: alice() })
    );
    assert_eq!(polls.get_results(poll), Ok((U256::from(0), U256::from(0))));
    registry.register(alice()).unwrap();
    assert_eq!(polls.vote(alice(), &registry, poll, false), Ok(()));
    assert_eq!(polls.get_results(poll), Ok((U256::from(0), U256::from(1))));
    // leaving the registry afterwards does not take the ballot back
    registry.deregister(alice()).unwrap();
    assert!(polls.has_voted(poll, alice()));
    assert_eq!(polls.get_results(poll), Ok((U256::from(0), U256::from(1))));
}

#[test]
fn tallies_add_up_to_the_voters() {
    let mut registry = VoterRegistry::new();
    let mut polls = configured();
    let poll = U256::from(0);
    let mut voted: u64 = 0;
    let mut yes: u64 = 0;
    for byte in 1..=20u8 {
        let voter = Address { high: (byte % 3) as u32, low: byte as u128 };
        registry.register(voter).unwrap();
        let support = byte % 4 != 0;
        assert_eq!(polls.vote(voter, &registry, poll, support), Ok(()));
        voted += 1;
        if support {
            yes += 1;
        }
        // a second try changes nothing
        assert!(polls.vote(voter, &registry, poll, !support).is_err());
        assert_eq!(polls.get_results(poll), Ok((U256::from(yes), U256::from(voted - yes))));
    }
    assert_eq!(polls.get_results(poll), Ok((U256::from(15), U256::from(5))));
    let mut counted: u64 = 0;
    for byte in 0..=255u8 {
        for high in 0..3u32 {
            if polls.has_voted(poll, Address { high, low: byte as u128 }) {
                counted += 1;
            }
        }
    }
    assert_eq!(counted, 20);
}

#[test]
fn ballots_are_kept_per_poll() {
    let mut registry = VoterRegistry::new();
    let mut polls = configured();
    let second = polls.create_poll(owner(), String::from("second"));
    registry.register(alice()).unwrap();
    polls.vote(alice(), &registry, U256::from(0), true).unwrap();
    assert!(polls.has_voted(U256::from(0), alice()));
    assert!(!polls.has_voted(second, alice()));
    assert_eq!(polls.vote(alice(), &registry, second, false), Ok(()));
    assert_eq!(polls.get_results(U256::from(0)), Ok((U256::from(1), U256::from(0))));
    assert_eq!(polls.get_results(second), Ok((U256::from(0), U256::from(1))));
}

#[test]
fn polls_events_come_in_call_order_and_only_on_success() {
    let mut registry = VoterRegistry::new();
    let mut polls = configured();
    let poll = U256::from(0);
    registry.register(alice()).unwrap();
    assert!(polls.vote(bob(), &registry, poll, true).is_err());
    polls.vote(alice(), &registry, poll, false).unwrap();
    assert!(polls.vote(alice(), &registry, poll, false).is_err());
    assert!(polls.close_poll(bob(), poll).is_err());
    polls.close_poll(owner(), poll).unwrap();
    assert_eq!(
        polls.events(),
        &vec![
            PollsEvent::PollCreated { poll_id: poll, creator: owner() },
            PollsEvent::VoteCast { poll_id: poll, voter: alice(), support: false },
            PollsEvent::PollClosed { poll_id: poll },
        ]
    );
}

#[test]
fn vote_asks_the_registry_that_it_is_handed() {
    let mut polls = configured();
    let mut with_alice = VoterRegistry::new();
    let without = VoterRegistry::new();
    with_alice.register(alice()).unwrap();
    assert_eq!(
        polls.vote(alice(), &without, U256::from(0), true),
        Err(PollsError::VoterNotRegistered { voter: alice() })
    );
    assert_eq!(polls.vote(alice(), &with_alice, U256::from(0), true), Ok(()));
}

/// A registry that must not be asked.
struct Unreachable;

impl IVoterRegistry for Unreachable {
    fn is_registered(&self, voter: Address) -> bool {
        panic!("the registry was asked about {:?}", voter)
    }

    fn voter_count(&self) -> U256 {
        panic!("the registry was asked for its count")
    }
}

#[test]
fn registry_is_not_asked_when_the_poll_cannot_take_ballots() {
    let mut polls = Polls::new();
    assert_eq!(
        polls.vote(alice(), &Unreachable, U256::from(0), true),
        Err(PollsError::RegistryNotSet)
    );
    polls.set_registry(owner(), Address::with_last_byte(0x42)).unwrap();
    assert_eq!(
        polls.vote(alice(), &Unreachable, U256::from(0), true),
        Err(PollsError::PollNotFound { poll_id: U256::from(0) })
    );
    let id = polls.create_poll(owner(), String::from("p"));
    polls.close_poll(owner(), id).unwrap();
    assert_eq!(
        polls.vote(alice(), &Unreachable, id, true),
        Err(PollsError::PollNotActive { poll_id: id })
    );
}

#[test]
fn cast_ballot_takes_the_answer_as_given() {
    let mut polls = Polls::new();
    let poll = U256::from(0);
    assert_eq!(polls.cast_ballot(alice(), poll, true, true), Err(PollsError::RegistryNotSet));
    polls.set_registry(owner(), Address::with_last_byte(0x42)).unwrap();
    assert_eq!(
        polls.cast_ballot(alice(), poll, true, true),
        Err(PollsError::PollNotFound { poll_id: poll })
    );
    polls.create_poll(owner(), String::from("p"));
    assert_eq!(
        polls.cast_ballot(alice(), poll, true, false),
        Err(PollsError::VoterNotRegistered { voter: alice() })
    );
    assert_eq!(polls.get_results(poll), Ok((U256::from(0), U256::from(0))));
    assert_eq!(polls.cast_ballot(alice(), poll, true, true), Ok(()));
    assert_eq!(polls.cast_ballot(bob(), poll, false, true), Ok(()));
    assert_eq!(polls.get_results(poll), Ok((U256::from(1), U256::from(1))));
    assert_eq!(
        polls.cast_ballot(alice(), poll, false, true),
        Err(PollsError::AlreadyVoted { poll_id: poll, voter: alice() })
    );
    assert_eq!(
        polls.cast_ballot(alice(), poll, false, false),
        Err(PollsError::VoterNotRegistered { voter: alice() })
    );
    polls.close_poll(owner(), poll).unwrap();
    assert_eq!(
        polls.cast_ballot(owner(), poll, false, true),
        Err(PollsError::PollNotActive { poll_id: poll })
    );
    assert_eq!(polls.get_results(poll), Ok((U256::from(1), U256::from(1))));
    assert_eq!(polls.events().len(), 4);
}
