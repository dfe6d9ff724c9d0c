use onchain_voting::primitives::Address;
use onchain_voting::primitives::U256;
use onchain_voting::voter_registry::IVoterRegistry;
use onchain_voting::voter_registry::RegistryError;
use onchain_voting::voter_registry::RegistryEvent;
use onchain_voting::voter_registry::VoterRegistry;

/// The address that calls when a test names no other.
fn msg_sender() -> Address {
    Address { high: 0xdead_beef, low: 0xdead_beef_dead_beef_dead_beef_dead_beef }
}

#[test]
fn test_register_voter() {
    let mut contract = VoterRegistry::new();

    assert_eq!(U256::zero(), contract.voter_count());
    assert!(!contract.is_registered(msg_sender()));

    assert!(contract.register(msg_sender()).is_ok());

    assert!(contract.is_registered(msg_sender()));
    assert_eq!(U256::from(1), contract.voter_count());
}

#[test]
fn test_double_registration_fails() {
    let mut contract = VoterRegistry::new();

    assert!(contract.register(msg_sender()).is_ok());
    let result = contract.register(msg_sender());
    assert!(result.is_err());
}

#[test]
fn test_deregister_voter() {
    let mut contract = VoterRegistry::new();

    assert!(contract.register(msg_sender()).is_ok());
    assert_eq!(U256::from(1), contract.voter_count());

    assert!(contract.deregister(msg_sender()).is_ok());
    assert!(!contract.is_registered(msg_sender()));
    assert_eq!(U256::zero(), contract.voter_count());
}

#[test]
fn test_deregister_unregistered_fails() {
    let mut contract = VoterRegistry::new();

    let result = contract.deregister(msg_sender());
    assert!(result.is_err());
}

#[test]
fn test_voter_count() {
    let mut contract = VoterRegistry::new();

    assert_eq!(contract.voter_count(), U256::zero());
    assert!(contract.register(msg_sender()).is_ok());
    assert_eq!(contract.voter_count(), U256::from(1));
}

#[test]
fn fresh_registry_has_no_owner_and_no_voters() {
    let contract = VoterRegistry::new();
    assert_eq!(contract.owner(), Address::zero());
    assert_eq!(contract.voter_count(), U256::zero());
    assert!(!contract.is_registered(Address::zero()));
    assert!(contract.events().is_empty());
}

#[test]
fn double_registration_names_the_voter_and_changes_nothing() {
    let mut contract = VoterRegistry::new();
    let voter = Address::with_last_byte(3);
    assert_eq!(contract.register(voter), Ok(()));
    assert_eq!(contract.register(voter), Err(RegistryError::AlreadyRegistered { voter }));
    assert_eq!(contract.voter_count(), U256::from(1));
    assert_eq!(contract.events(), &vec![RegistryEvent::VoterRegistered { voter }]);
}

#[test]
fn deregistering_a_stranger_names_the_voter_and_changes_nothing() {
    let mut contract = VoterRegistry::new();
    let voter = Address::with_last_byte(3);
    let stranger = Address::with_last_byte(4);
    contract.register(voter).unwrap();
    assert_eq!(contract.deregister(stranger), Err(RegistryError::NotRegistered { voter: stranger }));
    assert_eq!(contract.voter_count(), U256::from(1));
    assert!(contract.is_registered(voter));
    assert_eq!(contract.events().len(), 1);
}

#[test]
fn count_follows_registrations() {
    let mut contract = VoterRegistry::new();
    let voters = [
        Address::with_last_byte(1),
        Address::with_last_byte(2),
        Address { high: 1, low: 1 },
        Address { high: 2, low: 1 },
        Address { high: u32::MAX, low: u128::MAX },
    ];
    let mut expected: u64 = 0;
    for voter in voters {
        assert_eq!(contract.register(voter), Ok(()));
        expected += 1;
        assert_eq!(contract.voter_count(), U256::from(expected));
    }
    for voter in voters {
        assert!(contract.is_registered(voter));
    }
    assert_eq!(contract.deregister(voters[2]), Ok(()));
    assert_eq!(contract.voter_count(), U256::from(4));
    assert!(!contract.is_registered(voters[2]));
    assert!(contract.is_registered(voters[0]));
    assert!(contract.is_registered(voters[3]));
    // registering again after leaving is allowed
    assert_eq!(contract.register(voters[2]), Ok(()));
    assert_eq!(contract.voter_count(), U256::from(5));
}

#[test]
fn registry_events_come_in_call_order() {
    let mut contract = VoterRegistry::new();
    let a = Address::with_last_byte(1);
    let b = Address::with_last_byte(2);
    contract.register(a).unwrap();
    contract.register(b).unwrap();
    contract.deregister(a).unwrap();
    assert!(contract.deregister(a).is_err());
    assert_eq!(
        contract.events(),
        &vec![
            RegistryEvent::VoterRegistered { voter: a },
            RegistryEvent::VoterRegistered { voter: b },
            RegistryEvent::VoterDeregistered { voter: a },
        ]
    );
}

#[test]
fn registering_never_sets_an_owner() {
    let mut contract = VoterRegistry::new();
    contract.register(Address::with_last_byte(1)).unwrap();
    contract.deregister(Address::with_last_byte(1)).unwrap();
    assert_eq!(contract.owner(), Address::zero());
}
