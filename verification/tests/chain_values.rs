use onchain_voting::primitives::Address;
use onchain_voting::primitives::U256;
use stylus_sdk::alloy_primitives::Address as ChainAddress;
use stylus_sdk::alloy_primitives::U256 as ChainU256;

fn ours(limbs: [u64; 4]) -> U256 {
    U256 { limb0: limbs[0], limb1: limbs[1], limb2: limbs[2], limb3: limbs[3] }
}

fn limbs_of(n: U256) -> [u64; 4] {
    [n.limb0, n.limb1, n.limb2, n.limb3]
}

fn samples() -> Vec<[u64; 4]> {
    vec![
        [0, 0, 0, 0],
        [1, 0, 0, 0],
        [u64::MAX, 0, 0, 0],
        [0, 1, 0, 0],
        [u64::MAX, u64::MAX, 0, 0],
        [0, 0, 1, 0],
        [u64::MAX, u64::MAX, u64::MAX, 0],
        [0, 0, 0, 1],
        [0x0123_4567_89ab_cdef, 0xfedc_ba98_7654_3210, 7, 0x8000_0000_0000_0000],
        [u64::MAX, u64::MAX, u64::MAX, u64::MAX],
    ]
}

#[test]
fn increment_agrees_with_the_chain_integer() {
    for limbs in samples() {
        let expected = ChainU256::from_limbs(limbs) + ChainU256::from(1);
        assert_eq!(limbs_of(ours(limbs).incremented()), expected.into_limbs());
    }
}

#[test]
fn decrement_agrees_with_the_chain_integer() {
    for limbs in samples() {
        let expected = ChainU256::from_limbs(limbs) - ChainU256::from(1);
        assert_eq!(limbs_of(ours(limbs).decremented()), expected.into_limbs());
    }
}

#[test]
fn small_numbers_agree_with_the_chain_integer() {
    assert_eq!(limbs_of(U256::zero()), ChainU256::ZERO.into_limbs());
    for value in [0u64, 1, 999, u64::MAX] {
        assert_eq!(limbs_of(U256::from(value)), ChainU256::from(value).into_limbs());
    }
    assert_eq!(limbs_of(U256::from_usize(3)), ChainU256::from(3).into_limbs());
}

#[test]
fn addresses_agree_with_the_chain_address() {
    let zero = ChainAddress::ZERO.into_array();
    assert_eq!(&Address::zero().high.to_be_bytes()[..], &zero[..4]);
    assert_eq!(&Address::zero().low.to_be_bytes()[..], &zero[4..]);
    for byte in [0u8, 1, 0x42, 0x99, 0xff] {
        let chain = ChainAddress::with_last_byte(byte).into_array();
        let ours = Address::with_last_byte(byte);
        assert_eq!(&ours.high.to_be_bytes()[..], &chain[..4]);
        assert_eq!(&ours.low.to_be_bytes()[..], &chain[4..]);
    }
}

#[test]
fn address_bytes_agree_with_the_chain_address() {
    let mut counting = [0u8; 20];
    for (i, byte) in counting.iter_mut().enumerate() {
        *byte = (i as u8) + 1;
    }
    let samples = [[0u8; 20], [0xffu8; 20], counting, ChainAddress::with_last_byte(0x99).into_array()];
    for bytes in samples {
        let ours = Address::from_be_bytes(bytes);
        assert_eq!(ours.to_be_bytes(), bytes);
        assert_eq!(ChainAddress::new(ours.to_be_bytes()), ChainAddress::new(bytes));
        assert_eq!(&ours.high.to_be_bytes()[..], &bytes[..4]);
        assert_eq!(&ours.low.to_be_bytes()[..], &bytes[4..]);
    }
    assert_eq!(Address::from_be_bytes([0u8; 20]), Address::zero());
    assert_eq!(
        Address::from_be_bytes(ChainAddress::with_last_byte(0x99).into_array()),
        Address::with_last_byte(0x99)
    );
}
