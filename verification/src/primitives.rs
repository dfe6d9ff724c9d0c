//! Account addresses and 256-bit unsigned integers.

use stylus_sdk::alloy_primitives::U256 as Uint256;
use vstd::prelude::*;
use vstd::relations::injective_on;
use vstd::set_lib::lemma_int_range;
use vstd::set_lib::lemma_len_subset;
use vstd::set_lib::lemma_map_size;
use vstd::set_lib::set_int_range;

verus! {

/// 2^64, the weight of the second limb of a [`U256`].
pub open spec fn limb_base() -> nat {
    0x1_0000_0000_0000_0000nat
}

/// 2^128, the weight of the high word of an [`Address`].
pub open spec fn low_word_base() -> nat {
    0x1_0000_0000_0000_0000_0000_0000_0000_0000nat
}

/// 2^160, the number of distinct addresses.
pub open spec fn address_space() -> nat {
    0x1_0000_0000_0000_0000_0000_0000_0000_0000_0000_0000nat
}

/// 2^256, the number of distinct [`U256`] values.
pub open spec fn u256_modulus() -> nat {
    0x1_0000_0000_0000_0000_0000_0000_0000_0000_0000_0000_0000_0000_0000_0000_0000_0000nat
}

/// The number that `bytes` spell, most significant first.
pub open spec fn be_value(bytes: Seq<u8>) -> nat
    decreases bytes.len(),
{
    if bytes.len() == 0 {
        0
    } else {
        256 * be_value(bytes.drop_last()) + bytes.last() as nat
    }
}

/// 256 to the power `digits`: the number of values that `digits` bytes can
/// spell.
pub open spec fn radix_power(digits: nat) -> nat
    decreases digits,
{
    if digits == 0 {
        1
    } else {
        256 * radix_power((digits - 1) as nat)
    }
}

/// Bytes spell a number below 256 to the power of their count.
pub proof fn lemma_be_value_bound(bytes: Seq<u8>)
    ensures
        be_value(bytes) < radix_power(bytes.len()),
    decreases bytes.len(),
{
    if bytes.len() > 0 {
        lemma_be_value_bound(bytes.drop_last());
    }
}

/// Two runs of bytes of one length that spell the same number are the
/// same bytes.
pub proof fn lemma_be_value_injective(left: Seq<u8>, right: Seq<u8>)
    requires
        left.len() == right.len(),
        be_value(left) == be_value(right),
    ensures
        left == right,
    decreases left.len(),
{
    if left.len() > 0 {
        lemma_be_value_injective(left.drop_last(), right.drop_last());
        assert(left == left.drop_last().push(left.last()));
        assert(right == right.drop_last().push(right.last()));
    } else {
        assert(left == right);
    }
}

/// What two runs of bytes spell when joined: the first run shifted left by
/// the length of the second, plus the second.
pub proof fn lemma_be_value_concat(front: Seq<u8>, back: Seq<u8>)
    ensures
        be_value(front + back) == be_value(front) * radix_power(back.len()) + be_value(back),
    decreases back.len(),
{
    if back.len() == 0 {
        assert(front + back == front);
        assert(be_value(front) * radix_power(back.len()) == be_value(front)) by {
            assert(radix_power(back.len()) == 1);
        }
    } else {
        let joined = front + back;
        let rest = back.drop_last();
        let weight = radix_power(rest.len());
        lemma_be_value_concat(front, rest);
        assert(joined.drop_last() == front + rest);
        assert(joined.last() == back.last());
        assert(be_value(joined) == 256 * (be_value(front) * weight + be_value(rest))
            + back.last());
        assert(radix_power(back.len()) == 256 * weight);
        assert(256 * (be_value(front) * weight) == be_value(front) * radix_power(back.len()))
            by (nonlinear_arith)
            requires
                radix_power(back.len()) == 256 * weight,
        ;
    }
}

/// A 160-bit account identifier, held as its high 32 bits and low 128 bits.
#[derive(Clone, Copy, Debug, PartialEq, Eq, Hash, Structural)]
pub struct Address {
    pub high: u32,
    pub low: u128,
}

impl View for Address {
    type V = nat;

    /// The address read as one number below 2^160.
    open spec fn view(&self) -> nat {
        (self.high * low_word_base() + self.low) as nat
    }
}

impl Address {
    /// The all-zero address, which stands for "none".
    pub fn zero() -> (a: Address)
        ensures
            a == (Address { high: 0, low: 0 }),
    {
        Address { high: 0, low: 0 }
    }

    /// The address whose last byte is `x` and whose other bytes are zero.
    pub fn with_last_byte(x: u8) -> (a: Address)
        ensures
            a == (Address { high: 0, low: x as u128 }),
    {
        Address { high: 0, low: x as u128 }
    }

    /// The address that the twenty bytes spell, most significant first.
    pub fn from_be_bytes(bytes: [u8; 20]) -> (a: Address)
        ensures
            a@ == be_value(bytes@),
    {
        let mut high: u32 = 0;
        let mut i: usize = 0;
        while i < 4
            invariant
                i <= 4,
                high == be_value(bytes@.subrange(0, i as int)),
                high < radix_power(i as nat),
            decreases 4 - i,
        {
            proof {
                reveal_with_fuel(radix_power, 5);
                let through = bytes@.subrange(0, i + 1);
                assert(through.drop_last() == bytes@.subrange(0, i as int));
                assert(through.last() == bytes@[i as int]);
            }
            high = high * 256 + bytes[i] as u32;
            i += 1;
        }
        let mut low: u128 = 0;
        while i < 20
            invariant
                4 <= i <= 20,
                low == be_value(bytes@.subrange(4, i as int)),
                low < radix_power((i - 4) as nat),
            decreases 20 - i,
        {
            proof {
                reveal_with_fuel(radix_power, 17);
                let through = bytes@.subrange(4, i + 1);
                assert(through.drop_last() == bytes@.subrange(4, i as int));
                assert(through.last() == bytes@[i as int]);
            }
            low = low * 256 + bytes[i] as u128;
            i += 1;
        }
        proof {
            reveal_with_fuel(radix_power, 17);
            lemma_be_value_concat(bytes@.subrange(0, 4), bytes@.subrange(4, 20));
            assert(bytes@.subrange(0, 4) + bytes@.subrange(4, 20) == bytes@);
        }
        Address { high, low }
    }

    /// The twenty bytes that spell the address, most significant first.
    /// No other twenty bytes spell it.
    pub fn to_be_bytes(&self) -> (bytes: [u8; 20])
        ensures
            be_value(bytes@) == self@,
            forall|other: Seq<u8>|
                other.len() == 20 && #[trigger] be_value(other) == self@ ==> other == bytes@,
    {
        let mut bytes: [u8; 20] = [0; 20];
        let mut low: u128 = self.low;
        let mut i: usize = 20;
        proof {
            assert(bytes@.subrange(20, 20).len() == 0);
            assert(low * radix_power(0) == low) by {
                assert(radix_power(0) == 1);
            }
        }
        while i > 4
            invariant
                4 <= i <= 20,
                low * radix_power((20 - i) as nat) + be_value(bytes@.subrange(i as int, 20))
                    == self.low,
            decreases i,
        {
            let ghost before = bytes@;
            let ghost weight = radix_power((20 - i) as nat);
            let digit = (low % 256) as u8;
            i -= 1;
            bytes[i] = digit;
            proof {
                let tail = before.subrange(i + 1, 20);
                assert(bytes@.subrange(i as int, 20) == seq![digit] + tail);
                lemma_be_value_concat(seq![digit], tail);
                assert(be_value(seq![digit]) == digit) by {
                    assert(seq![digit].drop_last().len() == 0);
                    reveal_with_fuel(be_value, 2);
                }
                assert((low / 256) * (256 * weight) + digit * weight == low * weight)
                    by (nonlinear_arith)
                    requires
                        digit == low % 256,
                ;
            }
            low = low / 256;
        }
        let ghost low_bytes = bytes@.subrange(4, 20);
        proof {
            reveal_with_fuel(radix_power, 17);
            lemma_be_value_bound(low_bytes);
            assert(low == 0) by (nonlinear_arith)
                requires
                    low * 0x1_0000_0000_0000_0000_0000_0000_0000_0000nat <= self.low,
                    self.low < 0x1_0000_0000_0000_0000_0000_0000_0000_0000nat,
            ;
        }
        let mut high: u32 = self.high;
        proof {
            assert(bytes@.subrange(4, 4).len() == 0);
            assert(high * radix_power(0) == high) by {
                assert(radix_power(0) == 1);
            }
        }
        while i > 0
            invariant
                i <= 4,
                bytes@.subrange(4, 20) == low_bytes,
                high * radix_power((4 - i) as nat) + be_value(bytes@.subrange(i as int, 4))
                    == self.high,
            decreases i,
        {
            let ghost before = bytes@;
            let ghost weight = radix_power((4 - i) as nat);
            let digit = (high % 256) as u8;
            i -= 1;
            bytes[i] = digit;
            proof {
                let tail = before.subrange(i + 1, 4);
                assert(bytes@.subrange(i as int, 4) == seq![digit] + tail);
                assert(bytes@.subrange(4, 20) == before.subrange(4, 20));
                lemma_be_value_concat(seq![digit], tail);
                assert(be_value(seq![digit]) == digit) by {
                    assert(seq![digit].drop_last().len() == 0);
                    reveal_with_fuel(be_value, 2);
                }
                assert((high / 256) * (256 * weight) + digit * weight == high * weight)
                    by (nonlinear_arith)
                    requires
                        digit == high % 256,
                ;
            }
            high = high / 256;
        }
        proof {
            reveal_with_fuel(radix_power, 17);
            lemma_be_value_bound(bytes@.subrange(0, 4));
            assert(high == 0) by (nonlinear_arith)
                requires
                    high * 0x1_0000_0000nat <= self.high,
                    self.high < 0x1_0000_0000nat,
            ;
            lemma_be_value_concat(bytes@.subrange(0, 4), bytes@.subrange(4, 20));
            assert(bytes@.subrange(0, 4) + bytes@.subrange(4, 20) == bytes@);
            assert forall|other: Seq<u8>|
                other.len() == 20 && #[trigger] be_value(other) == self@ implies other
                == bytes@ by {
                lemma_be_value_injective(other, bytes@);
            }
        }
        bytes
    }

    /// Whether this is the all-zero address.
    pub fn is_zero(&self) -> (z: bool)
        ensures
            z == (self@ == 0),
    {
        self.high == 0 && self.low == 0
    }
}

/// A 256-bit unsigned integer, held as four 64-bit limbs, least significant
/// first.
#[derive(Clone, Copy, Debug, PartialEq, Eq, Hash, Structural)]
pub struct U256 {
    pub limb0: u64,
    pub limb1: u64,
    pub limb2: u64,
    pub limb3: u64,
}

impl View for U256 {
    type V = nat;

    /// The number that the limbs spell.
    open spec fn view(&self) -> nat {
        (self.limb0 + limb_base() * (self.limb1 + limb_base() * (self.limb2 + limb_base()
            * self.limb3))) as nat
    }
}

impl U256 {
    /// The number zero.
    pub fn zero() -> (n: U256)
        ensures
            n == U256::spec_from_u64(0),
    {
        U256 { limb0: 0, limb1: 0, limb2: 0, limb3: 0 }
    }

    /// The number `value`, widened to 256 bits.
    pub open spec fn spec_from_u64(value: u64) -> U256 {
        U256 { limb0: value, limb1: 0, limb2: 0, limb3: 0 }
    }

    /// The number `value`, reduced modulo 2^256.
    pub open spec fn spec_from_nat(value: nat) -> U256 {
        U256 {
            limb0: (value % limb_base()) as u64,
            limb1: (value / limb_base() % limb_base()) as u64,
            limb2: (value / limb_base() / limb_base() % limb_base()) as u64,
            limb3: (value / limb_base() / limb_base() / limb_base() % limb_base()) as u64,
        }
    }

    /// The number `value`, widened to 256 bits.
    pub fn from_usize(value: usize) -> (n: U256)
        ensures
            n == U256::spec_from_nat(value as nat),
            n@ == value,
    {
        U256 { limb0: value as u64, limb1: 0, limb2: 0, limb3: 0 }
    }

    /// The number plus one, reduced modulo 2^256.
    pub fn incremented(self) -> (next: U256)
        ensures
            next@ == (self@ + 1) % u256_modulus(),
    {
        self.wrapping_add(U256::from(1))
    }

    /// The number minus one, reduced modulo 2^256.
    pub fn decremented(self) -> (previous: U256)
        ensures
            previous@ == (self@ - 1) % (u256_modulus() as int),
    {
        self.wrapping_sub(U256::from(1))
    }

    /// The number, if it fits in a `usize`.
    pub fn to_usize(&self) -> (index: Option<usize>)
        ensures
            match index {
                Some(i) => i == self@,
                None => self@ > usize::MAX,
            },
    {
        if self.limb1 == 0 && self.limb2 == 0 && self.limb3 == 0 && self.limb0 <= usize::MAX as u64 {
            Some(self.limb0 as usize)
        } else {
            None
        }
    }

    /// The sum of the two numbers, reduced modulo 2^256.
    ///
    /// Taken on trust: the body builds both numbers with `Uint::from_limbs`
    /// of the `ruint` crate (which `alloy_primitives` hands on as its
    /// `U256`), calls `Uint::wrapping_add`, and reads the result with
    /// `Uint::into_limbs`. The contract rests on what `ruint` documents:
    /// that limbs are least significant first, and that `wrapping_add`
    /// computes the sum "wrapping around at the boundary of the type",
    /// which for 256 bits is the sum modulo 2^256.
    #[verifier::external_body]
    pub(crate) fn wrapping_add(self, rhs: U256) -> (sum: U256)
        ensures
            sum@ == (self@ + rhs@) % u256_modulus(),
    {
        let a = Uint256::from_limbs([self.limb0, self.limb1, self.limb2, self.limb3]);
        let b = Uint256::from_limbs([rhs.limb0, rhs.limb1, rhs.limb2, rhs.limb3]);
        let [limb0, limb1, limb2, limb3] = a.wrapping_add(b).into_limbs();
        U256 { limb0, limb1, limb2, limb3 }
    }

    /// The difference of the two numbers, reduced modulo 2^256.
    ///
    /// Taken on trust: the body builds both numbers with `Uint::from_limbs`
    /// of the `ruint` crate, calls `Uint::wrapping_sub`, and reads the
    /// result with `Uint::into_limbs`. The contract rests on what `ruint`
    /// documents: that limbs are least significant first, and that
    /// `wrapping_sub` computes the difference "wrapping around at the
    /// boundary of the type", which for 256 bits is the difference modulo
    /// 2^256.
    #[verifier::external_body]
    pub(crate) fn wrapping_sub(self, rhs: U256) -> (difference: U256)
        ensures
            difference@ == (self@ - rhs@) % (u256_modulus() as int),
    {
        let a = Uint256::from_limbs([self.limb0, self.limb1, self.limb2, self.limb3]);
        let b = Uint256::from_limbs([rhs.limb0, rhs.limb1, rhs.limb2, rhs.limb3]);
        let [limb0, limb1, limb2, limb3] = a.wrapping_sub(b).into_limbs();
        U256 { limb0, limb1, limb2, limb3 }
    }
}

impl From<u64> for U256 {
    fn from(value: u64) -> (n: U256) {
        U256 { limb0: value, limb1: 0, limb2: 0, limb3: 0 }
    }
}

impl vstd::std_specs::convert::FromSpecImpl<u64> for U256 {
    open spec fn obeys_from_spec() -> bool {
        true
    }

    open spec fn from_spec(value: u64) -> U256 {
        U256::spec_from_u64(value)
    }
}

/// Two addresses that read as the same number are the same address.
pub proof fn lemma_address_view_injective(a: Address, b: Address)
    requires
        a@ == b@,
    ensures
        a == b,
{
}

/// A finite set of addresses has at most 2^160 members.
pub proof fn lemma_address_set_len_bound(addresses: Set<Address>)
    requires
        addresses.finite(),
    ensures
        addresses.len() <= address_space(),
{
    let number = |a: Address| a@ as int;
    let numbers = addresses.map(number);
    assert(injective_on(number, addresses)) by {
        assert forall|a: Address, b: Address| #[trigger] number(a) == #[trigger] number(b) implies a
            == b by {
            lemma_address_view_injective(a, b);
        }
    }
    lemma_map_size(addresses, numbers, number);
    lemma_int_range(0, address_space() as int);
    assert(numbers.subset_of(set_int_range(0, address_space() as int)));
    lemma_len_subset(numbers, set_int_range(0, address_space() as int));
}

} // verus!
