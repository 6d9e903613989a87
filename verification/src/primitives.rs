//! Plain values shared by the handlers: addresses, hashes and 256-bit unsigned integers.

use vstd::arithmetic::power2::pow2;
use vstd::prelude::*;

verus! {

/// A 20-byte account address.
pub type Address = [u8; 20];

/// A 32-byte hash.
pub type B256 = [u8; 32];

/// The all-zero address.
pub const ZERO_ADDRESS: Address = [0, 0, 0, 0, 0, 0, 0, 0, 0, 0, 0, 0, 0, 0, 0, 0, 0, 0, 0, 0];

/// The balance reported for every account, in little-endian limbs of 64 bits.
pub const NATIVE_BALANCE_PLACEHOLDER: [u64; 4] = [
    2794961223289326002,
    5887834495867767963,
    13641828729035757914,
    675857174419828238,
];

/// The largest 256-bit unsigned integer.
pub open spec fn u256_max() -> nat {
    0xffff_ffff_ffff_ffff_ffff_ffff_ffff_ffff_ffff_ffff_ffff_ffff_ffff_ffff_ffff_ffff_nat
}

/// The smaller of two naturals.
pub open spec fn at_most(value: nat, limit: nat) -> nat {
    if value <= limit {
        value
    } else {
        limit
    }
}

/// The number that four little-endian limbs of 64 bits stand for.
pub open spec fn limbs_value(limbs: Seq<u64>) -> nat {
    (limbs[0] + limbs[1] * 0x1_0000_0000_0000_0000 + limbs[2]
        * 0x1_0000_0000_0000_0000_0000_0000_0000_0000 + limbs[3]
        * 0x1_0000_0000_0000_0000_0000_0000_0000_0000_0000_0000_0000_0000) as nat
}

/// A 256-bit unsigned integer, kept as little-endian limbs of 64 bits.
#[derive(Clone, Copy, Debug, PartialEq, Eq)]
pub struct U256 {
    pub limbs: [u64; 4],
}

impl View for U256 {
    type V = nat;

    open spec fn view(&self) -> nat {
        limbs_value(self.limbs@)
    }
}

impl U256 {
    /// The integer zero.
    pub fn zero() -> (zero: U256)
        ensures
            zero@ == 0,
            forall|i: int| 0 <= i < 4 ==> #[trigger] zero.limbs@[i] == 0,
        opens_invariants none
    {
        U256 { limbs: [0, 0, 0, 0] }
    }

    /// `alloy_primitives::U256::from` on a `u128`: the integer with that value. Every `u128` fits
    /// in 256 bits, so the conversion never fails.
    #[verifier::external_body]
    pub(crate) fn from_u128(value: u128) -> (integer: U256)
        ensures
            integer@ == value,
    {
        U256 { limbs: alloy_primitives::U256::from(value).into_limbs() }
    }

    /// `alloy_primitives::U256::is_zero`: whether the integer is zero.
    #[verifier::external_body]
    pub(crate) fn is_zero(&self) -> (zero: bool)
        ensures
            zero == (self@ == 0),
        opens_invariants none
    {
        alloy_primitives::U256::from_limbs(self.limbs).is_zero()
    }

    /// `alloy_primitives::U256::saturating_mul`: the product, or the largest 256-bit integer where
    /// the product is larger than that.
    #[verifier::external_body]
    pub(crate) fn saturating_mul(self, rhs: U256) -> (product: U256)
        ensures
            product@ == at_most(self@ * rhs@, u256_max()),
    {
        let left = alloy_primitives::U256::from_limbs(self.limbs);
        let right = alloy_primitives::U256::from_limbs(rhs.limbs);
        U256 { limbs: left.saturating_mul(right).into_limbs() }
    }

    /// `alloy_primitives::U256::checked_div`: the quotient rounded down, or `None` exactly where
    /// the divisor is zero.
    #[verifier::external_body]
    pub(crate) fn checked_div(self, rhs: U256) -> (quotient: Option<U256>)
        ensures
            quotient is None <==> rhs@ == 0,
            quotient matches Some(q) ==> q@ == self@ / rhs@,
    {
        let left = alloy_primitives::U256::from_limbs(self.limbs);
        let right = alloy_primitives::U256::from_limbs(rhs.limbs);
        match left.checked_div(right) {
            Some(q) => Some(U256 { limbs: q.into_limbs() }),
            None => None,
        }
    }

    /// `alloy_primitives::U256::saturating_to` for `u64`: the value itself, or `u64::MAX` where the
    /// value is larger than that.
    #[verifier::external_body]
    pub(crate) fn saturating_to_u64(&self) -> (value: u64)
        ensures
            value == at_most(self@, u64::MAX as nat),
    {
        alloy_primitives::U256::from_limbs(self.limbs).saturating_to()
    }
}

/// A limb counts for its place: each is worth 64 bits more than the one before it.
pub proof fn law_limbs_count_for_their_place(integer: U256)
    ensures
        integer@ == integer.limbs@[0] + integer.limbs@[1] * pow2(64) + integer.limbs@[2] * pow2(128)
            + integer.limbs@[3] * pow2(192),
{
    vstd::arithmetic::power2::lemma2_to64();
    vstd::arithmetic::power2::lemma_pow2_adds(64, 64);
    vstd::arithmetic::power2::lemma_pow2_adds(128, 64);
}

/// The largest 256-bit integer is one less than the first number that needs 257 bits.
pub proof fn law_largest_integer()
    ensures
        u256_max() + 1 == pow2(256),
{
    vstd::arithmetic::power2::lemma2_to64();
    vstd::arithmetic::power2::lemma_pow2_adds(64, 64);
    vstd::arithmetic::power2::lemma_pow2_adds(128, 64);
    vstd::arithmetic::power2::lemma_pow2_adds(192, 64);
    assert(pow2(192) == 0x1_0000_0000_0000_0000_0000_0000_0000_0000_0000_0000_0000_0000nat);
}

/// A limited value exceeds neither itself nor its limit, and it is one of the two.
pub proof fn law_limited_value(value: nat, limit: nat)
    ensures
        at_most(value, limit) <= value,
        at_most(value, limit) <= limit,
        at_most(value, limit) == value || at_most(value, limit) == limit,
{
}

/// Every byte of the zero address is zero, and it is the only such address.
pub proof fn law_zero_address(address: Address)
    ensures
        address == ZERO_ADDRESS <==> forall|i: int| 0 <= i < 20 ==> #[trigger] address@[i] == 0,
{
    if forall|i: int| 0 <= i < 20 ==> #[trigger] address@[i] == 0 {
        assert(address@ =~= ZERO_ADDRESS@);
        assert(address =~= ZERO_ADDRESS);
    }
}

/// A 256-bit integer lies between zero and `u256_max()`, and its value determines its limbs.
pub proof fn law_value_determines_limbs(a: U256, b: U256)
    ensures
        a@ <= u256_max(),
        a@ == b@ ==> a == b,
{
    if a@ == b@ {
        assert(a.limbs@[0] == b.limbs@[0]);
        assert(a.limbs@[1] == b.limbs@[1]);
        assert(a.limbs@[2] == b.limbs@[2]);
        assert(a.limbs@[3] == b.limbs@[3]);
        assert(a.limbs@ =~= b.limbs@);
        assert(a.limbs =~= b.limbs);
    }
}

} // verus!
