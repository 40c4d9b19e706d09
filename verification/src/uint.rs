//! Unsigned 256-bit integers: token amounts and token ids.

use vstd::prelude::*;

verus! {

/// The number of values that a [`U256`] can take.
pub open spec fn modulus() -> nat {
    0x1_0000000000000000_0000000000000000_0000000000000000_0000000000000000nat
}

/// What is left of `n` in 256 bits.
pub open spec fn wrap(n: int) -> nat {
    (n % (modulus() as int)) as nat
}

/// What is left of a sum does not depend on when it is cut to 256 bits.
pub(crate) proof fn lemma_wrap_add(a: int, b: int)
    ensures
        wrap(wrap(a) + b) == wrap(a + b),
{
}

/// Unsigned 256-bit integer, its least significant limb first.
#[derive(Clone, Copy, Debug, Eq)]
pub struct U256 {
    pub limbs: [u64; 4],
}

/// The number with the four digits `l0`, `l1`, `l2`, `l3` in base 2^64, lowest first.
pub open spec fn from_digits(l0: u64, l1: u64, l2: u64, l3: u64) -> nat {
    (l0 + l1 * 0x1_0000000000000000 + l2 * 0x1_0000000000000000_0000000000000000 + l3
        * 0x1_0000000000000000_0000000000000000_0000000000000000) as nat
}

impl View for U256 {
    type V = nat;

    open spec fn view(&self) -> nat {
        from_digits(self.limbs[0], self.limbs[1], self.limbs[2], self.limbs[3])
    }
}

/// The integer of value `n`.
pub open spec fn u256(n: nat) -> U256 {
    choose|x: U256| x@ == n
}

/// An integer is determined by its value.
pub broadcast proof fn lemma_u256(x: U256)
    ensures
        #[trigger] u256(x@) == x,
{
    let y = u256(x@);
    assert(y@ == x@);
    lemma_same_value(x, y);
}

/// Integers of equal value are equal.
pub proof fn lemma_same_value(x: U256, y: U256)
    requires
        x@ == y@,
    ensures
        x == y,
{
    assert(x.limbs[0] == y.limbs[0] && x.limbs[1] == y.limbs[1] && x.limbs[2] == y.limbs[2]
        && x.limbs[3] == y.limbs[3]);
    assert(x.limbs =~= y.limbs);
}

impl U256 {
    /// Zero.
    pub fn zero() -> (r: U256)
        ensures
            r@ == 0,
    {
        U256 { limbs: [0u64; 4] }
    }

    /// The largest value.
    pub fn max_value() -> (r: U256)
        ensures
            r@ == modulus() - 1,
    {
        U256 { limbs: [u64::MAX; 4] }
    }

    /// A small integer.
    pub fn from_u64(n: u64) -> (r: U256)
        ensures
            r@ == n,
    {
        U256 { limbs: [n, 0, 0, 0] }
    }

    /// A length.
    pub fn from_usize(n: usize) -> (r: U256)
        ensures
            r@ == n,
    {
        U256 { limbs: [n as u64, 0, 0, 0] }
    }

    /// An integer of half the width.
    pub fn from_u128(n: u128) -> (r: U256)
        ensures
            r@ == n,
    {
        let low: u64 = (n % 0x1_0000000000000000) as u64;
        let high: u64 = (n / 0x1_0000000000000000) as u64;
        U256 { limbs: [low, high, 0, 0] }
    }

    /// Whether `self` is at most `other`.
    pub fn at_most(&self, other: &U256) -> (r: bool)
        ensures
            r == (self@ <= other@),
    {
        if self.limbs[3] != other.limbs[3] {
            self.limbs[3] < other.limbs[3]
        } else if self.limbs[2] != other.limbs[2] {
            self.limbs[2] < other.limbs[2]
        } else if self.limbs[1] != other.limbs[1] {
            self.limbs[1] < other.limbs[1]
        } else {
            self.limbs[0] <= other.limbs[0]
        }
    }

    /// `self + other`, without the carry out of the top limb.
    pub fn wrapping_add(&self, other: &U256) -> (r: U256)
        ensures
            r@ == wrap((self@ + other@) as int),
    {
        let (l0, c0) = add_limbs(self.limbs[0], other.limbs[0], 0);
        let (l1, c1) = add_limbs(self.limbs[1], other.limbs[1], c0);
        let (l2, c2) = add_limbs(self.limbs[2], other.limbs[2], c1);
        let (l3, c3) = add_limbs(self.limbs[3], other.limbs[3], c2);
        let r = U256 { limbs: [l0, l1, l2, l3] };
        assert(self@ + other@ == r@ + c3 * modulus());
        r
    }

    /// `self + other`, or nothing if that does not fit.
    pub fn checked_add(&self, other: &U256) -> (r: Option<U256>)
        ensures
            r is Some <==> self@ + other@ < modulus(),
            r matches Some(sum) ==> sum@ == self@ + other@,
    {
        let sum = self.wrapping_add(other);
        if self.at_most(&sum) {
            Some(sum)
        } else {
            None
        }
    }

    /// `self - other`, or nothing if `other` is larger.
    pub fn checked_sub(&self, other: &U256) -> (r: Option<U256>)
        ensures
            r is Some <==> self@ >= other@,
            r matches Some(difference) ==> difference@ == self@ - other@,
    {
        let (l0, b0) = sub_limbs(self.limbs[0], other.limbs[0], 0);
        let (l1, b1) = sub_limbs(self.limbs[1], other.limbs[1], b0);
        let (l2, b2) = sub_limbs(self.limbs[2], other.limbs[2], b1);
        let (l3, b3) = sub_limbs(self.limbs[3], other.limbs[3], b2);
        let r = U256 { limbs: [l0, l1, l2, l3] };
        assert(self@ - other@ == r@ - b3 * modulus());
        if b3 == 0 {
            Some(r)
        } else {
            None
        }
    }
}

/// The sum of two limbs and a carry, as a limb and the next carry.
fn add_limbs(a: u64, b: u64, carry: u64) -> (r: (u64, u64))
    requires
        carry <= 1,
    ensures
        r.1 <= 1,
        a + b + carry == r.0 + r.1 * 0x1_0000000000000000,
{
    let sum: u128 = a as u128 + b as u128 + carry as u128;
    ((sum % 0x1_0000000000000000) as u64, (sum / 0x1_0000000000000000) as u64)
}

/// The difference of two limbs and a borrow, as a limb and the next borrow.
fn sub_limbs(a: u64, b: u64, borrow: u64) -> (r: (u64, u64))
    requires
        borrow <= 1,
    ensures
        r.1 <= 1,
        a - b - borrow == r.0 - r.1 * 0x1_0000000000000000,
{
    let taken: u128 = b as u128 + borrow as u128;
    if a as u128 >= taken {
        ((a as u128 - taken) as u64, 0)
    } else {
        ((0x1_0000000000000000u128 + a as u128 - taken) as u64, 1)
    }
}

impl PartialEq for U256 {
    fn eq(&self, other: &U256) -> (r: bool) {
        let same = self.limbs[0] == other.limbs[0] && self.limbs[1] == other.limbs[1]
            && self.limbs[2] == other.limbs[2] && self.limbs[3] == other.limbs[3];
        proof {
            if same {
                lemma_same_value(*self, *other);
            }
        }
        same
    }
}

impl vstd::std_specs::cmp::PartialEqSpecImpl for U256 {
    open spec fn obeys_eq_spec() -> bool {
        true
    }

    open spec fn eq_spec(&self, other: &U256) -> bool {
        *self == *other
    }
}

} // verus!
