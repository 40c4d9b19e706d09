//! 32-byte words: digests, role identifiers, and what event topics and data are made of.

use vstd::prelude::*;

use crate::account::Account;
use crate::uint::U256;

verus! {

/// The word that holds the bytes `s`.
pub open spec fn word(s: Seq<u8>) -> [u8; 32] {
    choose|w: [u8; 32]| w@ == s
}

/// A word is determined by its bytes.
pub broadcast proof fn lemma_word(w: [u8; 32])
    ensures
        #[trigger] word(w@) == w,
{
    let v = word(w@);
    assert(v@ == w@);
    assert(v =~= w) by {
        assert forall|i: int| 0 <= i < 32 implies v[i] == w[i] by {
            assert(v@[i] == w@[i]);
        }
    }
}

/// The `len` lowest base-256 digits of `n`, the highest of them first.
pub open spec fn big_endian(n: nat, len: nat) -> Seq<u8>
    decreases len,
{
    if len == 0 {
        Seq::empty()
    } else {
        big_endian(n / 256, (len - 1) as nat).push((n % 256) as u8)
    }
}

/// An account as a word: twelve zero bytes, then its address.
pub open spec fn account_word(account: Account) -> Seq<u8> {
    Seq::new(12, |i: int| 0u8) + account.bytes@
}

/// An integer as a word.
pub open spec fn uint_word(n: nat) -> Seq<u8> {
    big_endian(n, 32)
}

/// A flag as a word.
pub open spec fn bool_word(flag: bool) -> Seq<u8> {
    big_endian(if flag { 1 } else { 0 }, 32)
}

/// Digits have a length of their own.
pub proof fn lemma_big_endian_len(n: nat, len: nat)
    ensures
        big_endian(n, len).len() == len,
    decreases len,
{
    if len > 0 {
        lemma_big_endian_len(n / 256, (len - 1) as nat);
    }
}

/// The digits of `high * 2^64 + low` are those of `high`, then the eight of `low`.
proof fn lemma_big_endian_limb(high: nat, low: nat, len: nat)
    requires
        low < 0x1_0000000000000000,
    ensures
        big_endian(high * 0x1_0000000000000000 + low, len + 8) == big_endian(high, len)
            + big_endian(low, 8),
{
    let n0 = high * 0x1_0000000000000000 + low;
    let n1 = high * 0x1_00000000000000 + low / 256;
    let n2 = high * 0x1_000000000000 + low / 256 / 256;
    let n3 = high * 0x1_0000000000 + low / 256 / 256 / 256;
    let n4 = high * 0x1_00000000 + low / 256 / 256 / 256 / 256;
    let n5 = high * 0x1_000000 + low / 256 / 256 / 256 / 256 / 256;
    let n6 = high * 0x1_0000 + low / 256 / 256 / 256 / 256 / 256 / 256;
    let n7 = high * 0x1_00 + low / 256 / 256 / 256 / 256 / 256 / 256 / 256;
    assert(n0 / 256 == n1 && n0 % 256 == low % 256);
    assert(n1 / 256 == n2 && n1 % 256 == low / 256 % 256);
    assert(n2 / 256 == n3 && n2 % 256 == low / 256 / 256 % 256);
    assert(n3 / 256 == n4 && n3 % 256 == low / 256 / 256 / 256 % 256);
    assert(n4 / 256 == n5 && n4 % 256 == low / 256 / 256 / 256 / 256 % 256);
    assert(n5 / 256 == n6 && n5 % 256 == low / 256 / 256 / 256 / 256 / 256 % 256);
    assert(n6 / 256 == n7 && n6 % 256 == low / 256 / 256 / 256 / 256 / 256 / 256 % 256);
    assert(n7 / 256 == high && n7 % 256 == low / 256 / 256 / 256 / 256 / 256 / 256 / 256 % 256);
    reveal_with_fuel(big_endian, 9);
    assert(big_endian(n0, len + 8) =~= big_endian(high, len) + big_endian(low, 8));
}

/// An account as a word.
pub fn account_to_word(account: &Account) -> (r: [u8; 32])
    ensures
        r@ == account_word(*account),
{
    let mut r: [u8; 32] = [0u8; 32];
    let mut i: usize = 0;
    while i < 20
        invariant
            i <= 20,
            forall|j: int| 0 <= j < 12 ==> r[j] == 0,
            forall|j: int| 0 <= j < i ==> r[12 + j] == account.bytes[j],
        decreases 20 - i,
    {
        r[12 + i] = account.bytes[i];
        i += 1;
    }
    assert(r@ =~= account_word(*account));
    r
}

/// Writes the eight bytes of `limb` into `bytes`, from position `at` on.
fn put_limb(bytes: &mut [u8; 32], at: usize, limb: u64)
    requires
        at <= 24,
    ensures
        forall|j: int| 0 <= j < 8 ==> final(bytes)[at + j] == big_endian(limb as nat, 8)[j],
        forall|j: int|
            0 <= j < 32 && !(at <= j < at + 8) ==> final(bytes)[j] == old(bytes)[j],
{
    let mut rest: u64 = limb;
    let mut i: usize = 8;
    let ghost digits = big_endian(limb as nat, 8);
    proof {
        lemma_big_endian_len(limb as nat, 8);
    }
    while i > 0
        invariant
            i <= 8,
            at <= 24,
            digits.len() == 8,
            digits.take(i as int) == big_endian(rest as nat, i as nat),
            forall|j: int| i <= j < 8 ==> bytes[at + j] == digits[j],
            forall|j: int|
                0 <= j < 32 && !(at <= j < at + 8) ==> bytes[j] == old(bytes)[j],
        decreases i,
    {
        i -= 1;
        bytes[at + i] = (rest % 256) as u8;
        proof {
            let before = big_endian(rest as nat, (i + 1) as nat);
            lemma_big_endian_len((rest / 256) as nat, i as nat);
            assert(before == big_endian((rest / 256) as nat, i as nat).push((rest % 256) as u8));
            assert(digits.take(i + 1)[i as int] == digits[i as int]);
            assert(digits.take(i as int) =~= before.take(i as int));
            assert(before.take(i as int) =~= big_endian((rest / 256) as nat, i as nat));
        }
        rest = rest / 256;
    }
}

/// An integer as a word.
pub fn uint_to_word(n: &U256) -> (r: [u8; 32])
    ensures
        r@ == uint_word(n@),
{
    let mut r: [u8; 32] = [0u8; 32];
    put_limb(&mut r, 0, n.limbs[3]);
    put_limb(&mut r, 8, n.limbs[2]);
    put_limb(&mut r, 16, n.limbs[1]);
    put_limb(&mut r, 24, n.limbs[0]);
    proof {
        let l0 = n.limbs[0] as nat;
        let l1 = n.limbs[1] as nat;
        let l2 = n.limbs[2] as nat;
        let l3 = n.limbs[3] as nat;
        let h1 = l3 * 0x1_0000000000000000 + l2;
        let h2 = h1 * 0x1_0000000000000000 + l1;
        assert(n@ == h2 * 0x1_0000000000000000 + l0);
        lemma_big_endian_limb(h2, l0, 24);
        lemma_big_endian_limb(h1, l1, 16);
        lemma_big_endian_limb(l3, l2, 8);
        lemma_big_endian_len(l0, 8);
        lemma_big_endian_len(l1, 8);
        lemma_big_endian_len(l2, 8);
        lemma_big_endian_len(l3, 8);
        let all = big_endian(l3, 8) + big_endian(l2, 8) + big_endian(l1, 8) + big_endian(l0, 8);
        assert(uint_word(n@) == all);
        assert forall|j: int| 0 <= j < 32 implies r@[j] == all[j] by {
            if j < 8 {
                assert(r[0 + j] == big_endian(l3, 8)[j]);
            } else if j < 16 {
                assert(r[8 + (j - 8)] == big_endian(l2, 8)[j - 8]);
            } else if j < 24 {
                assert(r[16 + (j - 16)] == big_endian(l1, 8)[j - 16]);
            } else {
                assert(r[24 + (j - 24)] == big_endian(l0, 8)[j - 24]);
            }
        }
        assert(r@ =~= all);
    }
    r
}

/// A flag as a word.
pub fn bool_to_word(flag: bool) -> (r: [u8; 32])
    ensures
        r@ == bool_word(flag),
{
    uint_to_word(&U256::from_u64(if flag { 1 } else { 0 }))
}

} // verus!
