//! Sums over maps.

use vstd::prelude::*;

use crate::storage::amount_at;

verus! {

/// The sum of all amounts.
pub open spec fn sum<K>(amounts: Map<K, nat>) -> nat
    recommends
        amounts.dom().finite(),
    decreases amounts.dom().len(),
    when amounts.dom().finite()
{
    if amounts.dom().len() == 0 {
        0
    } else {
        let key = amounts.dom().choose();
        amounts[key] + sum(amounts.remove(key))
    }
}

/// The sum is any one amount and the sum of the others.
pub proof fn lemma_sum_remove<K>(amounts: Map<K, nat>, key: K)
    requires
        amounts.dom().finite(),
        amounts.dom().contains(key),
    ensures
        sum(amounts) == amounts[key] + sum(amounts.remove(key)),
    decreases amounts.dom().len(),
{
    let first = amounts.dom().choose();
    assert(amounts.dom().contains(first)) by {
        assert(amounts.dom().len() != 0);
    }
    if first != key {
        lemma_sum_remove(amounts.remove(first), key);
        lemma_sum_remove(amounts.remove(key), first);
        assert(amounts.remove(first).remove(key) =~= amounts.remove(key).remove(first));
    }
}

/// A new amount changes the sum by what it differs from the old one.
pub proof fn lemma_sum_insert<K>(amounts: Map<K, nat>, key: K, amount: nat)
    requires
        amounts.dom().finite(),
    ensures
        amounts.insert(key, amount).dom().finite(),
        sum(amounts.insert(key, amount)) + amount_at(amounts, key) == sum(amounts) + amount,
{
    let after = amounts.insert(key, amount);
    lemma_sum_remove(after, key);
    if amounts.dom().contains(key) {
        lemma_sum_remove(amounts, key);
        assert(after.remove(key) =~= amounts.remove(key));
    } else {
        assert(after.remove(key) =~= amounts);
    }
}

/// No amount exceeds the sum.
pub proof fn lemma_sum_bound<K>(amounts: Map<K, nat>, key: K)
    requires
        amounts.dom().finite(),
    ensures
        amount_at(amounts, key) <= sum(amounts),
{
    if amounts.dom().contains(key) {
        lemma_sum_remove(amounts, key);
    }
}

} // verus!
