//! Batches: lists of token ids with an amount for each.

use vstd::prelude::*;

use crate::erc1155::values_of;
use crate::uint::{lemma_same_value, lemma_wrap_add, modulus, wrap, U256};

verus! {

/// How much of the token `id` a batch asks for in all. Where one list is longer, its rest does
/// not count.
pub open spec fn requested(ids: Seq<nat>, values: Seq<nat>, id: nat) -> nat
    decreases ids.len(),
{
    if ids.len() == 0 || values.len() == 0 {
        0
    } else {
        (if ids[0] == id {
            values[0]
        } else {
            0
        }) + requested(ids.drop_first(), values.drop_first(), id)
    }
}

/// One more element adds its amount to what is asked for of its id.
pub(crate) proof fn lemma_requested_push(ids: Seq<nat>, values: Seq<nat>, k: int, id: nat)
    requires
        0 <= k < ids.len(),
        k < values.len(),
    ensures
        requested(ids.take(k + 1), values.take(k + 1), id) == requested(
            ids.take(k),
            values.take(k),
            id,
        ) + (if ids[k] == id {
            values[k]
        } else {
            0
        }),
    decreases k,
{
    let (more_ids, more_values) = (ids.take(k + 1), values.take(k + 1));
    if k == 0 {
        assert(requested(more_ids.drop_first(), more_values.drop_first(), id) == 0);
        assert(requested(ids.take(k), values.take(k), id) == 0);
    } else {
        lemma_requested_push(ids.drop_first(), values.drop_first(), k - 1, id);
        assert(more_ids.drop_first() =~= ids.drop_first().take(k));
        assert(more_values.drop_first() =~= values.drop_first().take(k));
        assert(ids.take(k).drop_first() =~= ids.drop_first().take(k - 1));
        assert(values.take(k).drop_first() =~= values.drop_first().take(k - 1));
    }
}

/// Once one list is used up, all that is asked for has been counted.
pub(crate) proof fn lemma_requested_all(ids: Seq<nat>, values: Seq<nat>, k: int, id: nat)
    requires
        0 <= k <= ids.len(),
        k <= values.len(),
        k == ids.len() || k == values.len(),
    ensures
        requested(ids.take(k), values.take(k), id) == requested(ids, values, id),
    decreases k,
{
    if k > 0 {
        lemma_requested_all(ids.drop_first(), values.drop_first(), k - 1, id);
        assert(ids.take(k).drop_first() =~= ids.drop_first().take(k - 1));
        assert(values.take(k).drop_first() =~= values.drop_first().take(k - 1));
    }
}

/// How much of the token `id` a batch asks for in all, in 256 bits.
pub fn requested_total(ids: &Vec<U256>, values: &Vec<U256>, id: &U256) -> (r: U256)
    ensures
        r@ == wrap(requested(values_of(ids@), values_of(values@), id@) as int),
{
    let ghost all_ids = values_of(ids@);
    let ghost all_values = values_of(values@);
    let mut total = U256::zero();
    let mut k: usize = 0;
    assert(requested(all_ids.take(0), all_values.take(0), id@) == 0);
    while k < ids.len() && k < values.len()
        invariant
            k <= ids.len(),
            k <= values.len(),
            all_ids == values_of(ids@),
            all_values == values_of(values@),
            total@ == wrap(
                requested(all_ids.take(k as int), all_values.take(k as int), id@) as int,
            ),
        decreases ids.len() - k,
    {
        proof {
            lemma_requested_push(all_ids, all_values, k as int, id@);
            lemma_wrap_add(
                requested(all_ids.take(k as int), all_values.take(k as int), id@) as int,
                all_values[k as int] as int,
            );
            if ids[k as int]@ == id@ {
                lemma_same_value(ids[k as int], *id);
            }
        }
        if ids[k] == *id {
            total = total.wrapping_add(&values[k]);
        }
        k += 1;
    }
    proof {
        lemma_requested_all(all_ids, all_values, k as int, id@);
    }
    total
}

/// How much of the token `id` the first `count` elements of a batch ask for, where that fits
/// into 256 bits.
pub(crate) fn requested_so_far(ids: &Vec<U256>, values: &Vec<U256>, count: usize, id: &U256) -> (r:
    Option<U256>)
    requires
        count <= ids.len(),
        count <= values.len(),
    ensures
        match r {
            Some(total) => total@ == requested(
                values_of(ids@).take(count as int),
                values_of(values@).take(count as int),
                id@,
            ),
            None => requested(
                values_of(ids@).take(count as int),
                values_of(values@).take(count as int),
                id@,
            ) >= modulus(),
        },
{
    let ghost all_ids = values_of(ids@);
    let ghost all_values = values_of(values@);
    let mut total = U256::zero();
    let mut k: usize = 0;
    assert(requested(all_ids.take(0), all_values.take(0), id@) == 0);
    while k < count
        invariant
            k <= count <= ids.len(),
            count <= values.len(),
            all_ids == values_of(ids@),
            all_values == values_of(values@),
            total@ == requested(all_ids.take(k as int), all_values.take(k as int), id@),
        decreases count - k,
    {
        proof {
            lemma_requested_push(all_ids, all_values, k as int, id@);
            if ids[k as int]@ == id@ {
                lemma_same_value(ids[k as int], *id);
            }
        }
        if ids[k] == *id {
            match total.checked_add(&values[k]) {
                Some(more) => {
                    total = more;
                },
                None => {
                    proof {
                        lemma_requested_grows(all_ids, all_values, k as int + 1, count as int, id@);
                    }
                    return None;
                },
            }
        }
        k += 1;
    }
    Some(total)
}

/// More elements never ask for less.
pub(crate) proof fn lemma_requested_grows(ids: Seq<nat>, values: Seq<nat>, j: int, k: int, id: nat)
    requires
        0 <= j <= k <= ids.len(),
        k <= values.len(),
    ensures
        requested(ids.take(j), values.take(j), id) <= requested(ids.take(k), values.take(k), id),
    decreases k - j,
{
    if j < k {
        lemma_requested_grows(ids, values, j, k - 1, id);
        lemma_requested_push(ids, values, k - 1, id);
    }
}

} // verus!
