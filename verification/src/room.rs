//! Whether balances have room for the tokens that a batch brings.

use vstd::prelude::*;

use openzeppelin_stylus::token::erc1155::Erc1155;

use crate::account::Account;
use crate::batch::{lemma_requested_push, requested, requested_so_far};
use crate::erc1155::{balance_of, ledger1155, values_of, Ledger1155};
use crate::uint::U256;

verus! {

/// What moving `sum` of the token `id` from `from` to `to` does to the balances.
spec fn moved(
    before: Ledger1155,
    after: Ledger1155,
    from: Account,
    to: Account,
    id: nat,
    sum: nat,
) -> bool {
    &&& from != Account::zero_account() && from != to ==> after.balance(from, id) + sum
        == before.balance(from, id)
    &&& from != to ==> after.balance(to, id) == before.balance(to, id) + sum
    &&& from == to ==> after.balance(to, id) == before.balance(to, id)
}

/// What a batch has done to the balances after its first `count` elements have moved, if they
/// all could.
spec fn moved_so_far(
    before: Ledger1155,
    after: Ledger1155,
    from: Account,
    to: Account,
    ids: Seq<nat>,
    values: Seq<nat>,
    count: int,
) -> bool {
    forall|id: nat|
        moved(
            before,
            after,
            from,
            to,
            id,
            #[trigger] requested(ids.take(count), values.take(count), id),
        )
}

/// One more element moves.
proof fn lemma_moved_more(
    before: Ledger1155,
    after: Ledger1155,
    from: Account,
    to: Account,
    ids: Seq<nat>,
    values: Seq<nat>,
    count: int,
)
    requires
        0 <= count < ids.len(),
        count < values.len(),
        to != Account::zero_account(),
        moved_so_far(before, after, from, to, ids, values, count),
        after.can_debit(from, ids[count], values[count]) is Ok,
    ensures
        moved_so_far(
            before,
            after.move_one(from, to, ids[count], values[count]),
            from,
            to,
            ids,
            values,
            count + 1,
        ),
{
    let later = after.move_one(from, to, ids[count], values[count]);
    assert forall|id: nat|
        moved(
            before,
            later,
            from,
            to,
            id,
            #[trigger] requested(ids.take(count + 1), values.take(count + 1), id),
        ) by {
        lemma_requested_push(ids, values, count, id);
        assert(moved(
            before,
            after,
            from,
            to,
            id,
            requested(ids.take(count), values.take(count), id),
        ));
    }
}

/// Whether the balances of `to` have room for `values` of the tokens `ids` that come from
/// `from`, wherever they arrive before one of them cannot be had.
pub(crate) fn fits(
    token: &Erc1155,
    from: &Account,
    to: &Account,
    ids: &Vec<U256>,
    values: &Vec<U256>,
) -> (r: bool)
    requires
        *to != Account::zero_account(),
    ensures
        r == ledger1155(*token).update_fits(*from, *to, values_of(ids@), values_of(values@)),
{
    if ids.len() != values.len() {
        return true;
    }
    let ghost all_ids = values_of(ids@);
    let ghost all_values = values_of(values@);
    let ghost before = ledger1155(*token);
    let ghost mut after = before;
    let minted = from.is_zero();
    let stays = *from == *to;
    let mut k: usize = 0;
    assert(all_ids.skip(0) =~= all_ids && all_values.skip(0) =~= all_values);
    while k < ids.len()
        invariant
            k <= ids.len(),
            ids.len() == values.len(),
            *to != Account::zero_account(),
            minted == (*from == Account::zero_account()),
            stays == (*from == *to),
            before == ledger1155(*token),
            all_ids == values_of(ids@),
            all_values == values_of(values@),
            moved_so_far(before, after, *from, *to, all_ids, all_values, k as int),
            before.has_room_each(*from, *to, all_ids, all_values) == after.has_room_each(
                *from,
                *to,
                all_ids.skip(k as int),
                all_values.skip(k as int),
            ),
        decreases ids.len() - k,
    {
        let ghost (id, value) = (all_ids[k as int], all_values[k as int]);
        proof {
            assert(all_ids.skip(k as int)[0] == id && all_values.skip(k as int)[0] == value);
            assert(all_ids.skip(k as int).drop_first() =~= all_ids.skip(k + 1));
            assert(all_values.skip(k as int).drop_first() =~= all_values.skip(k + 1));
            lemma_requested_push(all_ids, all_values, k as int, id);
        }
        let held = balance_of(token, from, &ids[k]);
        let received = balance_of(token, to, &ids[k]);
        let asked = requested_so_far(ids, values, k + 1, &ids[k]);
        if stays {
            if !values[k].at_most(&held) {
                return true;
            }
        } else {
            match asked {
                None => {
                    return !minted;
                },
                Some(sum) => {
                    if !minted && !sum.at_most(&held) {
                        return true;
                    }
                    if received.checked_add(&sum).is_none() {
                        return false;
                    }
                },
            }
        }
        proof {
            lemma_moved_more(before, after, *from, *to, all_ids, all_values, k as int);
            after = after.move_one(*from, *to, id, value);
        }
        k += 1;
    }
    true
}

} // verus!
