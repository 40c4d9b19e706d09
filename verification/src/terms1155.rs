//! The terms of each request to the multi-token: when it is granted, how it is refused otherwise,
//! and what it changes, all said of what the token keeps.

use vstd::prelude::*;
use vstd::std_specs::convert::FromSpec;

use crate::access::{
    burner, default_admin, forcer, freezer, log_every_role, minter, role_admins, role_check,
    role_members, whitelister, AccessError,
};
use crate::account::Account;
use crate::batch::{lemma_requested_push, requested};
use crate::erc1155::{
    erc1155_accepted, erc1155_reply, erc1155_sees_code, ledger1155, lemma_mint_each,
    lemma_update_one, Erc1155Error, Ledger1155,
};
use crate::events::{
    approved_for_all, forced_token_amount, frozen_token_amount, moved_token_amount,
    moved_token_amounts, receive_whitelisted, role_granted, role_revoked, send_whitelisted,
};
use crate::host::{call_sender, logged, LogEntry};
use crate::laws1155::{
    lemma_burn_releases, lemma_can_move_each, lemma_check_ids, lemma_forced,
    lemma_move_each_balance, lemma_not_requested, lemma_release_frame, Call1155,
};
use crate::receiver::Reply;
use crate::storage::{flagged, token_amounts};
use crate::uint::{modulus, u256, wrap, U256};
use crate::urwa1155::{base_result, from_access, from_base, Error1155, State1155, URWA1155};

verus! {

/// What the token is said to keep is what its parts hold, and what a receiver says is what it
/// replies to the caller, if it is a contract.
pub proof fn law_state_is_what_is_stored(
    token: URWA1155,
    from: Account,
    to: Account,
    ids: Seq<nat>,
    values: Seq<nat>,
    data: Seq<u8>,
)
    ensures
        token.state().caller == call_sender(token.host),
        token.state().log == logged(token.host),
        token.state().members == role_members(token.access),
        token.state().admins == role_admins(token.access),
        token.state().ledger == ledger1155(token.erc1155),
        token.state().senders == flagged(token.send_whitelist),
        token.state().receivers == flagged(token.receive_whitelist),
        token.state().frozen == token_amounts(token.frozen),
        token.accepted(from, to, ids, values, data) == erc1155_accepted(
            erc1155_sees_code(token.erc1155, to),
            erc1155_reply(token.erc1155, call_sender(token.host), from, to, ids, values, data),
            to,
        ),
{
}

/// Whoever is no contract takes all tokens, and a contract takes those that it says it does.
pub proof fn law_receivers_decide(to: Account, reply: Reply, reason: String)
    ensures
        erc1155_accepted(false, reply, to) == Ok::<(), Erc1155Error>(()),
        erc1155_accepted(true, Reply::Accepted, to) == Ok::<(), Erc1155Error>(()),
        erc1155_accepted(true, Reply::Refused, to) == Err::<(), Erc1155Error>(
            Erc1155Error::InvalidReceiver { receiver: to },
        ),
        erc1155_accepted(true, Reply::RefusedBecause(reason), to) == Err::<(), Erc1155Error>(
            Erc1155Error::InvalidReceiverWithReason { reason },
        ),
{
}

/// Balances and freezes are what was last stored, and zero where nothing was. What is not frozen
/// is the balance beyond the freeze, if there is any.
pub proof fn law_amounts_are_what_is_stored(s: State1155, account: Account, id: nat)
    ensures
        s.ledger.balances.dom().contains((account, id)) ==> s.ledger.balance(account, id)
            == s.ledger.balances[(account, id)],
        !s.ledger.balances.dom().contains((account, id)) ==> s.ledger.balance(account, id) == 0,
        s.frozen.dom().contains((account, id)) ==> s.frozen_of(account, id) == s.frozen[(
            account,
            id,
        )],
        !s.frozen.dom().contains((account, id)) ==> s.frozen_of(account, id) == 0,
        s.frozen_of(account, id) <= s.ledger.balance(account, id) ==> s.unfrozen(account, id)
            + s.frozen_of(account, id) == s.ledger.balance(account, id),
        s.frozen_of(account, id) >= s.ledger.balance(account, id) ==> s.unfrozen(account, id) == 0,
{
}

/// An ordinary transfer is possible if and only if neither end is the zero account, the sender
/// is on the send-allowlist, the receiver is on the receive-allowlist, and the amount and what
/// is frozen of that token for the sender are within its balance; nothing at all can always be
/// sent. No amount is too large by itself, and nobody's role, no other list and no other token
/// matters.
pub proof fn law_can_transfer_terms(
    s: State1155,
    from: Account,
    to: Account,
    id: nat,
    amount: nat,
)
    ensures
        s.can_transfer(from, to, id, amount) <==> from != Account::zero_account() && to
            != Account::zero_account() && s.senders.contains(from) && s.receivers.contains(to) && (
        amount == 0 || s.frozen_of(from, id) + amount <= s.ledger.balance(from, id)),
{
}

/// Neither the question nor a transfer nor a batch is answered otherwise when somebody else, or
/// the sender, is put on the receive-allowlist or taken off it, nor when the receiver or
/// somebody else is put on the send-allowlist or taken off it, nor for the sake of any role.
pub proof fn law_transfers_ask_two_lists(
    s: State1155,
    t: State1155,
    from: Account,
    to: Account,
    ids: Seq<nat>,
    values: Seq<nat>,
    id: nat,
    value: nat,
    accepted: Result<(), Erc1155Error>,
)
    requires
        t == (State1155 {
            senders: t.senders,
            receivers: t.receivers,
            members: t.members,
            admins: t.admins,
            ..s
        }),
        s.senders.contains(from) <==> t.senders.contains(from),
        s.receivers.contains(to) <==> t.receivers.contains(to),
    ensures
        s.can_transfer(from, to, id, value) == t.can_transfer(from, to, id, value),
        s.transfer_answer(from, to, id, value, accepted) == t.transfer_answer(
            from,
            to,
            id,
            value,
            accepted,
        ),
        s.batch_answer(from, to, ids, values, accepted) == t.batch_answer(
            from,
            to,
            ids,
            values,
            accepted,
        ),
        s.after_batch(from, to, ids, values).ledger == t.after_batch(from, to, ids, values).ledger,
{
    lemma_same_check(s, t, from, ids, values, ids);
}

/// What is frozen and had decides what is checked.
proof fn lemma_same_check(
    s: State1155,
    t: State1155,
    account: Account,
    ids: Seq<nat>,
    values: Seq<nat>,
    some_ids: Seq<nat>,
)
    requires
        s.ledger == t.ledger,
        s.frozen == t.frozen,
    ensures
        s.check_ids(account, ids, values, some_ids) == t.check_ids(account, ids, values, some_ids),
    decreases some_ids.len(),
{
    if some_ids.len() > 0 {
        lemma_same_check(s, t, account, ids, values, some_ids.drop_first());
    }
}

/// A transfer goes through if and only if neither end is the zero account, the sender is on the
/// send-allowlist and the receiver on the receive-allowlist, the amount is not frozen, the
/// caller is the sender or its operator, and the receiver accepts the tokens. Otherwise the
/// first that fails of the send-allowlist, the receive-allowlist, the freeze, the caller, the
/// receiver, the sender and the acceptance is the refusal.
pub proof fn law_transfer_terms(
    s: State1155,
    from: Account,
    to: Account,
    id: nat,
    value: nat,
    accepted: Result<(), Erc1155Error>,
)
    ensures
        ({
            let zero = Account::zero_account();
            let (held, frozen) = (s.ledger.balance(from, id), s.frozen_of(from, id));
            let covered = value == 0 || frozen + value <= held;
            let listed = s.senders.contains(from) && s.receivers.contains(to);
            let may = s.caller == from || s.ledger.operators.contains((from, s.caller));
            let free = if frozen <= held {
                held - frozen
            } else {
                0
            };
            let answer = s.transfer_answer(from, to, id, value, accepted);
            &&& answer is Ok <==> from != zero && to != zero && listed && covered && may
                && accepted is Ok
            &&& !s.senders.contains(from) ==> answer == Err::<(), Error1155>(
                Error1155::CannotSend { account: from },
            )
            &&& s.senders.contains(from) && !listed ==> answer == Err::<(), Error1155>(
                Error1155::CannotReceive { account: to },
            )
            &&& listed && !covered ==> answer == Err::<(), Error1155>(
                Error1155::InsufficientUnfrozenBalance {
                    account: from,
                    token_id: u256(id),
                    amount: u256(value),
                    unfrozen: u256(free as nat),
                },
            )
            &&& listed && covered && !may ==> answer == Err::<(), Error1155>(
                Error1155::MissingApprovalForAll { operator: s.caller, owner: from },
            )
            &&& listed && covered && may && to == zero ==> answer == Err::<(), Error1155>(
                Error1155::InvalidReceiver { receiver: to },
            )
            &&& listed && covered && may && to != zero && from == zero ==> answer == Err::<
                (),
                Error1155,
            >(Error1155::InvalidSender { sender: from })
            &&& listed && covered && may && to != zero && from != zero && accepted is Err ==> answer
                == base_result(accepted)
        }),
{
    lemma_update_one(s.ledger, from, to, id, value);
}

/// Balances must have room for what is transferred: the receiver's balance with the amount added
/// must be a 256-bit integer, unless the receiver is the sender or the transfer is refused
/// before.
pub proof fn law_transfer_room(s: State1155, from: Account, to: Account, id: nat, value: nat)
    requires
        s.ledger.valid(),
    ensures
        ({
            let zero = Account::zero_account();
            let covered = value == 0 || s.frozen_of(from, id) + value <= s.ledger.balance(from, id);
            let may = s.caller == from || s.ledger.operators.contains((from, s.caller));
            let allowed = s.senders.contains(from) && s.receivers.contains(to) && covered && may
                && to != zero && from != zero;
            s.transfer_fits(from, to, id, value) <==> (allowed && from != to
                ==> s.ledger.balance(to, id) + value < modulus())
        }),
{
    lemma_update_one(s.ledger, from, to, id, value);
    assert(s.ledger.balance(to, id) < modulus());
}

/// What a transfer changes: two balances and the log.
pub proof fn law_transfer_effects(
    s: State1155,
    from: Account,
    to: Account,
    id: nat,
    value: nat,
    accepted: Result<(), Erc1155Error>,
)
    requires
        s.transfer_answer(from, to, id, value, accepted) is Ok,
    ensures
        ({
            let t = s.after_transfer(from, to, id, value);
            &&& t == (State1155 {
                ledger: Ledger1155 { balances: t.ledger.balances, ..s.ledger },
                log: s.log.push(moved_token_amount(s.caller, from, to, id, value)),
                ..s
            })
            &&& from != to ==> t.ledger.balance(from, id) + value == s.ledger.balance(from, id)
            &&& from != to ==> t.ledger.balance(to, id) == s.ledger.balance(to, id) + value
            &&& forall|account: Account, other: nat|
                from == to || other != id || (account != from && account != to) ==> #[trigger]
                t.ledger.balance(account, other) == s.ledger.balance(account, other)
        }),
{
    lemma_update_one(s.ledger, from, to, id, value);
}

/// A transfer that is refused, but by the receiver, changes nothing.
pub proof fn law_refused_transfer(s: State1155, from: Account, to: Account, id: nat, value: nat)
    requires
        s.transfer_answer(from, to, id, value, Ok(())) is Err,
    ensures
        s.after_transfer(from, to, id, value) == s,
{
    lemma_update_one(s.ledger, from, to, id, value);
}

/// A batch to another account goes through if and only if neither end is the zero account, the
/// sender is on the send-allowlist and the receiver on the receive-allowlist, the caller is the
/// sender or its operator, there are as many values as ids, of each id all that the batch asks
/// for is not frozen, and the receiver accepts the tokens.
pub proof fn law_batch_terms(
    s: State1155,
    from: Account,
    to: Account,
    ids: Seq<nat>,
    values: Seq<nat>,
    accepted: Result<(), Erc1155Error>,
)
    requires
        s.ledger.valid(),
        from != to,
    ensures
        s.batch_answer(from, to, ids, values, accepted) is Ok <==> from != Account::zero_account()
            && to != Account::zero_account() && s.senders.contains(from) && s.receivers.contains(to)
            && (s.caller == from || s.ledger.operators.contains((from, s.caller))) && ids.len()
            == values.len() && accepted is Ok && forall|i: int|
            0 <= i < ids.len() ==> requested(ids, values, #[trigger] ids[i]) == 0 || s.frozen_of(
                from,
                ids[i],
            ) + requested(ids, values, ids[i]) <= s.ledger.balance(from, ids[i]),
{
    let zero = Account::zero_account();
    let fine = forall|i: int|
        0 <= i < ids.len() ==> requested(ids, values, #[trigger] ids[i]) == 0 || s.frozen_of(
            from,
            ids[i],
        ) + requested(ids, values, ids[i]) <= s.ledger.balance(from, ids[i]);
    lemma_check_ids(s, from, ids, values, ids);
    if s.batch_answer(from, to, ids, values, accepted) is Ok {
        assert forall|i: int| 0 <= i < ids.len() implies requested(ids, values, #[trigger] ids[i])
            == 0 || s.frozen_of(from, ids[i]) + requested(ids, values, ids[i]) <= s.ledger.balance(
            from,
            ids[i],
        ) by {
            lemma_move_each_balance(s.ledger, from, to, ids, values, from, ids[i]);
            assert(s.ledger.balance(from, ids[i]) < modulus());
            assert(wrap(requested(ids, values, ids[i]) as int) <= s.unfrozen(from, ids[i]));
        }
    }
    if fine {
        assert forall|i: int| 0 <= i < ids.len() implies wrap(
            requested(ids, values, #[trigger] ids[i]) as int,
        ) <= s.unfrozen(from, ids[i]) by {
            assert(s.ledger.balance(from, ids[i]) < modulus());
        }
        lemma_all_there(s.ledger, from, ids, values);
        lemma_can_move_each(s.ledger, from, to, ids, values);
    }
}

/// If what is asked for of each id of a batch is there, what is asked for of every id is.
proof fn lemma_all_there(ledger: Ledger1155, from: Account, ids: Seq<nat>, values: Seq<nat>)
    requires
        forall|i: int|
            0 <= i < ids.len() ==> requested(ids, values, #[trigger] ids[i]) <= ledger.balance(
                from,
                ids[i],
            ),
    ensures
        forall|id: nat| #[trigger] requested(ids, values, id) <= ledger.balance(from, id),
{
    assert forall|id: nat| #[trigger] requested(ids, values, id) <= ledger.balance(from, id) by {
        if ids.contains(id) {
            let i = choose|i: int| 0 <= i < ids.len() && ids[i] == id;
            assert(requested(ids, values, ids[i]) <= ledger.balance(from, ids[i]));
        } else {
            lemma_not_requested(ids, values, id);
        }
    }
}

/// A batch to oneself goes through if and only if the account is not the zero account and on
/// both lists, the caller is the account or its operator, there are as many values as ids, each
/// value is there, of each id all that the batch asks for, in 256 bits, is not frozen, and the
/// account accepts the tokens.
pub proof fn law_batch_to_oneself_terms(
    s: State1155,
    account: Account,
    ids: Seq<nat>,
    values: Seq<nat>,
    accepted: Result<(), Erc1155Error>,
)
    ensures
        s.batch_answer(account, account, ids, values, accepted) is Ok <==> account
            != Account::zero_account() && s.senders.contains(account) && s.receivers.contains(
            account,
        ) && (s.caller == account || s.ledger.operators.contains((account, s.caller))) && ids.len()
            == values.len() && accepted is Ok && forall|i: int|
            0 <= i < ids.len() ==> values[i] <= s.ledger.balance(account, #[trigger] ids[i]) && (
            requested(ids, values, ids[i]) % modulus() == 0 || s.frozen_of(account, ids[i])
                + requested(ids, values, ids[i]) % modulus() <= s.ledger.balance(account, ids[i])),
{
    lemma_check_ids(s, account, ids, values, ids);
    if ids.len() == values.len() {
        lemma_can_stay(s.ledger, account, ids, values);
    }
    let fine = forall|i: int|
        0 <= i < ids.len() ==> values[i] <= s.ledger.balance(account, #[trigger] ids[i]) && (
        requested(ids, values, ids[i]) % modulus() == 0 || s.frozen_of(account, ids[i]) + requested(
            ids,
            values,
            ids[i],
        ) % modulus() <= s.ledger.balance(account, ids[i]));
    if s.batch_answer(account, account, ids, values, accepted) is Ok {
        assert forall|i: int| 0 <= i < ids.len() implies values[i] <= s.ledger.balance(
            account,
            #[trigger] ids[i],
        ) && (requested(ids, values, ids[i]) % modulus() == 0 || s.frozen_of(account, ids[i])
            + requested(ids, values, ids[i]) % modulus() <= s.ledger.balance(account, ids[i])) by {
            assert(wrap(requested(ids, values, ids[i]) as int) <= s.unfrozen(account, ids[i]));
        }
    }
    if fine {
        assert forall|i: int| 0 <= i < ids.len() implies wrap(
            requested(ids, values, #[trigger] ids[i]) as int,
        ) <= s.unfrozen(account, ids[i]) by {
            assert(values[i] <= s.ledger.balance(account, ids[i]));
        }
    }
}

/// A batch to oneself moves if and only if each element by itself is there.
proof fn lemma_can_stay(ledger: Ledger1155, account: Account, ids: Seq<nat>, values: Seq<nat>)
    requires
        ids.len() == values.len(),
    ensures
        account != Account::zero_account() ==> (ledger.can_move_each(
            account,
            account,
            ids,
            values,
        ) is Ok <==> forall|i: int|
            0 <= i < ids.len() ==> values[i] <= ledger.balance(account, #[trigger] ids[i])),
    decreases ids.len(),
{
    if ids.len() > 0 && account != Account::zero_account() {
        let (rest, rest_values) = (ids.drop_first(), values.drop_first());
        let moved = ledger.move_one(account, account, ids[0], values[0]);
        if values[0] <= ledger.balance(account, ids[0]) {
            lemma_can_stay(moved, account, rest, rest_values);
            assert(forall|id: nat| #[trigger]
                moved.balance(account, id) == ledger.balance(account, id));
            if ledger.can_move_each(account, account, ids, values) is Ok {
                assert forall|i: int| 0 <= i < ids.len() implies values[i] <= ledger.balance(
                    account,
                    #[trigger] ids[i],
                ) by {
                    if i > 0 {
                        assert(rest_values[i - 1] <= moved.balance(account, rest[i - 1]));
                    }
                }
            } else if forall|i: int|
                0 <= i < ids.len() ==> values[i] <= ledger.balance(account, #[trigger] ids[i]) {
                assert forall|i: int| 0 <= i < rest.len() implies rest_values[i] <= moved.balance(
                    account,
                    #[trigger] rest[i],
                ) by {
                    assert(values[i + 1] <= ledger.balance(account, ids[i + 1]));
                }
            }
        } else {
            assert(values[0] > ledger.balance(account, ids[0]));
        }
    }
}

/// Which refusal a batch gets that the lists stop, or that asks for more than is not frozen of
/// the id at `k` and of none before: the send-allowlist comes first, then the receive-allowlist,
/// then the first such id, with all that is asked for of it.
pub proof fn law_batch_rules(
    s: State1155,
    from: Account,
    to: Account,
    ids: Seq<nat>,
    values: Seq<nat>,
    accepted: Result<(), Erc1155Error>,
    k: int,
)
    requires
        0 <= k < ids.len(),
        forall|i: int|
            0 <= i < k ==> requested(ids, values, #[trigger] ids[i]) % modulus() == 0 || s.frozen_of(
                from,
                ids[i],
            ) + requested(ids, values, ids[i]) % modulus() <= s.ledger.balance(from, ids[i]),
        requested(ids, values, ids[k]) % modulus() != 0,
        s.frozen_of(from, ids[k]) + requested(ids, values, ids[k]) % modulus() > s.ledger.balance(
            from,
            ids[k],
        ),
    ensures
        ({
            let (held, frozen) = (s.ledger.balance(from, ids[k]), s.frozen_of(from, ids[k]));
            let free = if frozen <= held {
                held - frozen
            } else {
                0
            };
            let answer = s.batch_answer(from, to, ids, values, accepted);
            &&& s.after_batch(from, to, ids, values) == s
            &&& s.senders.contains(from) && s.receivers.contains(to) ==> answer == Err::<
                (),
                Error1155,
            >(
                Error1155::InsufficientUnfrozenBalance {
                    account: from,
                    token_id: u256(ids[k]),
                    amount: u256(requested(ids, values, ids[k]) % modulus()),
                    unfrozen: u256(free as nat),
                },
            )
        }),
{
    lemma_first_frozen(s, from, ids, values, ids, k);
}

/// The check stops at the first id of which too much is frozen.
proof fn lemma_first_frozen(
    s: State1155,
    account: Account,
    ids: Seq<nat>,
    values: Seq<nat>,
    some_ids: Seq<nat>,
    k: int,
)
    requires
        0 <= k < some_ids.len(),
        forall|i: int|
            0 <= i < k ==> requested(ids, values, #[trigger] some_ids[i]) % modulus() == 0
                || s.frozen_of(account, some_ids[i]) + requested(ids, values, some_ids[i])
                % modulus() <= s.ledger.balance(account, some_ids[i]),
        requested(ids, values, some_ids[k]) % modulus() != 0,
        s.frozen_of(account, some_ids[k]) + requested(ids, values, some_ids[k]) % modulus()
            > s.ledger.balance(account, some_ids[k]),
    ensures
        s.check_ids(account, ids, values, some_ids) == s.check_unfrozen(
            account,
            some_ids[k],
            requested(ids, values, some_ids[k]) % modulus(),
        ),
        s.check_ids(account, ids, values, some_ids) is Err,
    decreases k,
{
    if k > 0 {
        let rest = some_ids.drop_first();
        assert(requested(ids, values, some_ids[0]) % modulus() == 0 || s.frozen_of(
            account,
            some_ids[0],
        ) + requested(ids, values, some_ids[0]) % modulus() <= s.ledger.balance(
            account,
            some_ids[0],
        ));
        assert forall|i: int| 0 <= i < k - 1 implies requested(ids, values, #[trigger] rest[i])
            % modulus() == 0 || s.frozen_of(account, rest[i]) + requested(ids, values, rest[i])
            % modulus() <= s.ledger.balance(account, rest[i]) by {
            assert(rest[i] == some_ids[i + 1]);
        }
        assert(rest[k - 1] == some_ids[k]);
        lemma_first_frozen(s, account, ids, values, rest, k - 1);
    }
}

/// Which refusal a batch gets that is stopped by a list, or that asks of no id for more than is
/// not frozen: after the lists come the caller, the receiver, the sender, the number of values
/// and, where all is there, the receiver's own word.
pub proof fn law_batch_refusals(
    s: State1155,
    from: Account,
    to: Account,
    ids: Seq<nat>,
    values: Seq<nat>,
    accepted: Result<(), Erc1155Error>,
)
    ensures
        ({
            let zero = Account::zero_account();
            let listed = s.senders.contains(from) && s.receivers.contains(to);
            let may = s.caller == from || s.ledger.operators.contains((from, s.caller));
            let fine = forall|i: int|
                0 <= i < ids.len() ==> requested(ids, values, #[trigger] ids[i]) % modulus() == 0
                    || s.frozen_of(from, ids[i]) + requested(ids, values, ids[i]) % modulus()
                    <= s.ledger.balance(from, ids[i]);
            let there = forall|i: int|
                0 <= i < ids.len() ==> requested(ids, values, #[trigger] ids[i])
                    <= s.ledger.balance(from, ids[i]);
            let answer = s.batch_answer(from, to, ids, values, accepted);
            let t = s.after_batch(from, to, ids, values);
            &&& !s.senders.contains(from) ==> answer == Err::<(), Error1155>(
                Error1155::CannotSend { account: from },
            )
            &&& s.senders.contains(from) && !listed ==> answer == Err::<(), Error1155>(
                Error1155::CannotReceive { account: to },
            )
            &&& listed && fine && !may ==> answer == Err::<(), Error1155>(
                Error1155::MissingApprovalForAll { operator: s.caller, owner: from },
            )
            &&& listed && fine && may && to == zero ==> answer == Err::<(), Error1155>(
                Error1155::InvalidReceiver { receiver: to },
            )
            &&& listed && fine && may && to != zero && from == zero ==> answer == Err::<
                (),
                Error1155,
            >(Error1155::InvalidSender { sender: from })
            &&& listed && fine && may && to != zero && from != zero && ids.len() != values.len()
                ==> answer == Err::<(), Error1155>(
                Error1155::InvalidArrayLength {
                    ids_length: u256(ids.len()),
                    values_length: u256(values.len()),
                },
            )
            &&& listed && fine && there && may && to != zero && from != zero && from != to
                && ids.len() == values.len() && accepted is Err ==> answer == base_result(accepted)
            &&& !listed || !fine || !may || to == zero || from == zero || ids.len() != values.len()
                ==> t == s
        }),
{
    let fine = forall|i: int|
        0 <= i < ids.len() ==> requested(ids, values, #[trigger] ids[i]) % modulus() == 0
            || s.frozen_of(from, ids[i]) + requested(ids, values, ids[i]) % modulus()
            <= s.ledger.balance(from, ids[i]);
    let there = forall|i: int|
        0 <= i < ids.len() ==> requested(ids, values, #[trigger] ids[i]) <= s.ledger.balance(
            from,
            ids[i],
        );
    lemma_check_ids(s, from, ids, values, ids);
    if fine {
        assert forall|i: int| 0 <= i < ids.len() implies wrap(
            requested(ids, values, #[trigger] ids[i]) as int,
        ) <= s.unfrozen(from, ids[i]) by {
        }
    } else {
        let k = choose|i: int|
            0 <= i < ids.len() && !(requested(ids, values, #[trigger] ids[i]) % modulus() == 0
                || s.frozen_of(from, ids[i]) + requested(ids, values, ids[i]) % modulus()
                <= s.ledger.balance(from, ids[i]));
        assert(wrap(requested(ids, values, ids[k]) as int) > s.unfrozen(from, ids[k]));
    }
    if there && from != to {
        lemma_all_there(s.ledger, from, ids, values);
        lemma_can_move_each(s.ledger, from, to, ids, values);
    }
}

/// What a batch changes: of each id, all that was asked for of it goes from one account to the
/// other, and nothing else moves; a batch to oneself moves nothing. It is logged in one entry.
pub proof fn law_batch_effects(
    s: State1155,
    from: Account,
    to: Account,
    ids: Seq<nat>,
    values: Seq<nat>,
    accepted: Result<(), Erc1155Error>,
)
    requires
        s.batch_answer(from, to, ids, values, accepted) is Ok,
    ensures
        ({
            let t = s.after_batch(from, to, ids, values);
            &&& t == (State1155 {
                ledger: Ledger1155 { balances: t.ledger.balances, ..s.ledger },
                log: s.log.push(
                    if ids.len() == 1 {
                        moved_token_amount(s.caller, from, to, ids[0], values[0])
                    } else {
                        moved_token_amounts(s.caller, from, to, ids, values)
                    },
                ),
                ..s
            })
            &&& forall|id: nat|
                from != to ==> #[trigger] t.ledger.balance(from, id) + requested(ids, values, id)
                    == s.ledger.balance(from, id)
            &&& forall|id: nat|
                from != to ==> #[trigger] t.ledger.balance(to, id) == s.ledger.balance(to, id)
                    + requested(ids, values, id)
            &&& forall|account: Account, id: nat|
                from == to || (account != from && account != to) ==> #[trigger] t.ledger.balance(
                    account,
                    id,
                ) == s.ledger.balance(account, id)
        }),
{
    let t = s.after_batch(from, to, ids, values);
    assert forall|account: Account, id: nat|
        from == to || (account != from && account != to) implies #[trigger] t.ledger.balance(
        account,
        id,
    ) == s.ledger.balance(account, id) by {
        lemma_move_each_balance(s.ledger, from, to, ids, values, account, id);
    }
    assert forall|id: nat| from != to implies #[trigger] t.ledger.balance(from, id) + requested(
        ids,
        values,
        id,
    ) == s.ledger.balance(from, id) by {
        lemma_move_each_balance(s.ledger, from, to, ids, values, from, id);
    }
    assert forall|id: nat| from != to implies #[trigger] t.ledger.balance(to, id)
        == s.ledger.balance(to, id) + requested(ids, values, id) by {
        lemma_move_each_balance(s.ledger, from, to, ids, values, to, id);
    }
    lemma_move_each_balance(s.ledger, from, to, ids, values, from, 0);
}

/// Room for a batch that moves as a whole to another account is room for all of each id.
proof fn lemma_room(
    ledger: Ledger1155,
    from: Account,
    to: Account,
    ids: Seq<nat>,
    values: Seq<nat>,
)
    requires
        ids.len() == values.len(),
        from != to,
        to != Account::zero_account(),
        ledger.can_move_each(from, to, ids, values) is Ok,
    ensures
        ledger.has_room_each(from, to, ids, values) <==> forall|i: int|
            0 <= i < ids.len() ==> ledger.balance(to, #[trigger] ids[i]) + requested(
                ids,
                values,
                ids[i],
            ) < modulus(),
    decreases ids.len(),
{
    if ids.len() > 0 {
        let (rest, rest_values) = (ids.drop_first(), values.drop_first());
        let moved = ledger.move_one(from, to, ids[0], values[0]);
        lemma_room(moved, from, to, rest, rest_values);
        if ledger.has_room_each(from, to, ids, values) {
            assert forall|i: int| 0 <= i < ids.len() implies ledger.balance(to, #[trigger] ids[i])
                + requested(ids, values, ids[i]) < modulus() by {
                if i > 0 {
                    assert(moved.balance(to, rest[i - 1]) + requested(
                        rest,
                        rest_values,
                        rest[i - 1],
                    ) < modulus());
                } else if rest.contains(ids[0]) {
                    let j = choose|j: int| 0 <= j < rest.len() && rest[j] == ids[0];
                    assert(moved.balance(to, rest[j]) + requested(rest, rest_values, rest[j])
                        < modulus());
                } else {
                    lemma_not_requested(rest, rest_values, ids[0]);
                }
            }
        } else if forall|i: int|
            0 <= i < ids.len() ==> ledger.balance(to, #[trigger] ids[i]) + requested(
                ids,
                values,
                ids[i],
            ) < modulus() {
            assert(ledger.balance(to, ids[0]) + requested(ids, values, ids[0]) < modulus());
            assert forall|i: int| 0 <= i < rest.len() implies moved.balance(to, #[trigger] rest[i])
                + requested(rest, rest_values, rest[i]) < modulus() by {
                assert(ledger.balance(to, ids[i + 1]) + requested(ids, values, ids[i + 1])
                    < modulus());
            }
        }
    }
}

/// Balances must have room for a batch that is allowed to another account: of each id, the
/// receiver's balance with all that the batch brings added must be a 256-bit integer. A batch
/// that is refused before anything moves needs none.
pub proof fn law_batch_room(
    s: State1155,
    from: Account,
    to: Account,
    ids: Seq<nat>,
    values: Seq<nat>,
)
    requires
        from != to,
    ensures
        s.batch_answer(from, to, ids, values, Ok(())) is Ok ==> (s.batch_fits(from, to, ids, values)
            <==> forall|i: int|
            0 <= i < ids.len() ==> s.ledger.balance(to, #[trigger] ids[i]) + requested(
                ids,
                values,
                ids[i],
            ) < modulus()),
        !s.senders.contains(from) || !s.receivers.contains(to) || ids.len() != values.len() || !(
        s.caller == from || s.ledger.operators.contains((from, s.caller))) ==> s.batch_fits(
            from,
            to,
            ids,
            values,
        ),
{
    if s.batch_answer(from, to, ids, values, Ok(())) is Ok {
        lemma_room(s.ledger, from, to, ids, values);
    }
}

/// A batch to oneself needs no room.
pub proof fn law_batch_to_oneself_room(
    s: State1155,
    account: Account,
    ids: Seq<nat>,
    values: Seq<nat>,
)
    requires
        s.ledger.valid(),
    ensures
        s.batch_fits(account, account, ids, values),
{
    lemma_room_to_stay(s.ledger, account, ids, values);
}

/// What goes back to where it comes from has room there.
proof fn lemma_room_to_stay(ledger: Ledger1155, account: Account, ids: Seq<nat>, values: Seq<nat>)
    requires
        forall|id: nat| #[trigger] ledger.balance(account, id) < modulus(),
    ensures
        account != Account::zero_account() ==> ledger.has_room_each(account, account, ids, values),
    decreases ids.len(),
{
    if ids.len() > 0 && values.len() > 0 && account != Account::zero_account() && ledger.can_debit(
        account,
        ids[0],
        values[0],
    ) is Ok {
        let moved = ledger.move_one(account, account, ids[0], values[0]);
        assert(ledger.balance(account, ids[0]) < modulus());
        assert forall|id: nat| #[trigger] moved.balance(account, id) < modulus() by {
            assert(ledger.balance(account, id) < modulus());
        }
        lemma_room_to_stay(moved, account, ids.drop_first(), values.drop_first());
    }
}

/// Minting goes through if and only if the caller holds the minting role, the receiver is on the
/// receive-allowlist and not the zero account, there are as many amounts as ids, and the
/// receiver accepts the tokens; the refusals come in this order. No other role of the caller is
/// asked for, and no other list of the receiver. The balances must have room for all that is
/// minted of each id.
pub proof fn law_mint_terms(
    s: State1155,
    to: Account,
    ids: Seq<nat>,
    amounts: Seq<nat>,
    accepted: Result<(), Erc1155Error>,
)
    ensures
        ({
            let zero = Account::zero_account();
            let may = s.members.contains((minter(), s.caller));
            let listed = may && s.receivers.contains(to);
            let answer = s.mint_answer(to, ids, amounts, accepted);
            let room = forall|i: int|
                0 <= i < ids.len() ==> s.ledger.balance(to, #[trigger] ids[i]) + requested(
                    ids,
                    amounts,
                    ids[i],
                ) < modulus();
            &&& answer is Ok <==> listed && to != zero && ids.len() == amounts.len()
                && accepted is Ok
            &&& !may ==> answer == Err::<(), Error1155>(
                Error1155::UnauthorizedAccount { account: s.caller, needed_role: minter() },
            )
            &&& may && !listed ==> answer == Err::<(), Error1155>(
                Error1155::CannotReceive { account: to },
            )
            &&& listed && to == zero ==> answer == Err::<(), Error1155>(
                Error1155::InvalidReceiver { receiver: to },
            )
            &&& listed && to != zero && ids.len() != amounts.len() ==> answer == Err::<
                (),
                Error1155,
            >(
                Error1155::InvalidArrayLength {
                    ids_length: u256(ids.len()),
                    values_length: u256(amounts.len()),
                },
            )
            &&& listed && to != zero && ids.len() == amounts.len() && accepted is Err ==> answer
                == base_result(accepted)
            &&& !listed || to == zero || ids.len() != amounts.len() ==> s.after_mint(
                to,
                ids,
                amounts,
            ) == s
            &&& s.mint_fits(to, ids, amounts) <==> (listed && to != zero && ids.len()
                == amounts.len() ==> room)
        }),
{
    if to != Account::zero_account() && ids.len() == amounts.len() {
        lemma_mint_each(s.ledger, to, ids, amounts);
        lemma_room(s.ledger, Account::zero_account(), to, ids, amounts);
    }
}

/// What minting changes: of each id, the receiver has all that was asked for more, and nobody
/// else anything. It is logged in one entry.
pub proof fn law_mint_effects(
    s: State1155,
    to: Account,
    ids: Seq<nat>,
    amounts: Seq<nat>,
    accepted: Result<(), Erc1155Error>,
)
    requires
        s.mint_answer(to, ids, amounts, accepted) is Ok,
    ensures
        ({
            let zero = Account::zero_account();
            let t = s.after_mint(to, ids, amounts);
            &&& t == (State1155 {
                ledger: Ledger1155 { balances: t.ledger.balances, ..s.ledger },
                log: s.log.push(
                    if ids.len() == 1 {
                        moved_token_amount(s.caller, zero, to, ids[0], amounts[0])
                    } else {
                        moved_token_amounts(s.caller, zero, to, ids, amounts)
                    },
                ),
                ..s
            })
            &&& forall|id: nat| #[trigger]
                t.ledger.balance(to, id) == s.ledger.balance(to, id) + requested(ids, amounts, id)
            &&& forall|account: Account, id: nat|
                account != to ==> #[trigger] t.ledger.balance(account, id) == s.ledger.balance(
                    account,
                    id,
                )
        }),
{
    let zero = Account::zero_account();
    let t = s.after_mint(to, ids, amounts);
    lemma_mint_each(s.ledger, to, ids, amounts);
    assert forall|account: Account, id: nat| account != to implies #[trigger] t.ledger.balance(
        account,
        id,
    ) == s.ledger.balance(account, id) by {
        lemma_move_each_balance(s.ledger, zero, to, ids, amounts, account, id);
    }
    assert forall|id: nat| #[trigger]
        t.ledger.balance(to, id) == s.ledger.balance(to, id) + requested(ids, amounts, id) by {
        lemma_move_each_balance(s.ledger, zero, to, ids, amounts, to, id);
    }
    lemma_move_each_balance(s.ledger, zero, to, ids, amounts, to, 0);
}

/// Burning goes through if and only if the caller holds the burning role, is on the
/// send-allowlist, is not the zero account, gives as many amounts as ids, and has of each id all
/// that it asks for; the refusals come in this order. Neither what is frozen nor any other role
/// nor the receive-allowlist is in the way.
pub proof fn law_burn_terms(s: State1155, ids: Seq<nat>, amounts: Seq<nat>)
    ensures
        ({
            let zero = Account::zero_account();
            let may = s.members.contains((burner(), s.caller));
            let sends = may && s.senders.contains(s.caller);
            let there = forall|i: int|
                0 <= i < ids.len() ==> requested(ids, amounts, #[trigger] ids[i])
                    <= s.ledger.balance(s.caller, ids[i]);
            let answer = s.burn_answer(ids, amounts);
            &&& answer is Ok <==> sends && s.caller != zero && ids.len() == amounts.len() && there
            &&& !may ==> answer == Err::<(), Error1155>(
                Error1155::UnauthorizedAccount { account: s.caller, needed_role: burner() },
            )
            &&& may && !sends ==> answer == Err::<(), Error1155>(
                Error1155::CannotSend { account: s.caller },
            )
            &&& !sends ==> s.after_burn(ids, amounts) == s
            &&& sends && s.caller == zero ==> answer == Err::<(), Error1155>(
                Error1155::InvalidSender { sender: s.caller },
            )
            &&& sends && s.caller != zero && ids.len() != amounts.len() ==> answer == Err::<
                (),
                Error1155,
            >(
                Error1155::InvalidArrayLength {
                    ids_length: u256(ids.len()),
                    values_length: u256(amounts.len()),
                },
            )
        }),
{
    let zero = Account::zero_account();
    let there = forall|i: int|
        0 <= i < ids.len() ==> requested(ids, amounts, #[trigger] ids[i]) <= s.ledger.balance(
            s.caller,
            ids[i],
        );
    if there && s.caller != zero {
        lemma_all_there(s.ledger, s.caller, ids, amounts);
        lemma_can_move_each(s.ledger, s.caller, zero, ids, amounts);
    }
    if s.burn_answer(ids, amounts) is Ok {
        assert forall|i: int| 0 <= i < ids.len() implies requested(ids, amounts, #[trigger] ids[i])
            <= s.ledger.balance(s.caller, ids[i]) by {
            lemma_move_each_balance(s.ledger, s.caller, zero, ids, amounts, s.caller, ids[i]);
        }
    }
}

/// A burn of one id goes through if and only if the caller holds the burning role, is on the
/// send-allowlist, is not the zero account and has at least the amount.
pub proof fn law_single_burn_terms(s: State1155, id: nat, amount: nat)
    ensures
        ({
            let zero = Account::zero_account();
            let sends = s.members.contains((burner(), s.caller)) && s.senders.contains(s.caller);
            let answer = s.burn_answer(seq![id], seq![amount]);
            &&& answer is Ok <==> sends && s.caller != zero && amount <= s.ledger.balance(
                s.caller,
                id,
            )
            &&& sends && s.caller != zero && amount > s.ledger.balance(s.caller, id) ==> answer
                == Err::<(), Error1155>(
                Error1155::InsufficientBalance {
                    sender: s.caller,
                    balance: u256(s.ledger.balance(s.caller, id)),
                    needed: u256(amount),
                    token_id: u256(id),
                },
            )
        }),
{
    lemma_update_one(s.ledger, s.caller, Account::zero_account(), id, amount);
}

/// Which refusal a batch gets that asks for more than there is of the id at `k`, and of none
/// before: it says what the elements before leave, and what this one asks for.
pub proof fn law_short_burns(s: State1155, ids: Seq<nat>, amounts: Seq<nat>, k: int)
    requires
        ids.len() == amounts.len(),
        0 <= k < ids.len(),
        s.members.contains((burner(), s.caller)),
        s.senders.contains(s.caller),
        s.caller != Account::zero_account(),
        forall|i: int|
            0 <= i < k ==> requested(ids.take(i + 1), amounts.take(i + 1), #[trigger] ids[i])
                <= s.ledger.balance(s.caller, ids[i]),
        requested(ids.take(k + 1), amounts.take(k + 1), ids[k]) > s.ledger.balance(
            s.caller,
            ids[k],
        ),
    ensures
        s.burn_answer(ids, amounts) == Err::<(), Error1155>(
            Error1155::InsufficientBalance {
                sender: s.caller,
                balance: u256(
                    (s.ledger.balance(s.caller, ids[k]) - requested(
                        ids.take(k),
                        amounts.take(k),
                        ids[k],
                    )) as nat,
                ),
                needed: u256(amounts[k]),
                token_id: u256(ids[k]),
            },
        ),
{
    lemma_first_short(s.ledger, s.caller, Account::zero_account(), ids, amounts, k);
}

/// Moving stops at the first element that is not there.
proof fn lemma_first_short(
    ledger: Ledger1155,
    from: Account,
    to: Account,
    ids: Seq<nat>,
    values: Seq<nat>,
    k: int,
)
    requires
        ids.len() == values.len(),
        0 <= k < ids.len(),
        from != Account::zero_account(),
        from != to,
        forall|i: int|
            0 <= i < k ==> requested(ids.take(i + 1), values.take(i + 1), #[trigger] ids[i])
                <= ledger.balance(from, ids[i]),
        requested(ids.take(k + 1), values.take(k + 1), ids[k]) > ledger.balance(from, ids[k]),
    ensures
        ledger.can_move_each(from, to, ids, values) == Err::<(), Erc1155Error>(
            Erc1155Error::InsufficientBalance {
                sender: from,
                balance: u256(
                    (ledger.balance(from, ids[k]) - requested(
                        ids.take(k),
                        values.take(k),
                        ids[k],
                    )) as nat,
                ),
                needed: u256(values[k]),
                token_id: u256(ids[k]),
            },
        ),
    decreases k,
{
    lemma_requested_push(ids, values, k, ids[k]);
    if k == 0 {
        assert(requested(ids.take(0), values.take(0), ids[0]) == 0);
    } else {
        let (rest, rest_values) = (ids.drop_first(), values.drop_first());
        let moved = ledger.move_one(from, to, ids[0], values[0]);
        assert(requested(ids.take(1), values.take(1), ids[0]) == values[0]) by {
            lemma_requested_push(ids, values, 0, ids[0]);
            assert(requested(ids.take(0), values.take(0), ids[0]) == 0);
        }
        assert(requested(ids.take(0int + 1), values.take(0int + 1), ids[0]) <= ledger.balance(
            from,
            ids[0],
        ));
        assert forall|i: int| 0 <= i < k - 1 implies requested(
            rest.take(i + 1),
            rest_values.take(i + 1),
            #[trigger] rest[i],
        ) <= moved.balance(from, rest[i]) by {
            lemma_requested_first(ids, values, i + 2, ids[i + 1]);
            assert(requested(ids.take(i + 1 + 1), values.take(i + 1 + 1), ids[i + 1])
                <= ledger.balance(from, ids[i + 1]));
        }
        lemma_requested_first(ids, values, k + 1, ids[k]);
        lemma_requested_first(ids, values, k, ids[k]);
        lemma_first_short(moved, from, to, rest, rest_values, k - 1);
    }
}

/// What the first `k` elements ask for is what the first asks for and the others do.
proof fn lemma_requested_first(ids: Seq<nat>, values: Seq<nat>, k: int, id: nat)
    requires
        0 < k <= ids.len(),
        k <= values.len(),
    ensures
        requested(ids.take(k), values.take(k), id) == (if ids[0] == id {
            values[0]
        } else {
            0
        }) + requested(ids.drop_first().take(k - 1), values.drop_first().take(k - 1), id),
{
    assert(ids.take(k).drop_first() =~= ids.drop_first().take(k - 1));
    assert(values.take(k).drop_first() =~= values.drop_first().take(k - 1));
}

/// What burning changes: of each id, the caller has all that was asked for less; and where less
/// is left than was frozen, as much is frozen as is left of what the freeze covered. Nobody
/// else's balances or freezes change, and no list and no role.
pub proof fn law_burn_effects(s: State1155, ids: Seq<nat>, amounts: Seq<nat>, id: nat)
    requires
        s.burn_answer(ids, amounts) is Ok,
    ensures
        ({
            let from = s.caller;
            let t = s.after_burn(ids, amounts);
            let amount = requested(ids, amounts, id);
            let (held, frozen) = (s.ledger.balance(from, id), s.frozen_of(from, id));
            &&& t == (State1155 {
                ledger: Ledger1155 { balances: t.ledger.balances, ..s.ledger },
                frozen: t.frozen,
                log: t.log,
                ..s
            })
            &&& t.ledger.balance(from, id) + amount == held
            &&& amount == 0 || frozen + amount <= held ==> t.frozen_of(from, id) == frozen
            &&& amount > 0 && frozen <= held < frozen + amount ==> t.frozen_of(from, id) + amount
                == held
            &&& amount > 0 && frozen > held ==> t.frozen_of(from, id) + amount == frozen
            &&& forall|other: Account|
                other != from ==> #[trigger] t.ledger.balance(other, id) == s.ledger.balance(
                    other,
                    id,
                ) && t.frozen_of(other, id) == s.frozen_of(other, id)
        }),
{
    let zero = Account::zero_account();
    let t = s.after_burn(ids, amounts);
    lemma_burn_releases(s, ids, amounts, id);
    lemma_release_frame(s, s.caller, ids, amounts, 0);
    lemma_move_each_balance(s.ledger, s.caller, zero, ids, amounts, s.caller, id);
    assert forall|other: Account| other != s.caller implies #[trigger] t.ledger.balance(other, id)
        == s.ledger.balance(other, id) && t.frozen_of(other, id) == s.frozen_of(other, id) by {
        lemma_move_each_balance(s.ledger, s.caller, zero, ids, amounts, other, id);
    }
}

/// What a burn of one id logs: what is frozen from now on, if that changes, and the burn.
pub proof fn law_single_burn_log(s: State1155, id: nat, amount: nat)
    requires
        s.burn_answer(seq![id], seq![amount]) is Ok,
    ensures
        ({
            let t = s.after_burn(seq![id], seq![amount]);
            let moved = moved_token_amount(s.caller, s.caller, Account::zero_account(), id, amount);
            let covered = amount == 0 || s.frozen_of(s.caller, id) + amount <= s.ledger.balance(
                s.caller,
                id,
            );
            &&& covered ==> t.log == s.log.push(moved)
            &&& !covered ==> t.log == s.log.push(
                frozen_token_amount(s.caller, id, t.frozen_of(s.caller, id)),
            ).push(moved)
        }),
{
    let zero = Account::zero_account();
    lemma_update_one(s.ledger, s.caller, zero, id, amount);
    lemma_release_one(s, s.caller, id, amount);
    lemma_release_frame(s, s.caller, seq![id], seq![amount], 0);
}

/// Releasing for a batch of one is releasing for that.
proof fn lemma_release_one(s: State1155, account: Account, id: nat, amount: nat)
    ensures
        s.release_from(account, seq![id], seq![amount], 0) == s.release(account, id, amount),
{
    reveal_with_fuel(State1155::release_from, 2);
    assert(requested(seq![id].take(0), seq![amount].take(0), id) == 0);
}

/// The entries that say what is frozen from now on, which burning the elements of a batch one
/// after the other logs, without those that say what was burned.
pub open spec fn releases_in_turn(s: State1155, ids: Seq<nat>, amounts: Seq<nat>) -> Seq<LogEntry>
    decreases ids.len(),
{
    if ids.len() == 0 || amounts.len() == 0 {
        Seq::empty()
    } else {
        let t = s.after_burn(seq![ids[0]], seq![amounts[0]]);
        t.log.subrange(s.log.len() as int, t.log.len() - 1) + releases_in_turn(
            t,
            ids.drop_first(),
            amounts.drop_first(),
        )
    }
}

/// A batched burn logs what its burns one after the other log of freezes, and one entry for all
/// that was burned.
pub proof fn law_burn_batch_log(s: State1155, ids: Seq<nat>, amounts: Seq<nat>)
    requires
        s.burn_answer(ids, amounts) is Ok,
    ensures
        s.after_burn(ids, amounts).log == (s.log + releases_in_turn(s, ids, amounts)).push(
            if ids.len() == 1 {
                moved_token_amount(
                    s.caller,
                    s.caller,
                    Account::zero_account(),
                    ids[0],
                    amounts[0],
                )
            } else {
                moved_token_amounts(s.caller, s.caller, Account::zero_account(), ids, amounts)
            },
        ),
{
    lemma_releases(s, ids, amounts);
    lemma_release_frame(s, s.caller, ids, amounts, 0);
}

/// What releasing for a batch logs.
proof fn lemma_releases(s: State1155, ids: Seq<nat>, amounts: Seq<nat>)
    requires
        s.burn_answer(ids, amounts) is Ok,
    ensures
        s.release_from(s.caller, ids, amounts, 0).log == s.log + releases_in_turn(s, ids, amounts),
    decreases ids.len(),
{
    let zero = Account::zero_account();
    if ids.len() > 0 {
        let (first, amount) = (ids[0], amounts[0]);
        let (rest, rest_amounts) = (ids.drop_first(), amounts.drop_first());
        let t = s.after_burn(seq![first], seq![amount]);
        let released = s.release(s.caller, first, amount);
        lemma_update_one(s.ledger, s.caller, zero, first, amount);
        lemma_release_one(s, s.caller, first, amount);
        assert(t.caller == s.caller);
        assert(t.frozen == released.frozen);
        assert(t.log.subrange(s.log.len() as int, t.log.len() - 1) =~= released.log.skip(
            s.log.len() as int,
        ));
        assert(s.log + released.log.skip(s.log.len() as int) =~= released.log);
        lemma_releases(t, rest, rest_amounts);
        assert(requested(ids.take(0), amounts.take(0), first) == 0);
        lemma_release_shift(released, t, s.caller, ids, amounts, 0);
        let p = released.release_from(s.caller, ids, amounts, 1);
        let q = t.release_from(s.caller, rest, rest_amounts, 0);
        assert(s.release_from(s.caller, ids, amounts, 0) == p);
        assert(q.log.skip(t.log.len() as int) =~= releases_in_turn(t, rest, rest_amounts));
        assert(p.log =~= s.log + releases_in_turn(s, ids, amounts));
    }
}

/// Releasing for a batch from its second element on is releasing for the rest of it once the
/// first element is burned.
proof fn lemma_release_shift(
    p: State1155,
    q: State1155,
    account: Account,
    ids: Seq<nat>,
    amounts: Seq<nat>,
    k: nat,
)
    requires
        ids.len() == amounts.len(),
        k < ids.len(),
        p.frozen == q.frozen,
        forall|id: nat|
            p.ledger.balance(account, id) == #[trigger] q.ledger.balance(account, id) + (if id
                == ids[0] {
                amounts[0]
            } else {
                0
            }),
    ensures
        ({
            let (pp, qq) = (
                p.release_from(account, ids, amounts, k + 1),
                q.release_from(account, ids.drop_first(), amounts.drop_first(), k),
            );
            &&& p.log.len() <= pp.log.len()
            &&& pp.log == p.log + qq.log.skip(q.log.len() as int)
            &&& qq.log == q.log + qq.log.skip(q.log.len() as int)
            &&& q.log.len() <= qq.log.len()
        }),
    decreases ids.len() - k,
{
    let (rest, rest_amounts) = (ids.drop_first(), amounts.drop_first());
    let pp = p.release_from(account, ids, amounts, k + 1);
    let qq = q.release_from(account, rest, rest_amounts, k);
    if k + 1 < ids.len() {
        let next = k as int + 1;
        let id = ids[next];
        lemma_requested_first(ids, amounts, next, id);
        assert(p.ledger.balance(account, id) == q.ledger.balance(account, id) + (if id == ids[0] {
            amounts[0]
        } else {
            0
        }));
        let left = p.left(account, ids, amounts, next);
        assert(left == q.left(account, rest, rest_amounts, k as int));
        if amounts[next] <= left {
            let np = p.release_of(left as nat, account, id, amounts[next]);
            let nq = q.release_of(left as nat, account, id, amounts[next]);
            lemma_release_shift(np, nq, account, ids, amounts, k + 1);
            assert(pp == np.release_from(account, ids, amounts, (k + 2) as nat));
            assert(qq == nq.release_from(account, rest, rest_amounts, k + 1));
            assert(np.log.skip(p.log.len() as int) =~= nq.log.skip(q.log.len() as int));
            assert(np.log =~= p.log + np.log.skip(p.log.len() as int));
            assert(pp.log =~= p.log + qq.log.skip(q.log.len() as int));
            assert(qq.log =~= q.log + qq.log.skip(q.log.len() as int));
        } else {
            assert(qq.log.skip(q.log.len() as int) =~= Seq::empty());
            assert(pp.log =~= p.log + qq.log.skip(q.log.len() as int));
            assert(qq.log =~= q.log + qq.log.skip(q.log.len() as int));
        }
    } else {
        assert(qq.log.skip(q.log.len() as int) =~= Seq::empty());
        assert(pp.log =~= p.log + qq.log.skip(q.log.len() as int));
        assert(qq.log =~= q.log + qq.log.skip(q.log.len() as int));
    }
}

/// A seizure goes through if and only if the caller holds the seizing role, neither end is the
/// zero account, the receiver is on the receive-allowlist, and the victim is the receiver, or
/// has at least the amount and the receiver accepts the tokens; the refusals come in this order.
/// No list that the victim is on or off, no freeze and no other role matters. The receiver's
/// balance must have room.
pub proof fn law_seizure_terms(
    s: State1155,
    from: Account,
    to: Account,
    id: nat,
    amount: nat,
    accepted: Result<(), Erc1155Error>,
)
    ensures
        ({
            let zero = Account::zero_account();
            let may = s.members.contains((forcer(), s.caller));
            let ends = may && to != zero && from != zero;
            let listed = ends && s.receivers.contains(to);
            let held = s.ledger.balance(from, id);
            let answer = s.forced_answer(from, to, id, amount, accepted);
            let t = s.after_forced(from, to, id, amount, accepted);
            &&& answer is Ok <==> listed && (from == to || (amount <= held && accepted is Ok))
            &&& !may ==> answer == Err::<(), Error1155>(
                Error1155::UnauthorizedAccount { account: s.caller, needed_role: forcer() },
            )
            &&& may && to == zero ==> answer == Err::<(), Error1155>(
                Error1155::InvalidReceiver { receiver: to },
            )
            &&& may && to != zero && from == zero ==> answer == Err::<(), Error1155>(
                Error1155::InvalidSender { sender: from },
            )
            &&& ends && !listed ==> answer == Err::<(), Error1155>(
                Error1155::CannotReceive { account: to },
            )
            &&& listed && from != to && amount > held ==> answer == Err::<(), Error1155>(
                Error1155::InsufficientBalance {
                    sender: from,
                    balance: u256(held),
                    needed: u256(amount),
                    token_id: u256(id),
                },
            )
            &&& listed && from != to && amount <= held && accepted is Err ==> answer == base_result(
                accepted,
            )
            &&& !listed || (from != to && amount > held) ==> t == s
            &&& s.forced_fits(from, to, id, amount) <==> (listed && from != to && amount <= held
                ==> s.ledger.balance(to, id) + amount < modulus())
        }),
{
}

/// What a seizure from another account changes: two balances and the log; and where less is left
/// to the victim than was frozen, as much is frozen as is left of what the freeze covered, which
/// is logged first. The tokens are taken out of existence and made anew for the receiver, so two
/// entries say that they moved.
pub proof fn law_seizure_effects(
    s: State1155,
    from: Account,
    to: Account,
    id: nat,
    amount: nat,
    accepted: Result<(), Erc1155Error>,
)
    requires
        s.forced_answer(from, to, id, amount, accepted) is Ok,
        from != to,
    ensures
        ({
            let zero = Account::zero_account();
            let t = s.after_forced(from, to, id, amount, accepted);
            let (held, frozen) = (s.ledger.balance(from, id), s.frozen_of(from, id));
            let taken = moved_token_amount(s.caller, from, zero, id, amount);
            let given = moved_token_amount(s.caller, zero, to, id, amount);
            let seized = forced_token_amount(from, to, id, amount);
            &&& t == (State1155 {
                ledger: Ledger1155 { balances: t.ledger.balances, ..s.ledger },
                frozen: t.frozen,
                log: t.log,
                ..s
            })
            &&& t.ledger.balance(from, id) + amount == held
            &&& t.ledger.balance(to, id) == s.ledger.balance(to, id) + amount
            &&& forall|account: Account, other: nat|
                other != id || (account != from && account != to) ==> #[trigger] t.ledger.balance(
                    account,
                    other,
                ) == s.ledger.balance(account, other)
            &&& forall|account: Account, other: nat|
                (account, other) != (from, id) ==> #[trigger] t.frozen_of(account, other)
                    == s.frozen_of(account, other)
            &&& amount == 0 || frozen + amount <= held ==> t.frozen == s.frozen && t.log
                == s.log.push(taken).push(given).push(seized)
            &&& amount > 0 && frozen <= held < frozen + amount ==> t.frozen_of(from, id) + amount
                == held
            &&& amount > 0 && frozen > held ==> t.frozen_of(from, id) + amount == frozen
            &&& amount > 0 && held < frozen + amount ==> t.log == s.log.push(
                frozen_token_amount(from, id, t.frozen_of(from, id)),
            ).push(taken).push(given).push(seized)
        }),
{
    let zero = Account::zero_account();
    lemma_forced(s, from, to, id, amount, accepted);
    lemma_update_one(s.ledger, from, zero, id, amount);
    lemma_update_one(s.ledger.debit(from, id, amount), zero, to, id, amount);
}

/// A seizure that leads back to its victim changes nothing but the log, whatever the amount, and
/// nobody is asked.
pub proof fn law_self_seizure_effects(
    s: State1155,
    account: Account,
    id: nat,
    amount: nat,
    accepted: Result<(), Erc1155Error>,
)
    requires
        s.forced_answer(account, account, id, amount, accepted) is Ok,
    ensures
        s.after_forced(account, account, id, amount, accepted) == (State1155 {
            log: s.log.push(forced_token_amount(account, account, id, amount)),
            ..s
        }),
{
}

/// A role is asked for by itself: whoever holds it passes, and whoever does not is told which
/// role is missing.
pub proof fn law_role_terms(s: State1155, role: [u8; 32])
    ensures
        s.members.contains((role, s.caller)) ==> s.check_role(role) == Ok::<(), Error1155>(()),
        !s.members.contains((role, s.caller)) ==> s.check_role(role) == Err::<(), Error1155>(
            Error1155::UnauthorizedAccount { account: s.caller, needed_role: role },
        ),
        s.members.contains((role, s.caller)) ==> role_check(s.members, role, s.caller) == Ok::<
            (),
            AccessError,
        >(()),
        !s.members.contains((role, s.caller)) ==> role_check(s.members, role, s.caller) == Err::<
            (),
            AccessError,
        >(AccessError::UnauthorizedAccount { account: s.caller, needed_role: role }),
{
}

/// What holders of the allowlist role change: whether one account is on one list. The other list,
/// the other accounts and all else stay as they are.
pub proof fn law_allowlist_effects(s: State1155, account: Account, status: bool)
    ensures
        ({
            let may = s.members.contains((whitelister(), s.caller));
            let (t, u) = (
                s.after_change_send(account, status),
                s.after_change_receive(account, status),
            );
            &&& !may ==> t == s && u == s
            &&& may ==> t == (State1155 {
                senders: t.senders,
                log: s.log.push(send_whitelisted(account, status)),
                ..s
            })
            &&& may ==> (t.senders.contains(account) <==> status)
            &&& may ==> u == (State1155 {
                receivers: u.receivers,
                log: s.log.push(receive_whitelisted(account, status)),
                ..s
            })
            &&& may ==> (u.receivers.contains(account) <==> status)
            &&& forall|other: Account|
                other != account ==> (#[trigger] t.senders.contains(other) <==> s.senders.contains(
                    other,
                ))
            &&& forall|other: Account|
                other != account ==> (#[trigger] u.receivers.contains(other)
                    <==> s.receivers.contains(other))
        }),
{
}

/// A role is granted and taken back by holders of its admin role, which is the default one where
/// no other was set, and by nobody else. One role of one account changes, and it is logged if it
/// does.
pub proof fn law_grant_and_revoke_terms(s: State1155, role: [u8; 32], account: Account)
    ensures
        ({
            let admin = if s.admins.dom().contains(role) {
                s.admins[role]
            } else {
                default_admin()
            };
            let may = s.members.contains((admin, s.caller));
            let held = s.members.contains((role, account));
            let (t, u) = (s.after_grant(role, account), s.after_revoke(role, account));
            &&& may ==> s.admin_answer(role) == Ok::<(), AccessError>(())
            &&& !may ==> s.admin_answer(role) == Err::<(), AccessError>(
                AccessError::UnauthorizedAccount { account: s.caller, needed_role: admin },
            )
            &&& !may ==> t == s && u == s
            &&& may && held ==> t == s
            &&& may && !held ==> u == s
            &&& may && !held ==> t == (State1155 {
                members: s.members.insert((role, account)),
                log: s.log.push(role_granted(role, account, s.caller)),
                ..s
            })
            &&& may && held ==> u == (State1155 {
                members: s.members.remove((role, account)),
                log: s.log.push(role_revoked(role, account, s.caller)),
                ..s
            })
        }),
{
}

/// A role is given up by its holder, who confirms with its own account, and by nobody else.
pub proof fn law_renounce_terms(s: State1155, role: [u8; 32], confirmation: Account)
    ensures
        ({
            let held = s.members.contains((role, s.caller));
            let t = s.after_renounce(role, confirmation);
            &&& s.caller == confirmation ==> s.renounce_answer(confirmation) == Ok::<
                (),
                AccessError,
            >(())
            &&& s.caller != confirmation ==> s.renounce_answer(confirmation) == Err::<
                (),
                AccessError,
            >(AccessError::BadConfirmation)
            &&& s.caller != confirmation || !held ==> t == s
            &&& s.caller == confirmation && held ==> t == (State1155 {
                members: s.members.remove((role, s.caller)),
                log: s.log.push(role_revoked(role, s.caller, s.caller)),
                ..s
            })
        }),
{
}

/// Any account but the zero account can be made an operator, or be one no longer. One operator of
/// one owner, who calls, changes, and nothing else.
pub proof fn law_operator_terms(s: State1155, operator: Account, approved: bool)
    ensures
        ({
            let zero = Account::zero_account();
            let answer = base_result(Ledger1155::can_be_operator(operator));
            let t = s.after_set_operator(operator, approved);
            &&& operator != zero ==> answer == Ok::<(), Error1155>(())
            &&& operator == zero ==> answer == Err::<(), Error1155>(
                Error1155::InvalidOperator { operator },
            )
            &&& operator == zero ==> t == s
            &&& operator != zero ==> {
                &&& t == (State1155 {
                    ledger: Ledger1155 { operators: t.ledger.operators, ..s.ledger },
                    log: s.log.push(approved_for_all(s.caller, operator, approved)),
                    ..s
                })
                &&& t.ledger.operators.contains((s.caller, operator)) <==> approved
                &&& forall|owner: Account, other: Account|
                    (owner, other) != (s.caller, operator) ==> (#[trigger]
                    t.ledger.operators.contains((owner, other)) <==> s.ledger.operators.contains(
                        (owner, other),
                    ))
            }
        }),
{
}

/// What holders of the freezing role change: how much of one token is frozen for one account. It
/// may be any amount.
pub proof fn law_freeze_effects(s: State1155, account: Account, id: nat, amount: nat)
    ensures
        ({
            let may = s.members.contains((freezer(), s.caller));
            let t = s.after_set_frozen(account, id, amount);
            &&& !may ==> t == s
            &&& may ==> t == (State1155 {
                frozen: t.frozen,
                log: s.log.push(frozen_token_amount(account, id, amount)),
                ..s
            })
            &&& may ==> t.frozen_of(account, id) == amount
            &&& forall|other: Account, other_id: nat|
                (other, other_id) != (account, id) ==> #[trigger] t.frozen_of(other, other_id)
                    == s.frozen_of(other, other_id)
        }),
{
}

/// The constructor gives the initial admin the six roles, and nobody else any.
pub proof fn law_constructor_terms(s: State1155, initial_admin: Account)
    ensures
        ({
            let t = s.after_constructor(initial_admin);
            &&& t == (State1155 {
                members: t.members,
                log: log_every_role(s.log, s.members, initial_admin, s.caller),
                ..s
            })
            &&& forall|role: [u8; 32], account: Account| #[trigger]
                t.members.contains((role, account)) <==> s.members.contains((role, account)) || (
                account == initial_admin && (role == default_admin() || role == minter() || role
                    == burner() || role == freezer() || role == whitelister() || role == forcer()))
        }),
{
}

/// A refused call changes no role and no list, whatever it was.
pub proof fn law_refusals_keep_roles_and_lists(s: State1155, call: Call1155)
    requires
        !s.succeeds(call),
    ensures
        ({
            let t = s.after(call);
            t == (State1155 { ledger: t.ledger, frozen: t.frozen, log: t.log, ..s })
        }),
{
    if let Call1155::Burn { ids, amounts } = call {
        lemma_release_frame(s, s.caller, ids, amounts, 0);
    }
}

/// A refusal of a base contract is passed on as it is.
pub proof fn law_refusals_are_passed_on(
    account: Account,
    owner: Account,
    role: [u8; 32],
    token_id: U256,
    a: U256,
    b: U256,
    reason: String,
)
    ensures
        from_access(AccessError::UnauthorizedAccount { account, needed_role: role }) == (
        Error1155::UnauthorizedAccount { account, needed_role: role }),
        from_access(AccessError::BadConfirmation) == Error1155::BadConfirmation,
        forall|error: AccessError| #[trigger]
            <Error1155 as FromSpec<AccessError>>::from_spec(error) == from_access(error),
        forall|error: Erc1155Error| #[trigger]
            <Error1155 as FromSpec<Erc1155Error>>::from_spec(error) == from_base(error),
        from_base(
            Erc1155Error::InsufficientBalance { sender: account, balance: a, needed: b, token_id },
        ) == (Error1155::InsufficientBalance { sender: account, balance: a, needed: b, token_id }),
        from_base(Erc1155Error::InvalidSender { sender: account }) == (Error1155::InvalidSender {
            sender: account,
        }),
        from_base(Erc1155Error::InvalidReceiver { receiver: account }) == (
        Error1155::InvalidReceiver { receiver: account }),
        from_base(Erc1155Error::InvalidReceiverWithReason { reason }) == (
        Error1155::InvalidReceiverWithReason { reason }),
        from_base(Erc1155Error::MissingApprovalForAll { operator: account, owner }) == (
        Error1155::MissingApprovalForAll { operator: account, owner }),
        from_base(Erc1155Error::InvalidApprover { approver: account }) == (
        Error1155::InvalidApprover { approver: account }),
        from_base(Erc1155Error::InvalidOperator { operator: account }) == (
        Error1155::InvalidOperator { operator: account }),
        from_base(Erc1155Error::InvalidArrayLength { ids_length: a, values_length: b }) == (
        Error1155::InvalidArrayLength { ids_length: a, values_length: b }),
        base_result(Err::<(), Erc1155Error>(Erc1155Error::InvalidReceiver { receiver: account }))
            == Err::<(), Error1155>(Error1155::InvalidReceiver { receiver: account }),
        base_result(Err::<(), Erc1155Error>(Erc1155Error::InvalidReceiverWithReason { reason }))
            == Err::<(), Error1155>(Error1155::InvalidReceiverWithReason { reason }),
{
}

} // verus!
