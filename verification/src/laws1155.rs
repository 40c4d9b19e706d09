//! What holds of the multi-token, whatever is done to it.

use vstd::prelude::*;

use crate::access::{
    admin_of, burner, default_admin, forcer, freezer, minter, whitelister, AccessError,
};
use crate::account::Account;
use crate::batch::{
    lemma_requested_all, lemma_requested_grows, lemma_requested_push, requested,
};
use crate::erc1155::{erc1155_accepted, lemma_mint_each, lemma_update_one, Erc1155Error, Ledger1155};
use crate::events::forced_token_amount;
use crate::receiver::Reply;
use crate::sum::{lemma_sum_insert, sum};
use crate::uint::{modulus, wrap};
use crate::urwa1155::{Error1155, State1155};

verus! {

/// A call that may change the token. Where the receiver is asked, `accepted` is what it says.
/// A call that is made for one id is the batch of that id alone.
pub enum Call1155 {
    Constructor { initial_admin: Account },
    ChangeSendWhitelist { account: Account, status: bool },
    ChangeReceiveWhitelist { account: Account, status: bool },
    Mint { to: Account, ids: Seq<nat>, amounts: Seq<nat>, accepted: Result<(), Erc1155Error> },
    Burn { ids: Seq<nat>, amounts: Seq<nat> },
    SetFrozenTokens { account: Account, id: nat, amount: nat },
    ForcedTransfer {
        from: Account,
        to: Account,
        id: nat,
        amount: nat,
        accepted: Result<(), Erc1155Error>,
    },
    SafeTransferFrom {
        from: Account,
        to: Account,
        id: nat,
        value: nat,
        accepted: Result<(), Erc1155Error>,
    },
    SafeBatchTransferFrom {
        from: Account,
        to: Account,
        ids: Seq<nat>,
        values: Seq<nat>,
        accepted: Result<(), Erc1155Error>,
    },
    SetApprovalForAll { operator: Account, approved: bool },
    GrantRole { role: [u8; 32], account: Account },
    RevokeRole { role: [u8; 32], account: Account },
    RenounceRole { role: [u8; 32], confirmation: Account },
}

impl State1155 {
    /// What `call` leaves behind.
    pub open spec fn after(self, call: Call1155) -> State1155 {
        match call {
            Call1155::Constructor { initial_admin } => self.after_constructor(initial_admin),
            Call1155::ChangeSendWhitelist { account, status } => self.after_change_send(
                account,
                status,
            ),
            Call1155::ChangeReceiveWhitelist { account, status } => self.after_change_receive(
                account,
                status,
            ),
            Call1155::Mint { to, ids, amounts, accepted } => self.after_mint(to, ids, amounts),
            Call1155::Burn { ids, amounts } => self.after_burn(ids, amounts),
            Call1155::SetFrozenTokens { account, id, amount } => self.after_set_frozen(
                account,
                id,
                amount,
            ),
            Call1155::ForcedTransfer { from, to, id, amount, accepted } => self.after_forced(
                from,
                to,
                id,
                amount,
                accepted,
            ),
            Call1155::SafeTransferFrom { from, to, id, value, accepted } => self.after_transfer(
                from,
                to,
                id,
                value,
            ),
            Call1155::SafeBatchTransferFrom { from, to, ids, values, accepted } => self.after_batch(
                from,
                to,
                ids,
                values,
            ),
            Call1155::SetApprovalForAll { operator, approved } => self.after_set_operator(
                operator,
                approved,
            ),
            Call1155::GrantRole { role, account } => self.after_grant(role, account),
            Call1155::RevokeRole { role, account } => self.after_revoke(role, account),
            Call1155::RenounceRole { role, confirmation } => self.after_renounce(
                role,
                confirmation,
            ),
        }
    }

    /// Whether `call` is not refused.
    pub open spec fn succeeds(self, call: Call1155) -> bool {
        match call {
            Call1155::Constructor { initial_admin } => true,
            Call1155::ChangeSendWhitelist { account, status } => self.check_role(
                whitelister(),
            ) is Ok,
            Call1155::ChangeReceiveWhitelist { account, status } => self.check_role(
                whitelister(),
            ) is Ok,
            Call1155::Mint { to, ids, amounts, accepted } => self.mint_answer(
                to,
                ids,
                amounts,
                accepted,
            ) is Ok,
            Call1155::Burn { ids, amounts } => self.burn_answer(ids, amounts) is Ok,
            Call1155::SetFrozenTokens { account, id, amount } => self.check_role(freezer()) is Ok,
            Call1155::ForcedTransfer { from, to, id, amount, accepted } => self.forced_answer(
                from,
                to,
                id,
                amount,
                accepted,
            ) is Ok,
            Call1155::SafeTransferFrom { from, to, id, value, accepted } => self.transfer_answer(
                from,
                to,
                id,
                value,
                accepted,
            ) is Ok,
            Call1155::SafeBatchTransferFrom { from, to, ids, values, accepted } =>
                self.batch_answer(from, to, ids, values, accepted) is Ok,
            Call1155::SetApprovalForAll { operator, approved } => Ledger1155::can_be_operator(
                operator,
            ) is Ok,
            Call1155::GrantRole { role, account } => self.admin_answer(role) is Ok,
            Call1155::RevokeRole { role, account } => self.admin_answer(role) is Ok,
            Call1155::RenounceRole { role, confirmation } => self.renounce_answer(
                confirmation,
            ) is Ok,
        }
    }

    /// Whether `call` can be made at all: balances must have room for what arrives.
    pub open spec fn admits(self, call: Call1155) -> bool {
        match call {
            Call1155::Mint { to, ids, amounts, accepted } => self.mint_fits(to, ids, amounts),
            Call1155::ForcedTransfer { from, to, id, amount, accepted } => self.forced_fits(
                from,
                to,
                id,
                amount,
            ),
            Call1155::SafeTransferFrom { from, to, id, value, accepted } => self.transfer_fits(
                from,
                to,
                id,
                value,
            ),
            Call1155::SafeBatchTransferFrom { from, to, ids, values, accepted } => self.batch_fits(
                from,
                to,
                ids,
                values,
            ),
            _ => true,
        }
    }

    /// What is left of `call` once it is over: the host undoes a call that is refused or cannot
    /// be made.
    pub open spec fn step(self, caller: Account, call: Call1155) -> State1155 {
        let called = State1155 { caller, ..self };
        if called.admits(call) && called.succeeds(call) {
            called.after(call)
        } else {
            called
        }
    }

    /// What is left after `calls`, one after the other, each with its caller.
    pub open spec fn history(self, calls: Seq<(Account, Call1155)>) -> State1155
        decreases calls.len(),
    {
        if calls.len() == 0 {
            self
        } else {
            self.history(calls.drop_last()).step(calls.last().0, calls.last().1)
        }
    }
}

impl Ledger1155 {
    /// Whether every balance is a 256-bit integer, and only finitely many were ever touched.
    pub open spec fn valid(self) -> bool {
        &&& self.balances.dom().finite()
        &&& forall|account: Account, id: nat| #[trigger] self.balance(account, id) < modulus()
    }

    /// What each account has of the token `id`.
    pub open spec fn holdings(self, id: nat) -> Map<Account, nat> {
        Map::new(
            |account: Account| self.balances.dom().contains((account, id)),
            |account: Account| self.balances[(account, id)],
        )
    }

    /// How much there is of the token `id`.
    pub open spec fn supply(self, id: nat) -> nat {
        sum(self.holdings(id))
    }
}

/// Finitely many accounts hold a token.
proof fn lemma_holdings_finite(ledger: Ledger1155, id: nat)
    requires
        ledger.balances.dom().finite(),
    ensures
        ledger.holdings(id).dom().finite(),
{
    let keys = ledger.balances.dom();
    let accounts = keys.map(|key: (Account, nat)| key.0);
    vstd::set_lib::lemma_map_size_bound(keys, accounts, |key: (Account, nat)| key.0);
    assert forall|account: Account| ledger.holdings(id).dom().contains(account) implies
        accounts.contains(account) by {
        assert(keys.contains((account, id)));
    }
    vstd::set_lib::lemma_len_subset(ledger.holdings(id).dom(), accounts);
}

/// How a new balance changes what there is of the tokens.
proof fn lemma_insert(ledger: Ledger1155, account: Account, id: nat, amount: nat, other: nat)
    requires
        ledger.valid(),
        amount < modulus(),
    ensures
        ({
            let after = Ledger1155 {
                balances: ledger.balances.insert((account, id), amount),
                ..ledger
            };
            &&& after.valid()
            &&& after.supply(other) + (if other == id {
                ledger.balance(account, id)
            } else {
                0
            }) == ledger.supply(other) + (if other == id {
                amount
            } else {
                0
            })
        }),
{
    let after = Ledger1155 { balances: ledger.balances.insert((account, id), amount), ..ledger };
    lemma_holdings_finite(ledger, other);
    assert forall|a: Account, i: nat| #[trigger] after.balance(a, i) < modulus() by {
        assert(ledger.balance(a, i) < modulus());
    }
    if other == id {
        lemma_sum_insert(ledger.holdings(id), account, amount);
        assert(after.holdings(id) =~= ledger.holdings(id).insert(account, amount));
    } else {
        assert(after.holdings(other) =~= ledger.holdings(other));
    }
}

/// What moving one thing does to what there is of the tokens.
proof fn lemma_move_one_supply(
    ledger: Ledger1155,
    from: Account,
    to: Account,
    id: nat,
    value: nat,
    other: nat,
)
    requires
        ledger.valid(),
        ledger.can_debit(from, id, value) is Ok,
        ledger.has_room(from, to, id, value),
    ensures
        ledger.move_one(from, to, id, value).valid(),
        ledger.move_one(from, to, id, value).supply(other) + (if from != Account::zero_account()
            && other == id {
            value
        } else {
            0
        }) == ledger.supply(other) + (if to != Account::zero_account() && other == id {
            value
        } else {
            0
        }),
{
    assert(ledger.balance(from, id) < modulus());
    let debited = ledger.debit(from, id, value);
    if from != Account::zero_account() {
        lemma_insert(ledger, from, id, (ledger.balance(from, id) - value) as nat, other);
    }
    if to != Account::zero_account() {
        lemma_insert(debited, to, id, debited.balance(to, id) + value, other);
    }
}

/// What moving a batch does to what there is of the tokens.
proof fn lemma_move_each_supply(
    ledger: Ledger1155,
    from: Account,
    to: Account,
    ids: Seq<nat>,
    values: Seq<nat>,
    id: nat,
)
    requires
        ledger.valid(),
        ledger.has_room_each(from, to, ids, values),
    ensures
        ledger.move_each(from, to, ids, values).valid(),
        ledger.can_move_each(from, to, ids, values) is Ok ==> ledger.move_each(
            from,
            to,
            ids,
            values,
        ).supply(id) + (if from != Account::zero_account() {
            requested(ids, values, id)
        } else {
            0
        }) == ledger.supply(id) + (if to != Account::zero_account() {
            requested(ids, values, id)
        } else {
            0
        }),
    decreases ids.len(),
{
    if ids.len() > 0 && values.len() > 0 && ledger.can_debit(from, ids[0], values[0]) is Ok {
        lemma_move_one_supply(ledger, from, to, ids[0], values[0], id);
        lemma_move_each_supply(
            ledger.move_one(from, to, ids[0], values[0]),
            from,
            to,
            ids.drop_first(),
            values.drop_first(),
            id,
        );
    }
}

/// What moving a batch does to one balance. Nothing is ever given to the zero account or taken
/// from it.
pub(crate) proof fn lemma_move_each_balance(
    ledger: Ledger1155,
    from: Account,
    to: Account,
    ids: Seq<nat>,
    values: Seq<nat>,
    account: Account,
    id: nat,
)
    requires
        ledger.can_move_each(from, to, ids, values) is Ok,
    ensures
        ({
            let after = ledger.move_each(from, to, ids, values);
            let zero = Account::zero_account();
            &&& account == from && from != to && account != zero ==> after.balance(account, id)
                + requested(ids, values, id) == ledger.balance(account, id)
            &&& account == to && from != to && account != zero ==> after.balance(account, id)
                == ledger.balance(account, id) + requested(ids, values, id)
            &&& from == to || (account != from && account != to) || account == zero
                ==> after.balance(account, id) == ledger.balance(account, id)
            &&& after.operators == ledger.operators
        }),
    decreases ids.len(),
{
    if ids.len() > 0 && values.len() > 0 {
        lemma_move_each_balance(
            ledger.move_one(from, to, ids[0], values[0]),
            from,
            to,
            ids.drop_first(),
            values.drop_first(),
            account,
            id,
        );
    }
}

/// A batch can be moved to another account if all that it asks for is there.
pub(crate) proof fn lemma_can_move_each(
    ledger: Ledger1155,
    from: Account,
    to: Account,
    ids: Seq<nat>,
    values: Seq<nat>,
)
    requires
        from != to,
        forall|id: nat| #[trigger] requested(ids, values, id) <= ledger.balance(from, id),
    ensures
        ledger.can_move_each(from, to, ids, values) is Ok,
    decreases ids.len(),
{
    if ids.len() > 0 && values.len() > 0 {
        assert(requested(ids, values, ids[0]) <= ledger.balance(from, ids[0]));
        let moved = ledger.move_one(from, to, ids[0], values[0]);
        if from != Account::zero_account() {
            assert forall|id: nat| #[trigger]
                requested(ids.drop_first(), values.drop_first(), id) <= moved.balance(
                from,
                id,
            ) by {
                assert(requested(ids, values, id) <= ledger.balance(from, id));
            }
            lemma_can_move_each(moved, from, to, ids.drop_first(), values.drop_first());
        } else {
            lemma_mint_each(moved, to, ids.drop_first(), values.drop_first());
        }
    }
}

/// A batch asks for nothing of an id that is not in it.
pub(crate) proof fn lemma_not_requested(ids: Seq<nat>, values: Seq<nat>, id: nat)
    requires
        !ids.contains(id),
    ensures
        requested(ids, values, id) == 0,
    decreases ids.len(),
{
    if ids.len() > 0 && values.len() > 0 {
        assert(ids.contains(ids[0]));
        assert forall|other: nat| ids.drop_first().contains(other) implies ids.contains(other) by {
            let i = choose|i: int|
                0 <= i < ids.drop_first().len() && ids.drop_first()[i] == other;
            assert(ids[i + 1] == other);
        }
        lemma_not_requested(ids.drop_first(), values.drop_first(), id);
    }
}

/// A batch of one asks for that.
proof fn lemma_requested_one(id: nat, value: nat, other: nat)
    ensures
        requested(seq![id], seq![value], other) == (if other == id {
            value
        } else {
            0
        }),
{
    assert(seq![id].drop_first().len() == 0);
    assert(requested(seq![id].drop_first(), seq![value].drop_first(), other) == 0);
}

/// The batch passes the check if and only if each id does.
pub(crate) proof fn lemma_check_ids(
    s: State1155,
    account: Account,
    ids: Seq<nat>,
    values: Seq<nat>,
    some_ids: Seq<nat>,
)
    ensures
        s.check_ids(account, ids, values, some_ids) is Ok <==> forall|i: int|
            0 <= i < some_ids.len() ==> wrap(
                requested(ids, values, #[trigger] some_ids[i]) as int,
            ) <= s.unfrozen(account, some_ids[i]),
    decreases some_ids.len(),
{
    if some_ids.len() > 0 {
        let rest = some_ids.drop_first();
        lemma_check_ids(s, account, ids, values, rest);
        if s.check_ids(account, ids, values, some_ids) is Ok {
            assert forall|i: int| 0 <= i < some_ids.len() implies wrap(
                requested(ids, values, #[trigger] some_ids[i]) as int,
            ) <= s.unfrozen(account, some_ids[i]) by {
                if i > 0 {
                    assert(rest[i - 1] == some_ids[i]);
                }
            }
        } else if forall|i: int|
            0 <= i < some_ids.len() ==> wrap(
                requested(ids, values, #[trigger] some_ids[i]) as int,
            ) <= s.unfrozen(account, some_ids[i]) {
            assert(wrap(requested(ids, values, some_ids[0]) as int) <= s.unfrozen(
                account,
                some_ids[0],
            ));
            assert forall|i: int| 0 <= i < rest.len() implies wrap(
                requested(ids, values, #[trigger] rest[i]) as int,
            ) <= s.unfrozen(account, rest[i]) by {
                assert(rest[i] == some_ids[i + 1]);
            }
        }
    }
}

/// A batch cannot get round a freeze, however often it repeats an id: if it goes through to
/// another account, what it asked for of each id in all, which is what it moved, was not
/// frozen.
pub proof fn law_batch_moves_only_unfrozen(
    s: State1155,
    from: Account,
    to: Account,
    ids: Seq<nat>,
    values: Seq<nat>,
    accepted: Result<(), Erc1155Error>,
    id: nat,
)
    requires
        s.ledger.valid(),
        from != to,
        s.batch_answer(from, to, ids, values, accepted) is Ok,
    ensures
        requested(ids, values, id) <= s.unfrozen(from, id),
        ({
            let t = s.after_batch(from, to, ids, values);
            &&& t.ledger.balance(from, id) == s.ledger.balance(from, id) - requested(
                ids,
                values,
                id,
            )
            &&& t.ledger.balance(to, id) == s.ledger.balance(to, id) + requested(ids, values, id)
            &&& t.ledger.balance(from, id) >= s.frozen_of(from, id) || t.ledger.balance(from, id)
                == s.ledger.balance(from, id)
        }),
{
    lemma_move_each_balance(s.ledger, from, to, ids, values, from, id);
    lemma_move_each_balance(s.ledger, from, to, ids, values, to, id);
    assert(s.ledger.balance(from, id) < modulus());
    lemma_check_ids(s, from, ids, values, ids);
    if ids.contains(id) {
        let i = choose|i: int| 0 <= i < ids.len() && ids[i] == id;
        assert(wrap(requested(ids, values, ids[i]) as int) <= s.unfrozen(from, ids[i]));
    } else {
        lemma_not_requested(ids, values, id);
    }
}

/// A batch from an account to itself moves nothing.
pub proof fn law_batch_to_oneself_moves_nothing(
    s: State1155,
    from: Account,
    ids: Seq<nat>,
    values: Seq<nat>,
    accepted: Result<(), Erc1155Error>,
    account: Account,
    id: nat,
)
    requires
        s.batch_answer(from, from, ids, values, accepted) is Ok,
    ensures
        s.after_batch(from, from, ids, values).ledger.balance(account, id) == s.ledger.balance(
            account,
            id,
        ),
{
    lemma_move_each_balance(s.ledger, from, from, ids, values, account, id);
}

/// A batch to oneself can be moved if each element by itself is there.
proof fn lemma_can_stay_each(ledger: Ledger1155, from: Account, ids: Seq<nat>, values: Seq<nat>)
    requires
        forall|id: nat| #[trigger] requested(ids, values, id) <= ledger.balance(from, id),
    ensures
        ledger.can_move_each(from, from, ids, values) is Ok,
    decreases ids.len(),
{
    if ids.len() > 0 && values.len() > 0 {
        assert(requested(ids, values, ids[0]) <= ledger.balance(from, ids[0]));
        let moved = ledger.move_one(from, from, ids[0], values[0]);
        assert forall|id: nat| #[trigger]
            requested(ids.drop_first(), values.drop_first(), id) <= moved.balance(from, id) by {
            assert(requested(ids, values, id) <= ledger.balance(from, id));
        }
        lemma_can_stay_each(moved, from, ids.drop_first(), values.drop_first());
    }
}

/// The question and the deed agree for batches: a batch goes through, if the caller may send for
/// `from`, the lists are equally long and the receiver accepts it, if and only if neither end is
/// the zero account, the allowlists allow it and `can_transfer` says of each id that all that is
/// asked for of it could be transferred. To oneself, which moves nothing, this takes that what is
/// asked for is a 256-bit integer.
pub proof fn law_can_transfer_agrees_with_batch(
    s: State1155,
    from: Account,
    to: Account,
    ids: Seq<nat>,
    values: Seq<nat>,
    accepted: Result<(), Erc1155Error>,
)
    requires
        s.ledger.valid(),
        from == to ==> forall|i: int|
            0 <= i < ids.len() ==> requested(ids, values, #[trigger] ids[i]) < modulus(),
        ids.len() == values.len(),
        s.caller == from || s.ledger.operators.contains((from, s.caller)),
        accepted is Ok,
    ensures
        s.batch_answer(from, to, ids, values, accepted) is Ok <==> from != Account::zero_account()
            && to != Account::zero_account() && s.senders.contains(from) && s.receivers.contains(to)
            && forall|i: int|
            0 <= i < ids.len() ==> s.can_transfer(
                from,
                to,
                #[trigger] ids[i],
                requested(ids, values, ids[i]),
            ),
{
    lemma_check_ids(s, from, ids, values, ids);
    if s.batch_answer(from, to, ids, values, accepted) is Ok {
        assert forall|i: int| 0 <= i < ids.len() implies s.can_transfer(
            from,
            to,
            #[trigger] ids[i],
            requested(ids, values, ids[i]),
        ) by {
            if from != to {
                law_batch_moves_only_unfrozen(s, from, to, ids, values, accepted, ids[i]);
            } else {
                assert(wrap(requested(ids, values, ids[i]) as int) <= s.unfrozen(from, ids[i]));
            }
        }
    } else if s.senders.contains(from) && s.receivers.contains(to) && forall|i: int|
        0 <= i < ids.len() ==> s.can_transfer(
            from,
            to,
            #[trigger] ids[i],
            requested(ids, values, ids[i]),
        ) {
        assert forall|i: int| 0 <= i < ids.len() implies wrap(
            requested(ids, values, #[trigger] ids[i]) as int,
        ) <= s.unfrozen(from, ids[i]) by {
            assert(s.can_transfer(from, to, ids[i], requested(ids, values, ids[i])));
            assert(s.ledger.balance(from, ids[i]) < modulus());
        }
        assert forall|id: nat| #[trigger] requested(ids, values, id) <= s.ledger.balance(
            from,
            id,
        ) by {
            if ids.contains(id) {
                let i = choose|i: int| 0 <= i < ids.len() && ids[i] == id;
                assert(s.can_transfer(from, to, ids[i], requested(ids, values, ids[i])));
            } else {
                lemma_not_requested(ids, values, id);
            }
        }
        if from != to {
            lemma_can_move_each(s.ledger, from, to, ids, values);
        } else {
            lemma_can_stay_each(s.ledger, from, ids, values);
        }
    }
}

/// The question and the deed agree: a transfer that the receiver accepts goes through if and only
/// if `can_transfer` says that it would and the caller may send for `from`.
pub proof fn law_can_transfer_agrees_with_transfer(
    s: State1155,
    from: Account,
    to: Account,
    id: nat,
    value: nat,
    accepted: Result<(), Erc1155Error>,
)
    requires
        accepted is Ok,
    ensures
        s.transfer_answer(from, to, id, value, accepted) is Ok <==> s.can_transfer(
            from,
            to,
            id,
            value,
        ) && (s.caller == from || s.ledger.operators.contains((from, s.caller))),
{
    reveal_with_fuel(Ledger1155::can_move_each, 2);
    assert(seq![id].drop_first().len() == 0);
}

/// A single transfer is the batch of that transfer alone: within the rules, it is answered alike
/// and leaves the same behind.
pub proof fn law_single_is_batch_of_one(
    s: State1155,
    from: Account,
    to: Account,
    id: nat,
    value: nat,
    accepted: Result<(), Erc1155Error>,
)
    requires
        value < modulus(),
    ensures
        s.transfer_answer(from, to, id, value, accepted) == s.batch_answer(
            from,
            to,
            seq![id],
            seq![value],
            accepted,
        ),
        s.after_transfer(from, to, id, value) == s.after_batch(from, to, seq![id], seq![value]),
{
    lemma_requested_one(id, value, id);
    reveal_with_fuel(State1155::check_ids, 2);
    assert(seq![id].drop_first().len() == 0);
}

/// An account that is no contract accepts all tokens, whatever the reply would be.
pub proof fn law_plain_accounts_accept(to: Account, reply: Reply)
    ensures
        erc1155_accepted(false, reply, to) is Ok,
{
}

/// What a seizure that moves tokens leaves behind: the tokens have moved, and what of them was
/// frozen is frozen no longer.
pub(crate) proof fn lemma_forced(
    s: State1155,
    from: Account,
    to: Account,
    id: nat,
    amount: nat,
    accepted: Result<(), Erc1155Error>,
)
    requires
        s.forced_moves(from, to, id, amount),
    ensures
        s.after_forced(from, to, id, amount, accepted).ledger == s.ledger.move_one(
            from,
            to,
            id,
            amount,
        ),
        s.after_forced(from, to, id, amount, accepted).frozen == s.release(
            from,
            id,
            amount,
        ).frozen,
{
    let zero = Account::zero_account();
    lemma_update_one(s.ledger, from, zero, id, amount);
    lemma_update_one(s.ledger.debit(from, id, amount), zero, to, id, amount);
}

/// What `call` adds to what there is of the token `id`.
pub open spec fn created(s: State1155, call: Call1155, id: nat) -> int {
    match call {
        Call1155::Mint { to, ids, amounts, accepted } => requested(ids, amounts, id) as int,
        Call1155::Burn { ids, amounts } => -(requested(ids, amounts, id) as int),
        _ => 0,
    }
}

/// Only minting and burning change how much there is of a token, by as much as is asked for; a
/// transfer, a batch or a seizure never does. And balances stay 256-bit integers.
pub proof fn law_supply(s: State1155, call: Call1155, id: nat)
    requires
        s.ledger.valid(),
        s.admits(call),
        s.succeeds(call),
    ensures
        s.after(call).ledger.valid(),
        s.after(call).ledger.supply(id) == s.ledger.supply(id) + created(s, call, id),
{
    let zero = Account::zero_account();
    match call {
        Call1155::Mint { to, ids, amounts, accepted } => {
            lemma_mint_each(s.ledger, to, ids, amounts);
            lemma_move_each_supply(s.ledger, zero, to, ids, amounts, id);
        },
        Call1155::Burn { ids, amounts } => {
            lemma_burn_releases(s, ids, amounts, id);
            lemma_burn_has_room(s.ledger, s.caller, ids, amounts);
            lemma_move_each_supply(s.ledger, s.caller, zero, ids, amounts, id);
        },
        Call1155::ForcedTransfer { from, to, id: seized, amount, accepted } => {
            if from != to {
                lemma_forced(s, from, to, seized, amount, accepted);
                lemma_move_one_supply(s.ledger, from, to, seized, amount, id);
            }
        },
        Call1155::SafeTransferFrom { from, to, id: sent, value, accepted } => {
            lemma_move_each_supply(s.ledger, from, to, seq![sent], seq![value], id);
        },
        Call1155::SafeBatchTransferFrom { from, to, ids, values, accepted } => {
            lemma_move_each_supply(s.ledger, from, to, ids, values, id);
        },
        Call1155::SetApprovalForAll { operator, approved } => {
            assert(s.after(call).ledger.holdings(id) =~= s.ledger.holdings(id));
            assert forall|account: Account, i: nat| #[trigger]
                s.after(call).ledger.balance(account, i) < modulus() by {
                assert(s.ledger.balance(account, i) < modulus());
            }
        },
        _ => {},
    }
}

/// What leaves existence needs no room.
proof fn lemma_burn_has_room(ledger: Ledger1155, from: Account, ids: Seq<nat>, values: Seq<nat>)
    ensures
        ledger.has_room_each(from, Account::zero_account(), ids, values),
    decreases ids.len(),
{
    if ids.len() > 0 && values.len() > 0 {
        lemma_burn_has_room(
            ledger.move_one(from, Account::zero_account(), ids[0], values[0]),
            from,
            ids.drop_first(),
            values.drop_first(),
        );
    }
}

/// A contract that nobody has touched: its balances are 256-bit integers, and there is nothing
/// of any token.
pub proof fn law_new_ledger_is_valid(s: State1155, id: nat)
    requires
        s.ledger == (Ledger1155 { balances: Map::empty(), operators: Set::empty() }),
    ensures
        s.ledger.valid(),
        s.ledger.supply(id) == 0,
{
    assert(s.ledger.holdings(id) =~= Map::empty());
}

/// Balances are 256-bit integers throughout the history of a contract.
pub proof fn law_balances_valid_throughout(s: State1155, calls: Seq<(Account, Call1155)>)
    requires
        s.ledger.valid(),
    ensures
        s.history(calls).ledger.valid(),
    decreases calls.len(),
{
    if calls.len() > 0 {
        law_balances_valid_throughout(s, calls.drop_last());
        let before = State1155 { caller: calls.last().0, ..s.history(calls.drop_last()) };
        if before.admits(calls.last().1) && before.succeeds(calls.last().1) {
            law_supply(before, calls.last().1, 0);
        }
    }
}

/// Releasing changes no balance, nobody's list and no role, and nobody else's freeze.
pub(crate) proof fn lemma_release_frame(
    s: State1155,
    account: Account,
    ids: Seq<nat>,
    amounts: Seq<nat>,
    k: nat,
)
    ensures
        s.release_from(account, ids, amounts, k) == (State1155 {
            frozen: s.release_from(account, ids, amounts, k).frozen,
            log: s.release_from(account, ids, amounts, k).log,
            ..s
        }),
        forall|other: Account, id: nat|
            other != account ==> #[trigger] s.release_from(account, ids, amounts, k).frozen_of(
                other,
                id,
            ) == s.frozen_of(other, id),
    decreases ids.len() - k,
{
    let left = s.left(account, ids, amounts, k as int);
    if k < ids.len() && k < amounts.len() && amounts[k as int] <= left {
        let next = s.release_of(left as nat, account, ids[k as int], amounts[k as int]);
        lemma_release_frame(next, account, ids, amounts, k + 1);
    }
}

/// Releasing for the elements of a batch one after the other releases what releasing for all
/// that it asks for at once does, if that is there.
proof fn lemma_release_total(
    s: State1155,
    t: State1155,
    account: Account,
    ids: Seq<nat>,
    amounts: Seq<nat>,
    k: nat,
    id: nat,
)
    requires
        k <= ids.len(),
        k <= amounts.len(),
        t.ledger == s.ledger,
        forall|i: nat| #[trigger] requested(ids, amounts, i) <= s.ledger.balance(account, i),
        t.frozen_of(account, id) == s.release(
            account,
            id,
            requested(ids.take(k as int), amounts.take(k as int), id),
        ).frozen_of(account, id),
    ensures
        t.release_from(account, ids, amounts, k).frozen_of(account, id) == s.release(
            account,
            id,
            requested(ids, amounts, id),
        ).frozen_of(account, id),
    decreases ids.len() - k,
{
    if k >= ids.len() || k >= amounts.len() {
        lemma_requested_all(ids, amounts, k as int, id);
    } else {
        let (next_id, amount) = (ids[k as int], amounts[k as int]);
        let whole: int = if ids.len() <= amounts.len() {
            ids.len() as int
        } else {
            amounts.len() as int
        };
        assert(requested(ids, amounts, next_id) <= s.ledger.balance(account, next_id));
        lemma_requested_push(ids, amounts, k as int, next_id);
        lemma_requested_push(ids, amounts, k as int, id);
        lemma_requested_grows(ids, amounts, k as int + 1, whole, next_id);
        lemma_requested_all(ids, amounts, whole, next_id);
        let left = t.left(account, ids, amounts, k as int);
        let next = t.release_of(left as nat, account, next_id, amount);
        lemma_release_total(s, next, account, ids, amounts, k + 1, id);
    }
}

/// What a burn that goes through does to a freeze: what burning all that it asks for at once
/// would.
pub(crate) proof fn lemma_burn_releases(s: State1155, ids: Seq<nat>, amounts: Seq<nat>, id: nat)
    requires
        s.burn_answer(ids, amounts) is Ok,
    ensures
        s.after_burn(ids, amounts).frozen_of(s.caller, id) == s.release(
            s.caller,
            id,
            requested(ids, amounts, id),
        ).frozen_of(s.caller, id),
        s.after_burn(ids, amounts).ledger == s.ledger.move_each(
            s.caller,
            Account::zero_account(),
            ids,
            amounts,
        ),
        forall|other: Account, i: nat|
            other != s.caller ==> #[trigger] s.after_burn(ids, amounts).frozen_of(other, i)
                == s.frozen_of(other, i),
{
    let zero = Account::zero_account();
    let released = s.release_from(s.caller, ids, amounts, 0);
    lemma_release_frame(s, s.caller, ids, amounts, 0);
    assert forall|i: nat| #[trigger] requested(ids, amounts, i) <= s.ledger.balance(
        s.caller,
        i,
    ) by {
        lemma_move_each_balance(s.ledger, s.caller, zero, ids, amounts, s.caller, i);
    }
    assert(requested(ids.take(0), amounts.take(0), id) == 0);
    lemma_release_total(s, s, s.caller, ids, amounts, 0, id);
    assert(s.after_burn(ids, amounts).frozen == released.frozen);
    assert forall|other: Account, i: nat| other != s.caller implies #[trigger] s.after_burn(
        ids,
        amounts,
    ).frozen_of(other, i) == s.frozen_of(other, i) by {
        assert(released.frozen_of(other, i) == s.frozen_of(other, i));
    }
}

/// What is frozen stays where it is unless it is burned or seized: no other call leaves an
/// account with less than was frozen of what it had.
pub proof fn law_frozen_tokens_stay(s: State1155, call: Call1155, account: Account, id: nat)
    requires
        s.ledger.valid(),
        s.admits(call),
        s.succeeds(call),
        !(call is Burn),
        !(call is ForcedTransfer),
    ensures
        s.after(call).ledger.balance(account, id) >= s.frozen_of(account, id)
            || s.after(call).ledger.balance(account, id) >= s.ledger.balance(account, id),
{
    match call {
        Call1155::Mint { to, ids, amounts, accepted } => {
            lemma_mint_each(s.ledger, to, ids, amounts);
            lemma_move_each_balance(
                s.ledger,
                Account::zero_account(),
                to,
                ids,
                amounts,
                account,
                id,
            );
        },
        Call1155::SafeTransferFrom { from, to, id: sent, value, accepted } => {
            lemma_move_each_balance(s.ledger, from, to, seq![sent], seq![value], account, id);
            lemma_requested_one(sent, value, id);
        },
        Call1155::SafeBatchTransferFrom { from, to, ids, values, accepted } => {
            lemma_move_each_balance(s.ledger, from, to, ids, values, account, id);
            if from != to {
                law_batch_moves_only_unfrozen(s, from, to, ids, values, accepted, id);
            }
        },
        _ => {},
    }
}

/// Only accounts on the receive-allowlist ever gain tokens.
pub proof fn law_only_receivers_gain(s: State1155, call: Call1155, account: Account, id: nat)
    requires
        s.succeeds(call),
        s.after(call).ledger.balance(account, id) > s.ledger.balance(account, id),
    ensures
        s.receivers.contains(account),
{
    let zero = Account::zero_account();
    match call {
        Call1155::Mint { to, ids, amounts, accepted } => {
            lemma_mint_each(s.ledger, to, ids, amounts);
            lemma_move_each_balance(s.ledger, zero, to, ids, amounts, account, id);
        },
        Call1155::Burn { ids, amounts } => {
            lemma_burn_releases(s, ids, amounts, id);
            lemma_move_each_balance(s.ledger, s.caller, zero, ids, amounts, account, id);
        },
        Call1155::SafeTransferFrom { from, to, id: sent, value, accepted } => {
            lemma_move_each_balance(s.ledger, from, to, seq![sent], seq![value], account, id);
        },
        Call1155::SafeBatchTransferFrom { from, to, ids, values, accepted } => {
            lemma_move_each_balance(s.ledger, from, to, ids, values, account, id);
        },
        Call1155::ForcedTransfer { from, to, id: seized, amount, accepted } => {
            if from != to {
                lemma_forced(s, from, to, seized, amount, accepted);
            }
        },
        _ => {},
    }
}

/// Only accounts on the send-allowlist ever lose tokens, but to a seizure.
pub proof fn law_only_senders_lose(s: State1155, call: Call1155, account: Account, id: nat)
    requires
        s.succeeds(call),
        s.after(call).ledger.balance(account, id) < s.ledger.balance(account, id),
    ensures
        s.senders.contains(account) || call is ForcedTransfer,
{
    let zero = Account::zero_account();
    match call {
        Call1155::Mint { to, ids, amounts, accepted } => {
            lemma_mint_each(s.ledger, to, ids, amounts);
            lemma_move_each_balance(s.ledger, zero, to, ids, amounts, account, id);
        },
        Call1155::Burn { ids, amounts } => {
            lemma_burn_releases(s, ids, amounts, id);
            lemma_move_each_balance(s.ledger, s.caller, zero, ids, amounts, account, id);
        },
        Call1155::SafeTransferFrom { from, to, id: sent, value, accepted } => {
            lemma_move_each_balance(s.ledger, from, to, seq![sent], seq![value], account, id);
        },
        Call1155::SafeBatchTransferFrom { from, to, ids, values, accepted } => {
            lemma_move_each_balance(s.ledger, from, to, ids, values, account, id);
        },
        Call1155::ForcedTransfer { from, to, id: seized, amount, accepted } => {
            if from != to {
                lemma_forced(s, from, to, seized, amount, accepted);
            }
        },
        _ => {},
    }
}

/// What a seizure takes: unfrozen tokens first, and only then frozen ones, which then no longer
/// count as frozen. They arrive in full.
pub proof fn law_seizure_takes_unfrozen_first(
    s: State1155,
    from: Account,
    to: Account,
    id: nat,
    amount: nat,
    accepted: Result<(), Erc1155Error>,
)
    requires
        s.forced_answer(from, to, id, amount, accepted) is Ok,
        from != to,
    ensures
        ({
            let t = s.after_forced(from, to, id, amount, accepted);
            &&& t.ledger.balance(from, id) == s.ledger.balance(from, id) - amount
            &&& t.ledger.balance(to, id) == s.ledger.balance(to, id) + amount
            &&& t.unfrozen(from, id) == (if amount <= s.unfrozen(from, id) {
                s.unfrozen(from, id) - amount
            } else {
                0
            })
            &&& t.frozen_of(from, id) == (if amount <= s.unfrozen(from, id) {
                s.frozen_of(from, id) as int
            } else {
                s.frozen_of(from, id) - (amount - s.unfrozen(from, id))
            })
            &&& forall|account: Account, other: nat|
                (account, other) != (from, id) ==> #[trigger] t.frozen_of(account, other)
                    == s.frozen_of(account, other)
        }),
{
    lemma_forced(s, from, to, id, amount, accepted);
}

/// A seizure that leads back to its victim changes nothing: no balance, no freeze, no
/// allowlist. It is logged, whatever the amount, and nobody is asked.
pub proof fn law_self_seizure_changes_nothing(
    s: State1155,
    account: Account,
    id: nat,
    amount: nat,
    accepted: Result<(), Erc1155Error>,
)
    ensures
        s.forced_answer(account, account, id, amount, accepted) == s.check_forced(
            account,
            account,
        ),
        s.check_forced(account, account) is Ok ==> s.after_forced(
            account,
            account,
            id,
            amount,
            accepted,
        ) == (State1155 {
            log: s.log.push(forced_token_amount(account, account, id, amount)),
            ..s
        }),
        s.check_forced(account, account) is Err ==> s.after_forced(
            account,
            account,
            id,
            amount,
            accepted,
        ) == s,
{
}

/// Neither the send-allowlist nor a freeze stands in the way of a seizure or changes what it
/// moves.
pub proof fn law_seizure_ignores_freeze_and_senders(
    s: State1155,
    t: State1155,
    from: Account,
    to: Account,
    id: nat,
    amount: nat,
    accepted: Result<(), Erc1155Error>,
)
    requires
        t == (State1155 { senders: t.senders, frozen: t.frozen, ..s }),
    ensures
        s.forced_answer(from, to, id, amount, accepted) == t.forced_answer(
            from,
            to,
            id,
            amount,
            accepted,
        ),
        s.after_forced(from, to, id, amount, accepted).ledger == t.after_forced(
            from,
            to,
            id,
            amount,
            accepted,
        ).ledger,
{
}

/// Whether no account has more of a token frozen than it has.
pub open spec fn freezes_covered(s: State1155) -> bool {
    forall|account: Account, id: nat| #[trigger]
        s.frozen_of(account, id) <= s.ledger.balance(account, id)
}

/// Freezes that are covered by balances stay so, whatever is called that succeeds; only setting
/// a freeze can go beyond a balance.
pub proof fn law_freezes_stay_covered(s: State1155, call: Call1155)
    requires
        s.ledger.valid(),
        s.admits(call),
        s.succeeds(call),
        freezes_covered(s),
        !(call is SetFrozenTokens),
    ensures
        freezes_covered(s.after(call)),
{
    let t = s.after(call);
    let zero = Account::zero_account();
    assert forall|account: Account, id: nat| #[trigger]
        t.frozen_of(account, id) <= t.ledger.balance(account, id) by {
        assert(s.frozen_of(account, id) <= s.ledger.balance(account, id));
        match call {
            Call1155::Burn { ids, amounts } => {
                lemma_burn_releases(s, ids, amounts, id);
                lemma_move_each_balance(s.ledger, s.caller, zero, ids, amounts, account, id);
            },
            Call1155::Mint { .. } | Call1155::SafeTransferFrom { .. }
            | Call1155::SafeBatchTransferFrom { .. } => {
                law_frozen_tokens_stay(s, call, account, id);
            },
            Call1155::ForcedTransfer { from, to, id: seized, amount, accepted } => {
                assert(s.frozen_of(from, seized) <= s.ledger.balance(from, seized));
                if from != to {
                    lemma_forced(s, from, to, seized, amount, accepted);
                }
            },
            _ => {},
        }
    }
}

/// What burning takes, however often a batch repeats an id: unfrozen tokens first, and only then
/// frozen ones, which then no longer count as frozen.
pub proof fn law_burn_takes_unfrozen_first(
    s: State1155,
    ids: Seq<nat>,
    amounts: Seq<nat>,
    id: nat,
)
    requires
        s.burn_answer(ids, amounts) is Ok,
    ensures
        ({
            let t = s.after_burn(ids, amounts);
            let amount = requested(ids, amounts, id);
            &&& t.ledger.balance(s.caller, id) == s.ledger.balance(s.caller, id) - amount
            &&& t.unfrozen(s.caller, id) == (if amount <= s.unfrozen(s.caller, id) {
                s.unfrozen(s.caller, id) - amount
            } else {
                0
            })
            &&& t.frozen_of(s.caller, id) == (if amount <= s.unfrozen(s.caller, id) {
                s.frozen_of(s.caller, id) as int
            } else {
                s.frozen_of(s.caller, id) - (amount - s.unfrozen(s.caller, id))
            })
        }),
{
    lemma_burn_releases(s, ids, amounts, id);
    let zero = Account::zero_account();
    lemma_move_each_balance(s.ledger, s.caller, zero, ids, amounts, s.caller, id);
}

/// What is left after burning the elements of a batch one after the other, each by itself.
pub open spec fn burned_in_turn(s: State1155, ids: Seq<nat>, amounts: Seq<nat>) -> State1155
    decreases ids.len(),
{
    if ids.len() == 0 || amounts.len() == 0 {
        s
    } else {
        burned_in_turn(
            s.after_burn(seq![ids[0]], seq![amounts[0]]),
            ids.drop_first(),
            amounts.drop_first(),
        )
    }
}

/// Whether each element of a batch can be burned by itself after those before it.
pub open spec fn can_burn_in_turn(s: State1155, ids: Seq<nat>, amounts: Seq<nat>) -> bool
    decreases ids.len(),
{
    if ids.len() == 0 || amounts.len() == 0 {
        true
    } else {
        &&& s.burn_answer(seq![ids[0]], seq![amounts[0]]) is Ok
        &&& can_burn_in_turn(
            s.after_burn(seq![ids[0]], seq![amounts[0]]),
            ids.drop_first(),
            amounts.drop_first(),
        )
    }
}

/// A batched burn by an account that may burn is its burns one after the other: it goes through
/// if and only if each of them does, and leaves the same balances and the same freezes.
pub proof fn law_burn_batch_is_burns_in_turn(
    s: State1155,
    ids: Seq<nat>,
    amounts: Seq<nat>,
    account: Account,
    id: nat,
)
    requires
        ids.len() == amounts.len(),
        s.check_burner() is Ok,
        s.caller != Account::zero_account(),
    ensures
        s.burn_answer(ids, amounts) is Ok <==> can_burn_in_turn(s, ids, amounts),
        s.burn_answer(ids, amounts) is Ok ==> s.after_burn(ids, amounts).ledger == burned_in_turn(
            s,
            ids,
            amounts,
        ).ledger,
        s.burn_answer(ids, amounts) is Ok ==> s.after_burn(ids, amounts).frozen_of(account, id)
            == burned_in_turn(s, ids, amounts).frozen_of(account, id),
    decreases ids.len(),
{
    let zero = Account::zero_account();
    if ids.len() > 0 {
        let (first, amount) = (ids[0], amounts[0]);
        let (rest, rest_amounts) = (ids.drop_first(), amounts.drop_first());
        let next = s.after_burn(seq![first], seq![amount]);
        lemma_update_one(s.ledger, s.caller, zero, first, amount);
        lemma_release_frame(s, s.caller, seq![first], seq![amount], 0);
        if s.burn_answer(seq![first], seq![amount]) is Ok {
            law_burn_batch_is_burns_in_turn(next, rest, rest_amounts, account, id);
            if s.burn_answer(ids, amounts) is Ok {
                lemma_burn_releases(s, seq![first], seq![amount], id);
                lemma_requested_one(first, amount, id);
                lemma_burn_releases(s, ids, amounts, id);
                lemma_burn_releases(next, rest, rest_amounts, id);
                lemma_move_each_balance(s.ledger, s.caller, zero, ids, amounts, s.caller, id);
            }
        }
    } else {
        lemma_release_frame(s, s.caller, ids, amounts, 0);
    }
}

/// Minting gives the receiver all that is asked for, and nobody else anything.
pub proof fn law_mint_creates(
    s: State1155,
    to: Account,
    ids: Seq<nat>,
    amounts: Seq<nat>,
    accepted: Result<(), Erc1155Error>,
    account: Account,
    id: nat,
)
    requires
        s.mint_answer(to, ids, amounts, accepted) is Ok,
    ensures
        s.after_mint(to, ids, amounts).ledger.balance(account, id) == s.ledger.balance(account, id)
            + (if account == to {
            requested(ids, amounts, id)
        } else {
            0
        }),
{
    lemma_mint_each(s.ledger, to, ids, amounts);
    lemma_move_each_balance(s.ledger, Account::zero_account(), to, ids, amounts, account, id);
}

/// The role that `call` takes, if it takes one.
pub open spec fn role_for(call: Call1155) -> Option<[u8; 32]> {
    match call {
        Call1155::ChangeSendWhitelist { account, status } => Some(whitelister()),
        Call1155::ChangeReceiveWhitelist { account, status } => Some(whitelister()),
        Call1155::Mint { to, ids, amounts, accepted } => Some(minter()),
        Call1155::Burn { ids, amounts } => Some(burner()),
        Call1155::SetFrozenTokens { account, id, amount } => Some(freezer()),
        Call1155::ForcedTransfer { from, to, id, amount, accepted } => Some(forcer()),
        _ => None,
    }
}

/// A privileged call of someone without the role changes nothing and is refused, and the
/// refusal names the caller and the role.
pub proof fn law_privileged_calls_take_their_role(s: State1155, call: Call1155)
    requires
        role_for(call) is Some,
        !s.members.contains((role_for(call)->0, s.caller)),
    ensures
        !s.succeeds(call),
        s.after(call) == s,
        s.check_role(role_for(call)->0) == Err::<(), Error1155>(
            Error1155::UnauthorizedAccount { account: s.caller, needed_role: role_for(call)->0 },
        ),
        call matches Call1155::Mint { to, ids, amounts, accepted } ==> s.mint_answer(
            to,
            ids,
            amounts,
            accepted,
        ) == s.check_role(minter()),
        call matches Call1155::Burn { ids, amounts } ==> s.burn_answer(ids, amounts)
            == s.check_role(burner()),
        call matches Call1155::ForcedTransfer { from, to, id, amount, accepted } ==>
            s.forced_answer(from, to, id, amount, accepted) == s.check_role(forcer()),
{
}

/// Only holders of a role's admin role hand it out or take it back; others are refused and
/// change nothing.
pub proof fn law_roles_take_their_admin(s: State1155, role: [u8; 32], account: Account)
    requires
        !s.members.contains((admin_of(s.admins, role), s.caller)),
    ensures
        s.admin_answer(role) == Err::<(), AccessError>(
            AccessError::UnauthorizedAccount {
                account: s.caller,
                needed_role: admin_of(s.admins, role),
            },
        ),
        s.after_grant(role, account) == s,
        s.after_revoke(role, account) == s,
{
}

/// No call makes anybody a holder of a role but the constructor and a grant by the role's admin.
pub proof fn law_roles_come_from_admins(
    s: State1155,
    call: Call1155,
    role: [u8; 32],
    account: Account,
)
    requires
        !s.members.contains((role, account)),
        s.after(call).members.contains((role, account)),
    ensures
        call == (Call1155::Constructor { initial_admin: account }) || (call == (Call1155::GrantRole {
            role,
            account,
        }) && s.members.contains((admin_of(s.admins, role), s.caller))),
{
    if let Call1155::Burn { ids, amounts } = call {
        lemma_release_frame(s, s.caller, ids, amounts, 0);
    }
}

/// The constructor hands every role to the initial admin.
pub proof fn law_constructor_grants_every_role(s: State1155, initial_admin: Account)
    ensures
        ({
            let t = s.after_constructor(initial_admin);
            &&& t.members.contains((default_admin(), initial_admin))
            &&& t.members.contains((minter(), initial_admin))
            &&& t.members.contains((burner(), initial_admin))
            &&& t.members.contains((freezer(), initial_admin))
            &&& t.members.contains((whitelister(), initial_admin))
            &&& t.members.contains((forcer(), initial_admin))
        }),
{
}

/// A transfer that the rules of this token refuse changes nothing, and neither does one of lists
/// that are not equally long.
pub proof fn law_rules_refuse_without_change(
    s: State1155,
    from: Account,
    to: Account,
    ids: Seq<nat>,
    values: Seq<nat>,
)
    ensures
        s.check_batch(from, to, ids, values) is Err ==> s.after_batch(from, to, ids, values) == s,
        ids.len() != values.len() ==> s.after_batch(from, to, ids, values) == s,
        s.check_mint(to) is Err ==> s.after_mint(to, ids, values) == s,
        s.check_burner() is Err ==> s.after_burn(ids, values) == s,
{
}

/// What was set is what is read: freezes, allowlists, operators and roles.
pub proof fn law_reads_give_back_writes(
    s: State1155,
    account: Account,
    other: Account,
    id: nat,
    amount: nat,
    status: bool,
    role: [u8; 32],
)
    ensures
        s.check_role(freezer()) is Ok ==> s.after_set_frozen(account, id, amount).frozen_of(
            account,
            id,
        ) == amount,
        other != account ==> s.after_set_frozen(account, id, amount).frozen_of(other, id)
            == s.frozen_of(other, id),
        s.check_role(whitelister()) is Ok ==> (s.after_change_send(
            account,
            status,
        ).senders.contains(account) <==> status),
        other != account ==> (s.after_change_send(account, status).senders.contains(other)
            <==> s.senders.contains(other)),
        s.check_role(whitelister()) is Ok ==> (s.after_change_receive(
            account,
            status,
        ).receivers.contains(account) <==> status),
        other != account ==> (s.after_change_receive(account, status).receivers.contains(other)
            <==> s.receivers.contains(other)),
        account != Account::zero_account() ==> (s.after_set_operator(
            account,
            status,
        ).ledger.operators.contains((s.caller, account)) <==> status),
        s.admin_answer(role) is Ok ==> s.after_grant(role, account).members.contains(
            (role, account),
        ),
        s.admin_answer(role) is Ok ==> !s.after_revoke(role, account).members.contains(
            (role, account),
        ),
        s.renounce_answer(account) is Ok ==> !s.after_renounce(role, account).members.contains(
            (role, account),
        ),
{
}

} // verus!
