//! The base contract for many tokens, each with an id.

use vstd::prelude::*;

use openzeppelin_stylus::token::erc1155::{self, Erc1155, IErc1155};
use openzeppelin_stylus::utils::introspection::erc165::IErc165;
use stylus_sdk::host::WasmVM;

use crate::account::Account;
use crate::events::{approved_for_all, moved_token_amount, moved_token_amounts};
use crate::host::{call_sender, logged, LogEntry};
use crate::receiver::Reply;
use crate::storage::{amount_at, set_to};
use crate::uint::{modulus, u256, U256};

verus! {

/// The storage of many tokens.
#[verifier::external_type_specification]
#[verifier::external_body]
pub struct ExErc1155(Erc1155);

/// What the base contract answers when it refuses.
#[verifier::external_type_specification]
#[verifier::external_body]
pub struct ExErc1155Error(erc1155::Error);

/// Why the base contract refuses.
#[derive(Clone, Debug)]
pub enum Erc1155Error {
    /// `sender` has `balance` of the token `token_id`, which is less than `needed`.
    InsufficientBalance { sender: Account, balance: U256, needed: U256, token_id: U256 },
    /// `sender` cannot send.
    InvalidSender { sender: Account },
    /// `receiver` cannot receive.
    InvalidReceiver { receiver: Account },
    /// The receiver failed with a message.
    InvalidReceiverWithReason { reason: String },
    /// `operator` is no operator of `owner`.
    MissingApprovalForAll { operator: Account, owner: Account },
    /// `approver` cannot approve.
    InvalidApprover { approver: Account },
    /// `operator` cannot be an operator.
    InvalidOperator { operator: Account },
    /// There are `ids_length` ids, and another number of what goes with them.
    InvalidArrayLength { ids_length: U256, values_length: U256 },
}

/// What a contract for many tokens keeps.
#[verifier::ext_equal]
pub struct Ledger1155 {
    /// How much an account has of the token with an id.
    pub balances: Map<(Account, nat), nat>,
    /// The pairs of an owner and an operator for all its tokens.
    pub operators: Set<(Account, Account)>,
}

/// The balances that `token` holds.
pub uninterp spec fn erc1155_balances(token: Erc1155) -> Map<(Account, nat), nat>;

/// The operators that `token` holds.
pub uninterp spec fn erc1155_operators(token: Erc1155) -> Set<(Account, Account)>;

/// Whether `account` is a contract, on the chain as it is when `token` is called. A call has the
/// chain to itself: while it runs, nothing changes but by what it does through `token`.
pub uninterp spec fn erc1155_sees_code(token: Erc1155, account: Account) -> bool;

/// What the contract `to` replies, on the chain as it is when `token` is called, to being
/// handed `values` of the tokens `ids` of `from` by `operator`, with `data`.
pub uninterp spec fn erc1155_reply(
    token: Erc1155,
    operator: Account,
    from: Account,
    to: Account,
    ids: Seq<nat>,
    values: Seq<nat>,
    data: Seq<u8>,
) -> Reply;

/// What the refusal `error` says.
pub uninterp spec fn erc1155_error(error: erc1155::Error) -> Erc1155Error;

/// All that `token` holds.
pub open spec fn ledger1155(token: Erc1155) -> Ledger1155 {
    Ledger1155 { balances: erc1155_balances(token), operators: erc1155_operators(token) }
}

/// What `r` says, refusals spelled out.
pub open spec fn erc1155_result<T>(r: Result<T, erc1155::Error>) -> Result<T, Erc1155Error> {
    match r {
        Ok(value) => Ok(value),
        Err(error) => Err(erc1155_error(error)),
    }
}

/// The integers that `words` stand for.
pub open spec fn values_of(words: Seq<U256>) -> Seq<nat> {
    words.map_values(|n: U256| n@)
}

/// Whether `to` takes tokens: any account does that is no contract, and a contract does that
/// replies so.
pub open spec fn erc1155_accepted(is_contract: bool, reply: Reply, to: Account) -> Result<
    (),
    Erc1155Error,
> {
    if !is_contract {
        Ok(())
    } else {
        match reply {
            Reply::Accepted => Ok(()),
            Reply::Refused => Err(Erc1155Error::InvalidReceiver { receiver: to }),
            Reply::RefusedBecause(reason) =>
                Err(Erc1155Error::InvalidReceiverWithReason { reason }),
        }
    }
}

/// `first`, or where that is no refusal, `second`.
pub open spec fn and_also(
    first: Result<(), Erc1155Error>,
    second: Result<(), Erc1155Error>,
) -> Result<(), Erc1155Error> {
    if first is Err {
        first
    } else {
        second
    }
}

/// The entry for a batch that `operator` moved from `from` to `to`: one of its own for a batch
/// of one.
pub open spec fn moved_entry(
    operator: Account,
    from: Account,
    to: Account,
    ids: Seq<nat>,
    values: Seq<nat>,
) -> LogEntry {
    if ids.len() == 1 {
        moved_token_amount(operator, from, to, ids[0], values[0])
    } else {
        moved_token_amounts(operator, from, to, ids, values)
    }
}

/// Whether there are as many ids as there are of what goes with them, or else the refusal.
pub open spec fn same_length(ids_length: nat, values_length: nat) -> Result<(), Erc1155Error> {
    if ids_length != values_length {
        Err(
            Erc1155Error::InvalidArrayLength {
                ids_length: u256(ids_length),
                values_length: u256(values_length),
            },
        )
    } else {
        Ok(())
    }
}

impl Ledger1155 {
    /// How much `account` has of the token `id`.
    pub open spec fn balance(self, account: Account, id: nat) -> nat {
        amount_at(self.balances, (account, id))
    }

    /// Whether `from` has at least `value` of the token `id`, or else the refusal. The zero
    /// account is not asked.
    pub open spec fn can_debit(self, from: Account, id: nat, value: nat) -> Result<
        (),
        Erc1155Error,
    > {
        if from != Account::zero_account() && self.balance(from, id) < value {
            Err(
                Erc1155Error::InsufficientBalance {
                    sender: from,
                    balance: u256(self.balance(from, id)),
                    needed: u256(value),
                    token_id: u256(id),
                },
            )
        } else {
            Ok(())
        }
    }

    /// After `value` of the token `id`, which it has, were taken from `from`. Nothing is taken
    /// from the zero account.
    pub open spec fn debit(self, from: Account, id: nat, value: nat) -> Ledger1155 {
        if from == Account::zero_account() {
            self
        } else {
            Ledger1155 {
                balances: self.balances.insert(
                    (from, id),
                    (self.balance(from, id) - value) as nat,
                ),
                ..self
            }
        }
    }

    /// After `value` of the token `id` were given to `to`. Nothing is given to the zero
    /// account.
    pub open spec fn credit(self, to: Account, id: nat, value: nat) -> Ledger1155 {
        if to == Account::zero_account() {
            self
        } else {
            Ledger1155 {
                balances: self.balances.insert((to, id), self.balance(to, id) + value),
                ..self
            }
        }
    }

    /// After `value` of the token `id` went from `from` to `to`; from the zero account is into
    /// existence, and to it is out of existence.
    pub open spec fn move_one(self, from: Account, to: Account, id: nat, value: nat) -> Ledger1155 {
        self.debit(from, id, value).credit(to, id, value)
    }

    /// Whether the balance of `to` has room for `value` more of the token `id`, which come from
    /// `from`.
    pub open spec fn has_room(self, from: Account, to: Account, id: nat, value: nat) -> bool {
        to != Account::zero_account() ==> self.debit(from, id, value).balance(to, id) + value
            < modulus()
    }

    /// Whether each of `values` can go from `from` to `to`, one after the other, or else the
    /// refusal of the first that cannot.
    pub open spec fn can_move_each(
        self,
        from: Account,
        to: Account,
        ids: Seq<nat>,
        values: Seq<nat>,
    ) -> Result<(), Erc1155Error>
        decreases ids.len(),
    {
        if ids.len() == 0 || values.len() == 0 {
            Ok(())
        } else if self.can_debit(from, ids[0], values[0]) is Err {
            self.can_debit(from, ids[0], values[0])
        } else {
            self.move_one(from, to, ids[0], values[0]).can_move_each(
                from,
                to,
                ids.drop_first(),
                values.drop_first(),
            )
        }
    }

    /// After `values` went from `from` to `to`, one after the other, up to the first that
    /// cannot.
    pub open spec fn move_each(
        self,
        from: Account,
        to: Account,
        ids: Seq<nat>,
        values: Seq<nat>,
    ) -> Ledger1155
        decreases ids.len(),
    {
        if ids.len() == 0 || values.len() == 0 || self.can_debit(from, ids[0], values[0]) is Err {
            self
        } else {
            self.move_one(from, to, ids[0], values[0]).move_each(
                from,
                to,
                ids.drop_first(),
                values.drop_first(),
            )
        }
    }

    /// Whether there is room at every step of [`Ledger1155::move_each`].
    pub open spec fn has_room_each(
        self,
        from: Account,
        to: Account,
        ids: Seq<nat>,
        values: Seq<nat>,
    ) -> bool
        decreases ids.len(),
    {
        if ids.len() == 0 || values.len() == 0 || self.can_debit(from, ids[0], values[0]) is Err {
            true
        } else {
            &&& self.has_room(from, to, ids[0], values[0])
            &&& self.move_one(from, to, ids[0], values[0]).has_room_each(
                from,
                to,
                ids.drop_first(),
                values.drop_first(),
            )
        }
    }

    /// What moving `values` of the tokens `ids` is answered.
    pub open spec fn update_answer(
        self,
        from: Account,
        to: Account,
        ids: Seq<nat>,
        values: Seq<nat>,
    ) -> Result<(), Erc1155Error> {
        and_also(same_length(ids.len(), values.len()), self.can_move_each(from, to, ids, values))
    }

    /// What moving `values` of the tokens `ids` leaves behind. What had moved before one could
    /// not stays moved.
    pub open spec fn after_update(
        self,
        from: Account,
        to: Account,
        ids: Seq<nat>,
        values: Seq<nat>,
    ) -> Ledger1155 {
        if ids.len() != values.len() {
            self
        } else {
            self.move_each(from, to, ids, values)
        }
    }

    /// Whether there is room for `values` of the tokens `ids` wherever they arrive.
    pub open spec fn update_fits(
        self,
        from: Account,
        to: Account,
        ids: Seq<nat>,
        values: Seq<nat>,
    ) -> bool {
        ids.len() == values.len() ==> self.has_room_each(from, to, ids, values)
    }

    /// Whether tokens can be minted to `to`, or else the refusal.
    pub open spec fn can_mint(to: Account) -> Result<(), Erc1155Error> {
        if to == Account::zero_account() {
            Err(Erc1155Error::InvalidReceiver { receiver: to })
        } else {
            Ok(())
        }
    }

    /// Whether tokens of `from` can be burned, or else the refusal.
    pub open spec fn can_burn(from: Account) -> Result<(), Erc1155Error> {
        if from == Account::zero_account() {
            Err(Erc1155Error::InvalidSender { sender: from })
        } else {
            Ok(())
        }
    }

    /// Whether `operator` can send tokens of `from` to `to`, or else the refusal.
    pub open spec fn can_send(self, operator: Account, from: Account, to: Account) -> Result<
        (),
        Erc1155Error,
    > {
        if from != operator && !self.operators.contains((from, operator)) {
            Err(Erc1155Error::MissingApprovalForAll { operator, owner: from })
        } else if to == Account::zero_account() {
            Err(Erc1155Error::InvalidReceiver { receiver: to })
        } else if from == Account::zero_account() {
            Err(Erc1155Error::InvalidSender { sender: from })
        } else {
            Ok(())
        }
    }

    /// After `owner` made `operator` an operator or not.
    pub open spec fn set_operator(
        self,
        owner: Account,
        operator: Account,
        approved: bool,
    ) -> Ledger1155 {
        Ledger1155 { operators: set_to(self.operators, (owner, operator), approved), ..self }
    }

    /// Whether `operator` can be an operator, or else the refusal.
    pub open spec fn can_be_operator(operator: Account) -> Result<(), Erc1155Error> {
        if operator == Account::zero_account() {
            Err(Erc1155Error::InvalidOperator { operator })
        } else {
            Ok(())
        }
    }
}

/// Moving one thing is moving it, if it can be.
pub(crate) proof fn lemma_update_one(
    ledger: Ledger1155,
    from: Account,
    to: Account,
    id: nat,
    value: nat,
)
    ensures
        ledger.update_answer(from, to, seq![id], seq![value]) == ledger.can_debit(from, id, value),
        ledger.after_update(from, to, seq![id], seq![value]) == (if ledger.can_debit(
            from,
            id,
            value,
        ) is Ok {
            ledger.move_one(from, to, id, value)
        } else {
            ledger
        }),
        ledger.update_fits(from, to, seq![id], seq![value]) == (ledger.can_debit(
            from,
            id,
            value,
        ) is Ok ==> ledger.has_room(from, to, id, value)),
{
    reveal_with_fuel(Ledger1155::can_move_each, 2);
    reveal_with_fuel(Ledger1155::move_each, 2);
    reveal_with_fuel(Ledger1155::has_room_each, 2);
    assert(seq![id].drop_first().len() == 0);
}

/// Nothing is too much to come into existence.
pub(crate) proof fn lemma_mint_each(
    ledger: Ledger1155,
    to: Account,
    ids: Seq<nat>,
    values: Seq<nat>,
)
    ensures
        ledger.can_move_each(Account::zero_account(), to, ids, values) is Ok,
    decreases ids.len(),
{
    if ids.len() > 0 && values.len() > 0 {
        lemma_mint_each(
            ledger.move_one(Account::zero_account(), to, ids[0], values[0]),
            to,
            ids.drop_first(),
            values.drop_first(),
        );
    }
}

/// `<Erc1155 as IErc1155>::balance_of`: how much `account` has of the token `id`.
#[verifier::external_body]
pub(crate) fn balance_of(token: &Erc1155, account: &Account, id: &U256) -> (r: U256)
    ensures
        r@ == amount_at(erc1155_balances(*token), (*account, id@)),
{
    let id = alloy_primitives::U256::from_limbs(id.limbs);
    U256 { limbs: token.balance_of(account.bytes.into(), id).into_limbs() }
}

/// `<Erc1155 as IErc1155>::balance_of_batch`: how much each of `accounts` has of the token in
/// the same place of `ids`. It refuses where there are not as many of these as of those.
#[verifier::external_body]
pub(crate) fn balance_of_batch(token: &Erc1155, accounts: &Vec<Account>, ids: &Vec<U256>) -> (r:
    Result<Vec<U256>, erc1155::Error>)
    ensures
        match erc1155_result(r) {
            Ok(balances) => {
                &&& accounts@.len() == ids@.len()
                &&& balances@.len() == ids@.len()
                &&& forall|i: int|
                    0 <= i < ids@.len() ==> (#[trigger] balances@[i])@ == amount_at(
                        erc1155_balances(*token),
                        (accounts@[i], ids@[i]@),
                    )
            },
            Err(error) => same_length(ids@.len(), accounts@.len()) == Err::<(), Erc1155Error>(
                error,
            ),
        },
{
    let accounts = accounts.iter().map(|a| a.bytes.into()).collect();
    let ids = ids.iter().map(|n| alloy_primitives::U256::from_limbs(n.limbs)).collect();
    let balances = token.balance_of_batch(accounts, ids);
    balances.map(|all| all.iter().map(|n| U256 { limbs: n.into_limbs() }).collect())
}

/// `Erc1155::_mint` with empty data: `value` new of the token `id` go to `to`, which is logged,
/// and `to` is then asked whether it accepts them. Whatever is answered after they have moved
/// leaves them moved. It panics where the balance has no room. The receiver cannot call this
/// contract back: the host turns such calls away.
#[verifier::external_body]
pub(crate) fn mint(
    token: &mut Erc1155,
    host: &mut WasmVM,
    to: &Account,
    id: &U256,
    value: &U256,
) -> (r: Result<(), erc1155::Error>)
    requires
        Ledger1155::can_mint(*to) is Ok ==> ledger1155(*old(token)).update_fits(
            Account::zero_account(),
            *to,
            seq![id@],
            seq![value@],
        ),
    ensures
        erc1155_result(r) == and_also(
            and_also(
                Ledger1155::can_mint(*to),
                ledger1155(*old(token)).update_answer(
                    Account::zero_account(),
                    *to,
                    seq![id@],
                    seq![value@],
                ),
            ),
            erc1155_accepted(
                erc1155_sees_code(*old(token), *to),
                erc1155_reply(
                    *old(token),
                    call_sender(*old(host)),
                    Account::zero_account(),
                    *to,
                    seq![id@],
                    seq![value@],
                    Seq::empty(),
                ),
                *to,
            ),
        ),
        ledger1155(*final(token)) == (if Ledger1155::can_mint(*to) is Err {
            ledger1155(*old(token))
        } else {
            ledger1155(*old(token)).after_update(
                Account::zero_account(),
                *to,
                seq![id@],
                seq![value@],
            )
        }),
        call_sender(*final(host)) == call_sender(*old(host)),
        logged(*final(host)) == (if Ledger1155::can_mint(*to) is Ok && ledger1155(
            *old(token),
        ).update_answer(Account::zero_account(), *to, seq![id@], seq![value@]) is Ok {
            logged(*old(host)).push(
                moved_entry(
                    call_sender(*old(host)),
                    Account::zero_account(),
                    *to,
                    seq![id@],
                    seq![value@],
                ),
            )
        } else {
            logged(*old(host))
        }),
{
    let id = alloy_primitives::U256::from_limbs(id.limbs);
    let value = alloy_primitives::U256::from_limbs(value.limbs);
    token._mint(to.bytes.into(), id, value, &Vec::new().into())
}

/// `Erc1155::_mint_batch` with empty data: as `_mint`, for many ids.
#[verifier::external_body]
pub(crate) fn mint_batch(
    token: &mut Erc1155,
    host: &mut WasmVM,
    to: &Account,
    ids: &Vec<U256>,
    values: &Vec<U256>,
) -> (r: Result<(), erc1155::Error>)
    requires
        Ledger1155::can_mint(*to) is Ok ==> ledger1155(*old(token)).update_fits(
            Account::zero_account(),
            *to,
            values_of(ids@),
            values_of(values@),
        ),
    ensures
        erc1155_result(r) == and_also(
            and_also(
                Ledger1155::can_mint(*to),
                ledger1155(*old(token)).update_answer(
                    Account::zero_account(),
                    *to,
                    values_of(ids@),
                    values_of(values@),
                ),
            ),
            erc1155_accepted(
                erc1155_sees_code(*old(token), *to),
                erc1155_reply(
                    *old(token),
                    call_sender(*old(host)),
                    Account::zero_account(),
                    *to,
                    values_of(ids@),
                    values_of(values@),
                    Seq::empty(),
                ),
                *to,
            ),
        ),
        ledger1155(*final(token)) == (if Ledger1155::can_mint(*to) is Err {
            ledger1155(*old(token))
        } else {
            ledger1155(*old(token)).after_update(
                Account::zero_account(),
                *to,
                values_of(ids@),
                values_of(values@),
            )
        }),
        call_sender(*final(host)) == call_sender(*old(host)),
        logged(*final(host)) == (if Ledger1155::can_mint(*to) is Ok && ledger1155(
            *old(token),
        ).update_answer(Account::zero_account(), *to, values_of(ids@), values_of(values@)) is Ok {
            logged(*old(host)).push(
                moved_entry(
                    call_sender(*old(host)),
                    Account::zero_account(),
                    *to,
                    values_of(ids@),
                    values_of(values@),
                ),
            )
        } else {
            logged(*old(host))
        }),
{
    let ids = ids.iter().map(|n| alloy_primitives::U256::from_limbs(n.limbs)).collect();
    let values = values.iter().map(|n| alloy_primitives::U256::from_limbs(n.limbs)).collect();
    token._mint_batch(to.bytes.into(), ids, values, &Vec::new().into())
}

/// `Erc1155::_burn`: `value` of the token `id` of `from` cease to exist, which is logged with
/// the account that made the call, which it asks the host for. Nobody is asked, and nothing but
/// the balance changes, which nobody else can look at while the call runs: whoever is asked
/// later replies as it would have.
#[verifier::external_body]
pub(crate) fn burn(
    token: &mut Erc1155,
    host: &mut WasmVM,
    from: &Account,
    id: &U256,
    value: &U256,
) -> (r: Result<(), erc1155::Error>)
    ensures
        erc1155_result(r) == and_also(
            Ledger1155::can_burn(*from),
            ledger1155(*old(token)).update_answer(
                *from,
                Account::zero_account(),
                seq![id@],
                seq![value@],
            ),
        ),
        ledger1155(*final(token)) == (if Ledger1155::can_burn(*from) is Err {
            ledger1155(*old(token))
        } else {
            ledger1155(*old(token)).after_update(
                *from,
                Account::zero_account(),
                seq![id@],
                seq![value@],
            )
        }),
        call_sender(*final(host)) == call_sender(*old(host)),
        logged(*final(host)) == (if Ledger1155::can_burn(*from) is Ok && ledger1155(
            *old(token),
        ).update_answer(*from, Account::zero_account(), seq![id@], seq![value@]) is Ok {
            logged(*old(host)).push(
                moved_entry(
                    call_sender(*old(host)),
                    *from,
                    Account::zero_account(),
                    seq![id@],
                    seq![value@],
                ),
            )
        } else {
            logged(*old(host))
        }),
        forall|account: Account| #[trigger]
            erc1155_sees_code(*final(token), account) == erc1155_sees_code(*old(token), account),
        forall|
            operator: Account,
            f: Account,
            to: Account,
            ids: Seq<nat>,
            values: Seq<nat>,
            data: Seq<u8>,
        | #[trigger]
            erc1155_reply(*final(token), operator, f, to, ids, values, data) == erc1155_reply(
                *old(token),
                operator,
                f,
                to,
                ids,
                values,
                data,
            ),
{
    let id = alloy_primitives::U256::from_limbs(id.limbs);
    let value = alloy_primitives::U256::from_limbs(value.limbs);
    token._burn(from.bytes.into(), id, value)
}

/// `Erc1155::_burn_batch`: as `_burn`, for many ids. What had burned before one could not stays
/// burned.
#[verifier::external_body]
pub(crate) fn burn_batch(
    token: &mut Erc1155,
    host: &mut WasmVM,
    from: &Account,
    ids: &Vec<U256>,
    values: &Vec<U256>,
) -> (r: Result<(), erc1155::Error>)
    ensures
        erc1155_result(r) == and_also(
            Ledger1155::can_burn(*from),
            ledger1155(*old(token)).update_answer(
                *from,
                Account::zero_account(),
                values_of(ids@),
                values_of(values@),
            ),
        ),
        ledger1155(*final(token)) == (if Ledger1155::can_burn(*from) is Err {
            ledger1155(*old(token))
        } else {
            ledger1155(*old(token)).after_update(
                *from,
                Account::zero_account(),
                values_of(ids@),
                values_of(values@),
            )
        }),
        call_sender(*final(host)) == call_sender(*old(host)),
        logged(*final(host)) == (if Ledger1155::can_burn(*from) is Ok && ledger1155(
            *old(token),
        ).update_answer(*from, Account::zero_account(), values_of(ids@), values_of(values@)) is Ok {
            logged(*old(host)).push(
                moved_entry(
                    call_sender(*old(host)),
                    *from,
                    Account::zero_account(),
                    values_of(ids@),
                    values_of(values@),
                ),
            )
        } else {
            logged(*old(host))
        }),
{
    let ids = ids.iter().map(|n| alloy_primitives::U256::from_limbs(n.limbs)).collect();
    let values = values.iter().map(|n| alloy_primitives::U256::from_limbs(n.limbs)).collect();
    token._burn_batch(from.bytes.into(), ids, values)
}

/// `<Erc1155 as IErc1155>::safe_transfer_from`: the account that made the call, which it asks
/// the host for, moves `value` of the token `id` from `from` to `to`, which is logged, and `to`
/// is then asked with `data` whether it accepts them. Whatever is answered after they have
/// moved leaves them moved. It panics where the balance has no room. The receiver cannot call
/// this contract back: the host turns such calls away.
#[verifier::external_body]
pub(crate) fn safe_transfer_from(
    token: &mut Erc1155,
    host: &mut WasmVM,
    from: &Account,
    to: &Account,
    id: &U256,
    value: &U256,
    data: Vec<u8>,
) -> (r: Result<(), erc1155::Error>)
    requires
        ledger1155(*old(token)).can_send(call_sender(*old(host)), *from, *to) is Ok ==> ledger1155(
            *old(token),
        ).update_fits(*from, *to, seq![id@], seq![value@]),
    ensures
        erc1155_result(r) == and_also(
            and_also(
                ledger1155(*old(token)).can_send(call_sender(*old(host)), *from, *to),
                ledger1155(*old(token)).update_answer(*from, *to, seq![id@], seq![value@]),
            ),
            erc1155_accepted(
                erc1155_sees_code(*old(token), *to),
                erc1155_reply(
                    *old(token),
                    call_sender(*old(host)),
                    *from,
                    *to,
                    seq![id@],
                    seq![value@],
                    data@,
                ),
                *to,
            ),
        ),
        ledger1155(*final(token)) == (if ledger1155(*old(token)).can_send(
            call_sender(*old(host)),
            *from,
            *to,
        ) is Err {
            ledger1155(*old(token))
        } else {
            ledger1155(*old(token)).after_update(*from, *to, seq![id@], seq![value@])
        }),
        call_sender(*final(host)) == call_sender(*old(host)),
        logged(*final(host)) == (if ledger1155(*old(token)).can_send(
            call_sender(*old(host)),
            *from,
            *to,
        ) is Ok && ledger1155(
            *old(token),
        ).update_answer(*from, *to, seq![id@], seq![value@]) is Ok {
            logged(*old(host)).push(
                moved_entry(
                    call_sender(*old(host)),
                    *from,
                    *to,
                    seq![id@],
                    seq![value@],
                ),
            )
        } else {
            logged(*old(host))
        }),
{
    let id = alloy_primitives::U256::from_limbs(id.limbs);
    let value = alloy_primitives::U256::from_limbs(value.limbs);
    token.safe_transfer_from(from.bytes.into(), to.bytes.into(), id, value, data.into())
}

/// `<Erc1155 as IErc1155>::safe_batch_transfer_from`: as `safe_transfer_from`, for many ids.
#[verifier::external_body]
pub(crate) fn safe_batch_transfer_from(
    token: &mut Erc1155,
    host: &mut WasmVM,
    from: &Account,
    to: &Account,
    ids: &Vec<U256>,
    values: &Vec<U256>,
    data: Vec<u8>,
) -> (r: Result<(), erc1155::Error>)
    requires
        ledger1155(*old(token)).can_send(call_sender(*old(host)), *from, *to) is Ok ==> ledger1155(
            *old(token),
        ).update_fits(*from, *to, values_of(ids@), values_of(values@)),
    ensures
        erc1155_result(r) == and_also(
            and_also(
                ledger1155(*old(token)).can_send(call_sender(*old(host)), *from, *to),
                ledger1155(*old(token)).update_answer(
                    *from,
                    *to,
                    values_of(ids@),
                    values_of(values@),
                ),
            ),
            erc1155_accepted(
                erc1155_sees_code(*old(token), *to),
                erc1155_reply(
                    *old(token),
                    call_sender(*old(host)),
                    *from,
                    *to,
                    values_of(ids@),
                    values_of(values@),
                    data@,
                ),
                *to,
            ),
        ),
        ledger1155(*final(token)) == (if ledger1155(*old(token)).can_send(
            call_sender(*old(host)),
            *from,
            *to,
        ) is Err {
            ledger1155(*old(token))
        } else {
            ledger1155(*old(token)).after_update(
                *from,
                *to,
                values_of(ids@),
                values_of(values@),
            )
        }),
        call_sender(*final(host)) == call_sender(*old(host)),
        logged(*final(host)) == (if ledger1155(*old(token)).can_send(
            call_sender(*old(host)),
            *from,
            *to,
        ) is Ok && ledger1155(
            *old(token),
        ).update_answer(*from, *to, values_of(ids@), values_of(values@)) is Ok {
            logged(*old(host)).push(
                moved_entry(
                    call_sender(*old(host)),
                    *from,
                    *to,
                    values_of(ids@),
                    values_of(values@),
                ),
            )
        } else {
            logged(*old(host))
        }),
{
    let ids = ids.iter().map(|n| alloy_primitives::U256::from_limbs(n.limbs)).collect();
    let values = values.iter().map(|n| alloy_primitives::U256::from_limbs(n.limbs)).collect();
    let (from, to) = (from.bytes.into(), to.bytes.into());
    token.safe_batch_transfer_from(from, to, ids, values, data.into())
}

/// `<Erc1155 as IErc1155>::set_approval_for_all`: the account that made the call, which it asks
/// the host for, makes `operator` an operator or not, which is logged. A refusal changes
/// nothing.
#[verifier::external_body]
pub(crate) fn set_approval_for_all(
    token: &mut Erc1155,
    host: &mut WasmVM,
    operator: &Account,
    approved: bool,
) -> (r: Result<(), erc1155::Error>)
    ensures
        erc1155_result(r) == Ledger1155::can_be_operator(*operator),
        ledger1155(*final(token)) == (if r is Ok {
            ledger1155(*old(token)).set_operator(call_sender(*old(host)), *operator, approved)
        } else {
            ledger1155(*old(token))
        }),
        call_sender(*final(host)) == call_sender(*old(host)),
        logged(*final(host)) == (if r is Ok {
            logged(*old(host)).push(
                approved_for_all(call_sender(*old(host)), *operator, approved),
            )
        } else {
            logged(*old(host))
        }),
{
    token.set_approval_for_all(operator.bytes.into(), approved)
}

/// `<Erc1155 as IErc1155>::is_approved_for_all`: whether `operator` is an operator of `owner`.
#[verifier::external_body]
pub(crate) fn is_approved_for_all(token: &Erc1155, owner: &Account, operator: &Account) -> (r: bool)
    ensures
        r == erc1155_operators(*token).contains((*owner, *operator)),
{
    token.is_approved_for_all(owner.bytes.into(), operator.bytes.into())
}

/// Whether a refusal is about who sends or receives, and how much.
pub open spec fn is_about_parties(error: Erc1155Error) -> bool {
    error is InsufficientBalance || error is InvalidSender || error is InvalidReceiver || error
        is InvalidReceiverWithReason
}

/// Reads a refusal of the base contract that is about who sends or receives, and how much.
#[verifier::external_body]
fn read_party_error(error: &erc1155::Error) -> (r: Option<Erc1155Error>)
    ensures
        r is Some <==> is_about_parties(erc1155_error(*error)),
        r matches Some(read) ==> read == erc1155_error(*error),
{
    let acc = |a: alloy_primitives::Address| Account { bytes: a.0 .0 };
    let num = |n: alloy_primitives::U256| U256 { limbs: n.into_limbs() };
    match error {
        erc1155::Error::InsufficientBalance(e) => Some(Erc1155Error::InsufficientBalance { sender: acc(e.sender), balance: num(e.balance), needed: num(e.needed), token_id: num(e.token_id) }),
        erc1155::Error::InvalidSender(e) => Some(Erc1155Error::InvalidSender { sender: acc(e.sender) }),
        erc1155::Error::InvalidReceiver(e) => Some(Erc1155Error::InvalidReceiver { receiver: acc(e.receiver) }),
        erc1155::Error::InvalidReceiverWithReason(e) => Some(Erc1155Error::InvalidReceiverWithReason { reason: e.reason.clone() }),
        _ => None,
    }
}

/// Reads a refusal of the base contract that is about an approval or the lengths of lists.
#[verifier::external_body]
fn read_other_error(error: &erc1155::Error) -> (r: Option<Erc1155Error>)
    ensures
        r is Some <==> !is_about_parties(erc1155_error(*error)),
        r matches Some(read) ==> read == erc1155_error(*error),
{
    let acc = |a: alloy_primitives::Address| Account { bytes: a.0 .0 };
    let num = |n: alloy_primitives::U256| U256 { limbs: n.into_limbs() };
    match error {
        erc1155::Error::MissingApprovalForAll(e) => Some(Erc1155Error::MissingApprovalForAll { operator: acc(e.operator), owner: acc(e.owner) }),
        erc1155::Error::InvalidApprover(e) => Some(Erc1155Error::InvalidApprover { approver: acc(e.approver) }),
        erc1155::Error::InvalidOperator(e) => Some(Erc1155Error::InvalidOperator { operator: acc(e.operator) }),
        erc1155::Error::InvalidArrayLength(e) => Some(Erc1155Error::InvalidArrayLength { ids_length: num(e.ids_length), values_length: num(e.values_length) }),
        _ => None,
    }
}

/// Reads a refusal of the base contract.
pub(crate) fn read_error(error: erc1155::Error) -> (r: Erc1155Error)
    ensures
        r == erc1155_error(error),
{
    if let Some(read) = read_party_error(&error) {
        return read;
    }
    match read_other_error(&error) {
        Some(read) => read,
        None => vstd::pervasive::unreached(),
    }
}

/// Whether `id` is the identifier of the many-token interface or of interface detection.
pub open spec fn is_erc1155_interface(id: Seq<u8>) -> bool {
    id == seq![0xd9u8, 0xb6, 0x7a, 0x26] || id == seq![0x01u8, 0xff, 0xc9, 0xa7]
}

/// `<Erc1155 as IErc165>::supports_interface`: the many-token interface and interface
/// detection itself.
#[verifier::external_body]
pub(crate) fn supports_interface(token: &Erc1155, id: [u8; 4]) -> (r: bool)
    ensures
        r == is_erc1155_interface(id@),
{
    token.supports_interface(id.into())
}

} // verus!
