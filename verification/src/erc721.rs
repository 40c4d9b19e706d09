//! The base contract for unique tokens.

use vstd::prelude::*;

use openzeppelin_stylus::token::erc721::{self, Erc721, IErc721};
use openzeppelin_stylus::utils::introspection::erc165::IErc165;
use stylus_sdk::host::WasmVM;

use crate::account::Account;
use crate::events::{approved_for_all, approved_token, moved_token};
use crate::host::{call_sender, logged};
use crate::receiver::Reply;
use crate::storage::{amount_at, set_to};
use crate::uint::{u256, wrap, U256};

verus! {

/// The storage of a collection of unique tokens.
#[verifier::external_type_specification]
#[verifier::external_body]
pub struct ExErc721(Erc721);

/// What the base contract answers when it refuses.
#[verifier::external_type_specification]
#[verifier::external_body]
pub struct ExErc721Error(erc721::Error);

/// Why the base contract refuses.
#[derive(Clone, Debug)]
pub enum Erc721Error {
    /// `owner` cannot own tokens.
    InvalidOwner { owner: Account },
    /// There is no token `token_id`.
    NonexistentToken { token_id: U256 },
    /// The token `token_id` belongs to `owner`, not to `sender`.
    IncorrectOwner { sender: Account, token_id: U256, owner: Account },
    /// `sender` cannot send.
    InvalidSender { sender: Account },
    /// `receiver` cannot receive.
    InvalidReceiver { receiver: Account },
    /// The receiver failed with a message.
    InvalidReceiverWithReason { reason: String },
    /// `operator` is not approved for the token `token_id`.
    InsufficientApproval { operator: Account, token_id: U256 },
    /// `approver` cannot approve.
    InvalidApprover { approver: Account },
    /// `operator` cannot be an operator.
    InvalidOperator { operator: Account },
}

/// What a collection of unique tokens keeps.
#[verifier::ext_equal]
pub struct Ledger721 {
    /// Who owns a token; the zero account owns what does not exist.
    pub owners: Map<nat, Account>,
    /// How many tokens an account owns.
    pub balances: Map<Account, nat>,
    /// Who is approved for a token; the zero account if nobody is.
    pub approvals: Map<nat, Account>,
    /// The pairs of an owner and an operator for all its tokens.
    pub operators: Set<(Account, Account)>,
}

/// The owners that `token` holds.
pub uninterp spec fn erc721_owners(token: Erc721) -> Map<nat, Account>;

/// The balances that `token` holds.
pub uninterp spec fn erc721_balances(token: Erc721) -> Map<Account, nat>;

/// The approvals that `token` holds.
pub uninterp spec fn erc721_approvals(token: Erc721) -> Map<nat, Account>;

/// The operators that `token` holds.
pub uninterp spec fn erc721_operators(token: Erc721) -> Set<(Account, Account)>;

/// Whether `account` is a contract, on the chain as it is when `token` is called. A call has the
/// chain to itself: while it runs, nothing changes but by what it does through `token`.
pub uninterp spec fn erc721_sees_code(token: Erc721, account: Account) -> bool;

/// What the contract `to` replies, on the chain as it is when `token` is called, to being
/// handed the token `id` of `from` by `operator`, with `data`.
pub uninterp spec fn erc721_reply(
    token: Erc721,
    operator: Account,
    from: Account,
    to: Account,
    id: nat,
    data: Seq<u8>,
) -> Reply;

/// What the refusal `error` says.
pub uninterp spec fn erc721_error(error: erc721::Error) -> Erc721Error;

/// All that `token` holds.
pub open spec fn ledger721(token: Erc721) -> Ledger721 {
    Ledger721 {
        owners: erc721_owners(token),
        balances: erc721_balances(token),
        approvals: erc721_approvals(token),
        operators: erc721_operators(token),
    }
}

/// What `r` says, refusals spelled out.
pub open spec fn erc721_result<T>(r: Result<T, erc721::Error>) -> Result<T, Erc721Error> {
    match r {
        Ok(value) => Ok(value),
        Err(error) => Err(erc721_error(error)),
    }
}

/// The account for `id` in `accounts`: the zero account where there is none.
pub open spec fn account_at(accounts: Map<nat, Account>, id: nat) -> Account {
    if accounts.dom().contains(id) {
        accounts[id]
    } else {
        Account::zero_account()
    }
}

/// Whether `to` takes a token: any account does that is no contract, and a contract does that
/// replies so.
pub open spec fn erc721_accepted(is_contract: bool, reply: Reply, to: Account) -> Result<
    (),
    Erc721Error,
> {
    if !is_contract {
        Ok(())
    } else {
        match reply {
            Reply::Accepted => Ok(()),
            Reply::Refused => Err(Erc721Error::InvalidReceiver { receiver: to }),
            Reply::RefusedBecause(reason) =>
                Err(Erc721Error::InvalidReceiverWithReason { reason }),
        }
    }
}

impl Ledger721 {
    /// The owner of the token `id`.
    pub open spec fn owner(self, id: nat) -> Account {
        account_at(self.owners, id)
    }

    /// How many tokens `account` owns.
    pub open spec fn balance(self, account: Account) -> nat {
        amount_at(self.balances, account)
    }

    /// Who is approved for the token `id`.
    pub open spec fn approved(self, id: nat) -> Account {
        account_at(self.approvals, id)
    }

    /// Whether `spender` may move the token `id`, if `owner` owns it.
    pub open spec fn is_authorized(self, owner: Account, spender: Account, id: nat) -> bool {
        &&& spender != Account::zero_account()
        &&& (owner == spender || self.operators.contains((owner, spender)) || self.approved(id)
            == spender)
    }

    /// With `by` added to the balance of `account`, in 256 bits.
    pub open spec fn count(self, account: Account, by: int) -> Ledger721 {
        if account == Account::zero_account() {
            self
        } else {
            Ledger721 {
                balances: self.balances.insert(account, wrap(self.balance(account) + by)),
                ..self
            }
        }
    }

    /// After the token `id` went to `to`, wherever it was; to the zero account is out of
    /// existence. Nobody is approved for a token that changes hands.
    pub open spec fn update(self, to: Account, id: nat) -> Ledger721 {
        Ledger721 {
            owners: self.owners.insert(id, to),
            approvals: if self.owner(id) == Account::zero_account() {
                self.approvals
            } else {
                self.approvals.insert(id, Account::zero_account())
            },
            ..self.count(self.owner(id), -1).count(to, 1)
        }
    }

    /// Whether `id` exists, or else the refusal.
    pub open spec fn existing(self, id: nat) -> Result<Account, Erc721Error> {
        if self.owner(id) == Account::zero_account() {
            Err(Erc721Error::NonexistentToken { token_id: u256(id) })
        } else {
            Ok(self.owner(id))
        }
    }

    /// Whether `operator` may move the token `id`, or else the refusal. The zero account is
    /// not asked.
    pub open spec fn can_operate(self, operator: Account, id: nat) -> Result<(), Erc721Error> {
        if operator == Account::zero_account() || self.is_authorized(self.owner(id), operator, id) {
            Ok(())
        } else if self.owner(id) == Account::zero_account() {
            Err(Erc721Error::NonexistentToken { token_id: u256(id) })
        } else {
            Err(Erc721Error::InsufficientApproval { operator, token_id: u256(id) })
        }
    }

    /// What a transfer by `operator` is answered.
    pub open spec fn transfer_answer(
        self,
        operator: Account,
        from: Account,
        to: Account,
        id: nat,
    ) -> Result<(), Erc721Error> {
        if to == Account::zero_account() {
            Err(Erc721Error::InvalidReceiver { receiver: to })
        } else if self.can_operate(operator, id) is Err {
            self.can_operate(operator, id)
        } else if self.owner(id) != from {
            Err(
                Erc721Error::IncorrectOwner {
                    sender: from,
                    token_id: u256(id),
                    owner: self.owner(id),
                },
            )
        } else {
            Ok(())
        }
    }

    /// Whether a transfer by `operator` moves the token. That the owner is another than the
    /// sender was said to be is noticed only after it has.
    pub open spec fn transfer_moves(self, operator: Account, to: Account, id: nat) -> bool {
        to != Account::zero_account() && self.can_operate(operator, id) is Ok
    }

    /// What a transfer by `operator` leaves behind.
    pub open spec fn after_transfer(self, operator: Account, to: Account, id: nat) -> Ledger721 {
        if self.transfer_moves(operator, to, id) {
            self.update(to, id)
        } else {
            self
        }
    }

    /// What minting is answered, before the receiver is asked.
    pub open spec fn mint_answer(self, to: Account, id: nat) -> Result<(), Erc721Error> {
        if to == Account::zero_account() {
            Err(Erc721Error::InvalidReceiver { receiver: to })
        } else if self.owner(id) != Account::zero_account() {
            Err(Erc721Error::InvalidSender { sender: Account::zero_account() })
        } else {
            Ok(())
        }
    }

    /// What minting leaves behind. That the token exists already is noticed only after it has
    /// moved.
    pub open spec fn after_mint(self, to: Account, id: nat) -> Ledger721 {
        if to == Account::zero_account() {
            self
        } else {
            self.update(to, id)
        }
    }

    /// What an approval by `approver` is answered.
    pub open spec fn approve_answer(self, approver: Account, id: nat) -> Result<(), Erc721Error> {
        if self.owner(id) == Account::zero_account() {
            Err(Erc721Error::NonexistentToken { token_id: u256(id) })
        } else if approver != Account::zero_account() && self.owner(id) != approver
            && !self.operators.contains((self.owner(id), approver)) {
            Err(Erc721Error::InvalidApprover { approver })
        } else {
            Ok(())
        }
    }

    /// After `to` was approved for the token `id`.
    pub open spec fn approve(self, to: Account, id: nat) -> Ledger721 {
        Ledger721 { approvals: self.approvals.insert(id, to), ..self }
    }

    /// After `owner` made `operator` an operator or not.
    pub open spec fn set_operator(
        self,
        owner: Account,
        operator: Account,
        approved: bool,
    ) -> Ledger721 {
        Ledger721 { operators: set_to(self.operators, (owner, operator), approved), ..self }
    }

    /// Whether `operator` can be an operator, or else the refusal.
    pub open spec fn can_be_operator(operator: Account) -> Result<(), Erc721Error> {
        if operator == Account::zero_account() {
            Err(Erc721Error::InvalidOperator { operator })
        } else {
            Ok(())
        }
    }
}

/// `<Erc721 as IErc721>::balance_of`: how many tokens `owner` owns. It refuses the zero
/// account.
#[verifier::external_body]
pub(crate) fn balance_of(token: &Erc721, owner: &Account) -> (r: Result<U256, erc721::Error>)
    ensures
        r is Err <==> *owner == Account::zero_account(),
        r matches Ok(balance) ==> balance@ == amount_at(erc721_balances(*token), *owner),
        r matches Err(error) ==> erc721_error(error) == (Erc721Error::InvalidOwner {
            owner: *owner,
        }),
{
    token.balance_of(owner.bytes.into()).map(|n| U256 { limbs: n.into_limbs() })
}

/// `<Erc721 as IErc721>::owner_of`: the owner of the token `id`, which must exist.
#[verifier::external_body]
pub(crate) fn owner_of(token: &Erc721, id: &U256) -> (r: Result<Account, erc721::Error>)
    ensures
        erc721_result(r) == ledger721(*token).existing(id@),
{
    let id = alloy_primitives::U256::from_limbs(id.limbs);
    token.owner_of(id).map(|a| Account { bytes: a.0 .0 })
}

/// `Erc721::_owner_of`: the owner of the token `id`, or the zero account.
#[verifier::external_body]
pub(crate) fn raw_owner_of(token: &Erc721, id: &U256) -> (r: Account)
    ensures
        r == account_at(erc721_owners(*token), id@),
{
    Account { bytes: token._owner_of(alloy_primitives::U256::from_limbs(id.limbs)).0 .0 }
}

/// `Erc721::_safe_mint` with empty data: the new token `id` goes to `to`, which is logged, and
/// `to` is then asked whether it accepts it. Whatever is answered after the token has moved
/// leaves it moved. The receiver cannot call this contract back: the host turns such calls
/// away.
#[verifier::external_body]
pub(crate) fn safe_mint(token: &mut Erc721, host: &mut WasmVM, to: &Account, id: &U256) -> (r:
    Result<(), erc721::Error>)
    ensures
        erc721_result(r) == (if ledger721(*old(token)).mint_answer(*to, id@) is Err {
            ledger721(*old(token)).mint_answer(*to, id@)
        } else {
            erc721_accepted(
                erc721_sees_code(*old(token), *to),
                erc721_reply(
                    *old(token),
                    call_sender(*old(host)),
                    Account::zero_account(),
                    *to,
                    id@,
                    Seq::empty(),
                ),
                *to,
            )
        }),
        ledger721(*final(token)) == ledger721(*old(token)).after_mint(*to, id@),
        call_sender(*final(host)) == call_sender(*old(host)),
        logged(*final(host)) == (if *to != Account::zero_account() {
            logged(*old(host)).push(
                moved_token(ledger721(*old(token)).owner(id@), *to, id@),
            )
        } else {
            logged(*old(host))
        }),
{
    let id = alloy_primitives::U256::from_limbs(id.limbs);
    token._safe_mint(to.bytes.into(), id, &Vec::new().into())
}

/// `Erc721::_burn`: the token `id` ceases to exist, which is logged. That it did not exist is
/// noticed only after.
#[verifier::external_body]
pub(crate) fn burn(token: &mut Erc721, host: &mut WasmVM, id: &U256) -> (r: Result<
    (),
    erc721::Error,
>)
    ensures
        erc721_result(r) == (match ledger721(*old(token)).existing(id@) {
            Ok(_) => Ok(()),
            Err(error) => Err(error),
        }),
        ledger721(*final(token)) == ledger721(*old(token)).update(Account::zero_account(), id@),
        call_sender(*final(host)) == call_sender(*old(host)),
        logged(*final(host)) == logged(*old(host)).push(
            moved_token(ledger721(*old(token)).owner(id@), Account::zero_account(), id@),
        ),
{
    token._burn(alloy_primitives::U256::from_limbs(id.limbs))
}

/// `Erc721::_update` on nobody's behalf: the token `id` goes to `to`, wherever it was, which is
/// logged, and the previous owner is returned. It refuses nothing.
#[verifier::external_body]
pub(crate) fn update(token: &mut Erc721, host: &mut WasmVM, to: &Account, id: &U256) -> (r: Result<
    Account,
    erc721::Error,
>)
    ensures
        r == Ok::<Account, erc721::Error>(ledger721(*old(token)).owner(id@)),
        ledger721(*final(token)) == ledger721(*old(token)).update(*to, id@),
        call_sender(*final(host)) == call_sender(*old(host)),
        logged(*final(host)) == logged(*old(host)).push(
            moved_token(ledger721(*old(token)).owner(id@), *to, id@),
        ),
{
    let id = alloy_primitives::U256::from_limbs(id.limbs);
    let previous = token._update(to.bytes.into(), id, alloy_primitives::Address::ZERO);
    previous.map(|a| Account { bytes: a.0 .0 })
}

/// `<Erc721 as IErc721>::transfer_from`: the account that made the call, which it asks the
/// host for, moves the token `id` from `from` to `to`, which is logged.
#[verifier::external_body]
pub(crate) fn transfer_from(
    token: &mut Erc721,
    host: &mut WasmVM,
    from: &Account,
    to: &Account,
    id: &U256,
) -> (r: Result<(), erc721::Error>)
    ensures
        erc721_result(r) == ledger721(*old(token)).transfer_answer(
            call_sender(*old(host)),
            *from,
            *to,
            id@,
        ),
        ledger721(*final(token)) == ledger721(*old(token)).after_transfer(
            call_sender(*old(host)),
            *to,
            id@,
        ),
        call_sender(*final(host)) == call_sender(*old(host)),
        logged(*final(host)) == (if ledger721(*old(token)).transfer_moves(
            call_sender(*old(host)),
            *to,
            id@,
        ) {
            logged(*old(host)).push(moved_token(ledger721(*old(token)).owner(id@), *to, id@))
        } else {
            logged(*old(host))
        }),
{
    let id = alloy_primitives::U256::from_limbs(id.limbs);
    token.transfer_from(from.bytes.into(), to.bytes.into(), id)
}

/// `<Erc721 as IErc721>::safe_transfer_from`: as `transfer_from`, after which `to` is asked
/// with empty data whether it accepts the token. The receiver cannot call this contract back:
/// the host turns such calls away.
#[verifier::external_body]
pub(crate) fn safe_transfer_from(
    token: &mut Erc721,
    host: &mut WasmVM,
    from: &Account,
    to: &Account,
    id: &U256,
) -> (r: Result<(), erc721::Error>)
    ensures
        erc721_result(r) == (if ledger721(*old(token)).transfer_answer(
            call_sender(*old(host)),
            *from,
            *to,
            id@,
        ) is Err {
            ledger721(*old(token)).transfer_answer(call_sender(*old(host)), *from, *to, id@)
        } else {
            erc721_accepted(
                erc721_sees_code(*old(token), *to),
                erc721_reply(*old(token), call_sender(*old(host)), *from, *to, id@, Seq::empty()),
                *to,
            )
        }),
        ledger721(*final(token)) == ledger721(*old(token)).after_transfer(
            call_sender(*old(host)),
            *to,
            id@,
        ),
        call_sender(*final(host)) == call_sender(*old(host)),
        logged(*final(host)) == (if ledger721(*old(token)).transfer_moves(
            call_sender(*old(host)),
            *to,
            id@,
        ) {
            logged(*old(host)).push(moved_token(ledger721(*old(token)).owner(id@), *to, id@))
        } else {
            logged(*old(host))
        }),
{
    let id = alloy_primitives::U256::from_limbs(id.limbs);
    token.safe_transfer_from(from.bytes.into(), to.bytes.into(), id)
}

/// `<Erc721 as IErc721>::safe_transfer_from_with_data`: as `transfer_from`, after which `to`
/// is asked with `data` whether it accepts the token. The receiver cannot call this contract
/// back: the host turns such calls away.
#[verifier::external_body]
pub(crate) fn safe_transfer_from_with_data(
    token: &mut Erc721,
    host: &mut WasmVM,
    from: &Account,
    to: &Account,
    id: &U256,
    data: Vec<u8>,
) -> (r: Result<(), erc721::Error>)
    ensures
        erc721_result(r) == (if ledger721(*old(token)).transfer_answer(
            call_sender(*old(host)),
            *from,
            *to,
            id@,
        ) is Err {
            ledger721(*old(token)).transfer_answer(call_sender(*old(host)), *from, *to, id@)
        } else {
            erc721_accepted(
                erc721_sees_code(*old(token), *to),
                erc721_reply(*old(token), call_sender(*old(host)), *from, *to, id@, data@),
                *to,
            )
        }),
        ledger721(*final(token)) == ledger721(*old(token)).after_transfer(
            call_sender(*old(host)),
            *to,
            id@,
        ),
        call_sender(*final(host)) == call_sender(*old(host)),
        logged(*final(host)) == (if ledger721(*old(token)).transfer_moves(
            call_sender(*old(host)),
            *to,
            id@,
        ) {
            logged(*old(host)).push(moved_token(ledger721(*old(token)).owner(id@), *to, id@))
        } else {
            logged(*old(host))
        }),
{
    let id = alloy_primitives::U256::from_limbs(id.limbs);
    token.safe_transfer_from_with_data(from.bytes.into(), to.bytes.into(), id, data.into())
}

/// `<Erc721 as IErc721>::approve`: the account that made the call, which it asks the host for,
/// approves `to` for the token `id`, which is logged. A refusal changes nothing.
#[verifier::external_body]
pub(crate) fn approve(token: &mut Erc721, host: &mut WasmVM, to: &Account, id: &U256) -> (r: Result<
    (),
    erc721::Error,
>)
    ensures
        erc721_result(r) == ledger721(*old(token)).approve_answer(call_sender(*old(host)), id@),
        ledger721(*final(token)) == (if r is Ok {
            ledger721(*old(token)).approve(*to, id@)
        } else {
            ledger721(*old(token))
        }),
        call_sender(*final(host)) == call_sender(*old(host)),
        logged(*final(host)) == (if r is Ok {
            logged(*old(host)).push(
                approved_token(ledger721(*old(token)).owner(id@), *to, id@),
            )
        } else {
            logged(*old(host))
        }),
{
    token.approve(to.bytes.into(), alloy_primitives::U256::from_limbs(id.limbs))
}

/// `<Erc721 as IErc721>::set_approval_for_all`: the account that made the call, which it asks
/// the host for, makes `operator` an operator or not, which is logged. A refusal changes
/// nothing.
#[verifier::external_body]
pub(crate) fn set_approval_for_all(
    token: &mut Erc721,
    host: &mut WasmVM,
    operator: &Account,
    approved: bool,
) -> (r: Result<(), erc721::Error>)
    ensures
        erc721_result(r) == Ledger721::can_be_operator(*operator),
        ledger721(*final(token)) == (if r is Ok {
            ledger721(*old(token)).set_operator(call_sender(*old(host)), *operator, approved)
        } else {
            ledger721(*old(token))
        }),
        call_sender(*final(host)) == call_sender(*old(host)),
        logged(*final(host)) == (if r is Ok {
            logged(*old(host)).push(
                approved_for_all(call_sender(*old(host)), *operator, approved),
            )
        } else {
            logged(*old(host))
        }),
{
    token.set_approval_for_all(operator.bytes.into(), approved)
}

/// `<Erc721 as IErc721>::get_approved`: who is approved for the token `id`, which must exist.
#[verifier::external_body]
pub(crate) fn get_approved(token: &Erc721, id: &U256) -> (r: Result<Account, erc721::Error>)
    ensures
        erc721_result(r) == (match ledger721(*token).existing(id@) {
            Ok(_) => Ok(account_at(erc721_approvals(*token), id@)),
            Err(error) => Err(error),
        }),
{
    let id = alloy_primitives::U256::from_limbs(id.limbs);
    token.get_approved(id).map(|a| Account { bytes: a.0 .0 })
}

/// `<Erc721 as IErc721>::is_approved_for_all`: whether `operator` is an operator of `owner`.
#[verifier::external_body]
pub(crate) fn is_approved_for_all(token: &Erc721, owner: &Account, operator: &Account) -> (r: bool)
    ensures
        r == erc721_operators(*token).contains((*owner, *operator)),
{
    token.is_approved_for_all(owner.bytes.into(), operator.bytes.into())
}

/// Whether a refusal is about who owns, sends or receives.
pub open spec fn is_about_parties(error: Erc721Error) -> bool {
    error is InvalidOwner || error is NonexistentToken || error is IncorrectOwner || error
        is InvalidSender || error is InvalidReceiver
}

/// Reads a refusal of the base contract that is about who owns, sends or receives.
#[verifier::external_body]
fn read_party_error(error: &erc721::Error) -> (r: Option<Erc721Error>)
    ensures
        r is Some <==> is_about_parties(erc721_error(*error)),
        r matches Some(read) ==> read == erc721_error(*error),
{
    let acc = |a: alloy_primitives::Address| Account { bytes: a.0 .0 };
    let num = |n: alloy_primitives::U256| U256 { limbs: n.into_limbs() };
    match error {
        erc721::Error::InvalidOwner(e) => Some(Erc721Error::InvalidOwner { owner: acc(e.owner) }),
        erc721::Error::NonexistentToken(e) => Some(Erc721Error::NonexistentToken { token_id: num(e.token_id) }),
        erc721::Error::IncorrectOwner(e) => Some(Erc721Error::IncorrectOwner { sender: acc(e.sender), token_id: num(e.token_id), owner: acc(e.owner) }),
        erc721::Error::InvalidSender(e) => Some(Erc721Error::InvalidSender { sender: acc(e.sender) }),
        erc721::Error::InvalidReceiver(e) => Some(Erc721Error::InvalidReceiver { receiver: acc(e.receiver) }),
        _ => None,
    }
}

/// Reads a refusal of the base contract that is about a receiver's message or an approval.
#[verifier::external_body]
fn read_other_error(error: &erc721::Error) -> (r: Option<Erc721Error>)
    ensures
        r is Some <==> !is_about_parties(erc721_error(*error)),
        r matches Some(read) ==> read == erc721_error(*error),
{
    let acc = |a: alloy_primitives::Address| Account { bytes: a.0 .0 };
    match error {
        erc721::Error::InvalidReceiverWithReason(e) => Some(Erc721Error::InvalidReceiverWithReason { reason: e.reason.clone() }),
        erc721::Error::InsufficientApproval(e) => Some(Erc721Error::InsufficientApproval {
            operator: acc(e.operator),
            token_id: U256 { limbs: e.token_id.into_limbs() },
        }),
        erc721::Error::InvalidApprover(e) => Some(Erc721Error::InvalidApprover { approver: acc(e.approver) }),
        erc721::Error::InvalidOperator(e) => Some(Erc721Error::InvalidOperator { operator: acc(e.operator) }),
        _ => None,
    }
}

/// Reads a refusal of the base contract.
pub(crate) fn read_error(error: erc721::Error) -> (r: Erc721Error)
    ensures
        r == erc721_error(error),
{
    if let Some(read) = read_party_error(&error) {
        return read;
    }
    match read_other_error(&error) {
        Some(read) => read,
        None => vstd::pervasive::unreached(),
    }
}

/// Whether `id` is the identifier of the unique token interface or of interface detection.
pub open spec fn is_erc721_interface(id: Seq<u8>) -> bool {
    id == seq![0x80u8, 0xac, 0x58, 0xcd] || id == seq![0x01u8, 0xff, 0xc9, 0xa7]
}

/// `<Erc721 as IErc165>::supports_interface`: the unique token interface and interface
/// detection itself.
#[verifier::external_body]
pub(crate) fn supports_interface(token: &Erc721, id: [u8; 4]) -> (r: bool)
    ensures
        r == is_erc721_interface(id@),
{
    token.supports_interface(id.into())
}

} // verus!
