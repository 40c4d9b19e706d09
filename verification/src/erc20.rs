//! The base contract for fungible tokens, and its metadata.

use vstd::prelude::*;

use openzeppelin_stylus::token::erc20::extensions::{Erc20Metadata, IErc20Metadata};
use openzeppelin_stylus::token::erc20::{self, Erc20, IErc20};
use openzeppelin_stylus::utils::introspection::erc165::IErc165;
use stylus_sdk::host::WasmVM;

use crate::account::Account;
use crate::events::{approved_amount, moved_amount};
use crate::host::{call_sender, logged};
use crate::storage::amount_at;
use crate::uint::{modulus, u256, wrap, U256};

verus! {

/// The storage of a fungible token.
#[verifier::external_type_specification]
#[verifier::external_body]
pub struct ExErc20(Erc20);

/// The storage of a fungible token's name and symbol.
#[verifier::external_type_specification]
#[verifier::external_body]
pub struct ExErc20Metadata(Erc20Metadata);

/// What the base contract answers when it refuses.
#[verifier::external_type_specification]
#[verifier::external_body]
pub struct ExErc20Error(erc20::Error);

/// Why the base contract refuses.
#[derive(Clone, Copy, Debug)]
pub enum Erc20Error {
    /// `sender` has `balance`, which is less than `needed`.
    InsufficientBalance { sender: Account, balance: U256, needed: U256 },
    /// `sender` cannot send.
    InvalidSender { sender: Account },
    /// `receiver` cannot receive.
    InvalidReceiver { receiver: Account },
    /// `spender` may spend `allowance`, which is less than `needed`.
    InsufficientAllowance { spender: Account, allowance: U256, needed: U256 },
    /// `spender` cannot be approved.
    InvalidSpender { spender: Account },
    /// `approver` cannot approve.
    InvalidApprover { approver: Account },
}

/// What a fungible token keeps.
#[verifier::ext_equal]
pub struct Ledger20 {
    /// How many tokens an account has.
    pub balances: Map<Account, nat>,
    /// How many tokens of the first account the second may spend.
    pub allowances: Map<(Account, Account), nat>,
    /// How many tokens there are.
    pub supply: nat,
}

/// The balances that `token` holds.
pub uninterp spec fn erc20_balances(token: Erc20) -> Map<Account, nat>;

/// The allowances that `token` holds, by owner and spender.
pub uninterp spec fn erc20_allowances(token: Erc20) -> Map<(Account, Account), nat>;

/// The total supply that `token` holds.
pub uninterp spec fn erc20_supply(token: Erc20) -> nat;

/// The name that `metadata` holds.
pub uninterp spec fn metadata_name(metadata: Erc20Metadata) -> Seq<char>;

/// The symbol that `metadata` holds.
pub uninterp spec fn metadata_symbol(metadata: Erc20Metadata) -> Seq<char>;

/// What the refusal `error` says.
pub uninterp spec fn erc20_error(error: erc20::Error) -> Erc20Error;

/// All that `token` holds.
pub open spec fn ledger20(token: Erc20) -> Ledger20 {
    Ledger20 {
        balances: erc20_balances(token),
        allowances: erc20_allowances(token),
        supply: erc20_supply(token),
    }
}

/// What `r` says, refusals spelled out.
pub open spec fn erc20_result<T>(r: Result<T, erc20::Error>) -> Result<T, Erc20Error> {
    match r {
        Ok(value) => Ok(value),
        Err(error) => Err(erc20_error(error)),
    }
}

impl Ledger20 {
    /// The balance of `account`.
    pub open spec fn balance(self, account: Account) -> nat {
        amount_at(self.balances, account)
    }

    /// What `spender` may spend of the tokens of `owner`.
    pub open spec fn allowance(self, owner: Account, spender: Account) -> nat {
        amount_at(self.allowances, (owner, spender))
    }

    /// After `value` tokens more were credited to `to`, in 256 bits.
    pub open spec fn credit(self, to: Account, value: nat) -> Ledger20 {
        Ledger20 {
            balances: self.balances.insert(to, wrap((self.balance(to) + value) as int)),
            ..self
        }
    }

    /// After `value` tokens, which it has, were taken from `from`.
    pub open spec fn debit(self, from: Account, value: nat) -> Ledger20 {
        Ledger20 {
            balances: self.balances.insert(from, (self.balance(from) - value) as nat),
            ..self
        }
    }

    /// After `value` new tokens were given to `to`.
    pub open spec fn mint(self, to: Account, value: nat) -> Ledger20 {
        Ledger20 { supply: self.supply + value, ..self.credit(to, value) }
    }

    /// After `value` tokens of `from`, which it has, were destroyed.
    pub open spec fn burn(self, from: Account, value: nat) -> Ledger20 {
        Ledger20 { supply: wrap(self.supply - value), ..self.debit(from, value) }
    }

    /// After `value` tokens of `from`, which it has, went to `to`.
    pub open spec fn transfer(self, from: Account, to: Account, value: nat) -> Ledger20 {
        self.debit(from, value).credit(to, value)
    }

    /// After `owner` allowed `spender` to spend `value`.
    pub open spec fn approve(self, owner: Account, spender: Account, value: nat) -> Ledger20 {
        Ledger20 { allowances: self.allowances.insert((owner, spender), value), ..self }
    }

    /// Whether `from` has at least `value`, or else the refusal.
    pub open spec fn can_debit(self, from: Account, value: nat) -> Result<(), Erc20Error> {
        if self.balance(from) < value {
            Err(
                Erc20Error::InsufficientBalance {
                    sender: from,
                    balance: u256(self.balance(from)),
                    needed: u256(value),
                },
            )
        } else {
            Ok(())
        }
    }

    /// Whether `value` may go from `from` to `to`, or else the refusal.
    pub open spec fn can_transfer(self, from: Account, to: Account, value: nat) -> Result<
        (),
        Erc20Error,
    > {
        if from == Account::zero_account() {
            Err(Erc20Error::InvalidSender { sender: from })
        } else if to == Account::zero_account() {
            Err(Erc20Error::InvalidReceiver { receiver: to })
        } else {
            self.can_debit(from, value)
        }
    }

    /// Whether `owner` may allow `spender` to spend, or else the refusal.
    pub open spec fn can_approve(owner: Account, spender: Account) -> Result<(), Erc20Error> {
        if owner == Account::zero_account() {
            Err(Erc20Error::InvalidApprover { approver: owner })
        } else if spender == Account::zero_account() {
            Err(Erc20Error::InvalidSpender { spender })
        } else {
            Ok(())
        }
    }

    /// Whether `spender` may spend `value` of the tokens of `owner`, or else the refusal.
    /// The largest allowance has no limit.
    pub open spec fn can_spend(self, owner: Account, spender: Account, value: nat) -> Result<
        (),
        Erc20Error,
    > {
        let allowance = self.allowance(owner, spender);
        if allowance == modulus() - 1 {
            Ok(())
        } else if allowance < value {
            Err(
                Erc20Error::InsufficientAllowance {
                    spender,
                    allowance: u256(allowance),
                    needed: u256(value),
                },
            )
        } else {
            Ledger20::can_approve(owner, spender)
        }
    }

    /// After `spender`, who may, spent `value` of what `owner` allowed. The largest
    /// allowance is not used up.
    pub open spec fn spend(self, owner: Account, spender: Account, value: nat) -> Ledger20 {
        let allowance = self.allowance(owner, spender);
        if allowance == modulus() - 1 {
            self
        } else {
            self.approve(owner, spender, (allowance - value) as nat)
        }
    }
}

/// `<Erc20 as IErc20>::balance_of`: the balance of `account`.
#[verifier::external_body]
pub(crate) fn balance_of(token: &Erc20, account: &Account) -> (r: U256)
    ensures
        r@ == amount_at(erc20_balances(*token), *account),
{
    U256 { limbs: token.balance_of(account.bytes.into()).into_limbs() }
}

/// `<Erc20 as IErc20>::total_supply`: how many tokens there are.
#[verifier::external_body]
pub(crate) fn total_supply(token: &Erc20) -> (r: U256)
    ensures
        r@ == erc20_supply(*token),
{
    U256 { limbs: token.total_supply().into_limbs() }
}

/// `<Erc20 as IErc20>::allowance`: what `spender` may spend of the tokens of `owner`.
#[verifier::external_body]
pub(crate) fn allowance(token: &Erc20, owner: &Account, spender: &Account) -> (r: U256)
    ensures
        r@ == amount_at(erc20_allowances(*token), (*owner, *spender)),
{
    U256 { limbs: token.allowance(owner.bytes.into(), spender.bytes.into()).into_limbs() }
}

/// `Erc20::_mint`: gives `value` new tokens to `account` and logs that, and refuses the zero
/// account. It panics where the total supply would not fit.
#[verifier::external_body]
pub(crate) fn mint(token: &mut Erc20, host: &mut WasmVM, account: &Account, value: &U256) -> (r:
    Result<(), erc20::Error>)
    requires
        *account != Account::zero_account() ==> erc20_supply(*old(token)) + value@ < modulus(),
    ensures
        erc20_result(r) == (if *account == Account::zero_account() {
            Err(Erc20Error::InvalidReceiver { receiver: *account })
        } else {
            Ok(())
        }),
        ledger20(*final(token)) == (if r is Ok {
            ledger20(*old(token)).mint(*account, value@)
        } else {
            ledger20(*old(token))
        }),
        call_sender(*final(host)) == call_sender(*old(host)),
        logged(*final(host)) == (if r is Ok {
            logged(*old(host)).push(moved_amount(Account::zero_account(), *account, value@))
        } else {
            logged(*old(host))
        }),
{
    token._mint(account.bytes.into(), alloy_primitives::U256::from_limbs(value.limbs))
}

/// `Erc20::_burn`: destroys `value` tokens of `account` and logs that. It refuses the zero
/// account, and an account that has less; a refusal changes nothing.
#[verifier::external_body]
pub(crate) fn burn(token: &mut Erc20, host: &mut WasmVM, account: &Account, value: &U256) -> (r:
    Result<(), erc20::Error>)
    ensures
        erc20_result(r) == (if *account == Account::zero_account() {
            Err(Erc20Error::InvalidSender { sender: *account })
        } else {
            ledger20(*old(token)).can_debit(*account, value@)
        }),
        ledger20(*final(token)) == (if r is Ok {
            ledger20(*old(token)).burn(*account, value@)
        } else {
            ledger20(*old(token))
        }),
        call_sender(*final(host)) == call_sender(*old(host)),
        logged(*final(host)) == (if r is Ok {
            logged(*old(host)).push(moved_amount(*account, Account::zero_account(), value@))
        } else {
            logged(*old(host))
        }),
{
    token._burn(account.bytes.into(), alloy_primitives::U256::from_limbs(value.limbs))
}

/// `Erc20::_update` between accounts other than the zero account: moves `value` tokens of
/// `from` to `to`, on nobody's behalf, and logs that. It refuses where `from` has less; a
/// refusal changes nothing.
#[verifier::external_body]
pub(crate) fn update(
    token: &mut Erc20,
    host: &mut WasmVM,
    from: &Account,
    to: &Account,
    value: &U256,
) -> (r: Result<(), erc20::Error>)
    requires
        *from != Account::zero_account(),
        *to != Account::zero_account(),
    ensures
        erc20_result(r) == ledger20(*old(token)).can_debit(*from, value@),
        ledger20(*final(token)) == (if r is Ok {
            ledger20(*old(token)).transfer(*from, *to, value@)
        } else {
            ledger20(*old(token))
        }),
        call_sender(*final(host)) == call_sender(*old(host)),
        logged(*final(host)) == (if r is Ok {
            logged(*old(host)).push(moved_amount(*from, *to, value@))
        } else {
            logged(*old(host))
        }),
{
    let value = alloy_primitives::U256::from_limbs(value.limbs);
    token._update(from.bytes.into(), to.bytes.into(), value)
}

/// `<Erc20 as IErc20>::transfer`: moves `value` tokens of the account that made the call,
/// which it asks the host for, to `to` and logs that. A refusal changes nothing; success is
/// always `true`.
#[verifier::external_body]
pub(crate) fn transfer(token: &mut Erc20, host: &mut WasmVM, to: &Account, value: &U256) -> (r:
    Result<bool, erc20::Error>)
    ensures
        erc20_result(r) == (match ledger20(*old(token)).can_transfer(
            call_sender(*old(host)),
            *to,
            value@,
        ) {
            Ok(()) => Ok(true),
            Err(error) => Err(error),
        }),
        ledger20(*final(token)) == (if r is Ok {
            ledger20(*old(token)).transfer(call_sender(*old(host)), *to, value@)
        } else {
            ledger20(*old(token))
        }),
        call_sender(*final(host)) == call_sender(*old(host)),
        logged(*final(host)) == (if r is Ok {
            logged(*old(host)).push(moved_amount(call_sender(*old(host)), *to, value@))
        } else {
            logged(*old(host))
        }),
{
    token.transfer(to.bytes.into(), alloy_primitives::U256::from_limbs(value.limbs))
}

/// `<Erc20 as IErc20>::approve`: lets `spender` spend `value` of the tokens of the account
/// that made the call, which it asks the host for, and logs that. A refusal changes nothing;
/// success is always `true`.
#[verifier::external_body]
pub(crate) fn approve(token: &mut Erc20, host: &mut WasmVM, spender: &Account, value: &U256) -> (r:
    Result<bool, erc20::Error>)
    ensures
        erc20_result(r) == (match Ledger20::can_approve(call_sender(*old(host)), *spender) {
            Ok(()) => Ok(true),
            Err(error) => Err(error),
        }),
        ledger20(*final(token)) == (if r is Ok {
            ledger20(*old(token)).approve(call_sender(*old(host)), *spender, value@)
        } else {
            ledger20(*old(token))
        }),
        call_sender(*final(host)) == call_sender(*old(host)),
        logged(*final(host)) == (if r is Ok {
            logged(*old(host)).push(approved_amount(call_sender(*old(host)), *spender, value@))
        } else {
            logged(*old(host))
        }),
{
    token.approve(spender.bytes.into(), alloy_primitives::U256::from_limbs(value.limbs))
}

/// `<Erc20 as IErc20>::transfer_from`: the account that made the call, which it asks the
/// host for, spends `value` of its allowance from `from`, and that many tokens go to `to`, which
/// is logged. Where the spending goes through and the transfer is refused, the allowance stays
/// spent. Success is always `true`.
#[verifier::external_body]
pub(crate) fn transfer_from(
    token: &mut Erc20,
    host: &mut WasmVM,
    from: &Account,
    to: &Account,
    value: &U256,
) -> (r: Result<bool, erc20::Error>)
    ensures
        ({
            let spender = call_sender(*old(host));
            let before = ledger20(*old(token));
            let spent = before.spend(*from, spender, value@);
            match before.can_spend(*from, spender, value@) {
                Err(error) => {
                    &&& erc20_result(r) == Err::<bool, Erc20Error>(error)
                    &&& ledger20(*final(token)) == before
                },
                Ok(()) => match before.can_transfer(*from, *to, value@) {
                    Err(error) => {
                        &&& erc20_result(r) == Err::<bool, Erc20Error>(error)
                        &&& ledger20(*final(token)) == spent
                    },
                    Ok(()) => {
                        &&& erc20_result(r) == Ok::<bool, Erc20Error>(true)
                        &&& ledger20(*final(token)) == spent.transfer(*from, *to, value@)
                    },
                },
            }
        }),
        call_sender(*final(host)) == call_sender(*old(host)),
        logged(*final(host)) == (if r is Ok {
            logged(*old(host)).push(moved_amount(*from, *to, value@))
        } else {
            logged(*old(host))
        }),
{
    let value = alloy_primitives::U256::from_limbs(value.limbs);
    token.transfer_from(from.bytes.into(), to.bytes.into(), value)
}

/// Whether a refusal is about who sends or receives, and how much.
pub open spec fn is_about_parties(error: Erc20Error) -> bool {
    error is InsufficientBalance || error is InvalidSender || error is InvalidReceiver
}

/// Reads a refusal of the base contract that is about who sends or receives, and how much.
#[verifier::external_body]
fn read_party_error(error: &erc20::Error) -> (r: Option<Erc20Error>)
    ensures
        r is Some <==> is_about_parties(erc20_error(*error)),
        r matches Some(read) ==> read == erc20_error(*error),
{
    let acc = |a: alloy_primitives::Address| Account { bytes: a.0 .0 };
    let num = |n: alloy_primitives::U256| U256 { limbs: n.into_limbs() };
    match error {
        erc20::Error::InsufficientBalance(e) => Some(Erc20Error::InsufficientBalance { sender: acc(e.sender), balance: num(e.balance), needed: num(e.needed) }),
        erc20::Error::InvalidSender(e) => Some(Erc20Error::InvalidSender { sender: acc(e.sender) }),
        erc20::Error::InvalidReceiver(e) => Some(Erc20Error::InvalidReceiver { receiver: acc(e.receiver) }),
        _ => None,
    }
}

/// Reads a refusal of the base contract that is about an allowance.
#[verifier::external_body]
fn read_allowance_error(error: &erc20::Error) -> (r: Option<Erc20Error>)
    ensures
        r is Some <==> !is_about_parties(erc20_error(*error)),
        r matches Some(read) ==> read == erc20_error(*error),
{
    let acc = |a: alloy_primitives::Address| Account { bytes: a.0 .0 };
    let num = |n: alloy_primitives::U256| U256 { limbs: n.into_limbs() };
    match error {
        erc20::Error::InsufficientAllowance(e) => Some(Erc20Error::InsufficientAllowance { spender: acc(e.spender), allowance: num(e.allowance), needed: num(e.needed) }),
        erc20::Error::InvalidSpender(e) => Some(Erc20Error::InvalidSpender { spender: acc(e.spender) }),
        erc20::Error::InvalidApprover(e) => Some(Erc20Error::InvalidApprover { approver: acc(e.approver) }),
        _ => None,
    }
}

/// Reads a refusal of the base contract.
pub(crate) fn read_error(error: erc20::Error) -> (r: Erc20Error)
    ensures
        r == erc20_error(error),
{
    if let Some(read) = read_party_error(&error) {
        return read;
    }
    match read_allowance_error(&error) {
        Some(read) => read,
        None => vstd::pervasive::unreached(),
    }
}

/// `Erc20Metadata::constructor`: stores the name and the symbol.
#[verifier::external_body]
pub(crate) fn set_metadata(metadata: &mut Erc20Metadata, name: String, symbol: String)
    ensures
        metadata_name(*final(metadata)) == name@,
        metadata_symbol(*final(metadata)) == symbol@,
{
    metadata.constructor(name, symbol)
}

/// `<Erc20Metadata as IErc20Metadata>::name`: the stored name.
#[verifier::external_body]
pub(crate) fn name(metadata: &Erc20Metadata) -> (r: String)
    ensures
        r@ == metadata_name(*metadata),
{
    metadata.name()
}

/// `<Erc20Metadata as IErc20Metadata>::symbol`: the stored symbol.
#[verifier::external_body]
pub(crate) fn symbol(metadata: &Erc20Metadata) -> (r: String)
    ensures
        r@ == metadata_symbol(*metadata),
{
    metadata.symbol()
}

/// `<Erc20Metadata as IErc20Metadata>::decimals`: always 18.
#[verifier::external_body]
pub(crate) fn decimals(metadata: &Erc20Metadata) -> (r: u8)
    ensures
        r == 18,
{
    metadata.decimals().to::<u8>()
}

/// Whether `id` is the identifier of the fungible token interface or of interface detection.
pub open spec fn is_erc20_interface(id: Seq<u8>) -> bool {
    id == seq![0x36u8, 0x37, 0x2b, 0x07] || id == seq![0x01u8, 0xff, 0xc9, 0xa7]
}

/// Whether `id` is the identifier of the metadata interface or of interface detection.
pub open spec fn is_metadata_interface(id: Seq<u8>) -> bool {
    id == seq![0xa2u8, 0x19, 0xa0, 0x25] || id == seq![0x01u8, 0xff, 0xc9, 0xa7]
}

/// `<Erc20 as IErc165>::supports_interface`: the fungible token interface and interface
/// detection itself.
#[verifier::external_body]
pub(crate) fn supports_interface(token: &Erc20, id: [u8; 4]) -> (r: bool)
    ensures
        r == is_erc20_interface(id@),
{
    token.supports_interface(id.into())
}

/// `<Erc20Metadata as IErc165>::supports_interface`: the metadata interface and interface
/// detection itself.
#[verifier::external_body]
pub(crate) fn metadata_supports_interface(metadata: &Erc20Metadata, id: [u8; 4]) -> (r: bool)
    ensures
        r == is_metadata_interface(id@),
{
    metadata.supports_interface(id.into())
}

} // verus!
