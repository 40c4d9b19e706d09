//! The fungible token: fractional shares of an asset.
//!
//! Only accounts on the send-allowlist may send, and only accounts on the receive-allowlist
//! may receive. Part of an account's tokens can be frozen; they cannot be sent then. Holders
//! of the respective roles mint, burn, freeze, seize and keep the allowlists.
//!
//! A call that is refused is undone as a whole by the host, which takes back whatever the
//! call had changed before the refusal.

use vstd::prelude::*;

use openzeppelin_stylus::access::control::AccessControl;
use openzeppelin_stylus::token::erc20::extensions::Erc20Metadata;
use openzeppelin_stylus::token::erc20::{self, Erc20};
use stylus_sdk::host::WasmVM;
use stylus_sdk::storage::StorageBool;

use crate::access::{
    admin_of, burner, burner_role, force_transfer_role, forcer, freezer, freezing_role,
    is_access_interface, log_every_role, log_grant, log_revoke, minter, minter_role, role_admins,
    role_check, role_members, whitelist_role, whitelister, with_every_role, AccessError,
};
use crate::account::Account;
use crate::erc20::{
    erc20_result, is_erc20_interface, is_metadata_interface, ledger20, metadata_name,
    metadata_symbol, Erc20Error, Ledger20,
};
use crate::events::{
    approved_amount, forced_amount, frozen_amount, log_forced_amount, log_frozen_amount,
    log_receive_whitelisted, log_send_whitelisted, moved_amount, receive_whitelisted,
    send_whitelisted,
};
use crate::host::{call_sender, logged, msg_sender, LogEntry};
use crate::storage::{
    account_amounts, amount_at, flagged, get_flag, is_raised, set_flag, set_to, AccountAmounts,
    AccountFlags,
};
use crate::uint::{lemma_u256, modulus, u256, U256};

verus! {

/// Why a request is refused.
#[derive(Clone, Copy, Debug)]
pub enum Error20 {
    /// `account` lacks the role `needed_role`.
    UnauthorizedAccount { account: Account, needed_role: [u8; 32] },
    /// The caller did not confirm with its own account.
    BadConfirmation,
    /// `sender` has `balance`, which is less than `needed`.
    InsufficientBalance { sender: Account, balance: U256, needed: U256 },
    /// `sender` cannot send.
    InvalidSender { sender: Account },
    /// `receiver` cannot receive.
    InvalidReceiver { receiver: Account },
    /// `spender` may spend `allowance`, which is less than `needed`.
    InsufficientAllowance { spender: Account, allowance: U256, needed: U256 },
    /// `spender` cannot be approved.
    InvalidSpender { spender: Account },
    /// `approver` cannot approve.
    InvalidApprover { approver: Account },
    /// `account` is not on the send-allowlist.
    CannotSend { account: Account },
    /// `account` is not on the receive-allowlist.
    CannotReceive { account: Account },
    /// The rules of the token disallow the transfer.
    CannotTransfer { from: Account, to: Account, amount: U256 },
    /// `amount` exceeds `unfrozen`, what `account` has that is not frozen.
    InsufficientUnfrozenBalance { account: Account, amount: U256, unfrozen: U256 },
    /// The token has been initialized before.
    AlreadyInitialized,
}

/// A refusal of the access control contract.
pub open spec fn from_access(error: AccessError) -> Error20 {
    match error {
        AccessError::UnauthorizedAccount { account, needed_role } => Error20::UnauthorizedAccount {
            account,
            needed_role,
        },
        AccessError::BadConfirmation => Error20::BadConfirmation,
    }
}

/// A refusal of the base contract.
pub open spec fn from_base(error: Erc20Error) -> Error20 {
    match error {
        Erc20Error::InsufficientBalance { sender, balance, needed } => Error20::InsufficientBalance {
            sender,
            balance,
            needed,
        },
        Erc20Error::InvalidSender { sender } => Error20::InvalidSender { sender },
        Erc20Error::InvalidReceiver { receiver } => Error20::InvalidReceiver { receiver },
        Erc20Error::InsufficientAllowance { spender, allowance, needed } =>
            Error20::InsufficientAllowance { spender, allowance, needed },
        Erc20Error::InvalidSpender { spender } => Error20::InvalidSpender { spender },
        Erc20Error::InvalidApprover { approver } => Error20::InvalidApprover { approver },
    }
}

/// What `r` says, as an answer of this token.
pub open spec fn base_result<T>(r: Result<T, Erc20Error>) -> Result<T, Error20> {
    match r {
        Ok(value) => Ok(value),
        Err(error) => Err(from_base(error)),
    }
}

/// What `r` says, as an answer of this token.
pub open spec fn access_result(r: Result<(), AccessError>) -> Result<(), Error20> {
    match r {
        Ok(()) => Ok(()),
        Err(error) => Err(from_access(error)),
    }
}

impl From<AccessError> for Error20 {
    fn from(error: AccessError) -> (r: Error20) {
        match error {
            AccessError::UnauthorizedAccount { account, needed_role } =>
                Error20::UnauthorizedAccount { account, needed_role },
            AccessError::BadConfirmation => Error20::BadConfirmation,
        }
    }
}

impl vstd::std_specs::convert::FromSpecImpl<AccessError> for Error20 {
    open spec fn obeys_from_spec() -> bool {
        true
    }

    open spec fn from_spec(error: AccessError) -> Error20 {
        from_access(error)
    }
}

impl From<Erc20Error> for Error20 {
    fn from(error: Erc20Error) -> (r: Error20) {
        match error {
            Erc20Error::InsufficientBalance { sender, balance, needed } =>
                Error20::InsufficientBalance { sender, balance, needed },
            Erc20Error::InvalidSender { sender } => Error20::InvalidSender { sender },
            Erc20Error::InvalidReceiver { receiver } => Error20::InvalidReceiver { receiver },
            Erc20Error::InsufficientAllowance { spender, allowance, needed } =>
                Error20::InsufficientAllowance { spender, allowance, needed },
            Erc20Error::InvalidSpender { spender } => Error20::InvalidSpender { spender },
            Erc20Error::InvalidApprover { approver } => Error20::InvalidApprover { approver },
        }
    }
}

impl vstd::std_specs::convert::FromSpecImpl<Erc20Error> for Error20 {
    open spec fn obeys_from_spec() -> bool {
        true
    }

    open spec fn from_spec(error: Erc20Error) -> Error20 {
        from_base(error)
    }
}

/// The answer of the base contract as an answer of this token.
fn lift<T>(r: Result<T, erc20::Error>) -> (lifted: Result<T, Error20>)
    ensures
        lifted == base_result(erc20_result(r)),
{
    match r {
        Ok(value) => Ok(value),
        Err(error) => Err(Error20::from(crate::erc20::read_error(error))),
    }
}

/// The token, as one call of it sees it.
pub struct URWA20 {
    pub host: WasmVM,
    pub erc20: Erc20,
    pub access: AccessControl,
    pub metadata: Erc20Metadata,
    pub initialized: StorageBool,
    pub send_whitelist: AccountFlags,
    pub receive_whitelist: AccountFlags,
    pub frozen: AccountAmounts,
}

/// All that the token keeps, who calls it and what it has logged.
#[verifier::ext_equal]
pub struct State20 {
    /// The account that made the call.
    pub caller: Account,
    /// The events logged, the oldest first.
    pub log: Seq<LogEntry>,
    /// Who holds which role.
    pub members: Set<([u8; 32], Account)>,
    /// The admin roles that have been set.
    pub admins: Map<[u8; 32], [u8; 32]>,
    /// Balances, allowances and the total supply.
    pub ledger: Ledger20,
    /// The name of the token.
    pub name: Seq<char>,
    /// The symbol of the token.
    pub symbol: Seq<char>,
    /// Whether the token has been initialized.
    pub initialized: bool,
    /// The send-allowlist.
    pub senders: Set<Account>,
    /// The receive-allowlist.
    pub receivers: Set<Account>,
    /// How many tokens of an account are frozen; it may be more than the account has.
    pub frozen: Map<Account, nat>,
}

impl State20 {
    /// Whether the caller holds `role`, or else the refusal.
    pub open spec fn check_role(self, role: [u8; 32]) -> Result<(), Error20> {
        access_result(role_check(self.members, role, self.caller))
    }

    /// How many tokens of `account` are frozen.
    pub open spec fn frozen_of(self, account: Account) -> nat {
        amount_at(self.frozen, account)
    }

    /// How many tokens `account` has that are not frozen.
    pub open spec fn unfrozen(self, account: Account) -> nat {
        if self.ledger.balance(account) >= self.frozen_of(account) {
            (self.ledger.balance(account) - self.frozen_of(account)) as nat
        } else {
            0
        }
    }

    /// Whether an ordinary transfer would go through: neither end is the zero account, the
    /// amount is there and not frozen, `from` may send and `to` may receive.
    pub open spec fn can_transfer(self, from: Account, to: Account, amount: nat) -> bool {
        &&& from != Account::zero_account()
        &&& to != Account::zero_account()
        &&& amount <= self.unfrozen(from)
        &&& self.senders.contains(from)
        &&& self.receivers.contains(to)
    }

    /// Whether an ordinary transfer is within the rules, or else the refusal: too little that
    /// is not frozen comes first, then the sender, then the receiver.
    pub open spec fn check_transfer(self, from: Account, to: Account, amount: nat) -> Result<
        (),
        Error20,
    > {
        if amount > self.unfrozen(from) {
            Err(
                Error20::InsufficientUnfrozenBalance {
                    account: from,
                    amount: u256(amount),
                    unfrozen: u256(self.unfrozen(from)),
                },
            )
        } else if !self.senders.contains(from) {
            Err(Error20::CannotSend { account: from })
        } else if !self.receivers.contains(to) {
            Err(Error20::CannotReceive { account: to })
        } else {
            Ok(())
        }
    }

    /// After `amount` of the tokens of `account` are frozen.
    pub open spec fn freeze(self, account: Account, amount: nat) -> State20 {
        State20 {
            frozen: self.frozen.insert(account, amount),
            log: self.log.push(frozen_amount(account, amount)),
            ..self
        }
    }

    /// Before `amount` tokens leave `account` regardless of its freeze: what of them is frozen
    /// is frozen no longer. Nothing happens where the account has less than `amount`.
    pub open spec fn release(self, account: Account, amount: nat) -> State20 {
        if self.unfrozen(account) < amount <= self.ledger.balance(account) {
            self.freeze(
                account,
                (self.frozen_of(account) - (amount - self.unfrozen(account))) as nat,
            )
        } else {
            self
        }
    }

    /// With another ledger and one more entry in the log.
    pub open spec fn with_ledger(self, ledger: Ledger20, entry: LogEntry) -> State20 {
        State20 { ledger, log: self.log.push(entry), ..self }
    }

    /// What `initialize` answers.
    pub open spec fn initialize_answer(self) -> Result<(), Error20> {
        if self.initialized {
            Err(Error20::AlreadyInitialized)
        } else {
            Ok(())
        }
    }

    /// What `initialize` leaves behind.
    pub open spec fn after_initialize(
        self,
        name: Seq<char>,
        symbol: Seq<char>,
        initial_admin: Account,
    ) -> State20 {
        if self.initialize_answer() is Err {
            self
        } else {
            State20 {
                initialized: true,
                name,
                symbol,
                members: with_every_role(self.members, initial_admin),
                log: log_every_role(self.log, self.members, initial_admin, self.caller),
                ..self
            }
        }
    }

    /// What `change_send_whitelist` leaves behind.
    pub open spec fn after_change_send(self, account: Account, status: bool) -> State20 {
        if self.check_role(whitelister()) is Err {
            self
        } else {
            State20 {
                senders: set_to(self.senders, account, status),
                log: self.log.push(send_whitelisted(account, status)),
                ..self
            }
        }
    }

    /// What `change_receive_whitelist` leaves behind.
    pub open spec fn after_change_receive(self, account: Account, status: bool) -> State20 {
        if self.check_role(whitelister()) is Err {
            self
        } else {
            State20 {
                receivers: set_to(self.receivers, account, status),
                log: self.log.push(receive_whitelisted(account, status)),
                ..self
            }
        }
    }

    /// What `set_frozen_tokens` leaves behind.
    pub open spec fn after_set_frozen(self, account: Account, amount: nat) -> State20 {
        if self.check_role(freezer()) is Err {
            self
        } else {
            self.freeze(account, amount)
        }
    }

    /// What `mint` answers.
    pub open spec fn mint_answer(self, to: Account) -> Result<(), Error20> {
        if self.check_role(minter()) is Err {
            self.check_role(minter())
        } else if !self.receivers.contains(to) {
            Err(Error20::CannotReceive { account: to })
        } else if to == Account::zero_account() {
            Err(Error20::InvalidReceiver { receiver: to })
        } else {
            Ok(())
        }
    }

    /// Whether the total supply has room for what `mint` would mint.
    pub open spec fn mint_fits(self, to: Account, amount: nat) -> bool {
        self.mint_answer(to) is Ok ==> self.ledger.supply + amount < modulus()
    }

    /// What `mint` leaves behind.
    pub open spec fn after_mint(self, to: Account, amount: nat) -> State20 {
        if self.mint_answer(to) is Err {
            self
        } else {
            self.with_ledger(
                self.ledger.mint(to, amount),
                moved_amount(Account::zero_account(), to, amount),
            )
        }
    }

    /// Whether the caller may burn at all, or else the refusal.
    pub open spec fn check_burner(self) -> Result<(), Error20> {
        if self.check_role(burner()) is Err {
            self.check_role(burner())
        } else if !self.senders.contains(self.caller) {
            Err(Error20::CannotSend { account: self.caller })
        } else {
            Ok(())
        }
    }

    /// What `burn` answers.
    pub open spec fn burn_answer(self, amount: nat) -> Result<(), Error20> {
        if self.check_burner() is Err {
            self.check_burner()
        } else if self.caller == Account::zero_account() {
            Err(Error20::InvalidSender { sender: self.caller })
        } else {
            base_result(self.ledger.can_debit(self.caller, amount))
        }
    }

    /// What `burn` leaves behind.
    pub open spec fn after_burn(self, amount: nat) -> State20 {
        let released = self.release(self.caller, amount);
        if self.check_burner() is Err {
            self
        } else if self.burn_answer(amount) is Err {
            released
        } else {
            released.with_ledger(
                self.ledger.burn(self.caller, amount),
                moved_amount(self.caller, Account::zero_account(), amount),
            )
        }
    }

    /// What `forced_transfer` answers.
    pub open spec fn forced_answer(self, from: Account, to: Account, amount: nat) -> Result<
        (),
        Error20,
    > {
        if self.check_role(forcer()) is Err {
            self.check_role(forcer())
        } else if to == Account::zero_account() {
            Err(Error20::InvalidReceiver { receiver: to })
        } else if from == Account::zero_account() {
            Err(Error20::InvalidSender { sender: from })
        } else if !self.receivers.contains(to) {
            Err(Error20::CannotReceive { account: to })
        } else if from == to {
            Ok(())
        } else {
            base_result(self.ledger.can_debit(from, amount))
        }
    }

    /// What `forced_transfer` leaves behind. A seizure that leads back to its victim moves
    /// nothing and releases nothing.
    pub open spec fn after_forced(self, from: Account, to: Account, amount: nat) -> State20 {
        let moved = if from == to {
            self
        } else {
            self.release(from, amount).with_ledger(
                self.ledger.transfer(from, to, amount),
                moved_amount(from, to, amount),
            )
        };
        if self.forced_answer(from, to, amount) is Err {
            self
        } else {
            State20 { log: moved.log.push(forced_amount(from, to, amount)), ..moved }
        }
    }

    /// What `transfer` answers.
    pub open spec fn transfer_answer(self, to: Account, value: nat) -> Result<bool, Error20> {
        match self.check_transfer(self.caller, to, value) {
            Err(error) => Err(error),
            Ok(()) => match self.ledger.can_transfer(self.caller, to, value) {
                Err(error) => Err(from_base(error)),
                Ok(()) => Ok(true),
            },
        }
    }

    /// What `transfer` leaves behind.
    pub open spec fn after_transfer(self, to: Account, value: nat) -> State20 {
        if self.transfer_answer(to, value) is Err {
            self
        } else {
            self.with_ledger(
                self.ledger.transfer(self.caller, to, value),
                moved_amount(self.caller, to, value),
            )
        }
    }

    /// What `approve` answers.
    pub open spec fn approve_answer(self, spender: Account) -> Result<bool, Error20> {
        match Ledger20::can_approve(self.caller, spender) {
            Err(error) => Err(from_base(error)),
            Ok(()) => Ok(true),
        }
    }

    /// What `approve` leaves behind.
    pub open spec fn after_approve(self, spender: Account, value: nat) -> State20 {
        if self.approve_answer(spender) is Err {
            self
        } else {
            self.with_ledger(
                self.ledger.approve(self.caller, spender, value),
                approved_amount(self.caller, spender, value),
            )
        }
    }

    /// What `transfer_from` answers.
    pub open spec fn transfer_from_answer(self, from: Account, to: Account, value: nat) -> Result<
        bool,
        Error20,
    > {
        match self.check_transfer(from, to, value) {
            Err(error) => Err(error),
            Ok(()) => match self.ledger.can_spend(from, self.caller, value) {
                Err(error) => Err(from_base(error)),
                Ok(()) => match self.ledger.can_transfer(from, to, value) {
                    Err(error) => Err(from_base(error)),
                    Ok(()) => Ok(true),
                },
            },
        }
    }

    /// What `transfer_from` leaves behind.
    pub open spec fn after_transfer_from(self, from: Account, to: Account, value: nat) -> State20 {
        let spent = self.ledger.spend(from, self.caller, value);
        if self.check_transfer(from, to, value) is Err {
            self
        } else if self.ledger.can_spend(from, self.caller, value) is Err {
            self
        } else if self.ledger.can_transfer(from, to, value) is Err {
            State20 { ledger: spent, ..self }
        } else {
            self.with_ledger(spent.transfer(from, to, value), moved_amount(from, to, value))
        }
    }

    /// What `grant_role` and `revoke_role` answer.
    pub open spec fn admin_answer(self, role: [u8; 32]) -> Result<(), AccessError> {
        role_check(self.members, admin_of(self.admins, role), self.caller)
    }

    /// What `grant_role` leaves behind.
    pub open spec fn after_grant(self, role: [u8; 32], account: Account) -> State20 {
        if self.admin_answer(role) is Err {
            self
        } else {
            State20 {
                members: self.members.insert((role, account)),
                log: log_grant(self.log, self.members, role, account, self.caller),
                ..self
            }
        }
    }

    /// What `revoke_role` leaves behind.
    pub open spec fn after_revoke(self, role: [u8; 32], account: Account) -> State20 {
        if self.admin_answer(role) is Err {
            self
        } else {
            State20 {
                members: self.members.remove((role, account)),
                log: log_revoke(self.log, self.members, role, account, self.caller),
                ..self
            }
        }
    }

    /// What `renounce_role` answers.
    pub open spec fn renounce_answer(self, confirmation: Account) -> Result<(), AccessError> {
        if self.caller == confirmation {
            Ok(())
        } else {
            Err(AccessError::BadConfirmation)
        }
    }

    /// What `renounce_role` leaves behind.
    pub open spec fn after_renounce(self, role: [u8; 32], confirmation: Account) -> State20 {
        if self.renounce_answer(confirmation) is Err {
            self
        } else {
            State20 {
                members: self.members.remove((role, confirmation)),
                log: log_revoke(self.log, self.members, role, confirmation, self.caller),
                ..self
            }
        }
    }
}

impl URWA20 {
    /// All that the token keeps, who calls it and what it has logged.
    pub open spec fn state(&self) -> State20 {
        State20 {
            caller: call_sender(self.host),
            log: logged(self.host),
            members: role_members(self.access),
            admins: role_admins(self.access),
            ledger: ledger20(self.erc20),
            name: metadata_name(self.metadata),
            symbol: metadata_symbol(self.metadata),
            initialized: is_raised(self.initialized),
            senders: flagged(self.send_whitelist),
            receivers: flagged(self.receive_whitelist),
            frozen: account_amounts(self.frozen),
        }
    }

    /// Sets the name and the symbol and grants every role to `initial_admin`. It does so once.
    pub fn initialize(&mut self, name: String, symbol: String, initial_admin: Account) -> (r:
        Result<(), Error20>)
        ensures
            r == old(self).state().initialize_answer(),
            final(self).state() == old(self).state().after_initialize(
                name@,
                symbol@,
                initial_admin,
            ),
    {
        if get_flag(&self.initialized) {
            return Err(Error20::AlreadyInitialized);
        }
        set_flag(&mut self.initialized, true);
        crate::erc20::set_metadata(&mut self.metadata, name, symbol);
        crate::access::grant_every_role(&mut self.access, &mut self.host, &initial_admin);
        Ok(())
    }

    /// Whether `account` may send tokens.
    pub fn can_send(&self, account: Account) -> (r: bool)
        ensures
            r == self.state().senders.contains(account),
    {
        self.send_whitelist.get(&account)
    }

    /// Whether `account` may receive tokens.
    pub fn can_receive(&self, account: Account) -> (r: bool)
        ensures
            r == self.state().receivers.contains(account),
    {
        self.receive_whitelist.get(&account)
    }

    /// How many tokens of `account` are frozen. It may be more than the account has.
    pub fn get_frozen_tokens(&self, account: Account) -> (r: U256)
        ensures
            r@ == self.state().frozen_of(account),
    {
        self.frozen.get(&account)
    }

    /// Whether an ordinary transfer of `amount` from `from` to `to` would be allowed. None from
    /// or to the zero account is.
    pub fn can_transfer(&self, from: Account, to: Account, amount: U256) -> (r: bool)
        ensures
            r == self.state().can_transfer(from, to, amount@),
    {
        !from.is_zero() && !to.is_zero() && amount.at_most(&self.unfrozen_balance(from))
            && self.can_send(from) && self.can_receive(to)
    }

    /// Puts `account` on the send-allowlist or takes it off. Takes the allowlist role.
    pub fn change_send_whitelist(&mut self, account: Account, status: bool) -> (r: Result<
        (),
        Error20,
    >)
        ensures
            r == old(self).state().check_role(whitelister()),
            final(self).state() == old(self).state().after_change_send(account, status),
    {
        if let Err(error) = self.require(whitelist_role()) {
            return Err(error);
        }
        self.send_whitelist.set(&account, status);
        log_send_whitelisted(&mut self.host, &account, status);
        Ok(())
    }

    /// Puts `account` on the receive-allowlist or takes it off. Takes the allowlist role.
    pub fn change_receive_whitelist(&mut self, account: Account, status: bool) -> (r: Result<
        (),
        Error20,
    >)
        ensures
            r == old(self).state().check_role(whitelister()),
            final(self).state() == old(self).state().after_change_receive(account, status),
    {
        if let Err(error) = self.require(whitelist_role()) {
            return Err(error);
        }
        self.receive_whitelist.set(&account, status);
        log_receive_whitelisted(&mut self.host, &account, status);
        Ok(())
    }

    /// Mints `amount` to `to`, which must be on the receive-allowlist. Takes the minting role.
    /// The total supply must have room for the new tokens.
    pub fn mint(&mut self, to: Account, amount: U256) -> (r: Result<(), Error20>)
        requires
            old(self).state().mint_fits(to, amount@),
        ensures
            r == old(self).state().mint_answer(to),
            final(self).state() == old(self).state().after_mint(to, amount@),
    {
        if let Err(error) = self.require(minter_role()) {
            return Err(error);
        }
        if !self.can_receive(to) {
            return Err(Error20::CannotReceive { account: to });
        }
        lift(crate::erc20::mint(&mut self.erc20, &mut self.host, &to, &amount))
    }

    /// [`URWA20::mint`], or nothing at all where the total supply has no room for the new
    /// tokens.
    pub fn try_mint(&mut self, to: Account, amount: U256) -> (r: Option<Result<(), Error20>>)
        ensures
            r is Some <==> old(self).state().mint_fits(to, amount@),
            r matches Some(answer) ==> answer == old(self).state().mint_answer(to),
            final(self).state() == (if r is Some {
                old(self).state().after_mint(to, amount@)
            } else {
                old(self).state()
            }),
    {
        let answers = self.require(minter_role()).is_ok() && self.can_receive(to) && !to.is_zero();
        if answers && self.total_supply().checked_add(&amount).is_none() {
            return None;
        }
        Some(self.mint(to, amount))
    }

    /// Burns `amount` of the caller, who must be on the send-allowlist. Takes the burning role.
    /// Frozen tokens burn too, and are then no longer counted as frozen.
    pub fn burn(&mut self, amount: U256) -> (r: Result<(), Error20>)
        ensures
            r == old(self).state().burn_answer(amount@),
            final(self).state() == old(self).state().after_burn(amount@),
    {
        if let Err(error) = self.require(burner_role()) {
            return Err(error);
        }
        let from = msg_sender(&self.host);
        if !self.can_send(from) {
            return Err(Error20::CannotSend { account: from });
        }
        self.excess_frozen_update(from, amount);
        lift(crate::erc20::burn(&mut self.erc20, &mut self.host, &from, &amount))
    }

    /// Freezes `amount` of the tokens of `account`, in place of what was frozen before. Takes
    /// the freezing role.
    pub fn set_frozen_tokens(&mut self, account: Account, amount: U256) -> (r: Result<(), Error20>)
        ensures
            r == old(self).state().check_role(freezer()),
            final(self).state() == old(self).state().after_set_frozen(account, amount@),
    {
        if let Err(error) = self.require(freezing_role()) {
            return Err(error);
        }
        self.frozen.set(&account, &amount);
        log_frozen_amount(&mut self.host, &account, &amount);
        Ok(())
    }

    /// Seizes `amount` from `from` and delivers it to `to`, which must be on the
    /// receive-allowlist. Neither the send-allowlist nor a freeze is in the way. Takes the
    /// seizing role.
    pub fn forced_transfer(&mut self, from: Account, to: Account, amount: U256) -> (r: Result<
        (),
        Error20,
    >)
        ensures
            r == old(self).state().forced_answer(from, to, amount@),
            final(self).state() == old(self).state().after_forced(from, to, amount@),
    {
        if let Err(error) = self.require(force_transfer_role()) {
            return Err(error);
        }
        if to.is_zero() {
            return Err(Error20::InvalidReceiver { receiver: to });
        }
        if from.is_zero() {
            return Err(Error20::InvalidSender { sender: from });
        }
        if !self.can_receive(to) {
            return Err(Error20::CannotReceive { account: to });
        }
        if from != to {
            self.excess_frozen_update(from, amount);
            if let Err(error) = lift(
                crate::erc20::update(&mut self.erc20, &mut self.host, &from, &to, &amount),
            ) {
                return Err(error);
            }
        }
        log_forced_amount(&mut self.host, &from, &to, &amount);
        Ok(())
    }

    /// How many tokens `account` has that are not frozen.
    pub fn unfrozen_balance(&self, account: Account) -> (r: U256)
        ensures
            r@ == self.state().unfrozen(account),
    {
        let balance = crate::erc20::balance_of(&self.erc20, &account);
        let frozen = self.frozen.get(&account);
        match balance.checked_sub(&frozen) {
            Some(unfrozen) => unfrozen,
            None => U256::zero(),
        }
    }

    /// Before `amount` leaves `account` regardless of its freeze: what of it is frozen is
    /// frozen no longer.
    fn excess_frozen_update(&mut self, account: Account, amount: U256)
        ensures
            final(self).state() == old(self).state().release(account, amount@),
            final(self).erc20 == old(self).erc20,
    {
        let unfrozen = self.unfrozen_balance(account);
        let balance = crate::erc20::balance_of(&self.erc20, &account);
        if !amount.at_most(&unfrozen) && amount.at_most(&balance) {
            let current = self.frozen.get(&account);
            let excess = match amount.checked_sub(&unfrozen) {
                Some(excess) => excess,
                None => U256::zero(),
            };
            let next = match current.checked_sub(&excess) {
                Some(next) => next,
                None => U256::zero(),
            };
            self.frozen.set(&account, &next);
            log_frozen_amount(&mut self.host, &account, &next);
        }
    }

    /// Refuses an ordinary transfer that is not within the rules.
    pub fn enforce_transfer(&self, from: Account, to: Account, amount: U256) -> (r: Result<
        (),
        Error20,
    >)
        ensures
            r == self.state().check_transfer(from, to, amount@),
    {
        broadcast use lemma_u256;

        let unfrozen = self.unfrozen_balance(from);
        if !amount.at_most(&unfrozen) {
            Err(Error20::InsufficientUnfrozenBalance { account: from, amount, unfrozen })
        } else if !self.can_send(from) {
            Err(Error20::CannotSend { account: from })
        } else if !self.can_receive(to) {
            Err(Error20::CannotReceive { account: to })
        } else {
            Ok(())
        }
    }

    /// How many tokens there are.
    pub fn total_supply(&self) -> (r: U256)
        ensures
            r@ == self.state().ledger.supply,
    {
        crate::erc20::total_supply(&self.erc20)
    }

    /// How many tokens `account` has.
    pub fn balance_of(&self, account: Account) -> (r: U256)
        ensures
            r@ == self.state().ledger.balance(account),
    {
        crate::erc20::balance_of(&self.erc20, &account)
    }

    /// Moves `value` tokens of the caller to `to`.
    pub fn transfer(&mut self, to: Account, value: U256) -> (r: Result<bool, Error20>)
        ensures
            r == old(self).state().transfer_answer(to, value@),
            final(self).state() == old(self).state().after_transfer(to, value@),
    {
        let from = msg_sender(&self.host);
        if let Err(error) = self.enforce_transfer(from, to, value) {
            return Err(error);
        }
        lift(crate::erc20::transfer(&mut self.erc20, &mut self.host, &to, &value))
    }

    /// How many tokens of `owner` the account `spender` may spend.
    pub fn allowance(&self, owner: Account, spender: Account) -> (r: U256)
        ensures
            r@ == self.state().ledger.allowance(owner, spender),
    {
        crate::erc20::allowance(&self.erc20, &owner, &spender)
    }

    /// Lets `spender` spend `value` tokens of the caller.
    pub fn approve(&mut self, spender: Account, value: U256) -> (r: Result<bool, Error20>)
        ensures
            r == old(self).state().approve_answer(spender),
            final(self).state() == old(self).state().after_approve(spender, value@),
    {
        lift(crate::erc20::approve(&mut self.erc20, &mut self.host, &spender, &value))
    }

    /// Moves `value` tokens of `from`, which the caller may spend, to `to`.
    pub fn transfer_from(&mut self, from: Account, to: Account, value: U256) -> (r: Result<
        bool,
        Error20,
    >)
        ensures
            r == old(self).state().transfer_from_answer(from, to, value@),
            final(self).state() == old(self).state().after_transfer_from(from, to, value@),
    {
        if let Err(error) = self.enforce_transfer(from, to, value) {
            return Err(error);
        }
        lift(crate::erc20::transfer_from(&mut self.erc20, &mut self.host, &from, &to, &value))
    }

    /// The name of the token.
    pub fn name(&self) -> (r: String)
        ensures
            r@ == self.state().name,
    {
        crate::erc20::name(&self.metadata)
    }

    /// The symbol of the token.
    pub fn symbol(&self) -> (r: String)
        ensures
            r@ == self.state().symbol,
    {
        crate::erc20::symbol(&self.metadata)
    }

    /// How many decimals of an amount are shown after the point.
    pub fn decimals(&self) -> (r: u8)
        ensures
            r == 18,
    {
        crate::erc20::decimals(&self.metadata)
    }

    /// Whether `account` holds `role`.
    pub fn has_role(&self, role: [u8; 32], account: Account) -> (r: bool)
        ensures
            r == self.state().members.contains((role, account)),
    {
        crate::access::has_role(&self.access, &role, &account)
    }

    /// Refuses unless the caller holds `role`.
    pub fn only_role(&self, role: [u8; 32]) -> (r: Result<(), AccessError>)
        ensures
            r == role_check(self.state().members, role, self.state().caller),
    {
        crate::access::require_role(&self.access, &self.host, &role)
    }

    /// The role whose holders may grant and revoke `role`.
    pub fn get_role_admin(&self, role: [u8; 32]) -> (r: [u8; 32])
        ensures
            r == admin_of(self.state().admins, role),
    {
        crate::access::get_role_admin(&self.access, &role)
    }

    /// Grants `role` to `account`. Takes the admin role of `role`.
    pub fn grant_role(&mut self, role: [u8; 32], account: Account) -> (r: Result<(), AccessError>)
        ensures
            r == old(self).state().admin_answer(role),
            final(self).state() == old(self).state().after_grant(role, account),
    {
        let admin_role = self.get_role_admin(role);
        if let Err(error) = self.only_role(admin_role) {
            return Err(error);
        }
        crate::access::grant_role(&mut self.access, &mut self.host, &role, &account);
        Ok(())
    }

    /// Takes `role` from `account`. Takes the admin role of `role`.
    pub fn revoke_role(&mut self, role: [u8; 32], account: Account) -> (r: Result<(), AccessError>)
        ensures
            r == old(self).state().admin_answer(role),
            final(self).state() == old(self).state().after_revoke(role, account),
    {
        let admin_role = self.get_role_admin(role);
        if let Err(error) = self.only_role(admin_role) {
            return Err(error);
        }
        crate::access::revoke_role(&mut self.access, &mut self.host, &role, &account);
        Ok(())
    }

    /// The caller, who confirms with its own account, gives up `role`.
    pub fn renounce_role(&mut self, role: [u8; 32], confirmation: Account) -> (r: Result<
        (),
        AccessError,
    >)
        ensures
            r == old(self).state().renounce_answer(confirmation),
            final(self).state() == old(self).state().after_renounce(role, confirmation),
    {
        if msg_sender(&self.host) != confirmation {
            return Err(AccessError::BadConfirmation);
        }
        crate::access::revoke_role(&mut self.access, &mut self.host, &role, &confirmation);
        Ok(())
    }

    /// Whether the token has the interface with the identifier `interface_id`.
    pub fn supports_interface(&self, interface_id: [u8; 4]) -> (r: bool)
        ensures
            r == (is_access_interface(interface_id@) || is_erc20_interface(interface_id@)
                || is_metadata_interface(interface_id@)),
    {
        crate::access::supports_interface(&self.access, interface_id)
            || crate::erc20::supports_interface(&self.erc20, interface_id)
            || crate::erc20::metadata_supports_interface(&self.metadata, interface_id)
    }

    /// Refuses unless the caller holds `role`.
    fn require(&self, role: [u8; 32]) -> (r: Result<(), Error20>)
        ensures
            r == self.state().check_role(role),
    {
        match self.only_role(role) {
            Ok(()) => Ok(()),
            Err(error) => Err(Error20::from(error)),
        }
    }
}

} // verus!
