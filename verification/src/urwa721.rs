//! The unique token: a deed or title to one asset.
//!
//! Only accounts on the send-allowlist may send, and only accounts on the receive-allowlist
//! may receive. A token can be frozen for an account, which cannot send it then. Holders of
//! the respective roles mint, burn, freeze, seize and keep the allowlists.
//!
//! A call that is refused is undone as a whole by the host, which takes back whatever the
//! call had changed before the refusal.

use vstd::prelude::*;

use openzeppelin_stylus::access::control::AccessControl;
use openzeppelin_stylus::token::erc721::{self, Erc721};
use stylus_sdk::host::WasmVM;

use crate::access::{
    admin_of, burner, burner_role, force_transfer_role, forcer, freezer, freezing_role,
    is_access_interface, log_every_role, log_grant, log_revoke, minter, minter_role, role_admins,
    role_check, role_members, whitelist_role, whitelister, with_every_role, AccessError,
};
use crate::account::Account;
use crate::erc721::{
    erc721_accepted, erc721_reply, erc721_result, erc721_sees_code, is_erc721_interface, ledger721,
    Erc721Error, Ledger721,
};
use crate::events::{
    approved_for_all, approved_token, forced_token, frozen_token, log_forced_token,
    log_frozen_token, log_receive_whitelisted, log_send_whitelisted, moved_token,
    receive_whitelisted, send_whitelisted,
};
use crate::host::{call_sender, logged, msg_sender, LogEntry};
use crate::storage::{flagged, flagged_tokens, set_to, AccountFlags, TokenFlags};
use crate::uint::{lemma_u256, u256, U256};

verus! {

/// Why a request is refused.
#[derive(Clone, Debug)]
pub enum Error721 {
    /// `account` lacks the role `needed_role`.
    UnauthorizedAccount { account: Account, needed_role: [u8; 32] },
    /// The caller did not confirm with its own account.
    BadConfirmation,
    /// `owner` cannot own tokens.
    InvalidOwner { owner: Account },
    /// There is no token `token_id`.
    NonexistentToken { token_id: U256 },
    /// The token `token_id` belongs to `owner`, not to `sender`.
    IncorrectOwner { sender: Account, token_id: U256, owner: Account },
    /// `sender` cannot send.
    InvalidSender { sender: Account },
    /// `receiver` cannot receive.
    InvalidReceiver { receiver: Account },
    /// The receiver failed with a message.
    InvalidReceiverWithReason { reason: String },
    /// `operator` is not approved for the token `token_id`.
    InsufficientApproval { operator: Account, token_id: U256 },
    /// `approver` cannot approve.
    InvalidApprover { approver: Account },
    /// `operator` cannot be an operator.
    InvalidOperator { operator: Account },
    /// `account` is not on the send-allowlist.
    CannotSend { account: Account },
    /// `account` is not on the receive-allowlist.
    CannotReceive { account: Account },
    /// The rules of the token disallow the transfer.
    CannotTransfer { from: Account, to: Account, token_id: U256 },
    /// The token `token_id` is frozen for `account`.
    InsufficientUnfrozenBalance { account: Account, token_id: U256 },
}

/// A refusal of the access control contract.
pub open spec fn from_access(error: AccessError) -> Error721 {
    match error {
        AccessError::UnauthorizedAccount { account, needed_role } =>
            Error721::UnauthorizedAccount { account, needed_role },
        AccessError::BadConfirmation => Error721::BadConfirmation,
    }
}

/// A refusal of the base contract.
pub open spec fn from_base(error: Erc721Error) -> Error721 {
    match error {
        Erc721Error::InvalidOwner { owner } => Error721::InvalidOwner { owner },
        Erc721Error::NonexistentToken { token_id } => Error721::NonexistentToken { token_id },
        Erc721Error::IncorrectOwner { sender, token_id, owner } => Error721::IncorrectOwner {
            sender,
            token_id,
            owner,
        },
        Erc721Error::InvalidSender { sender } => Error721::InvalidSender { sender },
        Erc721Error::InvalidReceiver { receiver } => Error721::InvalidReceiver { receiver },
        Erc721Error::InvalidReceiverWithReason { reason } =>
            Error721::InvalidReceiverWithReason { reason },
        Erc721Error::InsufficientApproval { operator, token_id } =>
            Error721::InsufficientApproval { operator, token_id },
        Erc721Error::InvalidApprover { approver } => Error721::InvalidApprover { approver },
        Erc721Error::InvalidOperator { operator } => Error721::InvalidOperator { operator },
    }
}

/// What `r` says, as an answer of this token.
pub open spec fn base_result<T>(r: Result<T, Erc721Error>) -> Result<T, Error721> {
    match r {
        Ok(value) => Ok(value),
        Err(error) => Err(from_base(error)),
    }
}

/// What `r` says, as an answer of this token.
pub open spec fn access_result(r: Result<(), AccessError>) -> Result<(), Error721> {
    match r {
        Ok(()) => Ok(()),
        Err(error) => Err(from_access(error)),
    }
}

impl From<AccessError> for Error721 {
    fn from(error: AccessError) -> (r: Error721) {
        match error {
            AccessError::UnauthorizedAccount { account, needed_role } =>
                Error721::UnauthorizedAccount { account, needed_role },
            AccessError::BadConfirmation => Error721::BadConfirmation,
        }
    }
}

impl vstd::std_specs::convert::FromSpecImpl<AccessError> for Error721 {
    open spec fn obeys_from_spec() -> bool {
        true
    }

    open spec fn from_spec(error: AccessError) -> Error721 {
        from_access(error)
    }
}

impl From<Erc721Error> for Error721 {
    fn from(error: Erc721Error) -> (r: Error721) {
        match error {
            Erc721Error::InvalidOwner { owner } => Error721::InvalidOwner { owner },
            Erc721Error::NonexistentToken { token_id } => Error721::NonexistentToken { token_id },
            Erc721Error::IncorrectOwner { sender, token_id, owner } => Error721::IncorrectOwner {
                sender,
                token_id,
                owner,
            },
            Erc721Error::InvalidSender { sender } => Error721::InvalidSender { sender },
            Erc721Error::InvalidReceiver { receiver } => Error721::InvalidReceiver { receiver },
            Erc721Error::InvalidReceiverWithReason { reason } =>
                Error721::InvalidReceiverWithReason { reason },
            Erc721Error::InsufficientApproval { operator, token_id } =>
                Error721::InsufficientApproval { operator, token_id },
            Erc721Error::InvalidApprover { approver } => Error721::InvalidApprover { approver },
            Erc721Error::InvalidOperator { operator } => Error721::InvalidOperator { operator },
        }
    }
}

impl vstd::std_specs::convert::FromSpecImpl<Erc721Error> for Error721 {
    open spec fn obeys_from_spec() -> bool {
        true
    }

    open spec fn from_spec(error: Erc721Error) -> Error721 {
        from_base(error)
    }
}

/// The answer of the base contract as an answer of this token.
fn lift<T>(r: Result<T, erc721::Error>) -> (lifted: Result<T, Error721>)
    ensures
        lifted == base_result(erc721_result(r)),
{
    match r {
        Ok(value) => Ok(value),
        Err(error) => Err(Error721::from(crate::erc721::read_error(error))),
    }
}

/// The token, as one call of it sees it.
pub struct URWA721 {
    pub host: WasmVM,
    pub erc721: Erc721,
    pub access: AccessControl,
    pub send_whitelist: AccountFlags,
    pub receive_whitelist: AccountFlags,
    pub frozen: TokenFlags,
}

/// All that the token keeps, who calls it and what it has logged.
#[verifier::ext_equal]
pub struct State721 {
    /// The account that made the call.
    pub caller: Account,
    /// The events logged, the oldest first.
    pub log: Seq<LogEntry>,
    /// Who holds which role.
    pub members: Set<([u8; 32], Account)>,
    /// The admin roles that have been set.
    pub admins: Map<[u8; 32], [u8; 32]>,
    /// Owners, balances and approvals.
    pub ledger: Ledger721,
    /// The send-allowlist.
    pub senders: Set<Account>,
    /// The receive-allowlist.
    pub receivers: Set<Account>,
    /// The tokens that are frozen, with the account for which they are.
    pub frozen: Set<(Account, nat)>,
}

impl State721 {
    /// Whether the caller holds `role`, or else the refusal.
    pub open spec fn check_role(self, role: [u8; 32]) -> Result<(), Error721> {
        access_result(role_check(self.members, role, self.caller))
    }

    /// Whether an ordinary transfer would go through: neither end is the zero account, `from`
    /// owns the token, it is not frozen, `from` may send and `to` may receive.
    pub open spec fn can_transfer(self, from: Account, to: Account, id: nat) -> bool {
        &&& from != Account::zero_account()
        &&& to != Account::zero_account()
        &&& self.ledger.owner(id) == from
        &&& !self.frozen.contains((from, id))
        &&& self.senders.contains(from)
        &&& self.receivers.contains(to)
    }

    /// Whether an ordinary transfer is within the rules but for who owns the token, or else
    /// the refusal: a freeze comes first, then the sender, then the receiver.
    pub open spec fn check_transfer(self, from: Account, to: Account, id: nat) -> Result<
        (),
        Error721,
    > {
        if self.frozen.contains((from, id)) {
            Err(Error721::InsufficientUnfrozenBalance { account: from, token_id: u256(id) })
        } else if !self.senders.contains(from) {
            Err(Error721::CannotSend { account: from })
        } else if !self.receivers.contains(to) {
            Err(Error721::CannotReceive { account: to })
        } else {
            Ok(())
        }
    }

    /// After the token `id` is no longer frozen for `account`. It is logged if it was.
    pub open spec fn thaw(self, account: Account, id: nat) -> State721 {
        if self.frozen.contains((account, id)) {
            State721 {
                frozen: self.frozen.remove((account, id)),
                log: self.log.push(frozen_token(account, id, false)),
                ..self
            }
        } else {
            self
        }
    }

    /// After the token `id` went to `to`, wherever it was.
    pub open spec fn hand_over(self, to: Account, id: nat) -> State721 {
        State721 {
            ledger: self.ledger.update(to, id),
            log: self.log.push(moved_token(self.ledger.owner(id), to, id)),
            ..self
        }
    }

    /// What `constructor` leaves behind.
    pub open spec fn after_constructor(self, initial_admin: Account) -> State721 {
        State721 {
            members: with_every_role(self.members, initial_admin),
            log: log_every_role(self.log, self.members, initial_admin, self.caller),
            ..self
        }
    }

    /// What `change_send_whitelist` leaves behind.
    pub open spec fn after_change_send(self, account: Account, status: bool) -> State721 {
        if self.check_role(whitelister()) is Err {
            self
        } else {
            State721 {
                senders: set_to(self.senders, account, status),
                log: self.log.push(send_whitelisted(account, status)),
                ..self
            }
        }
    }

    /// What `change_receive_whitelist` leaves behind.
    pub open spec fn after_change_receive(self, account: Account, status: bool) -> State721 {
        if self.check_role(whitelister()) is Err {
            self
        } else {
            State721 {
                receivers: set_to(self.receivers, account, status),
                log: self.log.push(receive_whitelisted(account, status)),
                ..self
            }
        }
    }

    /// Whether the caller may mint to `to`, or else the refusal.
    pub open spec fn check_mint(self, to: Account) -> Result<(), Error721> {
        if self.check_role(minter()) is Err {
            self.check_role(minter())
        } else if !self.receivers.contains(to) {
            Err(Error721::CannotReceive { account: to })
        } else {
            Ok(())
        }
    }

    /// What `safe_mint` answers, where `accepted` is what the receiver says to the token.
    pub open spec fn mint_answer(
        self,
        to: Account,
        id: nat,
        accepted: Result<(), Erc721Error>,
    ) -> Result<(), Error721> {
        if self.check_mint(to) is Err {
            self.check_mint(to)
        } else if self.ledger.mint_answer(to, id) is Err {
            base_result(self.ledger.mint_answer(to, id))
        } else {
            base_result(accepted)
        }
    }

    /// What `safe_mint` leaves behind.
    pub open spec fn after_mint(self, to: Account, id: nat) -> State721 {
        if self.check_mint(to) is Err || to == Account::zero_account() {
            self
        } else {
            self.hand_over(to, id)
        }
    }

    /// What `burn` answers.
    pub open spec fn burn_answer(self, id: nat) -> Result<(), Error721> {
        if self.check_role(burner()) is Err {
            self.check_role(burner())
        } else if self.ledger.owner(id) == Account::zero_account() {
            Err(Error721::NonexistentToken { token_id: u256(id) })
        } else {
            Ok(())
        }
    }

    /// What `burn` leaves behind.
    pub open spec fn after_burn(self, id: nat) -> State721 {
        if self.check_role(burner()) is Err {
            self
        } else {
            self.thaw(self.ledger.owner(id), id).hand_over(Account::zero_account(), id)
        }
    }

    /// What `set_frozen_tokens` leaves behind.
    pub open spec fn after_set_frozen(self, account: Account, id: nat, status: bool) -> State721 {
        if self.check_role(freezer()) is Err {
            self
        } else {
            State721 {
                frozen: set_to(self.frozen, (account, id), status),
                log: self.log.push(frozen_token(account, id, status)),
                ..self
            }
        }
    }

    /// What `forced_transfer` answers.
    pub open spec fn forced_answer(self, from: Account, to: Account, id: nat) -> Result<
        (),
        Error721,
    > {
        if self.check_role(forcer()) is Err {
            self.check_role(forcer())
        } else if to == Account::zero_account() {
            Err(Error721::InvalidReceiver { receiver: to })
        } else if from == Account::zero_account() {
            Err(Error721::InvalidSender { sender: from })
        } else if !self.receivers.contains(to) {
            Err(Error721::CannotReceive { account: to })
        } else if self.ledger.owner(id) == Account::zero_account() {
            Err(Error721::NonexistentToken { token_id: u256(id) })
        } else if self.ledger.owner(id) != from {
            Err(
                Error721::IncorrectOwner {
                    sender: from,
                    token_id: u256(id),
                    owner: self.ledger.owner(id),
                },
            )
        } else {
            Ok(())
        }
    }

    /// What `forced_transfer` leaves behind. A seizure that leads back to its victim moves
    /// nothing and thaws nothing.
    pub open spec fn after_forced(self, from: Account, to: Account, id: nat) -> State721 {
        let moved = if from == to {
            self
        } else {
            self.thaw(from, id).hand_over(to, id)
        };
        if self.forced_answer(from, to, id) is Err {
            self
        } else {
            State721 { log: moved.log.push(forced_token(from, to, id)), ..moved }
        }
    }

    /// What `transfer_from` answers.
    pub open spec fn transfer_answer(self, from: Account, to: Account, id: nat) -> Result<
        (),
        Error721,
    > {
        if self.check_transfer(from, to, id) is Err {
            self.check_transfer(from, to, id)
        } else {
            base_result(self.ledger.transfer_answer(self.caller, from, to, id))
        }
    }

    /// What `safe_transfer_from` and `safe_transfer_from_with_data` answer, where `accepted`
    /// is what the receiver says to the token.
    pub open spec fn safe_transfer_answer(
        self,
        from: Account,
        to: Account,
        id: nat,
        accepted: Result<(), Erc721Error>,
    ) -> Result<(), Error721> {
        if self.transfer_answer(from, to, id) is Err {
            self.transfer_answer(from, to, id)
        } else {
            base_result(accepted)
        }
    }

    /// What `transfer_from`, `safe_transfer_from` and `safe_transfer_from_with_data` leave
    /// behind.
    pub open spec fn after_transfer(self, from: Account, to: Account, id: nat) -> State721 {
        if self.check_transfer(from, to, id) is Ok && self.ledger.transfer_moves(
            self.caller,
            to,
            id,
        ) {
            self.hand_over(to, id)
        } else {
            self
        }
    }

    /// What `approve` leaves behind.
    pub open spec fn after_approve(self, to: Account, id: nat) -> State721 {
        if self.ledger.approve_answer(self.caller, id) is Err {
            self
        } else {
            State721 {
                ledger: self.ledger.approve(to, id),
                log: self.log.push(approved_token(self.ledger.owner(id), to, id)),
                ..self
            }
        }
    }

    /// What `set_approval_for_all` leaves behind.
    pub open spec fn after_set_operator(self, operator: Account, approved: bool) -> State721 {
        if Ledger721::can_be_operator(operator) is Err {
            self
        } else {
            State721 {
                ledger: self.ledger.set_operator(self.caller, operator, approved),
                log: self.log.push(approved_for_all(self.caller, operator, approved)),
                ..self
            }
        }
    }

    /// What `grant_role` and `revoke_role` answer.
    pub open spec fn admin_answer(self, role: [u8; 32]) -> Result<(), AccessError> {
        role_check(self.members, admin_of(self.admins, role), self.caller)
    }

    /// What `grant_role` leaves behind.
    pub open spec fn after_grant(self, role: [u8; 32], account: Account) -> State721 {
        if self.admin_answer(role) is Err {
            self
        } else {
            State721 {
                members: self.members.insert((role, account)),
                log: log_grant(self.log, self.members, role, account, self.caller),
                ..self
            }
        }
    }

    /// What `revoke_role` leaves behind.
    pub open spec fn after_revoke(self, role: [u8; 32], account: Account) -> State721 {
        if self.admin_answer(role) is Err {
            self
        } else {
            State721 {
                members: self.members.remove((role, account)),
                log: log_revoke(self.log, self.members, role, account, self.caller),
                ..self
            }
        }
    }

    /// What `renounce_role` answers.
    pub open spec fn renounce_answer(self, confirmation: Account) -> Result<(), AccessError> {
        if self.caller == confirmation {
            Ok(())
        } else {
            Err(AccessError::BadConfirmation)
        }
    }

    /// What `renounce_role` leaves behind.
    pub open spec fn after_renounce(self, role: [u8; 32], confirmation: Account) -> State721 {
        if self.renounce_answer(confirmation) is Err {
            self
        } else {
            State721 {
                members: self.members.remove((role, confirmation)),
                log: log_revoke(self.log, self.members, role, confirmation, self.caller),
                ..self
            }
        }
    }
}

impl URWA721 {
    /// All that the token keeps, who calls it and what it has logged.
    pub open spec fn state(&self) -> State721 {
        State721 {
            caller: call_sender(self.host),
            log: logged(self.host),
            members: role_members(self.access),
            admins: role_admins(self.access),
            ledger: ledger721(self.erc721),
            senders: flagged(self.send_whitelist),
            receivers: flagged(self.receive_whitelist),
            frozen: flagged_tokens(self.frozen),
        }
    }

    /// What `to` says to being handed the token `id` of `from` by the caller, with `data`.
    pub open spec fn accepted(&self, from: Account, to: Account, id: nat, data: Seq<u8>) -> Result<
        (),
        Erc721Error,
    > {
        erc721_accepted(
            erc721_sees_code(self.erc721, to),
            erc721_reply(self.erc721, call_sender(self.host), from, to, id, data),
            to,
        )
    }

    /// Grants every role to `initial_admin`.
    pub fn constructor(&mut self, initial_admin: Account)
        ensures
            final(self).state() == old(self).state().after_constructor(initial_admin),
    {
        crate::access::grant_every_role(&mut self.access, &mut self.host, &initial_admin);
    }

    /// Whether `account` may send tokens.
    pub fn can_send(&self, account: Account) -> (r: bool)
        ensures
            r == self.state().senders.contains(account),
    {
        self.send_whitelist.get(&account)
    }

    /// Whether `account` may receive tokens.
    pub fn can_receive(&self, account: Account) -> (r: bool)
        ensures
            r == self.state().receivers.contains(account),
    {
        self.receive_whitelist.get(&account)
    }

    /// Whether the token `token_id` is frozen for `account`.
    pub fn get_frozen_tokens(&self, account: Account, token_id: U256) -> (r: bool)
        ensures
            r == self.state().frozen.contains((account, token_id@)),
    {
        self.frozen.get(&account, &token_id)
    }

    /// Whether an ordinary transfer of the token `token_id` from `from` to `to` would be
    /// allowed. None to the zero account is.
    pub fn can_transfer(&self, from: Account, to: Account, token_id: U256) -> (r: bool)
        ensures
            r == self.state().can_transfer(from, to, token_id@),
    {
        let owned = match crate::erc721::owner_of(&self.erc721, &token_id) {
            Ok(owner) => owner == from,
            Err(_) => false,
        };
        owned && !to.is_zero() && !self.get_frozen_tokens(from, token_id) && self.can_send(from)
            && self.can_receive(to)
    }

    /// Puts `account` on the send-allowlist or takes it off. Takes the allowlist role.
    pub fn change_send_whitelist(&mut self, account: Account, status: bool) -> (r: Result<
        (),
        Error721,
    >)
        ensures
            r == old(self).state().check_role(whitelister()),
            final(self).state() == old(self).state().after_change_send(account, status),
    {
        if let Err(error) = self.require(whitelist_role()) {
            return Err(error);
        }
        self.send_whitelist.set(&account, status);
        log_send_whitelisted(&mut self.host, &account, status);
        Ok(())
    }

    /// Puts `account` on the receive-allowlist or takes it off. Takes the allowlist role.
    pub fn change_receive_whitelist(&mut self, account: Account, status: bool) -> (r: Result<
        (),
        Error721,
    >)
        ensures
            r == old(self).state().check_role(whitelister()),
            final(self).state() == old(self).state().after_change_receive(account, status),
    {
        if let Err(error) = self.require(whitelist_role()) {
            return Err(error);
        }
        self.receive_whitelist.set(&account, status);
        log_receive_whitelisted(&mut self.host, &account, status);
        Ok(())
    }

    /// Mints the token `token_id` to `to`, which must be on the receive-allowlist and accept
    /// it. Takes the minting role.
    pub fn safe_mint(&mut self, to: Account, token_id: U256) -> (r: Result<(), Error721>)
        ensures
            r == old(self).state().mint_answer(
                to,
                token_id@,
                old(self).accepted(Account::zero_account(), to, token_id@, Seq::empty()),
            ),
            final(self).state() == old(self).state().after_mint(to, token_id@),
    {
        if let Err(error) = self.require(minter_role()) {
            return Err(error);
        }
        if !self.can_receive(to) {
            return Err(Error721::CannotReceive { account: to });
        }
        lift(crate::erc721::safe_mint(&mut self.erc721, &mut self.host, &to, &token_id))
    }

    /// Thaws the token `token_id` for `account`, and logs it if it was frozen.
    fn thaw_token(&mut self, account: Account, token_id: U256)
        ensures
            final(self).state() == old(self).state().thaw(account, token_id@),
            final(self).erc721 == old(self).erc721,
    {
        if self.get_frozen_tokens(account, token_id) {
            self.frozen.set(&account, &token_id, false);
            log_frozen_token(&mut self.host, &account, &token_id, false);
        }
    }

    /// Burns the token `token_id`, whoever owns it, frozen or not; it is frozen no longer.
    /// Takes the burning role.
    pub fn burn(&mut self, token_id: U256) -> (r: Result<(), Error721>)
        ensures
            r == old(self).state().burn_answer(token_id@),
            final(self).state() == old(self).state().after_burn(token_id@),
    {
        if let Err(error) = self.require(burner_role()) {
            return Err(error);
        }
        let owner = crate::erc721::raw_owner_of(&self.erc721, &token_id);
        self.thaw_token(owner, token_id);
        lift(crate::erc721::burn(&mut self.erc721, &mut self.host, &token_id))
    }

    /// Freezes the token `token_id` for `account` or thaws it. Takes the freezing role.
    pub fn set_frozen_tokens(&mut self, account: Account, token_id: U256, frozen_status: bool) -> (r:
        Result<(), Error721>)
        ensures
            r == old(self).state().check_role(freezer()),
            final(self).state() == old(self).state().after_set_frozen(
                account,
                token_id@,
                frozen_status,
            ),
    {
        if let Err(error) = self.require(freezing_role()) {
            return Err(error);
        }
        self.frozen.set(&account, &token_id, frozen_status);
        log_frozen_token(&mut self.host, &account, &token_id, frozen_status);
        Ok(())
    }

    /// Seizes the token `token_id` from `from`, who must own it, and delivers it to `to`, which
    /// must be on the receive-allowlist. Neither the send-allowlist nor a freeze is in the way,
    /// and the receiver is not asked. Takes the seizing role.
    pub fn forced_transfer(&mut self, from: Account, to: Account, token_id: U256) -> (r: Result<
        (),
        Error721,
    >)
        ensures
            r == old(self).state().forced_answer(from, to, token_id@),
            final(self).state() == old(self).state().after_forced(from, to, token_id@),
    {
        broadcast use lemma_u256;

        if let Err(error) = self.require(force_transfer_role()) {
            return Err(error);
        }
        if to.is_zero() {
            return Err(Error721::InvalidReceiver { receiver: to });
        }
        if from.is_zero() {
            return Err(Error721::InvalidSender { sender: from });
        }
        if !self.can_receive(to) {
            return Err(Error721::CannotReceive { account: to });
        }
        let owner = match self.owner_of(token_id) {
            Ok(owner) => owner,
            Err(error) => return Err(error),
        };
        if owner != from {
            return Err(Error721::IncorrectOwner { sender: from, token_id, owner });
        }
        if from != to {
            self.thaw_token(from, token_id);
            if let Err(error) = lift(
                crate::erc721::update(&mut self.erc721, &mut self.host, &to, &token_id),
            ) {
                return Err(error);
            }
        }
        log_forced_token(&mut self.host, &from, &to, &token_id);
        Ok(())
    }

    /// Refuses an ordinary transfer that is not within the rules. Whether `from` owns the
    /// token is left to the base contract.
    pub fn enforce_transfer(&self, from: Account, to: Account, token_id: U256) -> (r: Result<
        (),
        Error721,
    >)
        ensures
            r == self.state().check_transfer(from, to, token_id@),
    {
        broadcast use lemma_u256;

        if self.get_frozen_tokens(from, token_id) {
            Err(Error721::InsufficientUnfrozenBalance { account: from, token_id })
        } else if !self.can_send(from) {
            Err(Error721::CannotSend { account: from })
        } else if !self.can_receive(to) {
            Err(Error721::CannotReceive { account: to })
        } else {
            Ok(())
        }
    }

    /// How many tokens `owner` owns.
    pub fn balance_of(&self, owner: Account) -> (r: Result<U256, Error721>)
        ensures
            r is Err <==> owner == Account::zero_account(),
            r matches Ok(balance) ==> balance@ == self.state().ledger.balance(owner),
            r matches Err(error) ==> error == (Error721::InvalidOwner { owner }),
    {
        lift(crate::erc721::balance_of(&self.erc721, &owner))
    }

    /// Who owns the token `token_id`.
    pub fn owner_of(&self, token_id: U256) -> (r: Result<Account, Error721>)
        ensures
            r == base_result(self.state().ledger.existing(token_id@)),
    {
        lift(crate::erc721::owner_of(&self.erc721, &token_id))
    }

    /// Moves the token `token_id`, which the caller may move, from `from` to `to`, which must
    /// accept it.
    pub fn safe_transfer_from(&mut self, from: Account, to: Account, token_id: U256) -> (r: Result<
        (),
        Error721,
    >)
        ensures
            r == old(self).state().safe_transfer_answer(
                from,
                to,
                token_id@,
                old(self).accepted(from, to, token_id@, Seq::empty()),
            ),
            final(self).state() == old(self).state().after_transfer(from, to, token_id@),
    {
        if let Err(error) = self.enforce_transfer(from, to, token_id) {
            return Err(error);
        }
        lift(
            crate::erc721::safe_transfer_from(
                &mut self.erc721,
                &mut self.host,
                &from,
                &to,
                &token_id,
            ),
        )
    }

    /// Moves the token `token_id`, which the caller may move, from `from` to `to`, which must
    /// accept it and is handed `data`.
    pub fn safe_transfer_from_with_data(
        &mut self,
        from: Account,
        to: Account,
        token_id: U256,
        data: Vec<u8>,
    ) -> (r: Result<(), Error721>)
        ensures
            r == old(self).state().safe_transfer_answer(
                from,
                to,
                token_id@,
                old(self).accepted(from, to, token_id@, data@),
            ),
            final(self).state() == old(self).state().after_transfer(from, to, token_id@),
    {
        if let Err(error) = self.enforce_transfer(from, to, token_id) {
            return Err(error);
        }
        lift(
            crate::erc721::safe_transfer_from_with_data(
                &mut self.erc721,
                &mut self.host,
                &from,
                &to,
                &token_id,
                data,
            ),
        )
    }

    /// Moves the token `token_id`, which the caller may move, from `from` to `to`.
    pub fn transfer_from(&mut self, from: Account, to: Account, token_id: U256) -> (r: Result<
        (),
        Error721,
    >)
        ensures
            r == old(self).state().transfer_answer(from, to, token_id@),
            final(self).state() == old(self).state().after_transfer(from, to, token_id@),
    {
        if let Err(error) = self.enforce_transfer(from, to, token_id) {
            return Err(error);
        }
        lift(crate::erc721::transfer_from(&mut self.erc721, &mut self.host, &from, &to, &token_id))
    }

    /// Approves `to` for the token `token_id`, in place of whoever was.
    pub fn approve(&mut self, to: Account, token_id: U256) -> (r: Result<(), Error721>)
        ensures
            r == base_result(
                old(self).state().ledger.approve_answer(old(self).state().caller, token_id@),
            ),
            final(self).state() == old(self).state().after_approve(to, token_id@),
    {
        lift(crate::erc721::approve(&mut self.erc721, &mut self.host, &to, &token_id))
    }

    /// Makes `operator` an operator for all tokens of the caller, or not.
    pub fn set_approval_for_all(&mut self, operator: Account, approved: bool) -> (r: Result<
        (),
        Error721,
    >)
        ensures
            r == base_result(Ledger721::can_be_operator(operator)),
            final(self).state() == old(self).state().after_set_operator(operator, approved),
    {
        lift(
            crate::erc721::set_approval_for_all(
                &mut self.erc721,
                &mut self.host,
                &operator,
                approved,
            ),
        )
    }

    /// Who is approved for the token `token_id`.
    pub fn get_approved(&self, token_id: U256) -> (r: Result<Account, Error721>)
        ensures
            r == (match self.state().ledger.existing(token_id@) {
                Ok(_) => Ok(self.state().ledger.approved(token_id@)),
                Err(error) => Err(from_base(error)),
            }),
    {
        lift(crate::erc721::get_approved(&self.erc721, &token_id))
    }

    /// Whether `operator` is an operator for all tokens of `owner`.
    pub fn is_approved_for_all(&self, owner: Account, operator: Account) -> (r: bool)
        ensures
            r == self.state().ledger.operators.contains((owner, operator)),
    {
        crate::erc721::is_approved_for_all(&self.erc721, &owner, &operator)
    }

    /// Whether `account` holds `role`.
    pub fn has_role(&self, role: [u8; 32], account: Account) -> (r: bool)
        ensures
            r == self.state().members.contains((role, account)),
    {
        crate::access::has_role(&self.access, &role, &account)
    }

    /// Refuses unless the caller holds `role`.
    pub fn only_role(&self, role: [u8; 32]) -> (r: Result<(), AccessError>)
        ensures
            r == role_check(self.state().members, role, self.state().caller),
    {
        crate::access::require_role(&self.access, &self.host, &role)
    }

    /// The role whose holders may grant and revoke `role`.
    pub fn get_role_admin(&self, role: [u8; 32]) -> (r: [u8; 32])
        ensures
            r == admin_of(self.state().admins, role),
    {
        crate::access::get_role_admin(&self.access, &role)
    }

    /// Grants `role` to `account`. Takes the admin role of `role`.
    pub fn grant_role(&mut self, role: [u8; 32], account: Account) -> (r: Result<(), AccessError>)
        ensures
            r == old(self).state().admin_answer(role),
            final(self).state() == old(self).state().after_grant(role, account),
    {
        let admin_role = self.get_role_admin(role);
        if let Err(error) = self.only_role(admin_role) {
            return Err(error);
        }
        crate::access::grant_role(&mut self.access, &mut self.host, &role, &account);
        Ok(())
    }

    /// Takes `role` from `account`. Takes the admin role of `role`.
    pub fn revoke_role(&mut self, role: [u8; 32], account: Account) -> (r: Result<(), AccessError>)
        ensures
            r == old(self).state().admin_answer(role),
            final(self).state() == old(self).state().after_revoke(role, account),
    {
        let admin_role = self.get_role_admin(role);
        if let Err(error) = self.only_role(admin_role) {
            return Err(error);
        }
        crate::access::revoke_role(&mut self.access, &mut self.host, &role, &account);
        Ok(())
    }

    /// The caller, who confirms with its own account, gives up `role`.
    pub fn renounce_role(&mut self, role: [u8; 32], confirmation: Account) -> (r: Result<
        (),
        AccessError,
    >)
        ensures
            r == old(self).state().renounce_answer(confirmation),
            final(self).state() == old(self).state().after_renounce(role, confirmation),
    {
        if msg_sender(&self.host) != confirmation {
            return Err(AccessError::BadConfirmation);
        }
        crate::access::revoke_role(&mut self.access, &mut self.host, &role, &confirmation);
        Ok(())
    }

    /// Whether the token has the interface with the identifier `interface_id`.
    pub fn supports_interface(&self, interface_id: [u8; 4]) -> (r: bool)
        ensures
            r == (is_access_interface(interface_id@) || is_erc721_interface(interface_id@)),
    {
        crate::access::supports_interface(&self.access, interface_id)
            || crate::erc721::supports_interface(&self.erc721, interface_id)
    }

    /// Refuses unless the caller holds `role`.
    fn require(&self, role: [u8; 32]) -> (r: Result<(), Error721>)
        ensures
            r == self.state().check_role(role),
    {
        match self.only_role(role) {
            Ok(()) => Ok(()),
            Err(error) => Err(Error721::from(error)),
        }
    }
}

} // verus!
