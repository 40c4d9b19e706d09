//! The multi-token: many assets in one contract, each with an id.
//!
//! Only accounts on the send-allowlist may send, and only accounts on the receive-allowlist
//! may receive. Part of what an account has of a token can be frozen; it cannot be sent then.
//! Holders of the respective roles mint, burn, freeze, seize and keep the allowlists.
//!
//! A batch is held against the freeze as a whole: what it asks for of one id counts together,
//! however often the id occurs.
//!
//! A call that is refused is undone as a whole by the host, which takes back whatever the
//! call had changed before the refusal.

use vstd::prelude::*;

use openzeppelin_stylus::access::control::AccessControl;
use openzeppelin_stylus::token::erc1155::{self, Erc1155};
use stylus_sdk::host::WasmVM;

use crate::access::{
    admin_of, burner, burner_role, force_transfer_role, forcer, freezer, freezing_role,
    is_access_interface, log_every_role, log_grant, log_revoke, minter, minter_role, role_admins,
    role_check, role_members, whitelist_role, whitelister, with_every_role, AccessError,
};
use crate::account::Account;
use crate::batch::{requested, requested_so_far, requested_total};
use crate::erc1155::{
    and_also, erc1155_accepted, erc1155_reply, erc1155_result, erc1155_sees_code,
    is_erc1155_interface, ledger1155, lemma_mint_each, lemma_update_one, moved_entry, same_length,
    values_of, Erc1155Error, Ledger1155,
};
use crate::events::{
    approved_for_all, forced_token_amount, frozen_token_amount, log_forced_token_amount,
    log_frozen_token_amount, log_receive_whitelisted, log_send_whitelisted, receive_whitelisted,
    send_whitelisted,
};
use crate::host::{call_sender, logged, msg_sender, LogEntry};
use crate::room::fits;
use crate::storage::{amount_at, flagged, set_to, token_amounts, AccountFlags, TokenAmounts};
use crate::uint::{lemma_u256, u256, wrap, U256};

verus! {

/// Why a request is refused.
#[derive(Clone, Debug)]
pub enum Error1155 {
    /// `account` lacks the role `needed_role`.
    UnauthorizedAccount { account: Account, needed_role: [u8; 32] },
    /// The caller did not confirm with its own account.
    BadConfirmation,
    /// `sender` has `balance` of the token `token_id`, which is less than `needed`.
    InsufficientBalance { sender: Account, balance: U256, needed: U256, token_id: U256 },
    /// `sender` cannot send.
    InvalidSender { sender: Account },
    /// `receiver` cannot receive.
    InvalidReceiver { receiver: Account },
    /// The receiver failed with a message.
    InvalidReceiverWithReason { reason: String },
    /// `operator` is no operator of `owner`.
    MissingApprovalForAll { operator: Account, owner: Account },
    /// `approver` cannot approve.
    InvalidApprover { approver: Account },
    /// `operator` cannot be an operator.
    InvalidOperator { operator: Account },
    /// There are `ids_length` ids, and another number of what goes with them.
    InvalidArrayLength { ids_length: U256, values_length: U256 },
    /// `account` is not on the send-allowlist.
    CannotSend { account: Account },
    /// `account` is not on the receive-allowlist.
    CannotReceive { account: Account },
    /// The rules of the token disallow the transfer.
    CannotTransfer { from: Account, to: Account, token_id: U256, amount: U256 },
    /// `amount` exceeds `unfrozen`, what `account` has of the token `token_id` that is not
    /// frozen.
    InsufficientUnfrozenBalance { account: Account, token_id: U256, amount: U256, unfrozen: U256 },
}

/// A refusal of the access control contract.
pub open spec fn from_access(error: AccessError) -> Error1155 {
    match error {
        AccessError::UnauthorizedAccount { account, needed_role } =>
            Error1155::UnauthorizedAccount { account, needed_role },
        AccessError::BadConfirmation => Error1155::BadConfirmation,
    }
}

/// A refusal of the base contract.
pub open spec fn from_base(error: Erc1155Error) -> Error1155 {
    match error {
        Erc1155Error::InsufficientBalance { sender, balance, needed, token_id } =>
            Error1155::InsufficientBalance { sender, balance, needed, token_id },
        Erc1155Error::InvalidSender { sender } => Error1155::InvalidSender { sender },
        Erc1155Error::InvalidReceiver { receiver } => Error1155::InvalidReceiver { receiver },
        Erc1155Error::InvalidReceiverWithReason { reason } =>
            Error1155::InvalidReceiverWithReason { reason },
        Erc1155Error::MissingApprovalForAll { operator, owner } =>
            Error1155::MissingApprovalForAll { operator, owner },
        Erc1155Error::InvalidApprover { approver } => Error1155::InvalidApprover { approver },
        Erc1155Error::InvalidOperator { operator } => Error1155::InvalidOperator { operator },
        Erc1155Error::InvalidArrayLength { ids_length, values_length } =>
            Error1155::InvalidArrayLength { ids_length, values_length },
    }
}

/// What `r` says, as an answer of this token.
pub open spec fn base_result<T>(r: Result<T, Erc1155Error>) -> Result<T, Error1155> {
    match r {
        Ok(value) => Ok(value),
        Err(error) => Err(from_base(error)),
    }
}

/// What `r` says, as an answer of this token.
pub open spec fn access_result(r: Result<(), AccessError>) -> Result<(), Error1155> {
    match r {
        Ok(()) => Ok(()),
        Err(error) => Err(from_access(error)),
    }
}

impl From<AccessError> for Error1155 {
    fn from(error: AccessError) -> (r: Error1155) {
        match error {
            AccessError::UnauthorizedAccount { account, needed_role } =>
                Error1155::UnauthorizedAccount { account, needed_role },
            AccessError::BadConfirmation => Error1155::BadConfirmation,
        }
    }
}

impl vstd::std_specs::convert::FromSpecImpl<AccessError> for Error1155 {
    open spec fn obeys_from_spec() -> bool {
        true
    }

    open spec fn from_spec(error: AccessError) -> Error1155 {
        from_access(error)
    }
}

impl From<Erc1155Error> for Error1155 {
    fn from(error: Erc1155Error) -> (r: Error1155) {
        match error {
            Erc1155Error::InsufficientBalance { sender, balance, needed, token_id } =>
                Error1155::InsufficientBalance { sender, balance, needed, token_id },
            Erc1155Error::InvalidSender { sender } => Error1155::InvalidSender { sender },
            Erc1155Error::InvalidReceiver { receiver } => Error1155::InvalidReceiver { receiver },
            Erc1155Error::InvalidReceiverWithReason { reason } =>
                Error1155::InvalidReceiverWithReason { reason },
            Erc1155Error::MissingApprovalForAll { operator, owner } =>
                Error1155::MissingApprovalForAll { operator, owner },
            Erc1155Error::InvalidApprover { approver } => Error1155::InvalidApprover { approver },
            Erc1155Error::InvalidOperator { operator } => Error1155::InvalidOperator { operator },
            Erc1155Error::InvalidArrayLength { ids_length, values_length } =>
                Error1155::InvalidArrayLength { ids_length, values_length },
        }
    }
}

impl vstd::std_specs::convert::FromSpecImpl<Erc1155Error> for Error1155 {
    open spec fn obeys_from_spec() -> bool {
        true
    }

    open spec fn from_spec(error: Erc1155Error) -> Error1155 {
        from_base(error)
    }
}

/// The answer of the base contract as an answer of this token.
fn lift<T>(r: Result<T, erc1155::Error>) -> (lifted: Result<T, Error1155>)
    ensures
        lifted == base_result(erc1155_result(r)),
{
    match r {
        Ok(value) => Ok(value),
        Err(error) => Err(Error1155::from(crate::erc1155::read_error(error))),
    }
}

/// The token, as one call of it sees it.
pub struct URWA1155 {
    pub host: WasmVM,
    pub erc1155: Erc1155,
    pub access: AccessControl,
    pub send_whitelist: AccountFlags,
    pub receive_whitelist: AccountFlags,
    pub frozen: TokenAmounts,
}

/// All that the token keeps, who calls it and what it has logged.
#[verifier::ext_equal]
pub struct State1155 {
    /// The account that made the call.
    pub caller: Account,
    /// The events logged, the oldest first.
    pub log: Seq<LogEntry>,
    /// Who holds which role.
    pub members: Set<([u8; 32], Account)>,
    /// The admin roles that have been set.
    pub admins: Map<[u8; 32], [u8; 32]>,
    /// Balances and operators.
    pub ledger: Ledger1155,
    /// The send-allowlist.
    pub senders: Set<Account>,
    /// The receive-allowlist.
    pub receivers: Set<Account>,
    /// How much of a token is frozen for an account; it may be more than the account has.
    pub frozen: Map<(Account, nat), nat>,
}

impl State1155 {
    /// Whether the caller holds `role`, or else the refusal.
    pub open spec fn check_role(self, role: [u8; 32]) -> Result<(), Error1155> {
        access_result(role_check(self.members, role, self.caller))
    }

    /// How much of the token `id` is frozen for `account`.
    pub open spec fn frozen_of(self, account: Account, id: nat) -> nat {
        amount_at(self.frozen, (account, id))
    }

    /// How much `account` has of the token `id` that is not frozen.
    pub open spec fn unfrozen(self, account: Account, id: nat) -> nat {
        self.unfrozen_of(self.ledger.balance(account, id), account, id)
    }

    /// How much of `held`, which `account` holds of the token `id`, is not frozen.
    pub open spec fn unfrozen_of(self, held: nat, account: Account, id: nat) -> nat {
        if held >= self.frozen_of(account, id) {
            (held - self.frozen_of(account, id)) as nat
        } else {
            0
        }
    }

    /// Whether an ordinary transfer would go through: neither end is the zero account, the
    /// amount is there and not frozen, `from` may send and `to` may receive.
    pub open spec fn can_transfer(self, from: Account, to: Account, id: nat, amount: nat) -> bool {
        &&& from != Account::zero_account()
        &&& to != Account::zero_account()
        &&& amount <= self.unfrozen(from, id)
        &&& self.senders.contains(from)
        &&& self.receivers.contains(to)
    }

    /// Whether `from` may send to `to`, or else the refusal: the sender comes first.
    pub open spec fn check_lists(self, from: Account, to: Account) -> Result<(), Error1155> {
        if !self.senders.contains(from) {
            Err(Error1155::CannotSend { account: from })
        } else if !self.receivers.contains(to) {
            Err(Error1155::CannotReceive { account: to })
        } else {
            Ok(())
        }
    }

    /// Whether `amount` of the token `id` are not frozen for `account`, or else the refusal.
    pub open spec fn check_unfrozen(self, account: Account, id: nat, amount: nat) -> Result<
        (),
        Error1155,
    > {
        if amount > self.unfrozen(account, id) {
            Err(
                Error1155::InsufficientUnfrozenBalance {
                    account,
                    token_id: u256(id),
                    amount: u256(amount),
                    unfrozen: u256(self.unfrozen(account, id)),
                },
            )
        } else {
            Ok(())
        }
    }

    /// Whether an ordinary transfer is within the rules, or else the refusal: the allowlists
    /// come first.
    pub open spec fn check_transfer(
        self,
        from: Account,
        to: Account,
        id: nat,
        amount: nat,
    ) -> Result<(), Error1155> {
        if self.check_lists(from, to) is Err {
            self.check_lists(from, to)
        } else {
            self.check_unfrozen(from, id, amount)
        }
    }

    /// Whether what the batch asks for of each of `some_ids` in all, in 256 bits, is not frozen
    /// for `account`, or else the refusal for the first id of which it is.
    pub open spec fn check_ids(
        self,
        account: Account,
        ids: Seq<nat>,
        values: Seq<nat>,
        some_ids: Seq<nat>,
    ) -> Result<(), Error1155>
        decreases some_ids.len(),
    {
        if some_ids.len() == 0 {
            Ok(())
        } else {
            let checked = self.check_unfrozen(
                account,
                some_ids[0],
                wrap(requested(ids, values, some_ids[0]) as int),
            );
            if checked is Err {
                checked
            } else {
                self.check_ids(account, ids, values, some_ids.drop_first())
            }
        }
    }

    /// Whether an ordinary transfer of a batch is within the rules, or else the refusal: the
    /// allowlists come first.
    pub open spec fn check_batch(
        self,
        from: Account,
        to: Account,
        ids: Seq<nat>,
        values: Seq<nat>,
    ) -> Result<(), Error1155> {
        if self.check_lists(from, to) is Err {
            self.check_lists(from, to)
        } else {
            self.check_ids(from, ids, values, ids)
        }
    }

    /// After `amount` of the token `id` are frozen for `account`.
    pub open spec fn freeze(self, account: Account, id: nat, amount: nat) -> State1155 {
        State1155 {
            frozen: self.frozen.insert((account, id), amount),
            log: self.log.push(frozen_token_amount(account, id, amount)),
            ..self
        }
    }

    /// Before `amount` of the token `id` leave `account` regardless of its freeze: what of them
    /// is frozen is frozen no longer. Nothing happens where the account has less than `amount`.
    pub open spec fn release(self, account: Account, id: nat, amount: nat) -> State1155 {
        self.release_of(self.ledger.balance(account, id), account, id, amount)
    }

    /// [`State1155::release`] where the account holds `held`.
    pub open spec fn release_of(
        self,
        held: nat,
        account: Account,
        id: nat,
        amount: nat,
    ) -> State1155 {
        let unfrozen = self.unfrozen_of(held, account, id);
        if unfrozen < amount <= held {
            self.freeze(
                account,
                id,
                (self.frozen_of(account, id) - (amount - unfrozen)) as nat,
            )
        } else {
            self
        }
    }

    /// What the first `k` elements of a batch leave `account` of the token of the next one.
    pub open spec fn left(self, account: Account, ids: Seq<nat>, amounts: Seq<nat>, k: int) -> int {
        self.ledger.balance(account, ids[k]) - requested(ids.take(k), amounts.take(k), ids[k])
    }

    /// [`State1155::release`] for each element of a batch from the one at `k` on, each held
    /// against what the elements before it leave, up to the first that is not there. Where one
    /// list is longer, its rest does not count.
    pub open spec fn release_from(
        self,
        account: Account,
        ids: Seq<nat>,
        amounts: Seq<nat>,
        k: nat,
    ) -> State1155
        decreases ids.len() - k,
    {
        let left = self.left(account, ids, amounts, k as int);
        if k >= ids.len() || k >= amounts.len() || amounts[k as int] > left {
            self
        } else {
            self.release_of(
                left as nat,
                account,
                ids[k as int],
                amounts[k as int],
            ).release_from(account, ids, amounts, k + 1)
        }
    }

    /// After `values` of the tokens `ids` went from `from` to `to`, one after the other, up to
    /// the first that cannot. If all could, that is logged.
    pub open spec fn move_batch(
        self,
        from: Account,
        to: Account,
        ids: Seq<nat>,
        values: Seq<nat>,
    ) -> State1155 {
        State1155 {
            ledger: self.ledger.after_update(from, to, ids, values),
            log: if self.ledger.update_answer(from, to, ids, values) is Ok {
                self.log.push(moved_entry(self.caller, from, to, ids, values))
            } else {
                self.log
            },
            ..self
        }
    }

    /// What `constructor` leaves behind.
    pub open spec fn after_constructor(self, initial_admin: Account) -> State1155 {
        State1155 {
            members: with_every_role(self.members, initial_admin),
            log: log_every_role(self.log, self.members, initial_admin, self.caller),
            ..self
        }
    }

    /// What `change_send_whitelist` leaves behind.
    pub open spec fn after_change_send(self, account: Account, status: bool) -> State1155 {
        if self.check_role(whitelister()) is Err {
            self
        } else {
            State1155 {
                senders: set_to(self.senders, account, status),
                log: self.log.push(send_whitelisted(account, status)),
                ..self
            }
        }
    }

    /// What `change_receive_whitelist` leaves behind.
    pub open spec fn after_change_receive(self, account: Account, status: bool) -> State1155 {
        if self.check_role(whitelister()) is Err {
            self
        } else {
            State1155 {
                receivers: set_to(self.receivers, account, status),
                log: self.log.push(receive_whitelisted(account, status)),
                ..self
            }
        }
    }

    /// What `set_frozen_tokens` leaves behind.
    pub open spec fn after_set_frozen(self, account: Account, id: nat, amount: nat) -> State1155 {
        if self.check_role(freezer()) is Err {
            self
        } else {
            self.freeze(account, id, amount)
        }
    }

    /// Whether the caller may mint to `to`, or else the refusal.
    pub open spec fn check_mint(self, to: Account) -> Result<(), Error1155> {
        if self.check_role(minter()) is Err {
            self.check_role(minter())
        } else if !self.receivers.contains(to) {
            Err(Error1155::CannotReceive { account: to })
        } else {
            base_result(Ledger1155::can_mint(to))
        }
    }

    /// What `mint` and `mint_batch` answer, where `accepted` is what the receiver says to the
    /// tokens.
    pub open spec fn mint_answer(
        self,
        to: Account,
        ids: Seq<nat>,
        amounts: Seq<nat>,
        accepted: Result<(), Erc1155Error>,
    ) -> Result<(), Error1155> {
        if self.check_mint(to) is Err {
            self.check_mint(to)
        } else {
            base_result(and_also(same_length(ids.len(), amounts.len()), accepted))
        }
    }

    /// Whether there is room for what `mint` or `mint_batch` would mint.
    pub open spec fn mint_fits(self, to: Account, ids: Seq<nat>, amounts: Seq<nat>) -> bool {
        self.check_mint(to) is Ok ==> self.ledger.update_fits(
            Account::zero_account(),
            to,
            ids,
            amounts,
        )
    }

    /// What `mint` and `mint_batch` leave behind.
    pub open spec fn after_mint(self, to: Account, ids: Seq<nat>, amounts: Seq<nat>) -> State1155 {
        if self.check_mint(to) is Err {
            self
        } else {
            self.move_batch(Account::zero_account(), to, ids, amounts)
        }
    }

    /// Whether the caller may burn at all, or else the refusal.
    pub open spec fn check_burner(self) -> Result<(), Error1155> {
        if self.check_role(burner()) is Err {
            self.check_role(burner())
        } else if !self.senders.contains(self.caller) {
            Err(Error1155::CannotSend { account: self.caller })
        } else {
            Ok(())
        }
    }

    /// What `burn` and `burn_batch` answer.
    pub open spec fn burn_answer(self, ids: Seq<nat>, amounts: Seq<nat>) -> Result<(), Error1155> {
        if self.check_burner() is Err {
            self.check_burner()
        } else {
            base_result(
                and_also(
                    Ledger1155::can_burn(self.caller),
                    self.ledger.update_answer(
                        self.caller,
                        Account::zero_account(),
                        ids,
                        amounts,
                    ),
                ),
            )
        }
    }

    /// What `burn` and `burn_batch` leave behind.
    pub open spec fn after_burn(self, ids: Seq<nat>, amounts: Seq<nat>) -> State1155 {
        let released = self.release_from(self.caller, ids, amounts, 0);
        if self.check_burner() is Err {
            self
        } else if Ledger1155::can_burn(self.caller) is Err {
            released
        } else {
            released.move_batch(self.caller, Account::zero_account(), ids, amounts)
        }
    }

    /// Whether the caller may seize from `from` for `to`, or else the refusal.
    pub open spec fn check_forced(self, from: Account, to: Account) -> Result<(), Error1155> {
        if self.check_role(forcer()) is Err {
            self.check_role(forcer())
        } else if to == Account::zero_account() {
            Err(Error1155::InvalidReceiver { receiver: to })
        } else if from == Account::zero_account() {
            Err(Error1155::InvalidSender { sender: from })
        } else if !self.receivers.contains(to) {
            Err(Error1155::CannotReceive { account: to })
        } else {
            Ok(())
        }
    }

    /// Whether `forced_transfer` comes to move tokens.
    pub open spec fn forced_moves(self, from: Account, to: Account, id: nat, amount: nat) -> bool {
        &&& self.check_forced(from, to) is Ok
        &&& from != to
        &&& amount <= self.ledger.balance(from, id)
    }

    /// What `forced_transfer` answers, where `accepted` is what the receiver says to the
    /// tokens.
    pub open spec fn forced_answer(
        self,
        from: Account,
        to: Account,
        id: nat,
        amount: nat,
        accepted: Result<(), Erc1155Error>,
    ) -> Result<(), Error1155> {
        if self.check_forced(from, to) is Err {
            self.check_forced(from, to)
        } else if from == to {
            Ok(())
        } else {
            base_result(and_also(self.ledger.can_debit(from, id, amount), accepted))
        }
    }

    /// Whether there is room for what `forced_transfer` would move.
    pub open spec fn forced_fits(self, from: Account, to: Account, id: nat, amount: nat) -> bool {
        self.forced_moves(from, to, id, amount) ==> self.ledger.has_room(from, to, id, amount)
    }

    /// What `forced_transfer` leaves behind, where `accepted` is what the receiver says to the
    /// tokens. A seizure that leads back to its victim moves nothing and releases nothing.
    pub open spec fn after_forced(
        self,
        from: Account,
        to: Account,
        id: nat,
        amount: nat,
        accepted: Result<(), Erc1155Error>,
    ) -> State1155 {
        let moved = if self.forced_moves(from, to, id, amount) {
            self.release(from, id, amount).move_batch(
                from,
                Account::zero_account(),
                seq![id],
                seq![amount],
            ).move_batch(Account::zero_account(), to, seq![id], seq![amount])
        } else {
            self
        };
        if self.forced_answer(from, to, id, amount, accepted) is Err {
            moved
        } else {
            State1155 { log: moved.log.push(forced_token_amount(from, to, id, amount)), ..moved }
        }
    }

    /// What a transfer that passed `checked`, the rules of this token, is answered, where
    /// `accepted` is what the receiver says to the tokens.
    pub open spec fn send_answer(
        self,
        checked: Result<(), Error1155>,
        from: Account,
        to: Account,
        ids: Seq<nat>,
        values: Seq<nat>,
        accepted: Result<(), Erc1155Error>,
    ) -> Result<(), Error1155> {
        if checked is Err {
            checked
        } else {
            base_result(
                and_also(
                    and_also(
                        self.ledger.can_send(self.caller, from, to),
                        self.ledger.update_answer(from, to, ids, values),
                    ),
                    accepted,
                ),
            )
        }
    }

    /// Whether there is room for what a transfer that passed `checked` would move.
    pub open spec fn send_fits(
        self,
        checked: Result<(), Error1155>,
        from: Account,
        to: Account,
        ids: Seq<nat>,
        values: Seq<nat>,
    ) -> bool {
        checked is Ok && self.ledger.can_send(self.caller, from, to) is Ok
            ==> self.ledger.update_fits(from, to, ids, values)
    }

    /// What a transfer that passed `checked` leaves behind.
    pub open spec fn after_send(
        self,
        checked: Result<(), Error1155>,
        from: Account,
        to: Account,
        ids: Seq<nat>,
        values: Seq<nat>,
    ) -> State1155 {
        if checked is Err || self.ledger.can_send(self.caller, from, to) is Err {
            self
        } else {
            self.move_batch(from, to, ids, values)
        }
    }

    /// What `safe_transfer_from` answers, where `accepted` is what the receiver says to the
    /// tokens.
    pub open spec fn transfer_answer(
        self,
        from: Account,
        to: Account,
        id: nat,
        value: nat,
        accepted: Result<(), Erc1155Error>,
    ) -> Result<(), Error1155> {
        self.send_answer(
            self.check_transfer(from, to, id, value),
            from,
            to,
            seq![id],
            seq![value],
            accepted,
        )
    }

    /// Whether there is room for what `safe_transfer_from` would move.
    pub open spec fn transfer_fits(self, from: Account, to: Account, id: nat, value: nat) -> bool {
        self.send_fits(
            self.check_transfer(from, to, id, value),
            from,
            to,
            seq![id],
            seq![value],
        )
    }

    /// What `safe_transfer_from` leaves behind.
    pub open spec fn after_transfer(
        self,
        from: Account,
        to: Account,
        id: nat,
        value: nat,
    ) -> State1155 {
        self.after_send(
            self.check_transfer(from, to, id, value),
            from,
            to,
            seq![id],
            seq![value],
        )
    }

    /// What `safe_batch_transfer_from` answers, where `accepted` is what the receiver says to
    /// the tokens.
    pub open spec fn batch_answer(
        self,
        from: Account,
        to: Account,
        ids: Seq<nat>,
        values: Seq<nat>,
        accepted: Result<(), Erc1155Error>,
    ) -> Result<(), Error1155> {
        self.send_answer(self.check_batch(from, to, ids, values), from, to, ids, values, accepted)
    }

    /// Whether there is room for what `safe_batch_transfer_from` would move.
    pub open spec fn batch_fits(
        self,
        from: Account,
        to: Account,
        ids: Seq<nat>,
        values: Seq<nat>,
    ) -> bool {
        self.send_fits(self.check_batch(from, to, ids, values), from, to, ids, values)
    }

    /// What `safe_batch_transfer_from` leaves behind.
    pub open spec fn after_batch(
        self,
        from: Account,
        to: Account,
        ids: Seq<nat>,
        values: Seq<nat>,
    ) -> State1155 {
        self.after_send(self.check_batch(from, to, ids, values), from, to, ids, values)
    }

    /// What `set_approval_for_all` leaves behind.
    pub open spec fn after_set_operator(self, operator: Account, approved: bool) -> State1155 {
        if Ledger1155::can_be_operator(operator) is Err {
            self
        } else {
            State1155 {
                ledger: self.ledger.set_operator(self.caller, operator, approved),
                log: self.log.push(approved_for_all(self.caller, operator, approved)),
                ..self
            }
        }
    }

    /// What `grant_role` and `revoke_role` answer.
    pub open spec fn admin_answer(self, role: [u8; 32]) -> Result<(), AccessError> {
        role_check(self.members, admin_of(self.admins, role), self.caller)
    }

    /// What `grant_role` leaves behind.
    pub open spec fn after_grant(self, role: [u8; 32], account: Account) -> State1155 {
        if self.admin_answer(role) is Err {
            self
        } else {
            State1155 {
                members: self.members.insert((role, account)),
                log: log_grant(self.log, self.members, role, account, self.caller),
                ..self
            }
        }
    }

    /// What `revoke_role` leaves behind.
    pub open spec fn after_revoke(self, role: [u8; 32], account: Account) -> State1155 {
        if self.admin_answer(role) is Err {
            self
        } else {
            State1155 {
                members: self.members.remove((role, account)),
                log: log_revoke(self.log, self.members, role, account, self.caller),
                ..self
            }
        }
    }

    /// What `renounce_role` answers.
    pub open spec fn renounce_answer(self, confirmation: Account) -> Result<(), AccessError> {
        if self.caller == confirmation {
            Ok(())
        } else {
            Err(AccessError::BadConfirmation)
        }
    }

    /// What `renounce_role` leaves behind.
    pub open spec fn after_renounce(self, role: [u8; 32], confirmation: Account) -> State1155 {
        if self.renounce_answer(confirmation) is Err {
            self
        } else {
            State1155 {
                members: self.members.remove((role, confirmation)),
                log: log_revoke(self.log, self.members, role, confirmation, self.caller),
                ..self
            }
        }
    }
}

impl URWA1155 {
    /// All that the token keeps, who calls it and what it has logged.
    pub open spec fn state(&self) -> State1155 {
        State1155 {
            caller: call_sender(self.host),
            log: logged(self.host),
            members: role_members(self.access),
            admins: role_admins(self.access),
            ledger: ledger1155(self.erc1155),
            senders: flagged(self.send_whitelist),
            receivers: flagged(self.receive_whitelist),
            frozen: token_amounts(self.frozen),
        }
    }

    /// What `to` says to being handed `values` of the tokens `ids` of `from` by the caller,
    /// with `data`.
    pub open spec fn accepted(
        &self,
        from: Account,
        to: Account,
        ids: Seq<nat>,
        values: Seq<nat>,
        data: Seq<u8>,
    ) -> Result<(), Erc1155Error> {
        erc1155_accepted(
            erc1155_sees_code(self.erc1155, to),
            erc1155_reply(self.erc1155, call_sender(self.host), from, to, ids, values, data),
            to,
        )
    }

    /// Grants every role to `initial_admin`.
    pub fn constructor(&mut self, initial_admin: Account)
        ensures
            final(self).state() == old(self).state().after_constructor(initial_admin),
    {
        crate::access::grant_every_role(&mut self.access, &mut self.host, &initial_admin);
    }

    /// Whether `account` may send tokens.
    pub fn can_send(&self, account: Account) -> (r: bool)
        ensures
            r == self.state().senders.contains(account),
    {
        self.send_whitelist.get(&account)
    }

    /// Whether `account` may receive tokens.
    pub fn can_receive(&self, account: Account) -> (r: bool)
        ensures
            r == self.state().receivers.contains(account),
    {
        self.receive_whitelist.get(&account)
    }

    /// How much of the token `token_id` is frozen for `account`. It may be more than the account
    /// has.
    pub fn get_frozen_tokens(&self, account: Account, token_id: U256) -> (r: U256)
        ensures
            r@ == self.state().frozen_of(account, token_id@),
    {
        self.frozen.get(&account, &token_id)
    }

    /// Whether an ordinary transfer of `amount` of the token `token_id` from `from` to `to`
    /// would be allowed.
    pub fn can_transfer(&self, from: Account, to: Account, token_id: U256, amount: U256) -> (r:
        bool)
        ensures
            r == self.state().can_transfer(from, to, token_id@, amount@),
    {
        !from.is_zero() && !to.is_zero() && amount.at_most(&self.unfrozen_balance(from, token_id))
            && self.can_send(from) && self.can_receive(to)
    }

    /// Puts `account` on the send-allowlist or takes it off. Takes the allowlist role.
    pub fn change_send_whitelist(&mut self, account: Account, status: bool) -> (r: Result<
        (),
        Error1155,
    >)
        ensures
            r == old(self).state().check_role(whitelister()),
            final(self).state() == old(self).state().after_change_send(account, status),
    {
        if let Err(error) = self.require(whitelist_role()) {
            return Err(error);
        }
        self.send_whitelist.set(&account, status);
        log_send_whitelisted(&mut self.host, &account, status);
        Ok(())
    }

    /// Puts `account` on the receive-allowlist or takes it off. Takes the allowlist role.
    pub fn change_receive_whitelist(&mut self, account: Account, status: bool) -> (r: Result<
        (),
        Error1155,
    >)
        ensures
            r == old(self).state().check_role(whitelister()),
            final(self).state() == old(self).state().after_change_receive(account, status),
    {
        if let Err(error) = self.require(whitelist_role()) {
            return Err(error);
        }
        self.receive_whitelist.set(&account, status);
        log_receive_whitelisted(&mut self.host, &account, status);
        Ok(())
    }

    /// Mints `amount` of the token `id` to `to`, which must be on the receive-allowlist and
    /// accept them. Takes the minting role. The balance must have room for the new tokens.
    pub fn mint(&mut self, to: Account, id: U256, amount: U256) -> (r: Result<(), Error1155>)
        requires
            old(self).state().mint_fits(to, seq![id@], seq![amount@]),
        ensures
            r == old(self).state().mint_answer(
                to,
                seq![id@],
                seq![amount@],
                old(self).accepted(
                    Account::zero_account(),
                    to,
                    seq![id@],
                    seq![amount@],
                    Seq::empty(),
                ),
            ),
            final(self).state() == old(self).state().after_mint(to, seq![id@], seq![amount@]),
    {
        if let Err(error) = self.require(minter_role()) {
            return Err(error);
        }
        if !self.can_receive(to) {
            return Err(Error1155::CannotReceive { account: to });
        }
        proof {
            lemma_mint_each(self.state().ledger, to, seq![id@], seq![amount@]);
        }
        lift(crate::erc1155::mint(&mut self.erc1155, &mut self.host, &to, &id, &amount))
    }

    /// [`URWA1155::mint`], or nothing at all where the balance has no room for the new tokens.
    pub fn try_mint(&mut self, to: Account, id: U256, amount: U256) -> (r: Option<
        Result<(), Error1155>,
    >)
        ensures
            r is Some <==> old(self).state().mint_fits(to, seq![id@], seq![amount@]),
            r matches Some(answer) ==> answer == old(self).state().mint_answer(
                to,
                seq![id@],
                seq![amount@],
                old(self).accepted(
                    Account::zero_account(),
                    to,
                    seq![id@],
                    seq![amount@],
                    Seq::empty(),
                ),
            ),
            final(self).state() == (if r is Some {
                old(self).state().after_mint(to, seq![id@], seq![amount@])
            } else {
                old(self).state()
            }),
    {
        let may = self.require(minter_role()).is_ok() && self.can_receive(to) && !to.is_zero();
        if may && !self.fits_one(Account::zero(), to, id, amount) {
            return None;
        }
        Some(self.mint(to, id, amount))
    }

    /// Mints `amounts` of the tokens `ids` to `to`, which must be on the receive-allowlist and
    /// accept them. Takes the minting role. The balances must have room for the new tokens.
    pub fn mint_batch(&mut self, to: Account, ids: Vec<U256>, amounts: Vec<U256>) -> (r: Result<
        (),
        Error1155,
    >)
        requires
            old(self).state().mint_fits(to, values_of(ids@), values_of(amounts@)),
        ensures
            r == old(self).state().mint_answer(
                to,
                values_of(ids@),
                values_of(amounts@),
                old(self).accepted(
                    Account::zero_account(),
                    to,
                    values_of(ids@),
                    values_of(amounts@),
                    Seq::empty(),
                ),
            ),
            final(self).state() == old(self).state().after_mint(
                to,
                values_of(ids@),
                values_of(amounts@),
            ),
    {
        if let Err(error) = self.require(minter_role()) {
            return Err(error);
        }
        if !self.can_receive(to) {
            return Err(Error1155::CannotReceive { account: to });
        }
        proof {
            lemma_mint_each(self.state().ledger, to, values_of(ids@), values_of(amounts@));
        }
        lift(crate::erc1155::mint_batch(&mut self.erc1155, &mut self.host, &to, &ids, &amounts))
    }

    /// [`URWA1155::mint_batch`], or nothing at all where a balance has no room for the new
    /// tokens.
    pub fn try_mint_batch(&mut self, to: Account, ids: Vec<U256>, amounts: Vec<U256>) -> (r: Option<
        Result<(), Error1155>,
    >)
        ensures
            r is Some <==> old(self).state().mint_fits(to, values_of(ids@), values_of(amounts@)),
            r matches Some(answer) ==> answer == old(self).state().mint_answer(
                to,
                values_of(ids@),
                values_of(amounts@),
                old(self).accepted(
                    Account::zero_account(),
                    to,
                    values_of(ids@),
                    values_of(amounts@),
                    Seq::empty(),
                ),
            ),
            final(self).state() == (if r is Some {
                old(self).state().after_mint(to, values_of(ids@), values_of(amounts@))
            } else {
                old(self).state()
            }),
    {
        let may = self.require(minter_role()).is_ok() && self.can_receive(to) && !to.is_zero();
        if may && !fits(&self.erc1155, &Account::zero(), &to, &ids, &amounts) {
            return None;
        }
        Some(self.mint_batch(to, ids, amounts))
    }

    /// Burns `amount` of the token `id` of the caller, who must be on the send-allowlist. Takes
    /// the burning role. What is frozen burns too, and is then no longer counted as frozen.
    pub fn burn(&mut self, id: U256, amount: U256) -> (r: Result<(), Error1155>)
        ensures
            r == old(self).state().burn_answer(seq![id@], seq![amount@]),
            final(self).state() == old(self).state().after_burn(seq![id@], seq![amount@]),
    {
        if let Err(error) = self.require(burner_role()) {
            return Err(error);
        }
        let from = msg_sender(&self.host);
        if !self.can_send(from) {
            return Err(Error1155::CannotSend { account: from });
        }
        proof {
            reveal_with_fuel(State1155::release_from, 2);
            assert(requested(seq![id@].take(0), seq![amount@].take(0), id@) == 0);
        }
        self.excess_frozen_update(from, id, amount);
        lift(crate::erc1155::burn(&mut self.erc1155, &mut self.host, &from, &id, &amount))
    }

    /// Burns `amounts` of the tokens `ids` of the caller, who must be on the send-allowlist.
    /// Takes the burning role. What is frozen burns too, and is then no longer counted as frozen,
    /// as if the elements burned one after the other.
    pub fn burn_batch(&mut self, ids: Vec<U256>, amounts: Vec<U256>) -> (r: Result<(), Error1155>)
        ensures
            r == old(self).state().burn_answer(values_of(ids@), values_of(amounts@)),
            final(self).state() == old(self).state().after_burn(
                values_of(ids@),
                values_of(amounts@),
            ),
    {
        if let Err(error) = self.require(burner_role()) {
            return Err(error);
        }
        let from = msg_sender(&self.host);
        if !self.can_send(from) {
            return Err(Error1155::CannotSend { account: from });
        }
        let ghost all_ids = values_of(ids@);
        let ghost all_amounts = values_of(amounts@);
        let ghost released = old(self).state().release_from(from, all_ids, all_amounts, 0);
        let mut i: usize = 0;
        let mut enough = true;
        while enough && i < ids.len() && i < amounts.len()
            invariant
                i <= ids.len(),
                i <= amounts.len(),
                all_ids == values_of(ids@),
                all_amounts == values_of(amounts@),
                self.erc1155 == old(self).erc1155,
                enough ==> released == self.state().release_from(
                    from,
                    all_ids,
                    all_amounts,
                    i as nat,
                ),
                !enough ==> released == self.state(),
            decreases ids.len() - i, if enough { 1int } else { 0int },
        {
            match self.left_after(from, &ids, &amounts, i) {
                Some(held) if amounts[i].at_most(&held) => {
                    self.release_held(from, ids[i], amounts[i], held);
                    i += 1;
                },
                _ => {
                    enough = false;
                },
            }
        }
        assert(self.state() == released);
        lift(crate::erc1155::burn_batch(&mut self.erc1155, &mut self.host, &from, &ids, &amounts))
    }

    /// Freezes `amount` of the token `token_id` for `account`, in place of what was frozen
    /// before. Takes the freezing role.
    pub fn set_frozen_tokens(&mut self, account: Account, token_id: U256, amount: U256) -> (r:
        Result<(), Error1155>)
        ensures
            r == old(self).state().check_role(freezer()),
            final(self).state() == old(self).state().after_set_frozen(
                account,
                token_id@,
                amount@,
            ),
    {
        if let Err(error) = self.require(freezing_role()) {
            return Err(error);
        }
        self.frozen.set(&account, &token_id, &amount);
        log_frozen_token_amount(&mut self.host, &account, &token_id, &amount);
        Ok(())
    }

    /// Seizes `amount` of the token `id` from `from` and delivers it to `to`, which must be on
    /// the receive-allowlist and accept it. Neither the send-allowlist nor a freeze is in the
    /// way. Takes the seizing role. The balance must have room.
    pub fn forced_transfer(&mut self, from: Account, to: Account, id: U256, amount: U256) -> (r:
        Result<(), Error1155>)
        requires
            old(self).state().forced_fits(from, to, id@, amount@),
        ensures
            r == old(self).state().forced_answer(
                from,
                to,
                id@,
                amount@,
                old(self).accepted(
                    Account::zero_account(),
                    to,
                    seq![id@],
                    seq![amount@],
                    Seq::empty(),
                ),
            ),
            final(self).state() == old(self).state().after_forced(
                from,
                to,
                id@,
                amount@,
                old(self).accepted(
                    Account::zero_account(),
                    to,
                    seq![id@],
                    seq![amount@],
                    Seq::empty(),
                ),
            ),
    {
        if let Err(error) = self.require(force_transfer_role()) {
            return Err(error);
        }
        if to.is_zero() {
            return Err(Error1155::InvalidReceiver { receiver: to });
        }
        if from.is_zero() {
            return Err(Error1155::InvalidSender { sender: from });
        }
        if !self.can_receive(to) {
            return Err(Error1155::CannotReceive { account: to });
        }
        if from != to {
            self.excess_frozen_update(from, id, amount);
            proof {
                lemma_update_one(
                    self.state().ledger,
                    from,
                    Account::zero_account(),
                    id@,
                    amount@,
                );
            }
            if let Err(error) = lift(
                crate::erc1155::burn(&mut self.erc1155, &mut self.host, &from, &id, &amount),
            ) {
                return Err(error);
            }
            proof {
                lemma_update_one(self.state().ledger, Account::zero_account(), to, id@, amount@);
            }
            if let Err(error) = lift(
                crate::erc1155::mint(&mut self.erc1155, &mut self.host, &to, &id, &amount),
            ) {
                return Err(error);
            }
        }
        log_forced_token_amount(&mut self.host, &from, &to, &id, &amount);
        Ok(())
    }

    /// [`URWA1155::forced_transfer`], or nothing at all where the balance has no room.
    pub fn try_forced_transfer(&mut self, from: Account, to: Account, id: U256, amount: U256) -> (r:
        Option<Result<(), Error1155>>)
        ensures
            r is Some <==> old(self).state().forced_fits(from, to, id@, amount@),
            r matches Some(answer) ==> answer == old(self).state().forced_answer(
                from,
                to,
                id@,
                amount@,
                old(self).accepted(
                    Account::zero_account(),
                    to,
                    seq![id@],
                    seq![amount@],
                    Seq::empty(),
                ),
            ),
            final(self).state() == (if r is Some {
                old(self).state().after_forced(
                    from,
                    to,
                    id@,
                    amount@,
                    old(self).accepted(
                        Account::zero_account(),
                        to,
                        seq![id@],
                        seq![amount@],
                        Seq::empty(),
                    ),
                )
            } else {
                old(self).state()
            }),
    {
        let may = self.require(force_transfer_role()).is_ok() && !to.is_zero() && !from.is_zero()
            && self.can_receive(to);
        proof {
            lemma_update_one(self.state().ledger, from, to, id@, amount@);
        }
        if may && from != to && amount.at_most(&self.balance_of(from, id)) && !self.fits_one(
            from,
            to,
            id,
            amount,
        ) {
            return None;
        }
        Some(self.forced_transfer(from, to, id, amount))
    }

    /// How much `account` has of the token `id` that is not frozen.
    pub fn unfrozen_balance(&self, account: Account, id: U256) -> (r: U256)
        ensures
            r@ == self.state().unfrozen(account, id@),
    {
        let balance = crate::erc1155::balance_of(&self.erc1155, &account, &id);
        let frozen = self.frozen.get(&account, &id);
        match balance.checked_sub(&frozen) {
            Some(unfrozen) => unfrozen,
            None => U256::zero(),
        }
    }

    /// Before `amount` of the token `id` leaves `account` regardless of its freeze: what of it
    /// is frozen is frozen no longer.
    fn excess_frozen_update(&mut self, account: Account, id: U256, amount: U256)
        ensures
            final(self).state() == old(self).state().release(account, id@, amount@),
            final(self).erc1155 == old(self).erc1155,
    {
        let balance = crate::erc1155::balance_of(&self.erc1155, &account, &id);
        self.release_held(account, id, amount, balance);
    }

    /// Before `amount` of the token `id` leaves `account`, which holds `held`, regardless of its
    /// freeze: what of it is frozen is frozen no longer.
    fn release_held(&mut self, account: Account, id: U256, amount: U256, held: U256)
        ensures
            final(self).state() == old(self).state().release_of(held@, account, id@, amount@),
            final(self).erc1155 == old(self).erc1155,
    {
        let current = self.frozen.get(&account, &id);
        let unfrozen = match held.checked_sub(&current) {
            Some(unfrozen) => unfrozen,
            None => U256::zero(),
        };
        if !amount.at_most(&unfrozen) && amount.at_most(&held) {
            let excess = match amount.checked_sub(&unfrozen) {
                Some(excess) => excess,
                None => U256::zero(),
            };
            let next = match current.checked_sub(&excess) {
                Some(next) => next,
                None => U256::zero(),
            };
            self.frozen.set(&account, &id, &next);
            log_frozen_token_amount(&mut self.host, &account, &id, &next);
        }
    }

    /// What the first `k` elements of a batch leave `account` of the token of the next one, or
    /// nothing if they ask for more than there is.
    fn left_after(&self, account: Account, ids: &Vec<U256>, amounts: &Vec<U256>, k: usize) -> (r:
        Option<U256>)
        requires
            k < ids.len(),
            k < amounts.len(),
        ensures
            r is Some <==> self.state().left(
                account,
                values_of(ids@),
                values_of(amounts@),
                k as int,
            ) >= 0,
            r matches Some(held) ==> held@ == self.state().left(
                account,
                values_of(ids@),
                values_of(amounts@),
                k as int,
            ),
    {
        let balance = crate::erc1155::balance_of(&self.erc1155, &account, &ids[k]);
        match requested_so_far(ids, amounts, k, &ids[k]) {
            Some(asked) => balance.checked_sub(&asked),
            None => None,
        }
    }

    /// How much `account` has of the token `id`.
    pub fn balance_of(&self, account: Account, id: U256) -> (r: U256)
        ensures
            r@ == self.state().ledger.balance(account, id@),
    {
        crate::erc1155::balance_of(&self.erc1155, &account, &id)
    }

    /// How much each of `accounts` has of the token in the same place of `ids`.
    pub fn balance_of_batch(&self, accounts: Vec<Account>, ids: Vec<U256>) -> (r: Result<
        Vec<U256>,
        Error1155,
    >)
        ensures
            r is Ok <==> accounts@.len() == ids@.len(),
            r matches Ok(balances) ==> balances@.len() == ids@.len() && forall|i: int|
                0 <= i < ids@.len() ==> (#[trigger] balances@[i])@ == self.state().ledger.balance(
                    accounts@[i],
                    ids@[i]@,
                ),
            r matches Err(error) ==> error == (Error1155::InvalidArrayLength {
                ids_length: u256(ids@.len()),
                values_length: u256(accounts@.len()),
            }),
    {
        lift(crate::erc1155::balance_of_batch(&self.erc1155, &accounts, &ids))
    }

    /// Makes `operator` an operator for all tokens of the caller, or not.
    pub fn set_approval_for_all(&mut self, operator: Account, approved: bool) -> (r: Result<
        (),
        Error1155,
    >)
        ensures
            r == base_result(Ledger1155::can_be_operator(operator)),
            final(self).state() == old(self).state().after_set_operator(operator, approved),
    {
        lift(
            crate::erc1155::set_approval_for_all(
                &mut self.erc1155,
                &mut self.host,
                &operator,
                approved,
            ),
        )
    }

    /// Whether `operator` is an operator for all tokens of `account`.
    pub fn is_approved_for_all(&self, account: Account, operator: Account) -> (r: bool)
        ensures
            r == self.state().ledger.operators.contains((account, operator)),
    {
        crate::erc1155::is_approved_for_all(&self.erc1155, &account, &operator)
    }

    /// Moves `value` of the token `id` of `from`, for which the caller is an operator if it is
    /// not `from`, to `to`, which must accept it and is handed `data`. The balance must have
    /// room.
    pub fn safe_transfer_from(
        &mut self,
        from: Account,
        to: Account,
        id: U256,
        value: U256,
        data: Vec<u8>,
    ) -> (r: Result<(), Error1155>)
        requires
            old(self).state().transfer_fits(from, to, id@, value@),
        ensures
            r == old(self).state().transfer_answer(
                from,
                to,
                id@,
                value@,
                old(self).accepted(from, to, seq![id@], seq![value@], data@),
            ),
            final(self).state() == old(self).state().after_transfer(from, to, id@, value@),
    {
        if let Err(error) = self.enforce_transfer(from, to, id, value) {
            return Err(error);
        }
        lift(
            crate::erc1155::safe_transfer_from(
                &mut self.erc1155,
                &mut self.host,
                &from,
                &to,
                &id,
                &value,
                data,
            ),
        )
    }

    /// [`URWA1155::safe_transfer_from`], or nothing at all where the balance has no room.
    pub fn try_safe_transfer_from(
        &mut self,
        from: Account,
        to: Account,
        id: U256,
        value: U256,
        data: Vec<u8>,
    ) -> (r: Option<Result<(), Error1155>>)
        ensures
            r is Some <==> old(self).state().transfer_fits(from, to, id@, value@),
            r matches Some(answer) ==> answer == old(self).state().transfer_answer(
                from,
                to,
                id@,
                value@,
                old(self).accepted(from, to, seq![id@], seq![value@], data@),
            ),
            final(self).state() == (if r is Some {
                old(self).state().after_transfer(from, to, id@, value@)
            } else {
                old(self).state()
            }),
    {
        let may = self.enforce_transfer(from, to, id, value).is_ok() && self.may_send(from, to);
        if may && !self.fits_one(from, to, id, value) {
            return None;
        }
        Some(self.safe_transfer_from(from, to, id, value, data))
    }

    /// Moves `values` of the tokens `ids` of `from`, for which the caller is an operator if it
    /// is not `from`, to `to`, which must accept them and is handed `data`. The balances must
    /// have room.
    pub fn safe_batch_transfer_from(
        &mut self,
        from: Account,
        to: Account,
        ids: Vec<U256>,
        values: Vec<U256>,
        data: Vec<u8>,
    ) -> (r: Result<(), Error1155>)
        requires
            old(self).state().batch_fits(from, to, values_of(ids@), values_of(values@)),
        ensures
            r == old(self).state().batch_answer(
                from,
                to,
                values_of(ids@),
                values_of(values@),
                old(self).accepted(from, to, values_of(ids@), values_of(values@), data@),
            ),
            final(self).state() == old(self).state().after_batch(
                from,
                to,
                values_of(ids@),
                values_of(values@),
            ),
    {
        if let Err(error) = self.enforce_batch(from, to, &ids, &values) {
            return Err(error);
        }
        lift(
            crate::erc1155::safe_batch_transfer_from(
                &mut self.erc1155,
                &mut self.host,
                &from,
                &to,
                &ids,
                &values,
                data,
            ),
        )
    }

    /// [`URWA1155::safe_batch_transfer_from`], or nothing at all where a balance has no room.
    pub fn try_safe_batch_transfer_from(
        &mut self,
        from: Account,
        to: Account,
        ids: Vec<U256>,
        values: Vec<U256>,
        data: Vec<u8>,
    ) -> (r: Option<Result<(), Error1155>>)
        ensures
            r is Some <==> old(self).state().batch_fits(
                from,
                to,
                values_of(ids@),
                values_of(values@),
            ),
            r matches Some(answer) ==> answer == old(self).state().batch_answer(
                from,
                to,
                values_of(ids@),
                values_of(values@),
                old(self).accepted(from, to, values_of(ids@), values_of(values@), data@),
            ),
            final(self).state() == (if r is Some {
                old(self).state().after_batch(from, to, values_of(ids@), values_of(values@))
            } else {
                old(self).state()
            }),
    {
        let may = self.enforce_batch(from, to, &ids, &values).is_ok() && self.may_send(from, to);
        if may && !fits(&self.erc1155, &from, &to, &ids, &values) {
            return None;
        }
        Some(self.safe_batch_transfer_from(from, to, ids, values, data))
    }

    /// Refuses an ordinary transfer that is not within the rules.
    fn enforce_transfer(&self, from: Account, to: Account, id: U256, value: U256) -> (r: Result<
        (),
        Error1155,
    >)
        ensures
            r == self.state().check_transfer(from, to, id@, value@),
    {
        broadcast use lemma_u256;

        if !self.can_send(from) {
            return Err(Error1155::CannotSend { account: from });
        }
        if !self.can_receive(to) {
            return Err(Error1155::CannotReceive { account: to });
        }
        let unfrozen = self.unfrozen_balance(from, id);
        if !value.at_most(&unfrozen) {
            return Err(
                Error1155::InsufficientUnfrozenBalance {
                    account: from,
                    token_id: id,
                    amount: value,
                    unfrozen,
                },
            );
        }
        Ok(())
    }

    /// Refuses an ordinary transfer of a batch that is not within the rules. Each id is held
    /// against all that the batch asks for of it.
    fn enforce_batch(&self, from: Account, to: Account, ids: &Vec<U256>, values: &Vec<U256>) -> (r:
        Result<(), Error1155>)
        ensures
            r == self.state().check_batch(from, to, values_of(ids@), values_of(values@)),
    {
        broadcast use lemma_u256;

        if !self.can_send(from) {
            return Err(Error1155::CannotSend { account: from });
        }
        if !self.can_receive(to) {
            return Err(Error1155::CannotReceive { account: to });
        }
        let ghost all_ids = values_of(ids@);
        let ghost all_values = values_of(values@);
        let mut i: usize = 0;
        assert(all_ids.skip(0) =~= all_ids);
        while i < ids.len()
            invariant
                i <= ids.len(),
                all_ids == values_of(ids@),
                all_values == values_of(values@),
                self.state().check_ids(from, all_ids, all_values, all_ids)
                    == self.state().check_ids(
                    from,
                    all_ids,
                    all_values,
                    all_ids.skip(i as int),
                ),
                self.state().check_lists(from, to) is Ok,
            decreases ids.len() - i,
        {
            broadcast use lemma_u256;

            let id = ids[i];
            let total = requested_total(ids, values, &id);
            let unfrozen = self.unfrozen_balance(from, id);
            assert(all_ids.skip(i as int)[0] == id@);
            assert(all_ids.skip(i as int).drop_first() =~= all_ids.skip(i + 1));
            if !total.at_most(&unfrozen) {
                return Err(
                    Error1155::InsufficientUnfrozenBalance {
                        account: from,
                        token_id: id,
                        amount: total,
                        unfrozen,
                    },
                );
            }
            i += 1;
        }
        Ok(())
    }

    /// Whether the base contract lets the caller send tokens of `from` to `to`.
    fn may_send(&self, from: Account, to: Account) -> (r: bool)
        ensures
            r == (self.state().ledger.can_send(self.state().caller, from, to) is Ok),
    {
        let caller = msg_sender(&self.host);
        (from == caller || self.is_approved_for_all(from, caller)) && !to.is_zero()
            && !from.is_zero()
    }

    /// Whether there is room for `amount` of the token `id` that go from `from` to `to`.
    fn fits_one(&self, from: Account, to: Account, id: U256, amount: U256) -> (r: bool)
        requires
            to != Account::zero_account(),
        ensures
            r == self.state().ledger.update_fits(from, to, seq![id@], seq![amount@]),
    {
        let ids: Vec<U256> = vec![id];
        let amounts: Vec<U256> = vec![amount];
        assert(values_of(ids@) =~= seq![id@]);
        assert(values_of(amounts@) =~= seq![amount@]);
        fits(&self.erc1155, &from, &to, &ids, &amounts)
    }

    /// Whether `account` holds `role`.
    pub fn has_role(&self, role: [u8; 32], account: Account) -> (r: bool)
        ensures
            r == self.state().members.contains((role, account)),
    {
        crate::access::has_role(&self.access, &role, &account)
    }

    /// Refuses unless the caller holds `role`.
    pub fn only_role(&self, role: [u8; 32]) -> (r: Result<(), AccessError>)
        ensures
            r == role_check(self.state().members, role, self.state().caller),
    {
        crate::access::require_role(&self.access, &self.host, &role)
    }

    /// The role whose holders may grant and revoke `role`.
    pub fn get_role_admin(&self, role: [u8; 32]) -> (r: [u8; 32])
        ensures
            r == admin_of(self.state().admins, role),
    {
        crate::access::get_role_admin(&self.access, &role)
    }

    /// Grants `role` to `account`. Takes the admin role of `role`.
    pub fn grant_role(&mut self, role: [u8; 32], account: Account) -> (r: Result<(), AccessError>)
        ensures
            r == old(self).state().admin_answer(role),
            final(self).state() == old(self).state().after_grant(role, account),
    {
        let admin_role = self.get_role_admin(role);
        if let Err(error) = self.only_role(admin_role) {
            return Err(error);
        }
        crate::access::grant_role(&mut self.access, &mut self.host, &role, &account);
        Ok(())
    }

    /// Takes `role` from `account`. Takes the admin role of `role`.
    pub fn revoke_role(&mut self, role: [u8; 32], account: Account) -> (r: Result<(), AccessError>)
        ensures
            r == old(self).state().admin_answer(role),
            final(self).state() == old(self).state().after_revoke(role, account),
    {
        let admin_role = self.get_role_admin(role);
        if let Err(error) = self.only_role(admin_role) {
            return Err(error);
        }
        crate::access::revoke_role(&mut self.access, &mut self.host, &role, &account);
        Ok(())
    }

    /// The caller, who confirms with its own account, gives up `role`.
    pub fn renounce_role(&mut self, role: [u8; 32], confirmation: Account) -> (r: Result<
        (),
        AccessError,
    >)
        ensures
            r == old(self).state().renounce_answer(confirmation),
            final(self).state() == old(self).state().after_renounce(role, confirmation),
    {
        if msg_sender(&self.host) != confirmation {
            return Err(AccessError::BadConfirmation);
        }
        crate::access::revoke_role(&mut self.access, &mut self.host, &role, &confirmation);
        Ok(())
    }

    /// Whether the token has the interface with the identifier `interface_id`.
    pub fn supports_interface(&self, interface_id: [u8; 4]) -> (r: bool)
        ensures
            r == (is_access_interface(interface_id@) || is_erc1155_interface(interface_id@)),
    {
        crate::access::supports_interface(&self.access, interface_id)
            || crate::erc1155::supports_interface(&self.erc1155, interface_id)
    }

    /// Refuses unless the caller holds `role`.
    fn require(&self, role: [u8; 32]) -> (r: Result<(), Error1155>)
        ensures
            r == self.state().check_role(role),
    {
        match self.only_role(role) {
            Ok(()) => Ok(()),
            Err(error) => Err(Error1155::from(error)),
        }
    }
}

} // verus!
