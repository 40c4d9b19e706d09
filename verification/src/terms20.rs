//! The terms of each request to the fungible token: when it is granted, how it is refused
//! otherwise, and what it changes, all said of what the token keeps.

use vstd::prelude::*;
use vstd::std_specs::convert::FromSpec;

use crate::access::{
    burner, default_admin, forcer, freezer, log_every_role, minter, role_admins, role_check,
    role_members, whitelister, AccessError,
};
use crate::account::Account;
use crate::erc20::{ledger20, metadata_name, metadata_symbol, Erc20Error, Ledger20};
use crate::events::{
    approved_amount, forced_amount, frozen_amount, moved_amount, receive_whitelisted, role_granted,
    role_revoked, send_whitelisted,
};
use crate::host::{call_sender, logged};
use crate::laws20::Call20;
use crate::storage::{account_amounts, flagged, is_raised};
use crate::uint::{modulus, u256, U256};
use crate::urwa20::{from_access, from_base, Error20, State20, URWA20};

verus! {

/// What the token is said to keep is what its parts hold.
pub proof fn law_state_is_what_is_stored(token: URWA20)
    ensures
        token.state().caller == call_sender(token.host),
        token.state().log == logged(token.host),
        token.state().members == role_members(token.access),
        token.state().admins == role_admins(token.access),
        token.state().ledger == ledger20(token.erc20),
        token.state().name == metadata_name(token.metadata),
        token.state().symbol == metadata_symbol(token.metadata),
        token.state().initialized == is_raised(token.initialized),
        token.state().senders == flagged(token.send_whitelist),
        token.state().receivers == flagged(token.receive_whitelist),
        token.state().frozen == account_amounts(token.frozen),
{
}

/// Balances, allowances and freezes are what was last stored, and zero where nothing was. What is
/// not frozen is the balance beyond the freeze, if there is any.
pub proof fn law_amounts_are_what_is_stored(s: State20, account: Account, other: Account)
    ensures
        s.ledger.balances.dom().contains(account) ==> s.ledger.balance(account)
            == s.ledger.balances[account],
        !s.ledger.balances.dom().contains(account) ==> s.ledger.balance(account) == 0,
        s.ledger.allowances.dom().contains((account, other)) ==> s.ledger.allowance(account, other)
            == s.ledger.allowances[(account, other)],
        !s.ledger.allowances.dom().contains((account, other)) ==> s.ledger.allowance(account, other)
            == 0,
        s.frozen.dom().contains(account) ==> s.frozen_of(account) == s.frozen[account],
        !s.frozen.dom().contains(account) ==> s.frozen_of(account) == 0,
        s.frozen_of(account) <= s.ledger.balance(account) ==> s.unfrozen(account) + s.frozen_of(
            account,
        ) == s.ledger.balance(account),
        s.frozen_of(account) >= s.ledger.balance(account) ==> s.unfrozen(account) == 0,
{
}

/// An ordinary transfer is possible if and only if neither end is the zero account, the sender is
/// on the send-allowlist, the receiver is on the receive-allowlist, and the amount and what is
/// frozen of the sender's tokens are within its balance; nothing at all can always be sent. No
/// amount is too large by itself, and nobody's role, no other list and no other account matters.
pub proof fn law_can_transfer_terms(s: State20, from: Account, to: Account, amount: nat)
    ensures
        s.can_transfer(from, to, amount) <==> from != Account::zero_account() && to
            != Account::zero_account() && s.senders.contains(from) && s.receivers.contains(to) && (
        amount == 0 || s.frozen_of(from) + amount <= s.ledger.balance(from)),
{
}

/// What the rules of this token say to an ordinary transfer: first comes what is frozen, then the
/// send-allowlist, then the receive-allowlist, and there is nothing else.
pub proof fn law_rules_for_transfers(s: State20, from: Account, to: Account, amount: nat)
    ensures
        ({
            let covered = amount == 0 || s.frozen_of(from) + amount <= s.ledger.balance(from);
            let free = if s.frozen_of(from) <= s.ledger.balance(from) {
                s.ledger.balance(from) - s.frozen_of(from)
            } else {
                0
            };
            let answer = s.check_transfer(from, to, amount);
            &&& !covered ==> answer == Err::<(), Error20>(
                Error20::InsufficientUnfrozenBalance {
                    account: from,
                    amount: u256(amount),
                    unfrozen: u256(free as nat),
                },
            )
            &&& covered && !s.senders.contains(from) ==> answer == Err::<(), Error20>(
                Error20::CannotSend { account: from },
            )
            &&& covered && s.senders.contains(from) && !s.receivers.contains(to) ==> answer == Err::<
                (),
                Error20,
            >(Error20::CannotReceive { account: to })
            &&& covered && s.senders.contains(from) && s.receivers.contains(to) ==> answer == Ok::<
                (),
                Error20,
            >(())
        }),
{
}

/// A transfer by the owner goes through if and only if neither end is the zero account, both are
/// on their lists and the amount is not frozen. Otherwise the first that fails of the freeze,
/// the send-allowlist, the receive-allowlist, the sender and the receiver is the refusal.
pub proof fn law_transfer_terms(s: State20, to: Account, value: nat)
    ensures
        ({
            let from = s.caller;
            let zero = Account::zero_account();
            let covered = value == 0 || s.frozen_of(from) + value <= s.ledger.balance(from);
            let listed = covered && s.senders.contains(from) && s.receivers.contains(to);
            let free = if s.frozen_of(from) <= s.ledger.balance(from) {
                s.ledger.balance(from) - s.frozen_of(from)
            } else {
                0
            };
            let answer = s.transfer_answer(to, value);
            &&& answer is Ok <==> from != zero && to != zero && s.senders.contains(from)
                && s.receivers.contains(to) && covered
            &&& answer matches Ok(granted) ==> granted
            &&& !covered ==> answer == Err::<bool, Error20>(
                Error20::InsufficientUnfrozenBalance {
                    account: from,
                    amount: u256(value),
                    unfrozen: u256(free as nat),
                },
            )
            &&& covered && !s.senders.contains(from) ==> answer == Err::<bool, Error20>(
                Error20::CannotSend { account: from },
            )
            &&& covered && s.senders.contains(from) && !s.receivers.contains(to) ==> answer == Err::<
                bool,
                Error20,
            >(Error20::CannotReceive { account: to })
            &&& listed && from == zero ==> answer == Err::<bool, Error20>(
                Error20::InvalidSender { sender: from },
            )
            &&& listed && from != zero && to == zero ==> answer == Err::<bool, Error20>(
                Error20::InvalidReceiver { receiver: to },
            )
        }),
{
}

/// What a transfer by the owner changes: two balances and the log. A refused one changes nothing.
pub proof fn law_transfer_effects(s: State20, to: Account, value: nat)
    ensures
        ({
            let from = s.caller;
            let t = s.after_transfer(to, value);
            &&& s.transfer_answer(to, value) is Err ==> t == s
            &&& s.transfer_answer(to, value) is Ok ==> {
                &&& t == (State20 {
                    ledger: Ledger20 { balances: t.ledger.balances, ..s.ledger },
                    log: s.log.push(moved_amount(from, to, value)),
                    ..s
                })
                &&& from != to ==> t.ledger.balance(from) + value == s.ledger.balance(from)
                &&& from != to && s.ledger.balance(to) + value < modulus() ==> t.ledger.balance(to)
                    == s.ledger.balance(to) + value
                &&& from == to && s.ledger.balance(to) < modulus() ==> t.ledger.balance(to)
                    == s.ledger.balance(to)
                &&& forall|other: Account|
                    other != from && other != to ==> #[trigger] t.ledger.balance(other)
                        == s.ledger.balance(other)
            }
        }),
{
}

/// A transfer by a spender goes through if and only if one by the owner would and the allowance
/// suffices: it has no limit, or it is at least the value and the spender is an account.
/// Otherwise the rules of this token come first, then the allowance, then the ends.
pub proof fn law_transfer_from_terms(s: State20, from: Account, to: Account, value: nat)
    ensures
        ({
            let zero = Account::zero_account();
            let covered = value == 0 || s.frozen_of(from) + value <= s.ledger.balance(from);
            let listed = covered && s.senders.contains(from) && s.receivers.contains(to);
            let allowance = s.ledger.allowance(from, s.caller);
            let unlimited = allowance == modulus() - 1;
            let free = if s.frozen_of(from) <= s.ledger.balance(from) {
                s.ledger.balance(from) - s.frozen_of(from)
            } else {
                0
            };
            let answer = s.transfer_from_answer(from, to, value);
            &&& answer is Ok <==> from != zero && to != zero && s.senders.contains(from)
                && s.receivers.contains(to) && covered && (unlimited || (s.caller != zero && value
                <= allowance))
            &&& answer matches Ok(granted) ==> granted
            &&& !covered ==> answer == Err::<bool, Error20>(
                Error20::InsufficientUnfrozenBalance {
                    account: from,
                    amount: u256(value),
                    unfrozen: u256(free as nat),
                },
            )
            &&& covered && !s.senders.contains(from) ==> answer == Err::<bool, Error20>(
                Error20::CannotSend { account: from },
            )
            &&& covered && s.senders.contains(from) && !s.receivers.contains(to) ==> answer == Err::<
                bool,
                Error20,
            >(Error20::CannotReceive { account: to })
            &&& listed && !unlimited && allowance < value ==> answer == Err::<bool, Error20>(
                Error20::InsufficientAllowance {
                    spender: s.caller,
                    allowance: u256(allowance),
                    needed: u256(value),
                },
            )
            &&& listed && !unlimited && allowance >= value && from == zero ==> answer == Err::<
                bool,
                Error20,
            >(Error20::InvalidApprover { approver: from })
            &&& listed && !unlimited && allowance >= value && from != zero && s.caller == zero
                ==> answer == Err::<bool, Error20>(Error20::InvalidSpender { spender: s.caller })
            &&& listed && unlimited && from == zero ==> answer == Err::<bool, Error20>(
                Error20::InvalidSender { sender: from },
            )
            &&& listed && from != zero && to == zero && (unlimited || (s.caller != zero && value
                <= allowance)) ==> answer == Err::<bool, Error20>(
                Error20::InvalidReceiver { receiver: to },
            )
        }),
{
}

/// What a transfer by a spender changes: two balances, the allowance unless it has no limit, and
/// the log.
pub proof fn law_transfer_from_effects(s: State20, from: Account, to: Account, value: nat)
    requires
        s.transfer_from_answer(from, to, value) is Ok,
    ensures
        ({
            let t = s.after_transfer_from(from, to, value);
            let before = s.ledger.allowance(from, s.caller);
            &&& t == (State20 {
                ledger: Ledger20 { supply: s.ledger.supply, ..t.ledger },
                log: s.log.push(moved_amount(from, to, value)),
                ..s
            })
            &&& from != to ==> t.ledger.balance(from) + value == s.ledger.balance(from)
            &&& from != to && s.ledger.balance(to) + value < modulus() ==> t.ledger.balance(to)
                == s.ledger.balance(to) + value
            &&& from == to && s.ledger.balance(to) < modulus() ==> t.ledger.balance(to)
                == s.ledger.balance(to)
            &&& forall|other: Account|
                other != from && other != to ==> #[trigger] t.ledger.balance(other)
                    == s.ledger.balance(other)
            &&& before == modulus() - 1 ==> t.ledger.allowance(from, s.caller) == before
            &&& before != modulus() - 1 ==> t.ledger.allowance(from, s.caller) + value == before
            &&& forall|owner: Account, spender: Account|
                (owner, spender) != (from, s.caller) ==> #[trigger] t.ledger.allowance(
                    owner,
                    spender,
                ) == s.ledger.allowance(owner, spender)
        }),
{
}

/// A transfer by a spender that is refused changes nothing, but for the allowance where the only
/// thing in the way is that the receiver is the zero account.
pub proof fn law_refused_transfer_from(s: State20, from: Account, to: Account, value: nat)
    requires
        s.transfer_from_answer(from, to, value) is Err,
    ensures
        ({
            let t = s.after_transfer_from(from, to, value);
            &&& t == (State20 {
                ledger: Ledger20 { allowances: t.ledger.allowances, ..s.ledger },
                ..s
            })
            &&& to != Account::zero_account() || !s.receivers.contains(to) ==> t == s
        }),
{
}

/// An allowance can be given if and only if neither the owner, who calls, nor the spender is the
/// zero account. It replaces the allowance of that spender, and nothing else changes.
pub proof fn law_approve_terms(s: State20, spender: Account, value: nat)
    ensures
        ({
            let zero = Account::zero_account();
            let answer = s.approve_answer(spender);
            let t = s.after_approve(spender, value);
            &&& s.caller != zero && spender != zero ==> answer == Ok::<bool, Error20>(true)
            &&& s.caller == zero ==> answer == Err::<bool, Error20>(
                Error20::InvalidApprover { approver: s.caller },
            )
            &&& s.caller != zero && spender == zero ==> answer == Err::<bool, Error20>(
                Error20::InvalidSpender { spender },
            )
            &&& answer is Err ==> t == s
            &&& answer is Ok ==> {
                &&& t == (State20 {
                    ledger: Ledger20 { allowances: t.ledger.allowances, ..s.ledger },
                    log: s.log.push(approved_amount(s.caller, spender, value)),
                    ..s
                })
                &&& t.ledger.allowance(s.caller, spender) == value
                &&& forall|owner: Account, other: Account|
                    (owner, other) != (s.caller, spender) ==> #[trigger] t.ledger.allowance(
                        owner,
                        other,
                    ) == s.ledger.allowance(owner, other)
            }
        }),
{
}

/// Minting goes through if and only if the caller holds the minting role, the receiver is on the
/// receive-allowlist and it is not the zero account; the refusals come in this order. No other
/// role of the caller is asked for, and no other list of the receiver.
pub proof fn law_mint_terms(s: State20, to: Account, amount: nat)
    ensures
        ({
            let zero = Account::zero_account();
            let may = s.members.contains((minter(), s.caller));
            let answer = s.mint_answer(to);
            &&& answer is Ok <==> may && s.receivers.contains(to) && to != zero
            &&& !may ==> answer == Err::<(), Error20>(
                Error20::UnauthorizedAccount { account: s.caller, needed_role: minter() },
            )
            &&& may && !s.receivers.contains(to) ==> answer == Err::<(), Error20>(
                Error20::CannotReceive { account: to },
            )
            &&& may && s.receivers.contains(to) && to == zero ==> answer == Err::<(), Error20>(
                Error20::InvalidReceiver { receiver: to },
            )
            &&& s.mint_fits(to, amount) <==> (may && s.receivers.contains(to) && to != zero
                ==> s.ledger.supply + amount < modulus())
        }),
{
}

/// What minting changes: the balance of the receiver, the total supply and the log. A refused one
/// changes nothing.
pub proof fn law_mint_effects(s: State20, to: Account, amount: nat)
    ensures
        ({
            let t = s.after_mint(to, amount);
            &&& s.mint_answer(to) is Err ==> t == s
            &&& s.mint_answer(to) is Ok ==> {
                &&& t == (State20 {
                    ledger: Ledger20 { allowances: s.ledger.allowances, ..t.ledger },
                    log: s.log.push(moved_amount(Account::zero_account(), to, amount)),
                    ..s
                })
                &&& t.ledger.supply == s.ledger.supply + amount
                &&& s.ledger.balance(to) + amount < modulus() ==> t.ledger.balance(to)
                    == s.ledger.balance(to) + amount
                &&& forall|other: Account|
                    other != to ==> #[trigger] t.ledger.balance(other) == s.ledger.balance(other)
            }
        }),
{
}

/// Burning goes through if and only if the caller holds the burning role, is on the
/// send-allowlist, is not the zero account and has at least the amount; the refusals come in
/// this order. Neither what is frozen nor any other role nor the receive-allowlist is in the
/// way.
pub proof fn law_burn_terms(s: State20, amount: nat)
    ensures
        ({
            let zero = Account::zero_account();
            let may = s.members.contains((burner(), s.caller));
            let sends = may && s.senders.contains(s.caller);
            let answer = s.burn_answer(amount);
            &&& answer is Ok <==> sends && s.caller != zero && amount <= s.ledger.balance(s.caller)
            &&& !may ==> answer == Err::<(), Error20>(
                Error20::UnauthorizedAccount { account: s.caller, needed_role: burner() },
            )
            &&& may && !sends ==> answer == Err::<(), Error20>(
                Error20::CannotSend { account: s.caller },
            )
            &&& sends && s.caller == zero ==> answer == Err::<(), Error20>(
                Error20::InvalidSender { sender: s.caller },
            )
            &&& sends && s.caller != zero && amount > s.ledger.balance(s.caller) ==> answer == Err::<
                (),
                Error20,
            >(
                Error20::InsufficientBalance {
                    sender: s.caller,
                    balance: u256(s.ledger.balance(s.caller)),
                    needed: u256(amount),
                },
            )
        }),
{
}

/// What burning changes: the balance of the caller, the total supply, and the log; and where less
/// is left than was frozen, as much is frozen as is left of what the freeze covered, which is
/// logged first.
pub proof fn law_burn_effects(s: State20, amount: nat)
    requires
        s.burn_answer(amount) is Ok,
    ensures
        ({
            let from = s.caller;
            let t = s.after_burn(amount);
            let moved = moved_amount(from, Account::zero_account(), amount);
            let (held, frozen) = (s.ledger.balance(from), s.frozen_of(from));
            &&& t == (State20 {
                ledger: Ledger20 { allowances: s.ledger.allowances, ..t.ledger },
                frozen: t.frozen,
                log: t.log,
                ..s
            })
            &&& t.ledger.balance(from) + amount == held
            &&& amount <= s.ledger.supply < modulus() ==> t.ledger.supply + amount
                == s.ledger.supply
            &&& forall|other: Account|
                other != from ==> #[trigger] t.ledger.balance(other) == s.ledger.balance(other)
                    && t.frozen_of(other) == s.frozen_of(other)
            &&& amount == 0 || frozen + amount <= held ==> t.frozen == s.frozen && t.log
                == s.log.push(moved)
            &&& amount > 0 && frozen <= held < frozen + amount ==> t.frozen_of(from) + amount
                == held && t.log == s.log.push(frozen_amount(from, t.frozen_of(from))).push(moved)
            &&& amount > 0 && frozen > held ==> t.frozen_of(from) + amount == frozen && t.log
                == s.log.push(frozen_amount(from, t.frozen_of(from))).push(moved)
        }),
{
}

/// A refused burn changes nothing, unless it is the zero account that calls.
pub proof fn law_refused_burn(s: State20, amount: nat)
    requires
        s.burn_answer(amount) is Err,
    ensures
        s.caller != Account::zero_account() ==> s.after_burn(amount) == s,
        s.after_burn(amount).ledger == s.ledger,
        s.after_burn(amount).members == s.members,
        s.after_burn(amount).senders == s.senders,
        s.after_burn(amount).receivers == s.receivers,
{
}

/// A seizure goes through if and only if the caller holds the seizing role, neither end is the
/// zero account, the receiver is on the receive-allowlist, and the victim is the receiver or has
/// at least the amount; the refusals come in this order. No list that the victim is on or off,
/// no freeze and no other role matters.
pub proof fn law_seizure_terms(s: State20, from: Account, to: Account, amount: nat)
    ensures
        ({
            let zero = Account::zero_account();
            let may = s.members.contains((forcer(), s.caller));
            let answer = s.forced_answer(from, to, amount);
            &&& answer is Ok <==> may && to != zero && from != zero && s.receivers.contains(to) && (
            from == to || amount <= s.ledger.balance(from))
            &&& !may ==> answer == Err::<(), Error20>(
                Error20::UnauthorizedAccount { account: s.caller, needed_role: forcer() },
            )
            &&& may && to == zero ==> answer == Err::<(), Error20>(
                Error20::InvalidReceiver { receiver: to },
            )
            &&& may && to != zero && from == zero ==> answer == Err::<(), Error20>(
                Error20::InvalidSender { sender: from },
            )
            &&& may && to != zero && from != zero && !s.receivers.contains(to) ==> answer == Err::<
                (),
                Error20,
            >(Error20::CannotReceive { account: to })
            &&& may && to != zero && from != zero && s.receivers.contains(to) && from != to && amount
                > s.ledger.balance(from) ==> answer == Err::<(), Error20>(
                Error20::InsufficientBalance {
                    sender: from,
                    balance: u256(s.ledger.balance(from)),
                    needed: u256(amount),
                },
            )
        }),
{
}

/// What a seizure from another account changes: two balances and the log; and where less is left
/// to the victim than was frozen, as much is frozen as is left of what the freeze covered, which
/// is logged first. A refused one changes nothing.
pub proof fn law_seizure_effects(s: State20, from: Account, to: Account, amount: nat)
    requires
        from != to,
    ensures
        ({
            let t = s.after_forced(from, to, amount);
            let (held, frozen) = (s.ledger.balance(from), s.frozen_of(from));
            let (moved, seized) = (moved_amount(from, to, amount), forced_amount(from, to, amount));
            &&& s.forced_answer(from, to, amount) is Err ==> t == s
            &&& s.forced_answer(from, to, amount) is Ok ==> {
                &&& t == (State20 {
                    ledger: Ledger20 { balances: t.ledger.balances, ..s.ledger },
                    frozen: t.frozen,
                    log: t.log,
                    ..s
                })
                &&& t.ledger.balance(from) + amount == held
                &&& s.ledger.balance(to) + amount < modulus() ==> t.ledger.balance(to)
                    == s.ledger.balance(to) + amount
                &&& forall|other: Account|
                    other != from && other != to ==> #[trigger] t.ledger.balance(other)
                        == s.ledger.balance(other)
                &&& forall|other: Account|
                    other != from ==> #[trigger] t.frozen_of(other) == s.frozen_of(other)
                &&& amount == 0 || frozen + amount <= held ==> t.frozen == s.frozen && t.log
                    == s.log.push(moved).push(seized)
                &&& amount > 0 && frozen <= held < frozen + amount ==> t.frozen_of(from) + amount
                    == held && t.log == s.log.push(frozen_amount(from, t.frozen_of(from))).push(
                    moved,
                ).push(seized)
                &&& amount > 0 && frozen > held ==> t.frozen_of(from) + amount == frozen && t.log
                    == s.log.push(frozen_amount(from, t.frozen_of(from))).push(moved).push(seized)
            }
        }),
{
}

/// A seizure that leads back to its victim changes nothing but the log, whatever the amount.
pub proof fn law_self_seizure_effects(s: State20, account: Account, amount: nat)
    ensures
        s.forced_answer(account, account, amount) is Ok ==> s.after_forced(account, account, amount)
            == (State20 { log: s.log.push(forced_amount(account, account, amount)), ..s }),
        s.forced_answer(account, account, amount) is Err ==> s.after_forced(
            account,
            account,
            amount,
        ) == s,
{
}

/// A role is asked for by itself: whoever holds it passes, and whoever does not is told which
/// role is missing.
pub proof fn law_role_terms(s: State20, role: [u8; 32])
    ensures
        s.members.contains((role, s.caller)) ==> s.check_role(role) == Ok::<(), Error20>(()),
        !s.members.contains((role, s.caller)) ==> s.check_role(role) == Err::<(), Error20>(
            Error20::UnauthorizedAccount { account: s.caller, needed_role: role },
        ),
        s.members.contains((role, s.caller)) ==> role_check(s.members, role, s.caller) == Ok::<
            (),
            AccessError,
        >(()),
        !s.members.contains((role, s.caller)) ==> role_check(s.members, role, s.caller) == Err::<
            (),
            AccessError,
        >(AccessError::UnauthorizedAccount { account: s.caller, needed_role: role }),
{
}

/// What holders of the allowlist role change: whether one account is on one list. The other list,
/// the other accounts and all else stay as they are.
pub proof fn law_allowlist_effects(s: State20, account: Account, status: bool)
    ensures
        ({
            let may = s.members.contains((whitelister(), s.caller));
            let (t, u) = (
                s.after_change_send(account, status),
                s.after_change_receive(account, status),
            );
            &&& !may ==> t == s && u == s
            &&& may ==> t == (State20 {
                senders: t.senders,
                log: s.log.push(send_whitelisted(account, status)),
                ..s
            })
            &&& may ==> (t.senders.contains(account) <==> status)
            &&& may ==> u == (State20 {
                receivers: u.receivers,
                log: s.log.push(receive_whitelisted(account, status)),
                ..s
            })
            &&& may ==> (u.receivers.contains(account) <==> status)
            &&& forall|other: Account|
                other != account ==> (#[trigger] t.senders.contains(other) <==> s.senders.contains(
                    other,
                ))
            &&& forall|other: Account|
                other != account ==> (#[trigger] u.receivers.contains(other)
                    <==> s.receivers.contains(other))
        }),
{
}

/// What holders of the freezing role change: how much is frozen of the tokens of one account. It
/// may be any amount.
pub proof fn law_freeze_effects(s: State20, account: Account, amount: nat)
    ensures
        ({
            let may = s.members.contains((freezer(), s.caller));
            let t = s.after_set_frozen(account, amount);
            &&& !may ==> t == s
            &&& may ==> t == (State20 {
                frozen: t.frozen,
                log: s.log.push(frozen_amount(account, amount)),
                ..s
            })
            &&& may ==> t.frozen_of(account) == amount
            &&& forall|other: Account|
                other != account ==> #[trigger] t.frozen_of(other) == s.frozen_of(other)
        }),
{
}

/// A role is granted and taken back by holders of its admin role, which is the default one where
/// no other was set, and by nobody else. One role of one account changes, and it is logged if it
/// does.
pub proof fn law_grant_and_revoke_terms(s: State20, role: [u8; 32], account: Account)
    ensures
        ({
            let admin = if s.admins.dom().contains(role) {
                s.admins[role]
            } else {
                default_admin()
            };
            let may = s.members.contains((admin, s.caller));
            let held = s.members.contains((role, account));
            let (t, u) = (s.after_grant(role, account), s.after_revoke(role, account));
            &&& may ==> s.admin_answer(role) == Ok::<(), AccessError>(())
            &&& !may ==> s.admin_answer(role) == Err::<(), AccessError>(
                AccessError::UnauthorizedAccount { account: s.caller, needed_role: admin },
            )
            &&& !may ==> t == s && u == s
            &&& may && held ==> t == s
            &&& may && !held ==> u == s
            &&& may && !held ==> t == (State20 {
                members: s.members.insert((role, account)),
                log: s.log.push(role_granted(role, account, s.caller)),
                ..s
            })
            &&& may && held ==> u == (State20 {
                members: s.members.remove((role, account)),
                log: s.log.push(role_revoked(role, account, s.caller)),
                ..s
            })
        }),
{
}

/// A role is given up by its holder, who confirms with its own account, and by nobody else.
pub proof fn law_renounce_terms(s: State20, role: [u8; 32], confirmation: Account)
    ensures
        ({
            let held = s.members.contains((role, s.caller));
            let t = s.after_renounce(role, confirmation);
            &&& s.caller == confirmation ==> s.renounce_answer(confirmation) == Ok::<
                (),
                AccessError,
            >(())
            &&& s.caller != confirmation ==> s.renounce_answer(confirmation) == Err::<
                (),
                AccessError,
            >(AccessError::BadConfirmation)
            &&& s.caller != confirmation || !held ==> t == s
            &&& s.caller == confirmation && held ==> t == (State20 {
                members: s.members.remove((role, s.caller)),
                log: s.log.push(role_revoked(role, s.caller, s.caller)),
                ..s
            })
        }),
{
}

/// The first initialization, by whomever, sets the name and the symbol and gives the initial
/// admin the six roles, and nobody else any. Every later one is refused and changes nothing.
pub proof fn law_initialize_terms(
    s: State20,
    name: Seq<char>,
    symbol: Seq<char>,
    initial_admin: Account,
)
    ensures
        ({
            let t = s.after_initialize(name, symbol, initial_admin);
            &&& s.initialized ==> s.initialize_answer() == Err::<(), Error20>(
                Error20::AlreadyInitialized,
            )
            &&& s.initialized ==> t == s
            &&& !s.initialized ==> s.initialize_answer() == Ok::<(), Error20>(())
            &&& !s.initialized ==> t == (State20 {
                initialized: true,
                name,
                symbol,
                members: t.members,
                log: log_every_role(s.log, s.members, initial_admin, s.caller),
                ..s
            })
            &&& !s.initialized ==> forall|role: [u8; 32], account: Account| #[trigger]
                t.members.contains((role, account)) <==> s.members.contains((role, account)) || (
                account == initial_admin && (role == default_admin() || role == minter() || role
                    == burner() || role == freezer() || role == whitelister() || role == forcer()))
        }),
{
}

/// A refused call changes no role, no list and no name, whatever it was, and the token stays
/// initialized or not.
pub proof fn law_refusals_keep_roles_and_lists(s: State20, call: Call20)
    requires
        !s.succeeds(call),
    ensures
        ({
            let t = s.after(call);
            t == (State20 { ledger: t.ledger, frozen: t.frozen, log: t.log, ..s })
        }),
{
}

/// A refusal of a base contract is passed on as it is.
pub proof fn law_refusals_are_passed_on(account: Account, role: [u8; 32], a: U256, b: U256)
    ensures
        from_access(AccessError::UnauthorizedAccount { account, needed_role: role }) == (
        Error20::UnauthorizedAccount { account, needed_role: role }),
        from_access(AccessError::BadConfirmation) == Error20::BadConfirmation,
        forall|error: AccessError| #[trigger]
            <Error20 as FromSpec<AccessError>>::from_spec(error) == from_access(error),
        forall|error: Erc20Error| #[trigger]
            <Error20 as FromSpec<Erc20Error>>::from_spec(error) == from_base(error),
        from_base(Erc20Error::InsufficientBalance { sender: account, balance: a, needed: b }) == (
        Error20::InsufficientBalance { sender: account, balance: a, needed: b }),
        from_base(Erc20Error::InvalidSender { sender: account }) == (Error20::InvalidSender {
            sender: account,
        }),
        from_base(Erc20Error::InvalidReceiver { receiver: account }) == (Error20::InvalidReceiver {
            receiver: account,
        }),
        from_base(Erc20Error::InsufficientAllowance { spender: account, allowance: a, needed: b })
            == (Error20::InsufficientAllowance { spender: account, allowance: a, needed: b }),
        from_base(Erc20Error::InvalidSpender { spender: account }) == (Error20::InvalidSpender {
            spender: account,
        }),
        from_base(Erc20Error::InvalidApprover { approver: account }) == (Error20::InvalidApprover {
            approver: account,
        }),
{
}

} // verus!
