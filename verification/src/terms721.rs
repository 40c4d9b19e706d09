//! The terms of each request to the unique token: when it is granted, how it is refused
//! otherwise, and what it changes, all said of what the token keeps.

use vstd::prelude::*;
use vstd::std_specs::convert::FromSpec;

use crate::access::{
    burner, default_admin, forcer, freezer, log_every_role, minter, role_admins, role_check,
    role_members, whitelister, AccessError,
};
use crate::account::Account;
use crate::erc721::{
    erc721_accepted, erc721_reply, erc721_sees_code, ledger721, Erc721Error, Ledger721,
};
use crate::events::{
    approved_for_all, approved_token, forced_token, frozen_token, moved_token, receive_whitelisted,
    role_granted, role_revoked, send_whitelisted,
};
use crate::host::{call_sender, logged};
use crate::laws721::Call721;
use crate::receiver::Reply;
use crate::storage::{flagged, flagged_tokens};
use crate::uint::{modulus, u256, U256};
use crate::urwa721::{base_result, from_access, from_base, Error721, State721, URWA721};

verus! {

/// What the token is said to keep is what its parts hold, and what a receiver says is what it
/// replies to the caller, if it is a contract.
pub proof fn law_state_is_what_is_stored(
    token: URWA721,
    from: Account,
    to: Account,
    id: nat,
    data: Seq<u8>,
)
    ensures
        token.state().caller == call_sender(token.host),
        token.state().log == logged(token.host),
        token.state().members == role_members(token.access),
        token.state().admins == role_admins(token.access),
        token.state().ledger == ledger721(token.erc721),
        token.state().senders == flagged(token.send_whitelist),
        token.state().receivers == flagged(token.receive_whitelist),
        token.state().frozen == flagged_tokens(token.frozen),
        token.accepted(from, to, id, data) == erc721_accepted(
            erc721_sees_code(token.erc721, to),
            erc721_reply(token.erc721, call_sender(token.host), from, to, id, data),
            to,
        ),
{
}

/// Whoever is no contract takes every token, and a contract takes those that it says it does.
pub proof fn law_receivers_decide(to: Account, reply: Reply, reason: String)
    ensures
        erc721_accepted(false, reply, to) == Ok::<(), Erc721Error>(()),
        erc721_accepted(true, Reply::Accepted, to) == Ok::<(), Erc721Error>(()),
        erc721_accepted(true, Reply::Refused, to) == Err::<(), Erc721Error>(
            Erc721Error::InvalidReceiver { receiver: to },
        ),
        erc721_accepted(true, Reply::RefusedBecause(reason), to) == Err::<(), Erc721Error>(
            Erc721Error::InvalidReceiverWithReason { reason },
        ),
{
}

/// Owners, approvals and balances are what was last stored, and the zero account or zero where
/// nothing was. A token that the zero account owns does not exist.
pub proof fn law_deeds_are_what_is_stored(s: State721, account: Account, id: nat)
    ensures
        s.ledger.owners.dom().contains(id) ==> s.ledger.owner(id) == s.ledger.owners[id],
        !s.ledger.owners.dom().contains(id) ==> s.ledger.owner(id) == Account::zero_account(),
        s.ledger.approvals.dom().contains(id) ==> s.ledger.approved(id) == s.ledger.approvals[id],
        !s.ledger.approvals.dom().contains(id) ==> s.ledger.approved(id)
            == Account::zero_account(),
        s.ledger.balances.dom().contains(account) ==> s.ledger.balance(account)
            == s.ledger.balances[account],
        !s.ledger.balances.dom().contains(account) ==> s.ledger.balance(account) == 0,
        s.ledger.owner(id) != Account::zero_account() ==> s.ledger.existing(id) == Ok::<
            Account,
            Erc721Error,
        >(s.ledger.owner(id)),
        s.ledger.owner(id) == Account::zero_account() ==> s.ledger.existing(id) == Err::<
            Account,
            Erc721Error,
        >(Erc721Error::NonexistentToken { token_id: u256(id) }),
{
}

/// An ordinary transfer is possible if and only if neither end is the zero account, the sender
/// owns the token and is on the send-allowlist, the receiver is on the receive-allowlist and the
/// token is not frozen for the sender. Nobody's role, no other list and no other token matters.
pub proof fn law_can_transfer_terms(s: State721, from: Account, to: Account, id: nat)
    ensures
        s.can_transfer(from, to, id) <==> from != Account::zero_account() && to
            != Account::zero_account() && s.ledger.owner(id) == from && s.senders.contains(from)
            && s.receivers.contains(to) && !s.frozen.contains((from, id)),
{
}

/// What the rules of this token say to an ordinary transfer: first comes the freeze, then the
/// send-allowlist, then the receive-allowlist, and there is nothing else.
pub proof fn law_rules_for_transfers(s: State721, from: Account, to: Account, id: nat)
    ensures
        ({
            let frozen = s.frozen.contains((from, id));
            let answer = s.check_transfer(from, to, id);
            &&& frozen ==> answer == Err::<(), Error721>(
                Error721::InsufficientUnfrozenBalance { account: from, token_id: u256(id) },
            )
            &&& !frozen && !s.senders.contains(from) ==> answer == Err::<(), Error721>(
                Error721::CannotSend { account: from },
            )
            &&& !frozen && s.senders.contains(from) && !s.receivers.contains(to) ==> answer == Err::<
                (),
                Error721,
            >(Error721::CannotReceive { account: to })
            &&& !frozen && s.senders.contains(from) && s.receivers.contains(to) ==> answer == Ok::<
                (),
                Error721,
            >(())
        }),
{
}

/// A plain transfer goes through if and only if the rules of this token allow it, the receiver
/// is not the zero account, the sender owns the token, and the caller is the owner, its operator
/// or approved for the token; the zero account as a caller is not asked. The refusals come in
/// this order, but for the owner, who comes last. A safe transfer takes besides that the
/// receiver accepts the token, which comes after all else.
pub proof fn law_transfer_terms(
    s: State721,
    from: Account,
    to: Account,
    id: nat,
    accepted: Result<(), Erc721Error>,
)
    ensures
        ({
            let zero = Account::zero_account();
            let owner = s.ledger.owner(id);
            let frozen = s.frozen.contains((from, id));
            let allowed = !frozen && s.senders.contains(from) && s.receivers.contains(to);
            let may = s.caller == zero || s.caller == owner || s.ledger.operators.contains(
                (owner, s.caller),
            ) || s.caller == s.ledger.approved(id);
            let answer = s.transfer_answer(from, to, id);
            let safe = s.safe_transfer_answer(from, to, id, accepted);
            &&& answer is Ok <==> allowed && to != zero && may && owner == from
            &&& frozen ==> answer == Err::<(), Error721>(
                Error721::InsufficientUnfrozenBalance { account: from, token_id: u256(id) },
            )
            &&& !frozen && !s.senders.contains(from) ==> answer == Err::<(), Error721>(
                Error721::CannotSend { account: from },
            )
            &&& !frozen && s.senders.contains(from) && !s.receivers.contains(to) ==> answer == Err::<
                (),
                Error721,
            >(Error721::CannotReceive { account: to })
            &&& allowed && to == zero ==> answer == Err::<(), Error721>(
                Error721::InvalidReceiver { receiver: to },
            )
            &&& allowed && to != zero && !may && owner == zero ==> answer == Err::<(), Error721>(
                Error721::NonexistentToken { token_id: u256(id) },
            )
            &&& allowed && to != zero && !may && owner != zero ==> answer == Err::<(), Error721>(
                Error721::InsufficientApproval { operator: s.caller, token_id: u256(id) },
            )
            &&& allowed && to != zero && may && owner != from ==> answer == Err::<(), Error721>(
                Error721::IncorrectOwner { sender: from, token_id: u256(id), owner },
            )
            &&& safe is Ok <==> answer is Ok && accepted is Ok
            &&& answer is Err ==> safe == answer
            &&& answer is Ok && accepted is Err ==> safe == base_result(accepted)
        }),
{
}

/// What a token that goes from one owner to another changes: its owner, the two balances and the
/// approval, which is gone.
pub open spec fn handed_over(
    before: Ledger721,
    after: Ledger721,
    from: Account,
    to: Account,
    id: nat,
) -> bool {
    let zero = Account::zero_account();
    &&& after.operators == before.operators
    &&& after.owner(id) == to
    &&& forall|other: nat| other != id ==> #[trigger] after.owner(other) == before.owner(other)
    &&& from != zero ==> after.approved(id) == zero
    &&& from == zero ==> after.approved(id) == before.approved(id)
    &&& forall|other: nat| other != id ==> #[trigger] after.approved(other) == before.approved(other)
    &&& forall|account: Account|
        (account != from && account != to) || account == zero ==> #[trigger] after.balance(account)
            == before.balance(account)
    &&& from != zero && from != to && 0 < before.balance(from) < modulus() ==> after.balance(from)
        + 1 == before.balance(from)
    &&& to != zero && from != to && before.balance(to) + 1 < modulus() ==> after.balance(to)
        == before.balance(to) + 1
    &&& from == to && before.balance(to) < modulus() ==> after.balance(to) == before.balance(to)
}

/// What an ordinary transfer changes: who owns the token, the two balances, the approval, which
/// is gone, and the log. No freeze changes.
pub proof fn law_transfer_effects(s: State721, from: Account, to: Account, id: nat)
    requires
        s.transfer_answer(from, to, id) is Ok,
    ensures
        ({
            let t = s.after_transfer(from, to, id);
            &&& t == (State721 {
                ledger: t.ledger,
                log: s.log.push(moved_token(from, to, id)),
                ..s
            })
            &&& handed_over(s.ledger, t.ledger, from, to, id)
        }),
{
}

/// A refused transfer changes nothing, unless all that is wrong is that another account owns the
/// token.
pub proof fn law_refused_transfer(s: State721, from: Account, to: Account, id: nat)
    requires
        s.transfer_answer(from, to, id) is Err,
        s.ledger.owner(id) == from,
    ensures
        s.after_transfer(from, to, id) == s,
{
}

/// Minting goes through if and only if the caller holds the minting role, the receiver is on the
/// receive-allowlist and not the zero account, nobody owns the token, and the receiver accepts
/// it; the refusals come in this order. No other role of the caller is asked for, and no other
/// list of the receiver.
pub proof fn law_mint_terms(s: State721, to: Account, id: nat, accepted: Result<(), Erc721Error>)
    ensures
        ({
            let zero = Account::zero_account();
            let may = s.members.contains((minter(), s.caller));
            let listed = may && s.receivers.contains(to);
            let answer = s.mint_answer(to, id, accepted);
            &&& answer is Ok <==> listed && to != zero && s.ledger.owner(id) == zero
                && accepted is Ok
            &&& !may ==> answer == Err::<(), Error721>(
                Error721::UnauthorizedAccount { account: s.caller, needed_role: minter() },
            )
            &&& may && !listed ==> answer == Err::<(), Error721>(
                Error721::CannotReceive { account: to },
            )
            &&& listed && to == zero ==> answer == Err::<(), Error721>(
                Error721::InvalidReceiver { receiver: to },
            )
            &&& listed && to != zero && s.ledger.owner(id) != zero ==> answer == Err::<
                (),
                Error721,
            >(Error721::InvalidSender { sender: zero })
            &&& listed && to != zero && s.ledger.owner(id) == zero && accepted is Err ==> answer
                == base_result(accepted)
        }),
{
}

/// What minting changes: the new token has its owner, who has one more, and that is logged.
pub proof fn law_mint_effects(s: State721, to: Account, id: nat, accepted: Result<(), Erc721Error>)
    requires
        s.mint_answer(to, id, accepted) is Ok,
    ensures
        ({
            let zero = Account::zero_account();
            let from = zero;
            let t = s.after_mint(to, id);
            &&& t == (State721 {
                ledger: t.ledger,
                log: s.log.push(moved_token(zero, to, id)),
                ..s
            })
            &&& handed_over(s.ledger, t.ledger, from, to, id)
        }),
{
}

/// A mint that the rules of this token refuse, or one to the zero account, changes nothing.
pub proof fn law_refused_mint(s: State721, to: Account, id: nat)
    requires
        !s.members.contains((minter(), s.caller)) || !s.receivers.contains(to) || to
            == Account::zero_account(),
    ensures
        s.after_mint(to, id) == s,
{
}

/// Burning goes through if and only if the caller holds the burning role and somebody owns the
/// token; the refusals come in this order. Neither a freeze nor a list nor any other role
/// matters, nor who owns the token.
pub proof fn law_burn_terms(s: State721, id: nat)
    ensures
        ({
            let zero = Account::zero_account();
            let may = s.members.contains((burner(), s.caller));
            let answer = s.burn_answer(id);
            &&& may && s.ledger.owner(id) != zero ==> answer == Ok::<(), Error721>(())
            &&& !may ==> answer == Err::<(), Error721>(
                Error721::UnauthorizedAccount { account: s.caller, needed_role: burner() },
            )
            &&& may && s.ledger.owner(id) == zero ==> answer == Err::<(), Error721>(
                Error721::NonexistentToken { token_id: u256(id) },
            )
            &&& !may ==> s.after_burn(id) == s
        }),
{
}

/// What burning changes: nobody owns the token, its former owner has one less, its approval is
/// gone, and it is not frozen for that owner any more, which is logged first if it was.
pub proof fn law_burn_effects(s: State721, id: nat)
    requires
        s.burn_answer(id) is Ok,
    ensures
        ({
            let zero = Account::zero_account();
            let from = s.ledger.owner(id);
            let to = zero;
            let t = s.after_burn(id);
            let was_frozen = s.frozen.contains((from, id));
            &&& t == (State721 { ledger: t.ledger, frozen: t.frozen, log: t.log, ..s })
            &&& forall|account: Account, other: nat| #[trigger]
                t.frozen.contains((account, other)) <==> s.frozen.contains((account, other)) && !(
                account == from && other == id)
            &&& was_frozen ==> t.log == s.log.push(frozen_token(from, id, false)).push(
                moved_token(from, zero, id),
            )
            &&& !was_frozen ==> t.log == s.log.push(moved_token(from, zero, id))
            &&& handed_over(s.ledger, t.ledger, from, to, id)
        }),
{
}

/// A seizure goes through if and only if the caller holds the seizing role, neither end is the
/// zero account, the receiver is on the receive-allowlist and the victim owns the token; the
/// refusals come in this order. No list that the victim is on or off, no freeze and no other
/// role matters, and the receiver is not asked.
pub proof fn law_seizure_terms(s: State721, from: Account, to: Account, id: nat)
    ensures
        ({
            let zero = Account::zero_account();
            let owner = s.ledger.owner(id);
            let may = s.members.contains((forcer(), s.caller));
            let ends = may && to != zero && from != zero;
            let answer = s.forced_answer(from, to, id);
            &&& answer is Ok <==> ends && s.receivers.contains(to) && owner == from
            &&& !may ==> answer == Err::<(), Error721>(
                Error721::UnauthorizedAccount { account: s.caller, needed_role: forcer() },
            )
            &&& may && to == zero ==> answer == Err::<(), Error721>(
                Error721::InvalidReceiver { receiver: to },
            )
            &&& may && to != zero && from == zero ==> answer == Err::<(), Error721>(
                Error721::InvalidSender { sender: from },
            )
            &&& ends && !s.receivers.contains(to) ==> answer == Err::<(), Error721>(
                Error721::CannotReceive { account: to },
            )
            &&& ends && s.receivers.contains(to) && owner == zero ==> answer == Err::<(), Error721>(
                Error721::NonexistentToken { token_id: u256(id) },
            )
            &&& ends && s.receivers.contains(to) && owner != zero && owner != from ==> answer
                == Err::<(), Error721>(
                Error721::IncorrectOwner { sender: from, token_id: u256(id), owner },
            )
            &&& answer is Err ==> s.after_forced(from, to, id) == s
        }),
{
}

/// What a seizure from another account changes: who owns the token, the two balances and the
/// approval, which is gone; the token is not frozen for the victim any more, which is logged
/// first if it was.
pub proof fn law_seizure_effects(s: State721, from: Account, to: Account, id: nat)
    requires
        s.forced_answer(from, to, id) is Ok,
        from != to,
    ensures
        ({
            let t = s.after_forced(from, to, id);
            let was_frozen = s.frozen.contains((from, id));
            &&& t == (State721 { ledger: t.ledger, frozen: t.frozen, log: t.log, ..s })
            &&& forall|account: Account, other: nat| #[trigger]
                t.frozen.contains((account, other)) <==> s.frozen.contains((account, other)) && !(
                account == from && other == id)
            &&& was_frozen ==> t.log == s.log.push(frozen_token(from, id, false)).push(
                moved_token(from, to, id),
            ).push(forced_token(from, to, id))
            &&& !was_frozen ==> t.log == s.log.push(moved_token(from, to, id)).push(
                forced_token(from, to, id),
            )
            &&& handed_over(s.ledger, t.ledger, from, to, id)
        }),
{
}

/// A seizure that leads back to its victim changes nothing but the log: the token stays frozen
/// if it was, and keeps its approval.
pub proof fn law_self_seizure_effects(s: State721, account: Account, id: nat)
    requires
        s.forced_answer(account, account, id) is Ok,
    ensures
        s.after_forced(account, account, id) == (State721 {
            log: s.log.push(forced_token(account, account, id)),
            ..s
        }),
{
}

/// An approval can be given if and only if the token exists and the caller is its owner or an
/// operator of the owner; the zero account as a caller is not asked. It replaces the approval of
/// that token, and nothing else changes.
pub proof fn law_approve_terms(s: State721, to: Account, id: nat)
    ensures
        ({
            let zero = Account::zero_account();
            let owner = s.ledger.owner(id);
            let may = s.caller == zero || s.caller == owner || s.ledger.operators.contains(
                (owner, s.caller),
            );
            let answer = base_result(s.ledger.approve_answer(s.caller, id));
            let t = s.after_approve(to, id);
            &&& owner == zero ==> answer == Err::<(), Error721>(
                Error721::NonexistentToken { token_id: u256(id) },
            )
            &&& owner != zero && !may ==> answer == Err::<(), Error721>(
                Error721::InvalidApprover { approver: s.caller },
            )
            &&& owner != zero && may ==> answer == Ok::<(), Error721>(())
            &&& answer is Err ==> t == s
            &&& answer is Ok ==> {
                &&& t == (State721 {
                    ledger: Ledger721 { approvals: t.ledger.approvals, ..s.ledger },
                    log: s.log.push(approved_token(owner, to, id)),
                    ..s
                })
                &&& t.ledger.approved(id) == to
                &&& forall|other: nat|
                    other != id ==> #[trigger] t.ledger.approved(other) == s.ledger.approved(other)
            }
        }),
{
}

/// Any account but the zero account can be made an operator, or be one no longer. One operator of
/// one owner, who calls, changes, and nothing else.
pub proof fn law_operator_terms(s: State721, operator: Account, approved: bool)
    ensures
        ({
            let zero = Account::zero_account();
            let answer = base_result(Ledger721::can_be_operator(operator));
            let t = s.after_set_operator(operator, approved);
            &&& operator != zero ==> answer == Ok::<(), Error721>(())
            &&& operator == zero ==> answer == Err::<(), Error721>(
                Error721::InvalidOperator { operator },
            )
            &&& operator == zero ==> t == s
            &&& operator != zero ==> {
                &&& t == (State721 {
                    ledger: Ledger721 { operators: t.ledger.operators, ..s.ledger },
                    log: s.log.push(approved_for_all(s.caller, operator, approved)),
                    ..s
                })
                &&& t.ledger.operators.contains((s.caller, operator)) <==> approved
                &&& forall|owner: Account, other: Account|
                    (owner, other) != (s.caller, operator) ==> (#[trigger]
                    t.ledger.operators.contains((owner, other)) <==> s.ledger.operators.contains(
                        (owner, other),
                    ))
            }
        }),
{
}

/// A role is asked for by itself: whoever holds it passes, and whoever does not is told which
/// role is missing.
pub proof fn law_role_terms(s: State721, role: [u8; 32])
    ensures
        s.members.contains((role, s.caller)) ==> s.check_role(role) == Ok::<(), Error721>(()),
        !s.members.contains((role, s.caller)) ==> s.check_role(role) == Err::<(), Error721>(
            Error721::UnauthorizedAccount { account: s.caller, needed_role: role },
        ),
        s.members.contains((role, s.caller)) ==> role_check(s.members, role, s.caller) == Ok::<
            (),
            AccessError,
        >(()),
        !s.members.contains((role, s.caller)) ==> role_check(s.members, role, s.caller) == Err::<
            (),
            AccessError,
        >(AccessError::UnauthorizedAccount { account: s.caller, needed_role: role }),
{
}

/// What holders of the allowlist role change: whether one account is on one list. The other list,
/// the other accounts and all else stay as they are.
pub proof fn law_allowlist_effects(s: State721, account: Account, status: bool)
    ensures
        ({
            let may = s.members.contains((whitelister(), s.caller));
            let (t, u) = (
                s.after_change_send(account, status),
                s.after_change_receive(account, status),
            );
            &&& !may ==> t == s && u == s
            &&& may ==> t == (State721 {
                senders: t.senders,
                log: s.log.push(send_whitelisted(account, status)),
                ..s
            })
            &&& may ==> (t.senders.contains(account) <==> status)
            &&& may ==> u == (State721 {
                receivers: u.receivers,
                log: s.log.push(receive_whitelisted(account, status)),
                ..s
            })
            &&& may ==> (u.receivers.contains(account) <==> status)
            &&& forall|other: Account|
                other != account ==> (#[trigger] t.senders.contains(other) <==> s.senders.contains(
                    other,
                ))
            &&& forall|other: Account|
                other != account ==> (#[trigger] u.receivers.contains(other)
                    <==> s.receivers.contains(other))
        }),
{
}

/// A role is granted and taken back by holders of its admin role, which is the default one where
/// no other was set, and by nobody else. One role of one account changes, and it is logged if it
/// does.
pub proof fn law_grant_and_revoke_terms(s: State721, role: [u8; 32], account: Account)
    ensures
        ({
            let admin = if s.admins.dom().contains(role) {
                s.admins[role]
            } else {
                default_admin()
            };
            let may = s.members.contains((admin, s.caller));
            let held = s.members.contains((role, account));
            let (t, u) = (s.after_grant(role, account), s.after_revoke(role, account));
            &&& may ==> s.admin_answer(role) == Ok::<(), AccessError>(())
            &&& !may ==> s.admin_answer(role) == Err::<(), AccessError>(
                AccessError::UnauthorizedAccount { account: s.caller, needed_role: admin },
            )
            &&& !may ==> t == s && u == s
            &&& may && held ==> t == s
            &&& may && !held ==> u == s
            &&& may && !held ==> t == (State721 {
                members: s.members.insert((role, account)),
                log: s.log.push(role_granted(role, account, s.caller)),
                ..s
            })
            &&& may && held ==> u == (State721 {
                members: s.members.remove((role, account)),
                log: s.log.push(role_revoked(role, account, s.caller)),
                ..s
            })
        }),
{
}

/// A role is given up by its holder, who confirms with its own account, and by nobody else.
pub proof fn law_renounce_terms(s: State721, role: [u8; 32], confirmation: Account)
    ensures
        ({
            let held = s.members.contains((role, s.caller));
            let t = s.after_renounce(role, confirmation);
            &&& s.caller == confirmation ==> s.renounce_answer(confirmation) == Ok::<
                (),
                AccessError,
            >(())
            &&& s.caller != confirmation ==> s.renounce_answer(confirmation) == Err::<
                (),
                AccessError,
            >(AccessError::BadConfirmation)
            &&& s.caller != confirmation || !held ==> t == s
            &&& s.caller == confirmation && held ==> t == (State721 {
                members: s.members.remove((role, s.caller)),
                log: s.log.push(role_revoked(role, s.caller, s.caller)),
                ..s
            })
        }),
{
}

/// What holders of the freezing role change: whether one token is frozen for one account. The
/// token need not exist, nor belong to that account.
pub proof fn law_freeze_effects(s: State721, account: Account, id: nat, status: bool)
    ensures
        ({
            let may = s.members.contains((freezer(), s.caller));
            let t = s.after_set_frozen(account, id, status);
            &&& !may ==> t == s
            &&& may ==> t == (State721 {
                frozen: t.frozen,
                log: s.log.push(frozen_token(account, id, status)),
                ..s
            })
            &&& may ==> (t.frozen.contains((account, id)) <==> status)
            &&& forall|other: Account, other_id: nat|
                (other, other_id) != (account, id) ==> (#[trigger] t.frozen.contains(
                    (other, other_id),
                ) <==> s.frozen.contains((other, other_id)))
        }),
{
}

/// The constructor gives the initial admin the six roles, and nobody else any.
pub proof fn law_constructor_terms(s: State721, initial_admin: Account)
    ensures
        ({
            let t = s.after_constructor(initial_admin);
            &&& t == (State721 {
                members: t.members,
                log: log_every_role(s.log, s.members, initial_admin, s.caller),
                ..s
            })
            &&& forall|role: [u8; 32], account: Account| #[trigger]
                t.members.contains((role, account)) <==> s.members.contains((role, account)) || (
                account == initial_admin && (role == default_admin() || role == minter() || role
                    == burner() || role == freezer() || role == whitelister() || role == forcer()))
        }),
{
}

/// A refused call changes no role and no list, whatever it was.
pub proof fn law_refusals_keep_roles_and_lists(s: State721, call: Call721)
    requires
        !s.succeeds(call),
    ensures
        ({
            let t = s.after(call);
            t == (State721 { ledger: t.ledger, frozen: t.frozen, log: t.log, ..s })
        }),
{
}

/// A refusal of a base contract is passed on as it is.
pub proof fn law_refusals_are_passed_on(
    account: Account,
    owner: Account,
    role: [u8; 32],
    token_id: U256,
    reason: String,
)
    ensures
        from_access(AccessError::UnauthorizedAccount { account, needed_role: role }) == (
        Error721::UnauthorizedAccount { account, needed_role: role }),
        from_access(AccessError::BadConfirmation) == Error721::BadConfirmation,
        forall|error: AccessError| #[trigger]
            <Error721 as FromSpec<AccessError>>::from_spec(error) == from_access(error),
        forall|error: Erc721Error| #[trigger]
            <Error721 as FromSpec<Erc721Error>>::from_spec(error) == from_base(error),
        from_base(Erc721Error::InvalidOwner { owner }) == (Error721::InvalidOwner { owner }),
        from_base(Erc721Error::NonexistentToken { token_id }) == (Error721::NonexistentToken {
            token_id,
        }),
        from_base(Erc721Error::IncorrectOwner { sender: account, token_id, owner }) == (
        Error721::IncorrectOwner { sender: account, token_id, owner }),
        from_base(Erc721Error::InvalidSender { sender: account }) == (Error721::InvalidSender {
            sender: account,
        }),
        from_base(Erc721Error::InvalidReceiver { receiver: account }) == (
        Error721::InvalidReceiver { receiver: account }),
        from_base(Erc721Error::InvalidReceiverWithReason { reason }) == (
        Error721::InvalidReceiverWithReason { reason }),
        from_base(Erc721Error::InsufficientApproval { operator: account, token_id }) == (
        Error721::InsufficientApproval { operator: account, token_id }),
        from_base(Erc721Error::InvalidApprover { approver: account }) == (
        Error721::InvalidApprover { approver: account }),
        from_base(Erc721Error::InvalidOperator { operator: account }) == (
        Error721::InvalidOperator { operator: account }),
        base_result(Err::<(), Erc721Error>(Erc721Error::InvalidReceiver { receiver: account }))
            == Err::<(), Error721>(Error721::InvalidReceiver { receiver: account }),
        base_result(Err::<(), Erc721Error>(Erc721Error::InvalidReceiverWithReason { reason }))
            == Err::<(), Error721>(Error721::InvalidReceiverWithReason { reason }),
{
}

} // verus!
