//! What holds of the unique token, whatever is done to it.

use vstd::prelude::*;

use crate::access::{
    admin_of, burner, default_admin, forcer, freezer, minter, whitelister, AccessError,
};
use crate::account::Account;
use crate::erc721::{erc721_accepted, Erc721Error, Ledger721};
use crate::events::{forced_token, frozen_token, moved_token};
use crate::receiver::Reply;
use crate::uint::{u256, wrap};
use crate::urwa721::{Error721, State721};

verus! {

/// A call that may change the token. Where the receiver is asked, `accepted` is what it says.
pub enum Call721 {
    Constructor { initial_admin: Account },
    ChangeSendWhitelist { account: Account, status: bool },
    ChangeReceiveWhitelist { account: Account, status: bool },
    SafeMint { to: Account, id: nat, accepted: Result<(), Erc721Error> },
    Burn { id: nat },
    SetFrozenTokens { account: Account, id: nat, status: bool },
    ForcedTransfer { from: Account, to: Account, id: nat },
    TransferFrom { from: Account, to: Account, id: nat },
    SafeTransferFrom { from: Account, to: Account, id: nat, accepted: Result<(), Erc721Error> },
    Approve { to: Account, id: nat },
    SetApprovalForAll { operator: Account, approved: bool },
    GrantRole { role: [u8; 32], account: Account },
    RevokeRole { role: [u8; 32], account: Account },
    RenounceRole { role: [u8; 32], confirmation: Account },
}

impl State721 {
    /// What `call` leaves behind.
    pub open spec fn after(self, call: Call721) -> State721 {
        match call {
            Call721::Constructor { initial_admin } => self.after_constructor(initial_admin),
            Call721::ChangeSendWhitelist { account, status } => self.after_change_send(
                account,
                status,
            ),
            Call721::ChangeReceiveWhitelist { account, status } => self.after_change_receive(
                account,
                status,
            ),
            Call721::SafeMint { to, id, accepted } => self.after_mint(to, id),
            Call721::Burn { id } => self.after_burn(id),
            Call721::SetFrozenTokens { account, id, status } => self.after_set_frozen(
                account,
                id,
                status,
            ),
            Call721::ForcedTransfer { from, to, id } => self.after_forced(from, to, id),
            Call721::TransferFrom { from, to, id } => self.after_transfer(from, to, id),
            Call721::SafeTransferFrom { from, to, id, accepted } => self.after_transfer(
                from,
                to,
                id,
            ),
            Call721::Approve { to, id } => self.after_approve(to, id),
            Call721::SetApprovalForAll { operator, approved } => self.after_set_operator(
                operator,
                approved,
            ),
            Call721::GrantRole { role, account } => self.after_grant(role, account),
            Call721::RevokeRole { role, account } => self.after_revoke(role, account),
            Call721::RenounceRole { role, confirmation } => self.after_renounce(role, confirmation),
        }
    }

    /// Whether `call` is not refused.
    pub open spec fn succeeds(self, call: Call721) -> bool {
        match call {
            Call721::Constructor { initial_admin } => true,
            Call721::ChangeSendWhitelist { account, status } => self.check_role(
                whitelister(),
            ) is Ok,
            Call721::ChangeReceiveWhitelist { account, status } => self.check_role(
                whitelister(),
            ) is Ok,
            Call721::SafeMint { to, id, accepted } => self.mint_answer(to, id, accepted) is Ok,
            Call721::Burn { id } => self.burn_answer(id) is Ok,
            Call721::SetFrozenTokens { account, id, status } => self.check_role(freezer()) is Ok,
            Call721::ForcedTransfer { from, to, id } => self.forced_answer(from, to, id) is Ok,
            Call721::TransferFrom { from, to, id } => self.transfer_answer(from, to, id) is Ok,
            Call721::SafeTransferFrom { from, to, id, accepted } => self.safe_transfer_answer(
                from,
                to,
                id,
                accepted,
            ) is Ok,
            Call721::Approve { to, id } => self.ledger.approve_answer(self.caller, id) is Ok,
            Call721::SetApprovalForAll { operator, approved } => Ledger721::can_be_operator(
                operator,
            ) is Ok,
            Call721::GrantRole { role, account } => self.admin_answer(role) is Ok,
            Call721::RevokeRole { role, account } => self.admin_answer(role) is Ok,
            Call721::RenounceRole { role, confirmation } => self.renounce_answer(
                confirmation,
            ) is Ok,
        }
    }

    /// What is left of `call` once it is over: the host undoes a call that is refused.
    pub open spec fn step(self, caller: Account, call: Call721) -> State721 {
        let called = State721 { caller, ..self };
        if called.succeeds(call) {
            called.after(call)
        } else {
            called
        }
    }

    /// What is left after `calls`, one after the other, each with its caller.
    pub open spec fn history(self, calls: Seq<(Account, Call721)>) -> State721
        decreases calls.len(),
    {
        if calls.len() == 0 {
            self
        } else {
            self.history(calls.drop_last()).step(calls.last().0, calls.last().1)
        }
    }

    /// Whether the balances count what the accounts own.
    pub open spec fn counted(self) -> bool {
        self.ledger.counted()
    }
}

impl Ledger721 {
    /// The tokens that `account` owns.
    pub open spec fn owned(self, account: Account) -> Set<nat> {
        self.owners.dom().filter(|id: nat| self.owners[id] == account)
    }

    /// Whether nobody may move tokens that nobody owns: none of them has an approval, and the
    /// zero account has no operator.
    pub open spec fn nobody_acts_for_zero(self) -> bool {
        &&& forall|id: nat|
            self.owner(id) == Account::zero_account() ==> #[trigger] self.approved(id)
                == Account::zero_account()
        &&& forall|operator: Account|
            !#[trigger] self.operators.contains((Account::zero_account(), operator))
    }

    /// Whether the balance of each account is the number of tokens that it owns, in 256 bits.
    pub open spec fn counted(self) -> bool {
        &&& self.owners.dom().finite()
        &&& forall|account: Account|
            account != Account::zero_account() ==> #[trigger] self.balance(account) == wrap(
                self.owned(account).len() as int,
            )
    }
}

/// Balances that count what accounts own do so after a token has moved.
proof fn lemma_update_counts(ledger: Ledger721, to: Account, id: nat)
    requires
        ledger.counted(),
    ensures
        ledger.update(to, id).counted(),
{
    let after = ledger.update(to, id);
    assert forall|account: Account| account != Account::zero_account() implies #[trigger]
        after.balance(account) == wrap(after.owned(account).len() as int) by {
        let before_owned = ledger.owned(account);
        assert(ledger.balance(account) == wrap(before_owned.len() as int));
        assert(before_owned.subset_of(ledger.owners.dom()));
        vstd::set_lib::lemma_len_subset(before_owned, ledger.owners.dom());
        let kept = before_owned.remove(id);
        assert(ledger.owner(id) == account <==> before_owned.contains(id));
        if to == account {
            assert(after.owned(account) =~= kept.insert(id));
        } else {
            assert(after.owned(account) =~= kept);
        }
    }
}

/// A token contract that nobody has touched: its balances count what accounts own.
pub proof fn law_new_balances_count(s: State721)
    requires
        s.ledger == (Ledger721 {
            owners: Map::empty(),
            balances: Map::empty(),
            approvals: Map::empty(),
            operators: Set::empty(),
        }),
    ensures
        s.counted(),
{
    assert forall|account: Account| account != Account::zero_account() implies #[trigger]
        s.ledger.balance(account) == wrap(s.ledger.owned(account).len() as int) by {
        assert(s.ledger.owned(account) =~= Set::empty());
    }
}

/// Balances that count what accounts own do so after any call.
pub proof fn law_balances_keep_counting(s: State721, call: Call721)
    requires
        s.counted(),
    ensures
        s.after(call).counted(),
{
    match call {
        Call721::SafeMint { to, id, accepted } => lemma_update_counts(s.ledger, to, id),
        Call721::Burn { id } => lemma_update_counts(s.ledger, Account::zero_account(), id),
        Call721::ForcedTransfer { from, to, id } => lemma_update_counts(s.ledger, to, id),
        Call721::TransferFrom { from, to, id } => lemma_update_counts(s.ledger, to, id),
        Call721::SafeTransferFrom { from, to, id, accepted } => lemma_update_counts(
            s.ledger,
            to,
            id,
        ),
        _ => {},
    }
    let t = s.after(call).ledger;
    if t.owners == s.ledger.owners && t.balances == s.ledger.balances {
        assert forall|account: Account| account != Account::zero_account() implies #[trigger]
            t.balance(account) == wrap(t.owned(account).len() as int) by {
            assert(s.ledger.balance(account) == wrap(s.ledger.owned(account).len() as int));
            assert(t.owned(account) =~= s.ledger.owned(account));
        }
    }
}

/// The balances of a token contract count what accounts own throughout its history.
pub proof fn law_balances_count_throughout(s: State721, calls: Seq<(Account, Call721)>)
    requires
        s.counted(),
    ensures
        s.history(calls).counted(),
    decreases calls.len(),
{
    if calls.len() > 0 {
        law_balances_count_throughout(s, calls.drop_last());
        let before = State721 { caller: calls.last().0, ..s.history(calls.drop_last()) };
        law_balances_keep_counting(before, calls.last().1);
    }
}

/// A token contract that nobody has touched: nobody acts for the zero account.
pub proof fn law_nobody_acts_for_zero_at_first(s: State721)
    requires
        s.ledger == (Ledger721 {
            owners: Map::empty(),
            balances: Map::empty(),
            approvals: Map::empty(),
            operators: Set::empty(),
        }),
    ensures
        s.ledger.nobody_acts_for_zero(),
{
}

/// Where nobody acts for the zero account, nobody does after any call but one of the zero account
/// itself.
pub proof fn law_nobody_comes_to_act_for_zero(s: State721, call: Call721)
    requires
        s.ledger.nobody_acts_for_zero(),
        s.caller != Account::zero_account(),
    ensures
        s.after(call).ledger.nobody_acts_for_zero(),
{
    let t = s.after(call).ledger;
    assert forall|id: nat| t.owner(id) == Account::zero_account() implies #[trigger] t.approved(id)
        == Account::zero_account() by {
        assert(s.ledger.owner(id) == Account::zero_account() ==> s.ledger.approved(id)
            == Account::zero_account());
    }
}

/// Nobody acts for the zero account throughout the history of a token contract, if the zero
/// account never calls.
pub proof fn law_nobody_acts_for_zero_throughout(s: State721, calls: Seq<(Account, Call721)>)
    requires
        s.ledger.nobody_acts_for_zero(),
        forall|i: int| 0 <= i < calls.len() ==> (#[trigger] calls[i]).0 != Account::zero_account(),
    ensures
        s.history(calls).ledger.nobody_acts_for_zero(),
    decreases calls.len(),
{
    if calls.len() > 0 {
        law_nobody_acts_for_zero_throughout(s, calls.drop_last());
        assert(calls[calls.len() - 1].0 != Account::zero_account());
        let before = State721 { caller: calls.last().0, ..s.history(calls.drop_last()) };
        law_nobody_comes_to_act_for_zero(before, calls.last().1);
    }
}

/// The question and the deed agree: a transfer goes through if and only if `can_transfer` says
/// that it would and the caller may move the token. Only a caller that is the zero account, which
/// is asked for no approval, is beyond this, and a transfer from the zero account where somebody
/// acts for it.
pub proof fn law_can_transfer_agrees_with_transfer_from(
    s: State721,
    from: Account,
    to: Account,
    id: nat,
)
    requires
        s.caller != Account::zero_account(),
        from != Account::zero_account() || s.ledger.nobody_acts_for_zero(),
    ensures
        s.transfer_answer(from, to, id) is Ok <==> s.can_transfer(from, to, id)
            && s.ledger.is_authorized(from, s.caller, id),
        s.caller == from ==> (s.transfer_answer(from, to, id) is Ok <==> s.can_transfer(
            from,
            to,
            id,
        )),
{
}

/// A safe transfer goes through if and only if the plain one would and the receiver accepts the
/// token.
pub proof fn law_safe_transfer_asks_the_receiver(
    s: State721,
    from: Account,
    to: Account,
    id: nat,
    accepted: Result<(), Erc721Error>,
)
    ensures
        s.safe_transfer_answer(from, to, id, accepted) is Ok <==> s.transfer_answer(
            from,
            to,
            id,
        ) is Ok && accepted is Ok,
{
}

/// An account that is no contract accepts every token, whatever the reply would be.
pub proof fn law_plain_accounts_accept(to: Account, reply: Reply)
    ensures
        erc721_accepted(false, reply, to) is Ok,
{
}

/// A transfer hands the token over: it has one owner, the receiver, nobody is approved for it
/// any more, and no other token moves.
pub proof fn law_transfer_hands_over(s: State721, from: Account, to: Account, id: nat)
    requires
        s.transfer_answer(from, to, id) is Ok,
    ensures
        ({
            let t = s.after_transfer(from, to, id);
            &&& t.ledger.owner(id) == to
            &&& from != Account::zero_account() ==> t.ledger.approved(id) == Account::zero_account()
            &&& forall|other: nat|
                other != id ==> #[trigger] t.ledger.owner(other) == s.ledger.owner(other)
            &&& t.frozen == s.frozen
        }),
{
}

/// A freeze blocks every ordinary transfer by whomever, and nothing changes.
pub proof fn law_freeze_blocks(
    s: State721,
    from: Account,
    to: Account,
    id: nat,
    accepted: Result<(), Erc721Error>,
)
    requires
        s.frozen.contains((from, id)),
    ensures
        !s.can_transfer(from, to, id),
        s.transfer_answer(from, to, id) == Err::<(), Error721>(
            Error721::InsufficientUnfrozenBalance { account: from, token_id: u256(id) },
        ),
        s.safe_transfer_answer(from, to, id, accepted) == s.transfer_answer(from, to, id),
        s.after_transfer(from, to, id) == s,
{
}

/// What is frozen for its owner stays with it unless it is burned or seized.
pub proof fn law_frozen_tokens_stay(s: State721, call: Call721, id: nat)
    requires
        s.succeeds(call),
        s.ledger.owner(id) != Account::zero_account(),
        s.frozen.contains((s.ledger.owner(id), id)),
        !(call is Burn),
        !(call is ForcedTransfer),
    ensures
        s.after(call).ledger.owner(id) == s.ledger.owner(id),
{
}

/// A seizure goes through if and only if the caller holds the seizing role, both ends are
/// accounts, the receiver is on the receive-allowlist and `from` owns the token. Neither a
/// freeze nor the send-allowlist nor the receiver itself is asked.
pub proof fn law_seizure_needs_only(s: State721, from: Account, to: Account, id: nat)
    ensures
        s.forced_answer(from, to, id) is Ok <==> s.members.contains((forcer(), s.caller)) && to
            != Account::zero_account() && from != Account::zero_account() && s.receivers.contains(
            to,
        ) && s.ledger.owner(id) == from,
{
}

/// A seizure hands the token over, thaws it and clears its approval. It is logged, and before it
/// that the token is frozen no longer, if it was frozen.
pub proof fn law_seizure_hands_over(s: State721, from: Account, to: Account, id: nat)
    requires
        s.forced_answer(from, to, id) is Ok,
        from != to,
    ensures
        ({
            let t = s.after_forced(from, to, id);
            &&& t.ledger.owner(id) == to
            &&& t.ledger.approved(id) == Account::zero_account()
            &&& !t.frozen.contains((from, id))
            &&& t.log == (if s.frozen.contains((from, id)) {
                s.log.push(frozen_token(from, id, false))
            } else {
                s.log
            }).push(moved_token(from, to, id)).push(forced_token(from, to, id))
            &&& forall|other: nat|
                other != id ==> #[trigger] t.ledger.owner(other) == s.ledger.owner(other)
            &&& forall|account: Account, other: nat|
                (account, other) != (from, id) ==> (#[trigger] t.frozen.contains((account, other))
                    <==> s.frozen.contains((account, other)))
        }),
{
}

/// A seizure that leads back to its victim changes nothing: no owner, no freeze, no approval.
/// It is logged.
pub proof fn law_self_seizure_changes_nothing(s: State721, account: Account, id: nat)
    ensures
        s.forced_answer(account, account, id) is Ok ==> s.after_forced(account, account, id) == (
        State721 { log: s.log.push(forced_token(account, account, id)), ..s }),
        s.forced_answer(account, account, id) is Err ==> s.after_forced(account, account, id) == s,
{
}

/// Burning takes the burning role and nothing else: neither a freeze nor the send-allowlist is
/// in the way. The token is gone, and with it its freeze, which is logged, and its approval; it
/// can be minted anew.
pub proof fn law_burn_destroys(s: State721, id: nat)
    requires
        s.burn_answer(id) is Ok,
    ensures
        ({
            let t = s.after_burn(id);
            &&& t.ledger.owner(id) == Account::zero_account()
            &&& t.ledger.approved(id) == Account::zero_account()
            &&& !t.frozen.contains((s.ledger.owner(id), id))
            &&& t.log == (if s.frozen.contains((s.ledger.owner(id), id)) {
                s.log.push(frozen_token(s.ledger.owner(id), id, false))
            } else {
                s.log
            }).push(moved_token(s.ledger.owner(id), Account::zero_account(), id))
            &&& forall|to: Account|
                to != Account::zero_account() ==> #[trigger] t.ledger.mint_answer(to, id) is Ok
            &&& forall|other: nat|
                other != id ==> #[trigger] t.ledger.owner(other) == s.ledger.owner(other)
        }),
{
}

/// Burning is refused only for want of the role or of the token.
pub proof fn law_burn_needs_only(s: State721, id: nat)
    ensures
        s.burn_answer(id) is Ok <==> s.members.contains((burner(), s.caller)) && s.ledger.owner(id)
            != Account::zero_account(),
{
}

/// Minting makes the receiver the owner, and never touches a token that exists.
pub proof fn law_mint_creates(s: State721, to: Account, id: nat, accepted: Result<(), Erc721Error>)
    ensures
        s.mint_answer(to, id, accepted) is Ok ==> s.ledger.owner(id) == Account::zero_account()
            && s.after_mint(to, id).ledger.owner(id) == to,
        s.ledger.owner(id) != Account::zero_account() ==> s.mint_answer(to, id, accepted) is Err,
{
}

/// Only accounts on the receive-allowlist ever come to own a token.
pub proof fn law_only_receivers_gain(s: State721, call: Call721, id: nat)
    requires
        s.after(call).ledger.owner(id) != s.ledger.owner(id),
        s.after(call).ledger.owner(id) != Account::zero_account(),
    ensures
        s.receivers.contains(s.after(call).ledger.owner(id)),
{
}

/// Only accounts on the send-allowlist ever lose a token, but to burning or a seizure.
pub proof fn law_only_senders_lose(s: State721, call: Call721, id: nat)
    requires
        s.succeeds(call),
        s.ledger.owner(id) != Account::zero_account(),
        s.after(call).ledger.owner(id) != s.ledger.owner(id),
    ensures
        s.senders.contains(s.ledger.owner(id)) || call is Burn || call is ForcedTransfer,
{
}

/// Without a privileged role, only the owner, its operators and whoever it approved ever move a
/// token.
pub proof fn law_only_the_authorized_move(s: State721, call: Call721, id: nat)
    requires
        s.caller != Account::zero_account(),
        s.succeeds(call),
        s.ledger.owner(id) != Account::zero_account(),
        s.after(call).ledger.owner(id) != s.ledger.owner(id),
    ensures
        s.ledger.is_authorized(s.ledger.owner(id), s.caller, id) || (call is Burn
            && s.members.contains((burner(), s.caller))) || (call is ForcedTransfer
            && s.members.contains((forcer(), s.caller))),
{
}

/// The role that `call` takes, if it takes one.
pub open spec fn role_for(call: Call721) -> Option<[u8; 32]> {
    match call {
        Call721::ChangeSendWhitelist { account, status } => Some(whitelister()),
        Call721::ChangeReceiveWhitelist { account, status } => Some(whitelister()),
        Call721::SafeMint { to, id, accepted } => Some(minter()),
        Call721::Burn { id } => Some(burner()),
        Call721::SetFrozenTokens { account, id, status } => Some(freezer()),
        Call721::ForcedTransfer { from, to, id } => Some(forcer()),
        _ => None,
    }
}

/// A privileged call of someone without the role changes nothing and is refused, and the
/// refusal names the caller and the role.
pub proof fn law_privileged_calls_take_their_role(s: State721, call: Call721)
    requires
        role_for(call) is Some,
        !s.members.contains((role_for(call)->0, s.caller)),
    ensures
        !s.succeeds(call),
        s.after(call) == s,
        s.check_role(role_for(call)->0) == Err::<(), Error721>(
            Error721::UnauthorizedAccount { account: s.caller, needed_role: role_for(call)->0 },
        ),
        call matches Call721::SafeMint { to, id, accepted } ==> s.mint_answer(to, id, accepted)
            == s.check_role(minter()),
        call matches Call721::Burn { id } ==> s.burn_answer(id) == s.check_role(burner()),
        call matches Call721::ForcedTransfer { from, to, id } ==> s.forced_answer(from, to, id)
            == s.check_role(forcer()),
{
}

/// Only holders of a role's admin role hand it out or take it back; others are refused and
/// change nothing.
pub proof fn law_roles_take_their_admin(s: State721, role: [u8; 32], account: Account)
    requires
        !s.members.contains((admin_of(s.admins, role), s.caller)),
    ensures
        s.admin_answer(role) == Err::<(), AccessError>(
            AccessError::UnauthorizedAccount {
                account: s.caller,
                needed_role: admin_of(s.admins, role),
            },
        ),
        s.after_grant(role, account) == s,
        s.after_revoke(role, account) == s,
{
}

/// No call makes anybody a holder of a role but the constructor and a grant by the role's admin.
pub proof fn law_roles_come_from_admins(
    s: State721,
    call: Call721,
    role: [u8; 32],
    account: Account,
)
    requires
        !s.members.contains((role, account)),
        s.after(call).members.contains((role, account)),
    ensures
        call == (Call721::Constructor { initial_admin: account }) || (call == (Call721::GrantRole {
            role,
            account,
        }) && s.members.contains((admin_of(s.admins, role), s.caller))),
{
}

/// The constructor hands every role to the initial admin.
pub proof fn law_constructor_grants_every_role(s: State721, initial_admin: Account)
    ensures
        ({
            let t = s.after_constructor(initial_admin);
            &&& t.members.contains((default_admin(), initial_admin))
            &&& t.members.contains((minter(), initial_admin))
            &&& t.members.contains((burner(), initial_admin))
            &&& t.members.contains((freezer(), initial_admin))
            &&& t.members.contains((whitelister(), initial_admin))
            &&& t.members.contains((forcer(), initial_admin))
        }),
{
}

/// A transfer that the rules of this token refuse changes nothing, and neither does a mint or a
/// seizure that they refuse.
pub proof fn law_rules_refuse_without_change(s: State721, from: Account, to: Account, id: nat)
    ensures
        s.check_transfer(from, to, id) is Err ==> s.after_transfer(from, to, id) == s,
        s.check_mint(to) is Err ==> s.after_mint(to, id) == s,
        s.forced_answer(from, to, id) is Err ==> s.after_forced(from, to, id) == s,
{
}

/// What was set is what is read: freezes, allowlists, approvals, operators and roles.
pub proof fn law_reads_give_back_writes(
    s: State721,
    account: Account,
    other: Account,
    id: nat,
    status: bool,
    role: [u8; 32],
)
    ensures
        s.check_role(freezer()) is Ok ==> (s.after_set_frozen(account, id, status).frozen.contains(
            (account, id),
        ) <==> status),
        other != account ==> (s.after_set_frozen(account, id, status).frozen.contains((other, id))
            <==> s.frozen.contains((other, id))),
        s.check_role(whitelister()) is Ok ==> (s.after_change_send(
            account,
            status,
        ).senders.contains(account) <==> status),
        other != account ==> (s.after_change_send(account, status).senders.contains(other)
            <==> s.senders.contains(other)),
        s.check_role(whitelister()) is Ok ==> (s.after_change_receive(
            account,
            status,
        ).receivers.contains(account) <==> status),
        other != account ==> (s.after_change_receive(account, status).receivers.contains(other)
            <==> s.receivers.contains(other)),
        s.ledger.approve_answer(s.caller, id) is Ok ==> s.after_approve(
            account,
            id,
        ).ledger.approved(id) == account,
        account != Account::zero_account() ==> (s.after_set_operator(
            account,
            status,
        ).ledger.operators.contains((s.caller, account)) <==> status),
        s.admin_answer(role) is Ok ==> s.after_grant(role, account).members.contains(
            (role, account),
        ),
        s.admin_answer(role) is Ok ==> !s.after_revoke(role, account).members.contains(
            (role, account),
        ),
        s.renounce_answer(account) is Ok ==> !s.after_renounce(role, account).members.contains(
            (role, account),
        ),
{
}

} // verus!
