//! What holds of the fungible token, whatever is done to it.

use vstd::prelude::*;

use crate::access::{
    admin_of, burner, default_admin, forcer, freezer, minter, whitelister, AccessError,
};
use crate::account::Account;
use crate::erc20::Ledger20;
use crate::events::forced_amount;
use crate::sum::{lemma_sum_bound, lemma_sum_insert, sum};
use crate::uint::modulus;
use crate::urwa20::{Error20, State20};

verus! {

/// A call that may change the token.
pub enum Call20 {
    Initialize { name: Seq<char>, symbol: Seq<char>, initial_admin: Account },
    ChangeSendWhitelist { account: Account, status: bool },
    ChangeReceiveWhitelist { account: Account, status: bool },
    Mint { to: Account, amount: nat },
    Burn { amount: nat },
    SetFrozenTokens { account: Account, amount: nat },
    ForcedTransfer { from: Account, to: Account, amount: nat },
    Transfer { to: Account, value: nat },
    Approve { spender: Account, value: nat },
    TransferFrom { from: Account, to: Account, value: nat },
    GrantRole { role: [u8; 32], account: Account },
    RevokeRole { role: [u8; 32], account: Account },
    RenounceRole { role: [u8; 32], confirmation: Account },
}

impl State20 {
    /// What `call` leaves behind.
    pub open spec fn after(self, call: Call20) -> State20 {
        match call {
            Call20::Initialize { name, symbol, initial_admin } => self.after_initialize(
                name,
                symbol,
                initial_admin,
            ),
            Call20::ChangeSendWhitelist { account, status } => self.after_change_send(
                account,
                status,
            ),
            Call20::ChangeReceiveWhitelist { account, status } => self.after_change_receive(
                account,
                status,
            ),
            Call20::Mint { to, amount } => self.after_mint(to, amount),
            Call20::Burn { amount } => self.after_burn(amount),
            Call20::SetFrozenTokens { account, amount } => self.after_set_frozen(account, amount),
            Call20::ForcedTransfer { from, to, amount } => self.after_forced(from, to, amount),
            Call20::Transfer { to, value } => self.after_transfer(to, value),
            Call20::Approve { spender, value } => self.after_approve(spender, value),
            Call20::TransferFrom { from, to, value } => self.after_transfer_from(from, to, value),
            Call20::GrantRole { role, account } => self.after_grant(role, account),
            Call20::RevokeRole { role, account } => self.after_revoke(role, account),
            Call20::RenounceRole { role, confirmation } => self.after_renounce(role, confirmation),
        }
    }

    /// Whether `call` is not refused.
    pub open spec fn succeeds(self, call: Call20) -> bool {
        match call {
            Call20::Initialize { name, symbol, initial_admin } => self.initialize_answer() is Ok,
            Call20::ChangeSendWhitelist { account, status } => self.check_role(
                whitelister(),
            ) is Ok,
            Call20::ChangeReceiveWhitelist { account, status } => self.check_role(
                whitelister(),
            ) is Ok,
            Call20::Mint { to, amount } => self.mint_answer(to) is Ok,
            Call20::Burn { amount } => self.burn_answer(amount) is Ok,
            Call20::SetFrozenTokens { account, amount } => self.check_role(freezer()) is Ok,
            Call20::ForcedTransfer { from, to, amount } => self.forced_answer(
                from,
                to,
                amount,
            ) is Ok,
            Call20::Transfer { to, value } => self.transfer_answer(to, value) is Ok,
            Call20::Approve { spender, value } => self.approve_answer(spender) is Ok,
            Call20::TransferFrom { from, to, value } => self.transfer_from_answer(
                from,
                to,
                value,
            ) is Ok,
            Call20::GrantRole { role, account } => self.admin_answer(role) is Ok,
            Call20::RevokeRole { role, account } => self.admin_answer(role) is Ok,
            Call20::RenounceRole { role, confirmation } => self.renounce_answer(confirmation) is Ok,
        }
    }

    /// Whether `call` can be made at all: new tokens must fit into the total supply.
    pub open spec fn admits(self, call: Call20) -> bool {
        call matches Call20::Mint { to, amount } ==> self.mint_fits(to, amount)
    }

    /// What is left of `call` once it is over: the host undoes a call that is refused or cannot
    /// be made.
    pub open spec fn step(self, caller: Account, call: Call20) -> State20 {
        let called = State20 { caller, ..self };
        if called.admits(call) && called.succeeds(call) {
            called.after(call)
        } else {
            called
        }
    }

    /// What is left after `calls`, one after the other, each with its caller.
    pub open spec fn history(self, calls: Seq<(Account, Call20)>) -> State20
        decreases calls.len(),
    {
        if calls.len() == 0 {
            self
        } else {
            self.history(calls.drop_last()).step(calls.last().0, calls.last().1)
        }
    }

    /// Whether the books balance: the balances add up to the total supply, which is a 256-bit
    /// integer.
    pub open spec fn balanced(self) -> bool {
        &&& self.ledger.balances.dom().finite()
        &&& sum(self.ledger.balances) == self.ledger.supply
        &&& self.ledger.supply < modulus()
    }
}

/// Where the books balance, a credit that the supply has room for is not cut off.
proof fn lemma_credit(ledger: Ledger20, to: Account, value: nat)
    requires
        ledger.balances.dom().finite(),
        sum(ledger.balances) + value < modulus(),
    ensures
        ledger.credit(to, value).balances.dom().finite(),
        sum(ledger.credit(to, value).balances) == sum(ledger.balances) + value,
        ledger.credit(to, value).balance(to) == ledger.balance(to) + value,
{
    lemma_sum_bound(ledger.balances, to);
    lemma_sum_insert(ledger.balances, to, ledger.balance(to) + value);
}

/// A debit takes from the sum what it takes from the account.
proof fn lemma_debit(ledger: Ledger20, from: Account, value: nat)
    requires
        ledger.balances.dom().finite(),
        value <= ledger.balance(from),
    ensures
        ledger.debit(from, value).balances.dom().finite(),
        sum(ledger.debit(from, value).balances) + value == sum(ledger.balances),
{
    lemma_sum_bound(ledger.balances, from);
    lemma_sum_insert(ledger.balances, from, (ledger.balance(from) - value) as nat);
}

/// What a transfer does where the books balance.
proof fn lemma_transfer(ledger: Ledger20, from: Account, to: Account, value: nat)
    requires
        ledger.balances.dom().finite(),
        sum(ledger.balances) < modulus(),
        value <= ledger.balance(from),
    ensures
        ledger.transfer(from, to, value).balances.dom().finite(),
        sum(ledger.transfer(from, to, value).balances) == sum(ledger.balances),
        from != to ==> ledger.transfer(from, to, value).balance(from) == ledger.balance(from)
            - value,
        from != to ==> ledger.transfer(from, to, value).balance(to) == ledger.balance(to) + value,
        from == to ==> ledger.transfer(from, to, value).balance(to) == ledger.balance(to),
        forall|other: Account|
            other != from && other != to ==> #[trigger] ledger.transfer(from, to, value).balance(
                other,
            ) == ledger.balance(other),
{
    lemma_debit(ledger, from, value);
    lemma_credit(ledger.debit(from, value), to, value);
}

/// A token that nobody has touched: its books balance.
pub proof fn law_new_books_balance(s: State20)
    requires
        s.ledger == (Ledger20 { balances: Map::empty(), allowances: Map::empty(), supply: 0 }),
    ensures
        s.balanced(),
{
}

/// No call puts the books out of balance.
pub proof fn law_books_stay_balanced(s: State20, call: Call20)
    requires
        s.balanced(),
        s.admits(call),
    ensures
        s.after(call).balanced(),
{
    match call {
        Call20::Mint { to, amount } => {
            if s.mint_answer(to) is Ok {
                lemma_credit(s.ledger, to, amount);
            }
        },
        Call20::Burn { amount } => {
            if s.burn_answer(amount) is Ok {
                lemma_debit(s.ledger, s.caller, amount);
            }
        },
        Call20::ForcedTransfer { from, to, amount } => {
            if s.forced_answer(from, to, amount) is Ok && from != to {
                lemma_transfer(s.ledger, from, to, amount);
            }
        },
        Call20::Transfer { to, value } => {
            if s.transfer_answer(to, value) is Ok {
                lemma_transfer(s.ledger, s.caller, to, value);
            }
        },
        Call20::TransferFrom { from, to, value } => {
            if s.transfer_from_answer(from, to, value) is Ok {
                lemma_transfer(s.ledger.spend(from, s.caller, value), from, to, value);
            }
        },
        _ => {},
    }
}

/// The books of a token balance throughout its history.
pub proof fn law_books_balance_throughout(s: State20, calls: Seq<(Account, Call20)>)
    requires
        s.balanced(),
    ensures
        s.history(calls).balanced(),
    decreases calls.len(),
{
    if calls.len() > 0 {
        law_books_balance_throughout(s, calls.drop_last());
        let before = State20 { caller: calls.last().0, ..s.history(calls.drop_last()) };
        if before.admits(calls.last().1) {
            law_books_stay_balanced(before, calls.last().1);
        }
    }
}

/// The total supply changes by what is minted and burned, and by nothing else.
pub proof fn law_supply(s: State20, call: Call20)
    requires
        s.balanced(),
        s.admits(call),
    ensures
        s.after(call).ledger.supply == (match call {
            Call20::Mint { to, amount } if s.succeeds(call) => (s.ledger.supply + amount) as int,
            Call20::Burn { amount } if s.succeeds(call) => s.ledger.supply - amount,
            _ => s.ledger.supply as int,
        }),
{
    if let Call20::Burn { amount } = call {
        lemma_sum_bound(s.ledger.balances, s.caller);
    }
}

/// The question and the deed agree: a transfer goes through if and only if `can_transfer` says
/// that it would.
pub proof fn law_can_transfer_agrees_with_transfer(s: State20, to: Account, value: nat)
    ensures
        s.can_transfer(s.caller, to, value) <==> s.transfer_answer(to, value) == Ok::<
            bool,
            Error20,
        >(true),
        s.can_transfer(s.caller, to, value) <==> s.transfer_answer(to, value) is Ok,
{
}

/// The question and the deed agree for a spender too: its transfer goes through if and only if
/// `can_transfer` says that it would and the allowance suffices. The largest allowance has no
/// limit; any other the zero account cannot spend.
pub proof fn law_can_transfer_agrees_with_transfer_from(
    s: State20,
    from: Account,
    to: Account,
    value: nat,
)
    ensures
        s.transfer_from_answer(from, to, value) is Ok <==> s.can_transfer(from, to, value) && (
        s.ledger.allowance(from, s.caller) == modulus() - 1 || (s.caller != Account::zero_account()
            && value <= s.ledger.allowance(from, s.caller))),
{
}

/// A transfer takes from one account what it gives to the other, and leaves all others, the
/// supply and every freeze alone.
pub proof fn law_transfer_moves(s: State20, to: Account, value: nat)
    requires
        s.balanced(),
        s.transfer_answer(to, value) is Ok,
    ensures
        ({
            let t = s.after_transfer(to, value);
            &&& s.caller != to ==> t.ledger.balance(s.caller) == s.ledger.balance(s.caller) - value
            &&& s.caller != to ==> t.ledger.balance(to) == s.ledger.balance(to) + value
            &&& s.caller == to ==> t.ledger.balance(to) == s.ledger.balance(to)
            &&& forall|other: Account|
                other != s.caller && other != to ==> #[trigger] t.ledger.balance(other)
                    == s.ledger.balance(other)
            &&& t.ledger.supply == s.ledger.supply
            &&& t.frozen == s.frozen
        }),
{
    lemma_transfer(s.ledger, s.caller, to, value);
}

/// A spender's transfer moves tokens as the owner's own does, and uses up its allowance unless
/// that has no limit.
pub proof fn law_transfer_from_moves(s: State20, from: Account, to: Account, value: nat)
    requires
        s.balanced(),
        s.transfer_from_answer(from, to, value) is Ok,
    ensures
        ({
            let t = s.after_transfer_from(from, to, value);
            &&& from != to ==> t.ledger.balance(from) == s.ledger.balance(from) - value
            &&& from != to ==> t.ledger.balance(to) == s.ledger.balance(to) + value
            &&& from == to ==> t.ledger.balance(to) == s.ledger.balance(to)
            &&& forall|other: Account|
                other != from && other != to ==> #[trigger] t.ledger.balance(other)
                    == s.ledger.balance(other)
            &&& t.ledger.allowance(from, s.caller) == (if s.ledger.allowance(from, s.caller)
                == modulus() - 1 {
                modulus() - 1int
            } else {
                s.ledger.allowance(from, s.caller) - value
            })
        }),
{
    lemma_transfer(s.ledger.spend(from, s.caller, value), from, to, value);
}

/// What is frozen stays where it is unless it is burned or seized: no other call leaves an
/// account with less than was frozen of what it had.
pub proof fn law_frozen_tokens_stay(s: State20, call: Call20, account: Account)
    requires
        s.balanced(),
        s.admits(call),
        !(call is Burn),
        !(call is ForcedTransfer),
    ensures
        s.after(call).ledger.balance(account) >= s.frozen_of(account)
            || s.after(call).ledger.balance(account) >= s.ledger.balance(account),
{
    match call {
        Call20::Mint { to, amount } => {
            if s.mint_answer(to) is Ok {
                lemma_credit(s.ledger, to, amount);
            }
        },
        Call20::Transfer { to, value } => {
            if s.transfer_answer(to, value) is Ok {
                lemma_transfer(s.ledger, s.caller, to, value);
            }
        },
        Call20::TransferFrom { from, to, value } => {
            if s.transfer_from_answer(from, to, value) is Ok {
                lemma_transfer(s.ledger.spend(from, s.caller, value), from, to, value);
            }
        },
        _ => {},
    }
}

/// An account with as much frozen as it has, or more, cannot send anything.
pub proof fn law_full_freeze_blocks(s: State20, from: Account, to: Account, value: nat)
    requires
        s.frozen_of(from) >= s.ledger.balance(from),
        value > 0,
    ensures
        !s.can_transfer(from, to, value),
        s.caller == from ==> s.transfer_answer(to, value) is Err,
        s.transfer_from_answer(from, to, value) is Err,
{
}

/// Whether no account has more frozen than it has.
pub open spec fn freezes_covered(s: State20) -> bool {
    forall|account: Account| #[trigger] s.frozen_of(account) <= s.ledger.balance(account)
}

/// Freezes that are covered by balances stay so, whatever is called; only setting a freeze can
/// go beyond a balance.
pub proof fn law_freezes_stay_covered(s: State20, call: Call20)
    requires
        s.balanced(),
        s.admits(call),
        freezes_covered(s),
        !(call is SetFrozenTokens),
    ensures
        freezes_covered(s.after(call)),
{
    let t = s.after(call);
    assert forall|account: Account| #[trigger]
        t.frozen_of(account) <= t.ledger.balance(account) by {
        assert(s.frozen_of(account) <= s.ledger.balance(account));
        match call {
            Call20::Mint { to, amount } => {
                if s.mint_answer(to) is Ok {
                    lemma_credit(s.ledger, to, amount);
                }
            },
            Call20::ForcedTransfer { from, to, amount } => {
                assert(s.frozen_of(from) <= s.ledger.balance(from));
                if s.forced_answer(from, to, amount) is Ok && from != to {
                    lemma_transfer(s.ledger, from, to, amount);
                }
            },
            Call20::Transfer { to, value } => {
                if s.transfer_answer(to, value) is Ok {
                    lemma_transfer(s.ledger, s.caller, to, value);
                }
            },
            Call20::TransferFrom { from, to, value } => {
                if s.transfer_from_answer(from, to, value) is Ok {
                    lemma_transfer(s.ledger.spend(from, s.caller, value), from, to, value);
                }
            },
            _ => {},
        }
    }
}

/// What burning takes: unfrozen tokens first, and only then frozen ones, which then no longer
/// count as frozen. Nothing else is unfrozen.
pub proof fn law_burn_takes_unfrozen_first(s: State20, amount: nat)
    requires
        s.burn_answer(amount) is Ok,
    ensures
        ({
            let t = s.after_burn(amount);
            &&& t.ledger.balance(s.caller) == s.ledger.balance(s.caller) - amount
            &&& t.unfrozen(s.caller) == (if amount <= s.unfrozen(s.caller) {
                s.unfrozen(s.caller) - amount
            } else {
                0
            })
            &&& t.frozen_of(s.caller) == (if amount <= s.unfrozen(s.caller) {
                s.frozen_of(s.caller) as int
            } else {
                s.frozen_of(s.caller) - (amount - s.unfrozen(s.caller))
            })
            &&& forall|other: Account|
                other != s.caller ==> #[trigger] t.frozen_of(other) == s.frozen_of(other)
        }),
{
}

/// What a seizure takes: unfrozen tokens first, and only then frozen ones, which then no longer
/// count as frozen. They arrive in full.
pub proof fn law_seizure_takes_unfrozen_first(s: State20, from: Account, to: Account, amount: nat)
    requires
        s.balanced(),
        s.forced_answer(from, to, amount) is Ok,
        from != to,
    ensures
        ({
            let t = s.after_forced(from, to, amount);
            &&& t.ledger.balance(from) == s.ledger.balance(from) - amount
            &&& t.ledger.balance(to) == s.ledger.balance(to) + amount
            &&& t.unfrozen(from) == (if amount <= s.unfrozen(from) {
                s.unfrozen(from) - amount
            } else {
                0
            })
            &&& t.frozen_of(from) == (if amount <= s.unfrozen(from) {
                s.frozen_of(from) as int
            } else {
                s.frozen_of(from) - (amount - s.unfrozen(from))
            })
            &&& forall|other: Account|
                other != from ==> #[trigger] t.frozen_of(other) == s.frozen_of(other)
        }),
{
    lemma_transfer(s.ledger, from, to, amount);
}

/// A seizure that leads back to its victim changes nothing: no balance, no freeze, no
/// allowlist. It is logged, whatever the amount.
pub proof fn law_self_seizure_changes_nothing(s: State20, account: Account, amount: nat)
    ensures
        s.forced_answer(account, account, amount) is Ok ==> s.after_forced(account, account, amount)
            == (State20 { log: s.log.push(forced_amount(account, account, amount)), ..s }),
        s.forced_answer(account, account, amount) is Err ==> s.after_forced(
            account,
            account,
            amount,
        ) == s,
{
}

/// Neither the send-allowlist nor a freeze stands in the way of a seizure or changes what it
/// moves.
pub proof fn law_seizure_ignores_freeze_and_senders(
    s: State20,
    t: State20,
    from: Account,
    to: Account,
    amount: nat,
)
    requires
        t == (State20 { senders: t.senders, frozen: t.frozen, ..s }),
    ensures
        s.forced_answer(from, to, amount) == t.forced_answer(from, to, amount),
        s.after_forced(from, to, amount).ledger == t.after_forced(from, to, amount).ledger,
{
}

/// The role that `call` takes, if it takes one.
pub open spec fn role_for(call: Call20) -> Option<[u8; 32]> {
    match call {
        Call20::ChangeSendWhitelist { account, status } => Some(whitelister()),
        Call20::ChangeReceiveWhitelist { account, status } => Some(whitelister()),
        Call20::Mint { to, amount } => Some(minter()),
        Call20::Burn { amount } => Some(burner()),
        Call20::SetFrozenTokens { account, amount } => Some(freezer()),
        Call20::ForcedTransfer { from, to, amount } => Some(forcer()),
        _ => None,
    }
}

/// A privileged call of someone without the role changes nothing and is refused, and the
/// refusal names the caller and the role.
pub proof fn law_privileged_calls_take_their_role(s: State20, call: Call20)
    requires
        role_for(call) is Some,
        !s.members.contains((role_for(call)->0, s.caller)),
    ensures
        !s.succeeds(call),
        s.after(call) == s,
        s.check_role(role_for(call)->0) == Err::<(), Error20>(
            Error20::UnauthorizedAccount { account: s.caller, needed_role: role_for(call)->0 },
        ),
        call matches Call20::Mint { to, amount } ==> s.mint_answer(to) == s.check_role(minter()),
        call matches Call20::Burn { amount } ==> s.burn_answer(amount) == s.check_role(burner()),
        call matches Call20::ForcedTransfer { from, to, amount } ==> s.forced_answer(
            from,
            to,
            amount,
        ) == s.check_role(forcer()),
{
}

/// Only holders of a role's admin role hand it out or take it back; others are refused and
/// change nothing.
pub proof fn law_roles_take_their_admin(s: State20, role: [u8; 32], account: Account)
    requires
        !s.members.contains((admin_of(s.admins, role), s.caller)),
    ensures
        s.admin_answer(role) == Err::<(), AccessError>(
            AccessError::UnauthorizedAccount {
                account: s.caller,
                needed_role: admin_of(s.admins, role),
            },
        ),
        s.after_grant(role, account) == s,
        s.after_revoke(role, account) == s,
{
}

/// No call makes anybody a holder of a role but initialization and a grant by the role's
/// admin.
pub proof fn law_roles_come_from_admins(
    s: State20,
    call: Call20,
    role: [u8; 32],
    account: Account,
)
    requires
        !s.members.contains((role, account)),
        s.after(call).members.contains((role, account)),
    ensures
        (call matches Call20::Initialize { name, symbol, initial_admin } && initial_admin == account
            && !s.initialized) || (call == (Call20::GrantRole { role, account })
            && s.members.contains((admin_of(s.admins, role), s.caller))),
{
}

/// The first initialization succeeds, hands every role to the initial admin and is the last:
/// the token stays initialized whatever is called, and every other attempt is refused and
/// changes nothing.
pub proof fn law_initialized_once(
    s: State20,
    name: Seq<char>,
    symbol: Seq<char>,
    initial_admin: Account,
    call: Call20,
)
    ensures
        !s.initialized ==> s.initialize_answer() is Ok,
        !s.initialized ==> ({
            let t = s.after_initialize(name, symbol, initial_admin);
            &&& t.initialized
            &&& t.name == name
            &&& t.symbol == symbol
            &&& t.members.contains((default_admin(), initial_admin))
            &&& t.members.contains((minter(), initial_admin))
            &&& t.members.contains((burner(), initial_admin))
            &&& t.members.contains((freezer(), initial_admin))
            &&& t.members.contains((whitelister(), initial_admin))
            &&& t.members.contains((forcer(), initial_admin))
        }),
        s.initialized ==> s.after(call).initialized,
        s.initialized ==> s.initialize_answer() == Err::<(), Error20>(Error20::AlreadyInitialized),
        s.initialized ==> s.after_initialize(name, symbol, initial_admin) == s,
{
}

/// Only accounts on the receive-allowlist ever gain tokens.
pub proof fn law_only_receivers_gain(s: State20, call: Call20, account: Account)
    requires
        s.balanced(),
        s.admits(call),
        s.after(call).ledger.balance(account) > s.ledger.balance(account),
    ensures
        s.receivers.contains(account),
{
    match call {
        Call20::ForcedTransfer { from, to, amount } => {
            if s.forced_answer(from, to, amount) is Ok && from != to {
                lemma_transfer(s.ledger, from, to, amount);
            }
        },
        Call20::Transfer { to, value } => {
            if s.transfer_answer(to, value) is Ok {
                lemma_transfer(s.ledger, s.caller, to, value);
            }
        },
        Call20::TransferFrom { from, to, value } => {
            if s.transfer_from_answer(from, to, value) is Ok {
                lemma_transfer(s.ledger.spend(from, s.caller, value), from, to, value);
            }
        },
        _ => {},
    }
}

/// Only accounts on the send-allowlist ever lose tokens, but to a seizure.
pub proof fn law_only_senders_lose(s: State20, call: Call20, account: Account)
    requires
        s.balanced(),
        s.admits(call),
        s.after(call).ledger.balance(account) < s.ledger.balance(account),
    ensures
        s.senders.contains(account) || call is ForcedTransfer,
{
    match call {
        Call20::Mint { to, amount } => {
            if s.mint_answer(to) is Ok {
                lemma_credit(s.ledger, to, amount);
            }
        },
        Call20::Transfer { to, value } => {
            if s.transfer_answer(to, value) is Ok {
                lemma_transfer(s.ledger, s.caller, to, value);
            }
        },
        Call20::TransferFrom { from, to, value } => {
            if s.transfer_from_answer(from, to, value) is Ok {
                lemma_transfer(s.ledger.spend(from, s.caller, value), from, to, value);
            }
        },
        _ => {},
    }
}

/// A refused call changes nothing by itself, unless the zero account calls to burn, or a spender
/// sends to the zero account while that is on the receive-allowlist.
pub proof fn law_refusal_changes_nothing(s: State20, call: Call20)
    requires
        !s.succeeds(call),
        call is Burn ==> s.caller != Account::zero_account(),
        call matches Call20::TransferFrom { from, to, value } ==> to != Account::zero_account()
            || !s.receivers.contains(to),
    ensures
        s.after(call) == s,
{
}

/// What was set is what is read: freezes, allowlists, allowances and roles.
pub proof fn law_reads_give_back_writes(
    s: State20,
    account: Account,
    other: Account,
    amount: nat,
    status: bool,
    role: [u8; 32],
)
    ensures
        s.check_role(freezer()) is Ok ==> s.after_set_frozen(account, amount).frozen_of(account)
            == amount,
        other != account ==> s.after_set_frozen(account, amount).frozen_of(other) == s.frozen_of(
            other,
        ),
        s.check_role(whitelister()) is Ok ==> (s.after_change_send(
            account,
            status,
        ).senders.contains(account) <==> status),
        other != account ==> (s.after_change_send(account, status).senders.contains(other)
            <==> s.senders.contains(other)),
        s.check_role(whitelister()) is Ok ==> (s.after_change_receive(
            account,
            status,
        ).receivers.contains(account) <==> status),
        other != account ==> (s.after_change_receive(account, status).receivers.contains(other)
            <==> s.receivers.contains(other)),
        s.approve_answer(account) is Ok ==> s.after_approve(account, amount).ledger.allowance(
            s.caller,
            account,
        ) == amount,
        s.admin_answer(role) is Ok ==> s.after_grant(role, account).members.contains(
            (role, account),
        ),
        s.admin_answer(role) is Ok ==> !s.after_revoke(role, account).members.contains(
            (role, account),
        ),
        s.renounce_answer(account) is Ok ==> !s.after_renounce(role, account).members.contains(
            (role, account),
        ),
{
}

} // verus!
