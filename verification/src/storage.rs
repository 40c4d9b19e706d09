//! The contract storage that the tokens keep beside their base contracts: allowlists,
//! freezes and the initialization flag.
//!
//! A storage map reads as zero (or `false`) at every key that was never written. Its
//! entries lie in slots derived from their keys by a digest, and different keys are taken
//! to have different slots, as the map's own documentation demands of its keys.

use vstd::prelude::*;

use stylus_sdk::storage::{StorageBool, StorageMap, StorageU256};

use crate::account::Account;
use crate::uint::U256;

verus! {

/// A flag in contract storage.
#[verifier::external_type_specification]
#[verifier::external_body]
pub struct ExStorageBool(StorageBool);

/// A set of accounts in contract storage.
#[verifier::external_body]
pub struct AccountFlags {
    pub slots: StorageMap<alloy_primitives::Address, StorageBool>,
}

/// An amount for each account in contract storage.
#[verifier::external_body]
pub struct AccountAmounts {
    pub slots: StorageMap<alloy_primitives::Address, StorageU256>,
}

/// A set of pairs of an account and a token id in contract storage.
#[verifier::external_body]
pub struct TokenFlags {
    pub slots: StorageMap<
        alloy_primitives::Address,
        StorageMap<alloy_primitives::U256, StorageBool>,
    >,
}

/// An amount for each pair of an account and a token id in contract storage.
#[verifier::external_body]
pub struct TokenAmounts {
    pub slots: StorageMap<
        alloy_primitives::Address,
        StorageMap<alloy_primitives::U256, StorageU256>,
    >,
}

/// What `flag` holds.
pub uninterp spec fn is_raised(flag: StorageBool) -> bool;

/// The accounts that `flags` holds.
pub uninterp spec fn flagged(flags: AccountFlags) -> Set<Account>;

/// The amounts that `amounts` holds.
pub uninterp spec fn account_amounts(amounts: AccountAmounts) -> Map<Account, nat>;

/// The pairs that `flags` holds.
pub uninterp spec fn flagged_tokens(flags: TokenFlags) -> Set<(Account, nat)>;

/// The amounts that `amounts` holds.
pub uninterp spec fn token_amounts(amounts: TokenAmounts) -> Map<(Account, nat), nat>;

/// The amount for `key` in `amounts`: zero where there is none.
pub open spec fn amount_at<K>(amounts: Map<K, nat>, key: K) -> nat {
    if amounts.dom().contains(key) {
        amounts[key]
    } else {
        0
    }
}

/// `set` with `element` in it or not, as `status` says.
pub open spec fn set_to<T>(set: Set<T>, element: T, status: bool) -> Set<T> {
    if status {
        set.insert(element)
    } else {
        set.remove(element)
    }
}

/// `StorageBool::get`: the stored flag.
#[verifier::external_body]
pub(crate) fn get_flag(flag: &StorageBool) -> (r: bool)
    ensures
        r == is_raised(*flag),
{
    flag.get()
}

/// `StorageBool::set`: overwrites the stored flag.
#[verifier::external_body]
pub(crate) fn set_flag(flag: &mut StorageBool, value: bool)
    ensures
        is_raised(*final(flag)) == value,
{
    flag.set(value)
}

impl AccountFlags {
    /// `StorageMap::get` on a map of flags: whether `account` is flagged.
    #[verifier::external_body]
    pub(crate) fn get(&self, account: &Account) -> (r: bool)
        ensures
            r == flagged(*self).contains(*account),
    {
        self.slots.get(account.bytes.into())
    }

    /// `StorageMap::setter` and `StorageBool::set`: flags `account` or not, and no other
    /// account.
    #[verifier::external_body]
    pub(crate) fn set(&mut self, account: &Account, status: bool)
        ensures
            flagged(*final(self)) == set_to(flagged(*old(self)), *account, status),
    {
        self.slots.setter(account.bytes.into()).set(status)
    }
}

impl AccountAmounts {
    /// `StorageMap::get` on a map of integers: the amount for `account`.
    #[verifier::external_body]
    pub(crate) fn get(&self, account: &Account) -> (r: U256)
        ensures
            r@ == amount_at(account_amounts(*self), *account),
    {
        U256 { limbs: self.slots.get(account.bytes.into()).into_limbs() }
    }

    /// `StorageMap::setter` and `StorageU256::set`: overwrites the amount for `account`,
    /// and no other.
    #[verifier::external_body]
    pub(crate) fn set(&mut self, account: &Account, amount: &U256)
        ensures
            account_amounts(*final(self)) == account_amounts(*old(self)).insert(
                *account,
                amount@,
            ),
    {
        let amount = alloy_primitives::U256::from_limbs(amount.limbs);
        self.slots.setter(account.bytes.into()).set(amount)
    }
}

impl TokenFlags {
    /// `StorageMap::get` on a map of maps of flags: whether the pair of `account` and `id`
    /// is flagged.
    #[verifier::external_body]
    pub(crate) fn get(&self, account: &Account, id: &U256) -> (r: bool)
        ensures
            r == flagged_tokens(*self).contains((*account, id@)),
    {
        let id = alloy_primitives::U256::from_limbs(id.limbs);
        self.slots.get(account.bytes.into()).get(id)
    }

    /// `StorageMap::setter` and `StorageBool::set`: flags the pair of `account` and `id` or
    /// not, and no other pair.
    #[verifier::external_body]
    pub(crate) fn set(&mut self, account: &Account, id: &U256, status: bool)
        ensures
            flagged_tokens(*final(self)) == set_to(
                flagged_tokens(*old(self)),
                (*account, id@),
                status,
            ),
    {
        let id = alloy_primitives::U256::from_limbs(id.limbs);
        self.slots.setter(account.bytes.into()).setter(id).set(status)
    }
}

impl TokenAmounts {
    /// `StorageMap::get` on a map of maps of integers: the amount for the pair of `account`
    /// and `id`.
    #[verifier::external_body]
    pub(crate) fn get(&self, account: &Account, id: &U256) -> (r: U256)
        ensures
            r@ == amount_at(token_amounts(*self), (*account, id@)),
    {
        let id = alloy_primitives::U256::from_limbs(id.limbs);
        U256 { limbs: self.slots.get(account.bytes.into()).get(id).into_limbs() }
    }

    /// `StorageMap::setter` and `StorageU256::set`: overwrites the amount for the pair of
    /// `account` and `id`, and no other.
    #[verifier::external_body]
    pub(crate) fn set(&mut self, account: &Account, id: &U256, amount: &U256)
        ensures
            token_amounts(*final(self)) == token_amounts(*old(self)).insert(
                (*account, id@),
                amount@,
            ),
    {
        let id = alloy_primitives::U256::from_limbs(id.limbs);
        let amount = alloy_primitives::U256::from_limbs(amount.limbs);
        self.slots.setter(account.bytes.into()).setter(id).set(amount)
    }
}

} // verus!
