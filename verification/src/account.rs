//! Accounts of the chain, named by their 20-byte addresses.

use vstd::prelude::*;

verus! {

/// The address of an account.
#[derive(Clone, Copy, Debug, Eq)]
pub struct Account {
    pub bytes: [u8; 20],
}

impl Account {
    /// The account whose address bytes are all zero. Tokens come from it when they are
    /// minted and go to it when they are burned; nobody acts on its behalf.
    pub open spec fn zero_account() -> Account {
        Account {
            bytes: [
                0u8, 0u8, 0u8, 0u8, 0u8, 0u8, 0u8, 0u8, 0u8, 0u8,
                0u8, 0u8, 0u8, 0u8, 0u8, 0u8, 0u8, 0u8, 0u8, 0u8,
            ],
        }
    }

    /// The zero account.
    pub fn zero() -> (r: Account)
        ensures
            r == Account::zero_account(),
    {
        let r = Account { bytes: [0u8; 20] };
        assert(r.bytes =~= Account::zero_account().bytes);
        r
    }

    /// Whether this is the zero account.
    pub fn is_zero(&self) -> (r: bool)
        ensures
            r == (*self == Account::zero_account()),
    {
        let mut i: usize = 0;
        while i < 20
            invariant
                i <= 20,
                forall|j: int| 0 <= j < i ==> self.bytes[j] == 0,
            decreases 20 - i,
        {
            if self.bytes[i] != 0 {
                assert(Account::zero_account().bytes[i as int] == 0);
                return false;
            }
            i += 1;
        }
        assert(self.bytes =~= Account::zero_account().bytes);
        true
    }
}

impl PartialEq for Account {
    fn eq(&self, other: &Account) -> (r: bool) {
        let mut i: usize = 0;
        while i < 20
            invariant
                i <= 20,
                forall|j: int| 0 <= j < i ==> self.bytes[j] == other.bytes[j],
            decreases 20 - i,
        {
            if self.bytes[i] != other.bytes[i] {
                return false;
            }
            i += 1;
        }
        assert(self.bytes =~= other.bytes);
        true
    }
}

impl vstd::std_specs::cmp::PartialEqSpecImpl for Account {
    open spec fn obeys_eq_spec() -> bool {
        true
    }

    open spec fn eq_spec(&self, other: &Account) -> bool {
        *self == *other
    }
}

} // verus!
