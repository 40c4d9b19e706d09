//! What holds of what the three tokens share: accounts, integers, stored amounts and lists,
//! batches, roles, and the entries of the event log.

use vstd::prelude::*;
use vstd::string::*;

use crate::access::{
    admin_of, burner, default_admin, forcer, freezer, is_access_interface, log_every_role,
    log_grant, minter, role_check, whitelister, AccessError,
};
use crate::account::Account;
use crate::batch::{lemma_requested_all, lemma_requested_push, requested};
use crate::erc1155::{is_erc1155_interface, values_of};
use crate::erc20::{is_erc20_interface, is_metadata_interface};
use crate::erc721::is_erc721_interface;
use crate::events::{
    approved_amount, approved_for_all, approved_token, forced_amount, forced_token,
    forced_token_amount, frozen_amount, frozen_token, frozen_token_amount, list_data, moved_amount,
    moved_token, moved_token_amount, moved_token_amounts, receive_whitelisted, role_granted,
    role_revoked, send_whitelisted,
};
use crate::host::{keccak256_digest, LogEntry};
use crate::storage::{amount_at, set_to};
use crate::uint::{modulus, u256, wrap, U256};
use crate::word::{
    account_word, big_endian, bool_word, lemma_big_endian_len, lemma_word, uint_word, word,
};

verus! {

/// All bytes of the zero account are zero, and of no other account.
pub proof fn law_zero_account(account: Account)
    ensures
        account == Account::zero_account() <==> forall|i: int|
            0 <= i < 20 ==> #[trigger] account.bytes[i] == 0,
{
    let zero = Account::zero_account();
    assert(forall|i: int| 0 <= i < 20 ==> #[trigger] zero.bytes[i] == 0);
    if forall|i: int| 0 <= i < 20 ==> #[trigger] account.bytes[i] == 0 {
        assert(account.bytes =~= zero.bytes);
    }
}

/// Every number below 2^256 is the value of an integer, and the value of an integer is such a
/// number.
pub proof fn law_integers(n: nat, x: U256)
    ensures
        n < modulus() ==> u256(n)@ == n,
        x@ < modulus(),
        modulus() == 0x100000000 * 0x100000000 * 0x100000000 * 0x100000000 * 0x100000000
            * 0x100000000 * 0x100000000 * 0x100000000,
{
    if n < modulus() {
        let base: nat = 0x1_0000000000000000;
        let l0 = n % base;
        let l1 = (n / base) % base;
        let l2 = (n / base / base) % base;
        let l3 = n / base / base / base;
        assert(l3 < base);
        let y = U256 { limbs: [l0 as u64, l1 as u64, l2 as u64, l3 as u64] };
        assert(y@ == n);
    }
}

/// What is left of a number in 256 bits is the number below 2^256 that differs from it by a
/// multiple of 2^256.
pub proof fn law_wrap(n: int, k: int)
    ensures
        0 <= n < modulus() ==> wrap(n) == n,
        0 <= n < modulus() ==> wrap(n + k * modulus()) == n,
{
    if 0 <= n < modulus() {
        vstd::arithmetic::div_mod::lemma_mod_multiples_vanish(k, n, modulus() as int);
        vstd::arithmetic::mul::lemma_mul_is_commutative(k, modulus() as int);
        vstd::arithmetic::div_mod::lemma_small_mod(n as nat, modulus());
    }
}

/// An amount that was stored is what is read, and zero is read where none was.
pub proof fn law_stored_amounts<K>(amounts: Map<K, nat>, key: K, other: K, amount: nat)
    ensures
        amount_at(amounts.insert(key, amount), key) == amount,
        key != other ==> amount_at(amounts.insert(key, amount), other) == amount_at(amounts, other),
        amount_at(Map::<K, nat>::empty(), key) == 0,
        amounts.dom().contains(key) ==> amount_at(amounts, key) == amounts[key],
        !amounts.dom().contains(key) ==> amount_at(amounts, key) == 0,
{
}

/// What was put on a list is on it, what was taken off is not, and nothing else changes.
pub proof fn law_stored_lists<T>(set: Set<T>, element: T, other: T, status: bool)
    ensures
        set_to(set, element, status).contains(element) <==> status,
        element != other ==> (set_to(set, element, status).contains(other) <==> set.contains(
            other,
        )),
{
}

/// A batch asks for nothing at first, and each element adds its amount to what is asked for of
/// its id, wherever it stands. Where one list is longer, its rest does not count.
pub proof fn law_requested(ids: Seq<nat>, values: Seq<nat>, id: nat, value: nat, other: nat)
    ensures
        requested(Seq::empty(), values, other) == 0,
        requested(ids, Seq::empty(), other) == 0,
        ids.len() == values.len() ==> requested(ids.push(id), values.push(value), other)
            == requested(ids, values, other) + (if id == other {
            value
        } else {
            0
        }),
        ids.len() <= values.len() ==> requested(ids, values, other) == requested(
            ids,
            values.take(ids.len() as int),
            other,
        ),
        ids.len() >= values.len() ==> requested(ids, values, other) == requested(
            ids.take(values.len() as int),
            values,
            other,
        ),
{
    if ids.len() == values.len() {
        let (more_ids, more_values) = (ids.push(id), values.push(value));
        let k = ids.len() as int;
        lemma_requested_push(more_ids, more_values, k, other);
        assert(more_ids.take(k) =~= ids && more_values.take(k) =~= values);
        assert(more_ids.take(k + 1) =~= more_ids && more_values.take(k + 1) =~= more_values);
    }
    if ids.len() <= values.len() {
        lemma_requested_all(ids, values, ids.len() as int, other);
        assert(ids.take(ids.len() as int) =~= ids);
    }
    if ids.len() >= values.len() {
        lemma_requested_all(ids, values, values.len() as int, other);
        assert(values.take(values.len() as int) =~= values);
    }
}

/// The integers of a list stand for their values, in order.
pub proof fn law_values(words: Seq<U256>, i: int)
    ensures
        values_of(words).len() == words.len(),
        0 <= i < words.len() ==> values_of(words)[i] == words[i]@,
{
}

/// The default admin role is 32 zero bytes, and every other role is the digest of its name.
pub proof fn law_role_names()
    ensures
        default_admin() == word(Seq::new(32, |i: int| 0u8)),
        minter() == word(keccak256_digest("MINTER_ROLE".spec_bytes())),
        burner() == word(keccak256_digest("BURNER_ROLE".spec_bytes())),
        freezer() == word(keccak256_digest("FREEZING_ROLE".spec_bytes())),
        whitelister() == word(keccak256_digest("WHITELIST_ROLE".spec_bytes())),
        forcer() == word(keccak256_digest("FORCE_TRANSFER_ROLE".spec_bytes())),
{
}

/// A word is the word of its bytes.
pub proof fn law_words_hold_their_bytes(w: [u8; 32])
    ensures
        word(w@) == w,
{
    lemma_word(w);
}

/// A caller passes if and only if it holds the role, and is told the role otherwise; the admin
/// of a role is the one that was set for it, or else the default one.
pub proof fn law_roles(
    members: Set<([u8; 32], Account)>,
    admins: Map<[u8; 32], [u8; 32]>,
    role: [u8; 32],
    caller: Account,
)
    ensures
        members.contains((role, caller)) ==> role_check(members, role, caller) == Ok::<
            (),
            AccessError,
        >(()),
        !members.contains((role, caller)) ==> role_check(members, role, caller) == Err::<
            (),
            AccessError,
        >(AccessError::UnauthorizedAccount { account: caller, needed_role: role }),
        admins.dom().contains(role) ==> admin_of(admins, role) == admins[role],
        !admins.dom().contains(role) ==> admin_of(admins, role) == default_admin(),
{
}

/// Granting every role grants six, the default admin role first, and logs each that was not
/// held, in this order.
pub proof fn law_every_role_is_granted(
    log: Seq<LogEntry>,
    members: Set<([u8; 32], Account)>,
    account: Account,
    sender: Account,
)
    requires
        default_admin() != minter(),
        default_admin() != burner(),
        default_admin() != freezer(),
        default_admin() != whitelister(),
        default_admin() != forcer(),
        minter() != burner(),
        minter() != freezer(),
        minter() != whitelister(),
        minter() != forcer(),
        burner() != freezer(),
        burner() != whitelister(),
        burner() != forcer(),
        freezer() != whitelister(),
        freezer() != forcer(),
        whitelister() != forcer(),
    ensures
        ({
            let said = |role: [u8; 32]|
                if members.contains((role, account)) {
                    Seq::<LogEntry>::empty()
                } else {
                    seq![role_granted(role, account, sender)]
                };
            log_every_role(log, members, account, sender) == log + said(default_admin()) + said(
                minter(),
            ) + said(burner()) + said(freezer()) + said(whitelister()) + said(forcer())
        }),
{
    let said = |role: [u8; 32]|
        if members.contains((role, account)) {
            Seq::<LogEntry>::empty()
        } else {
            seq![role_granted(role, account, sender)]
        };
    let log1 = log + said(default_admin());
    let log2 = log1 + said(minter());
    let log3 = log2 + said(burner());
    let log4 = log3 + said(freezer());
    let log5 = log4 + said(whitelister());
    let log6 = log5 + said(forcer());
    assert(log_grant(log, members, default_admin(), account, sender) =~= log1);
    assert(log_grant(log1, members, minter(), account, sender) =~= log2);
    assert(log_grant(log2, members, burner(), account, sender) =~= log3);
    assert(log_grant(log3, members, freezer(), account, sender) =~= log4);
    assert(log_grant(log4, members, whitelister(), account, sender) =~= log5);
    assert(log_grant(log5, members, forcer(), account, sender) =~= log6);
}

/// The number that `bytes` stand for, the highest digit first.
pub open spec fn number_of(bytes: Seq<u8>) -> nat
    decreases bytes.len(),
{
    if bytes.len() == 0 {
        0
    } else {
        number_of(bytes.drop_last()) * 256 + bytes.last() as nat
    }
}

/// How many numbers `len` bytes can stand for.
spec fn capacity(len: nat) -> nat
    decreases len,
{
    if len == 0 {
        1
    } else {
        capacity((len - 1) as nat) * 256
    }
}

/// Digits stand for what is left of their number.
proof fn lemma_digits(n: nat, len: nat)
    requires
        n < capacity(len),
    ensures
        number_of(big_endian(n, len)) == n,
    decreases len,
{
    if len > 0 {
        let high = big_endian(n / 256, (len - 1) as nat);
        lemma_digits(n / 256, (len - 1) as nat);
        assert(big_endian(n, len).drop_last() =~= high);
        assert(big_endian(n, len).last() == (n % 256) as u8);
    }
}

/// A word is 32 bytes: an account is twelve zero bytes and its address, an integer is its digits
/// in base 256, the highest first, and a flag is one or zero.
pub proof fn law_words(account: Account, n: nat, flag: bool)
    ensures
        account_word(account).len() == 32,
        forall|i: int| 0 <= i < 12 ==> #[trigger] account_word(account)[i] == 0,
        forall|i: int| 0 <= i < 20 ==> account_word(account)[12 + i] == #[trigger] account.bytes[i],
        uint_word(n).len() == 32,
        n < modulus() ==> number_of(uint_word(n)) == n,
        bool_word(flag).len() == 32,
        number_of(bool_word(flag)) == (if flag {
            1nat
        } else {
            0nat
        }),
{
    lemma_big_endian_len(n, 32);
    lemma_big_endian_len(if flag { 1 } else { 0 }, 32);
    reveal_with_fuel(capacity, 33);
    assert(capacity(32) == modulus());
    if n < modulus() {
        lemma_digits(n, 32);
    }
    lemma_digits(if flag { 1 } else { 0 }, 32);
}

/// What the entries of the tokens' own events hold: the digest of the signature, the indexed
/// fields in order, and the other field.
pub proof fn law_own_events(from: Account, to: Account, id: nat, amount: nat, status: bool)
    ensures
        send_whitelisted(to, status) == (LogEntry {
            topics: seq![
                keccak256_digest("SendWhitelisted(address,bool)".spec_bytes()),
                account_word(to),
            ],
            data: bool_word(status),
        }),
        receive_whitelisted(to, status) == (LogEntry {
            topics: seq![
                keccak256_digest("ReceiveWhitelisted(address,bool)".spec_bytes()),
                account_word(to),
            ],
            data: bool_word(status),
        }),
        frozen_amount(to, amount) == (LogEntry {
            topics: seq![
                keccak256_digest("Frozen(address,uint256)".spec_bytes()),
                account_word(to),
            ],
            data: uint_word(amount),
        }),
        frozen_token(to, id, status) == (LogEntry {
            topics: seq![
                keccak256_digest("Frozen(address,uint256,bool)".spec_bytes()),
                account_word(to),
                uint_word(id),
            ],
            data: bool_word(status),
        }),
        frozen_token_amount(to, id, amount) == (LogEntry {
            topics: seq![
                keccak256_digest("Frozen(address,uint256,uint256)".spec_bytes()),
                account_word(to),
                uint_word(id),
            ],
            data: uint_word(amount),
        }),
        forced_amount(from, to, amount) == (LogEntry {
            topics: seq![
                keccak256_digest("ForcedTransfer(address,address,uint256)".spec_bytes()),
                account_word(from),
                account_word(to),
            ],
            data: uint_word(amount),
        }),
        forced_token(from, to, id) == (LogEntry {
            topics: seq![
                keccak256_digest("ForcedTransfer(address,address,uint256)".spec_bytes()),
                account_word(from),
                account_word(to),
                uint_word(id),
            ],
            data: Seq::empty(),
        }),
        forced_token_amount(from, to, id, amount) == (LogEntry {
            topics: seq![
                keccak256_digest("ForcedTransfer(address,address,uint256,uint256)".spec_bytes()),
                account_word(from),
                account_word(to),
                uint_word(id),
            ],
            data: uint_word(amount),
        }),
{
}

/// The interfaces that the base contracts announce, by their identifiers; each announces
/// interface detection besides its own.
pub proof fn law_interfaces(id: Seq<u8>)
    ensures
        is_access_interface(id) <==> id == seq![0x0eu8, 0xdd, 0x8b, 0x6c] || id == seq![
            0x01u8,
            0xff,
            0xc9,
            0xa7,
        ],
        is_erc20_interface(id) <==> id == seq![0x36u8, 0x37, 0x2b, 0x07] || id == seq![
            0x01u8,
            0xff,
            0xc9,
            0xa7,
        ],
        is_metadata_interface(id) <==> id == seq![0xa2u8, 0x19, 0xa0, 0x25] || id == seq![
            0x01u8,
            0xff,
            0xc9,
            0xa7,
        ],
        is_erc721_interface(id) <==> id == seq![0x80u8, 0xac, 0x58, 0xcd] || id == seq![
            0x01u8,
            0xff,
            0xc9,
            0xa7,
        ],
        is_erc1155_interface(id) <==> id == seq![0xd9u8, 0xb6, 0x7a, 0x26] || id == seq![
            0x01u8,
            0xff,
            0xc9,
            0xa7,
        ],
{
}

/// What the entry of a batch holds: who moved it, between whom, and as data where the two lists
/// begin and the lists, each its length and then a word for each integer.
pub proof fn law_batch_events(
    operator: Account,
    from: Account,
    to: Account,
    ids: Seq<nat>,
    values: Seq<nat>,
    n: nat,
)
    ensures
        moved_token_amounts(operator, from, to, ids, values) == (LogEntry {
            topics: seq![
                keccak256_digest(
                    "TransferBatch(address,address,address,uint256[],uint256[])".spec_bytes(),
                ),
                account_word(operator),
                account_word(from),
                account_word(to),
            ],
            data: uint_word(64) + uint_word(96 + 32 * ids.len()) + list_data(ids) + list_data(
                values,
            ),
        }),
        list_data(Seq::empty()) == uint_word(0),
        list_data(values.push(n)).skip(32) == list_data(values).skip(32) + uint_word(n),
        list_data(values).take(32) == uint_word(values.len()),
{
    lemma_big_endian_len(values.len(), 32);
    lemma_big_endian_len(values.len() + 1, 32);
    let words = values.map_values(|m: nat| uint_word(m));
    let more = values.push(n).map_values(|m: nat| uint_word(m));
    assert(Seq::<nat>::empty().map_values(|m: nat| uint_word(m)).flatten() =~= Seq::<u8>::empty());
    assert(list_data(Seq::empty()) =~= uint_word(0));
    assert(more =~= words.push(uint_word(n)));
    lemma_flatten_push(words, uint_word(n));
    assert(list_data(values).take(32) =~= uint_word(values.len()));
    assert(list_data(values).skip(32) =~= words.flatten());
    assert(list_data(values.push(n)).skip(32) =~= more.flatten());
}

/// One more list at the end is appended.
proof fn lemma_flatten_push(lists: Seq<Seq<u8>>, list: Seq<u8>)
    ensures
        lists.push(list).flatten() == lists.flatten() + list,
    decreases lists.len(),
{
    if lists.len() == 0 {
        assert(lists.push(list).drop_first() =~= Seq::empty());
        assert(lists.push(list).drop_first().flatten() =~= Seq::<u8>::empty());
        assert(lists.push(list).flatten() =~= list);
        assert(lists.flatten() =~= Seq::<u8>::empty());
    } else {
        lemma_flatten_push(lists.drop_first(), list);
        assert(lists.push(list).drop_first() =~= lists.drop_first().push(list));
        assert(lists.push(list).flatten() =~= lists.flatten() + list);
    }
}

/// What the entries of the base contracts' events hold.
pub proof fn law_base_events(
    operator: Account,
    from: Account,
    to: Account,
    id: nat,
    amount: nat,
    status: bool,
    role: [u8; 32],
)
    ensures
        moved_amount(from, to, amount) == (LogEntry {
            topics: seq![
                keccak256_digest("Transfer(address,address,uint256)".spec_bytes()),
                account_word(from),
                account_word(to),
            ],
            data: uint_word(amount),
        }),
        approved_amount(from, to, amount) == (LogEntry {
            topics: seq![
                keccak256_digest("Approval(address,address,uint256)".spec_bytes()),
                account_word(from),
                account_word(to),
            ],
            data: uint_word(amount),
        }),
        moved_token(from, to, id) == (LogEntry {
            topics: seq![
                keccak256_digest("Transfer(address,address,uint256)".spec_bytes()),
                account_word(from),
                account_word(to),
                uint_word(id),
            ],
            data: Seq::empty(),
        }),
        approved_token(from, to, id) == (LogEntry {
            topics: seq![
                keccak256_digest("Approval(address,address,uint256)".spec_bytes()),
                account_word(from),
                account_word(to),
                uint_word(id),
            ],
            data: Seq::empty(),
        }),
        approved_for_all(from, to, status) == (LogEntry {
            topics: seq![
                keccak256_digest("ApprovalForAll(address,address,bool)".spec_bytes()),
                account_word(from),
                account_word(to),
            ],
            data: bool_word(status),
        }),
        moved_token_amount(operator, from, to, id, amount) == (LogEntry {
            topics: seq![
                keccak256_digest(
                    "TransferSingle(address,address,address,uint256,uint256)".spec_bytes(),
                ),
                account_word(operator),
                account_word(from),
                account_word(to),
            ],
            data: uint_word(id) + uint_word(amount),
        }),
        role_granted(role, to, operator) == (LogEntry {
            topics: seq![
                keccak256_digest("RoleGranted(bytes32,address,address)".spec_bytes()),
                role@,
                account_word(to),
                account_word(operator),
            ],
            data: Seq::empty(),
        }),
        role_revoked(role, to, operator) == (LogEntry {
            topics: seq![
                keccak256_digest("RoleRevoked(bytes32,address,address)".spec_bytes()),
                role@,
                account_word(to),
                account_word(operator),
            ],
            data: Seq::empty(),
        }),
{
}

} // verus!
