//! The events of the three tokens and of their base contracts, as entries of the event log.
//!
//! An event is logged under the Keccak digest of its signature. Its indexed fields follow
//! as further topics; the other fields are the data.

use vstd::prelude::*;
use vstd::string::*;

use stylus_sdk::host::WasmVM;

use crate::account::Account;
use crate::host::{call_sender, keccak256, keccak256_digest, logged, raw_log, LogEntry};
use crate::uint::U256;
use crate::word::{account_to_word, account_word, bool_to_word, bool_word, uint_to_word, uint_word};

verus! {

/// The entry of an event with the given signature, indexed fields and other fields.
pub open spec fn event(signature: &str, indexed: Seq<Seq<u8>>, data: Seq<u8>) -> LogEntry {
    LogEntry { topics: seq![keccak256_digest(signature.spec_bytes())] + indexed, data }
}

/// `account` was put on the send-allowlist, or taken off it.
pub open spec fn send_whitelisted(account: Account, status: bool) -> LogEntry {
    event("SendWhitelisted(address,bool)", seq![account_word(account)], bool_word(status))
}

/// `account` was put on the receive-allowlist, or taken off it.
pub open spec fn receive_whitelisted(account: Account, status: bool) -> LogEntry {
    event("ReceiveWhitelisted(address,bool)", seq![account_word(account)], bool_word(status))
}

/// `amount` of the tokens of `account` are frozen from now on.
pub open spec fn frozen_amount(account: Account, amount: nat) -> LogEntry {
    event("Frozen(address,uint256)", seq![account_word(account)], uint_word(amount))
}

/// `amount` was seized from `from` and moved to `to`.
pub open spec fn forced_amount(from: Account, to: Account, amount: nat) -> LogEntry {
    event(
        "ForcedTransfer(address,address,uint256)",
        seq![account_word(from), account_word(to)],
        uint_word(amount),
    )
}

/// The token `id` is frozen for `account` from now on, or no longer.
pub open spec fn frozen_token(account: Account, id: nat, status: bool) -> LogEntry {
    event(
        "Frozen(address,uint256,bool)",
        seq![account_word(account), uint_word(id)],
        bool_word(status),
    )
}

/// The token `id` was seized from `from` and moved to `to`.
pub open spec fn forced_token(from: Account, to: Account, id: nat) -> LogEntry {
    event(
        "ForcedTransfer(address,address,uint256)",
        seq![account_word(from), account_word(to), uint_word(id)],
        Seq::empty(),
    )
}

/// `amount` of the tokens `id` of `account` are frozen from now on.
pub open spec fn frozen_token_amount(account: Account, id: nat, amount: nat) -> LogEntry {
    event(
        "Frozen(address,uint256,uint256)",
        seq![account_word(account), uint_word(id)],
        uint_word(amount),
    )
}

/// `amount` of the tokens `id` was seized from `from` and moved to `to`.
pub open spec fn forced_token_amount(
    from: Account,
    to: Account,
    id: nat,
    amount: nat,
) -> LogEntry {
    event(
        "ForcedTransfer(address,address,uint256,uint256)",
        seq![account_word(from), account_word(to), uint_word(id)],
        uint_word(amount),
    )
}

/// `role` was granted to `account` by `sender`.
pub open spec fn role_granted(role: [u8; 32], account: Account, sender: Account) -> LogEntry {
    event(
        "RoleGranted(bytes32,address,address)",
        seq![role@, account_word(account), account_word(sender)],
        Seq::empty(),
    )
}

/// `role` was taken from `account` by `sender`.
pub open spec fn role_revoked(role: [u8; 32], account: Account, sender: Account) -> LogEntry {
    event(
        "RoleRevoked(bytes32,address,address)",
        seq![role@, account_word(account), account_word(sender)],
        Seq::empty(),
    )
}

/// `amount` went from `from` to `to`; from the zero account is into existence, and to it is
/// out of existence.
pub open spec fn moved_amount(from: Account, to: Account, amount: nat) -> LogEntry {
    event(
        "Transfer(address,address,uint256)",
        seq![account_word(from), account_word(to)],
        uint_word(amount),
    )
}

/// `owner` allowed `spender` to spend `amount`.
pub open spec fn approved_amount(owner: Account, spender: Account, amount: nat) -> LogEntry {
    event(
        "Approval(address,address,uint256)",
        seq![account_word(owner), account_word(spender)],
        uint_word(amount),
    )
}

/// The token `id` went from `from` to `to`.
pub open spec fn moved_token(from: Account, to: Account, id: nat) -> LogEntry {
    event(
        "Transfer(address,address,uint256)",
        seq![account_word(from), account_word(to), uint_word(id)],
        Seq::empty(),
    )
}

/// `approved` was approved for the token `id` of `owner`.
pub open spec fn approved_token(owner: Account, approved: Account, id: nat) -> LogEntry {
    event(
        "Approval(address,address,uint256)",
        seq![account_word(owner), account_word(approved), uint_word(id)],
        Seq::empty(),
    )
}

/// `owner` made `operator` an operator for all its tokens, or not.
pub open spec fn approved_for_all(owner: Account, operator: Account, approved: bool) -> LogEntry {
    event(
        "ApprovalForAll(address,address,bool)",
        seq![account_word(owner), account_word(operator)],
        bool_word(approved),
    )
}

/// `operator` moved `value` of the token `id` from `from` to `to`.
pub open spec fn moved_token_amount(
    operator: Account,
    from: Account,
    to: Account,
    id: nat,
    value: nat,
) -> LogEntry {
    event(
        "TransferSingle(address,address,address,uint256,uint256)",
        seq![account_word(operator), account_word(from), account_word(to)],
        uint_word(id) + uint_word(value),
    )
}

/// A list of integers as event data: how many there are, then each as a word.
pub open spec fn list_data(values: Seq<nat>) -> Seq<u8> {
    uint_word(values.len()) + values.map_values(|n: nat| uint_word(n)).flatten()
}

/// `operator` moved `values` of the tokens `ids` from `from` to `to`. The data are where the
/// two lists begin, then the two lists.
pub open spec fn moved_token_amounts(
    operator: Account,
    from: Account,
    to: Account,
    ids: Seq<nat>,
    values: Seq<nat>,
) -> LogEntry {
    event(
        "TransferBatch(address,address,address,uint256[],uint256[])",
        seq![account_word(operator), account_word(from), account_word(to)],
        uint_word(64) + uint_word(96 + 32 * ids.len()) + list_data(ids) + list_data(values),
    )
}

/// Whether `after` is `before` with one more entry in its log.
pub open spec fn logs(before: WasmVM, after: WasmVM, entry: LogEntry) -> bool {
    &&& call_sender(after) == call_sender(before)
    &&& logged(after) == logged(before).push(entry)
}

/// Logs an event with one to three indexed fields.
fn emit(host: &mut WasmVM, signature: &str, indexed: &Vec<[u8; 32]>, data: &Vec<u8>)
    requires
        indexed@.len() <= 3,
    ensures
        logs(
            *old(host),
            *final(host),
            event(signature, indexed@.map_values(|t: [u8; 32]| t@), data@),
        ),
{
    let mut topics: Vec<[u8; 32]> = Vec::new();
    topics.push(keccak256(signature.as_bytes()));
    let mut i: usize = 0;
    while i < indexed.len()
        invariant
            i <= indexed.len(),
            topics.len() == i + 1,
            topics[0]@ == keccak256_digest(signature.spec_bytes()),
            forall|j: int| 0 <= j < i ==> topics[j + 1] == indexed[j],
        decreases indexed.len() - i,
    {
        topics.push(indexed[i]);
        i += 1;
    }
    proof {
        let entry = event(signature, indexed@.map_values(|t: [u8; 32]| t@), data@);
        assert(topics@.map_values(|t: [u8; 32]| t@) =~= entry.topics);
    }
    raw_log(host, &topics, data);
}

/// The bytes of a word, as event data.
fn data_of(w: [u8; 32]) -> (r: Vec<u8>)
    ensures
        r@ == w@,
{
    let mut r: Vec<u8> = Vec::new();
    let mut i: usize = 0;
    while i < 32
        invariant
            i <= 32,
            r.len() == i,
            forall|j: int| 0 <= j < i ==> r[j] == w[j],
        decreases 32 - i,
    {
        r.push(w[i]);
        i += 1;
    }
    assert(r@ =~= w@);
    r
}

/// Logs [`send_whitelisted`].
pub(crate) fn log_send_whitelisted(host: &mut WasmVM, account: &Account, status: bool)
    ensures
        logs(*old(host), *final(host), send_whitelisted(*account, status)),
{
    let indexed = vec![account_to_word(account)];
    assert(indexed@.map_values(|t: [u8; 32]| t@) =~= seq![account_word(*account)]);
    emit(host, "SendWhitelisted(address,bool)", &indexed, &data_of(bool_to_word(status)));
}

/// Logs [`receive_whitelisted`].
pub(crate) fn log_receive_whitelisted(host: &mut WasmVM, account: &Account, status: bool)
    ensures
        logs(*old(host), *final(host), receive_whitelisted(*account, status)),
{
    let indexed = vec![account_to_word(account)];
    assert(indexed@.map_values(|t: [u8; 32]| t@) =~= seq![account_word(*account)]);
    emit(host, "ReceiveWhitelisted(address,bool)", &indexed, &data_of(bool_to_word(status)));
}

/// Logs [`frozen_amount`].
pub(crate) fn log_frozen_amount(host: &mut WasmVM, account: &Account, amount: &U256)
    ensures
        logs(*old(host), *final(host), frozen_amount(*account, amount@)),
{
    let indexed = vec![account_to_word(account)];
    assert(indexed@.map_values(|t: [u8; 32]| t@) =~= seq![account_word(*account)]);
    emit(host, "Frozen(address,uint256)", &indexed, &data_of(uint_to_word(amount)));
}

/// Logs [`forced_amount`].
pub(crate) fn log_forced_amount(host: &mut WasmVM, from: &Account, to: &Account, amount: &U256)
    ensures
        logs(*old(host), *final(host), forced_amount(*from, *to, amount@)),
{
    let indexed = vec![account_to_word(from), account_to_word(to)];
    assert(indexed@.map_values(|t: [u8; 32]| t@) =~= seq![account_word(*from), account_word(*to)]);
    emit(
        host,
        "ForcedTransfer(address,address,uint256)",
        &indexed,
        &data_of(uint_to_word(amount)),
    );
}

/// Logs [`frozen_token`].
pub(crate) fn log_frozen_token(host: &mut WasmVM, account: &Account, id: &U256, status: bool)
    ensures
        logs(*old(host), *final(host), frozen_token(*account, id@, status)),
{
    let indexed = vec![account_to_word(account), uint_to_word(id)];
    assert(indexed@.map_values(|t: [u8; 32]| t@) =~= seq![account_word(*account), uint_word(id@)]);
    emit(host, "Frozen(address,uint256,bool)", &indexed, &data_of(bool_to_word(status)));
}

/// Logs [`forced_token`].
pub(crate) fn log_forced_token(host: &mut WasmVM, from: &Account, to: &Account, id: &U256)
    ensures
        logs(*old(host), *final(host), forced_token(*from, *to, id@)),
{
    let indexed = vec![account_to_word(from), account_to_word(to), uint_to_word(id)];
    assert(indexed@.map_values(|t: [u8; 32]| t@) =~= seq![
        account_word(*from),
        account_word(*to),
        uint_word(id@),
    ]);
    let data: Vec<u8> = Vec::new();
    emit(host, "ForcedTransfer(address,address,uint256)", &indexed, &data);
}

/// Logs [`frozen_token_amount`].
pub(crate) fn log_frozen_token_amount(
    host: &mut WasmVM,
    account: &Account,
    id: &U256,
    amount: &U256,
)
    ensures
        logs(*old(host), *final(host), frozen_token_amount(*account, id@, amount@)),
{
    let indexed = vec![account_to_word(account), uint_to_word(id)];
    assert(indexed@.map_values(|t: [u8; 32]| t@) =~= seq![account_word(*account), uint_word(id@)]);
    emit(host, "Frozen(address,uint256,uint256)", &indexed, &data_of(uint_to_word(amount)));
}

/// Logs [`forced_token_amount`].
pub(crate) fn log_forced_token_amount(
    host: &mut WasmVM,
    from: &Account,
    to: &Account,
    id: &U256,
    amount: &U256,
)
    ensures
        logs(*old(host), *final(host), forced_token_amount(*from, *to, id@, amount@)),
{
    let indexed = vec![account_to_word(from), account_to_word(to), uint_to_word(id)];
    assert(indexed@.map_values(|t: [u8; 32]| t@) =~= seq![
        account_word(*from),
        account_word(*to),
        uint_word(id@),
    ]);
    emit(
        host,
        "ForcedTransfer(address,address,uint256,uint256)",
        &indexed,
        &data_of(uint_to_word(amount)),
    );
}

} // verus!
