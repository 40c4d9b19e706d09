//! What a contract call has from its host: who called, the event log, and Keccak digests.

use vstd::prelude::*;

use stylus_sdk::host::WasmVM;
use stylus_sdk::prelude::{LogAccess, MessageAccess};

use crate::account::Account;

verus! {

/// The handle through which a running contract call reaches its host.
#[verifier::external_type_specification]
#[verifier::external_body]
pub struct ExWasmVM(WasmVM);

/// One entry of the event log.
#[verifier::ext_equal]
pub struct LogEntry {
    /// The topics, each a word; the first is the digest of the event's signature.
    pub topics: Seq<Seq<u8>>,
    /// The data.
    pub data: Seq<u8>,
}

/// The account that made the call in which `host` is in use.
pub uninterp spec fn call_sender(host: WasmVM) -> Account;

/// The entries that the running contract has logged with `host`, the oldest first.
pub uninterp spec fn logged(host: WasmVM) -> Seq<LogEntry>;

/// The Keccak-256 digest of `input`.
pub uninterp spec fn keccak256_digest(input: Seq<u8>) -> Seq<u8>;

/// `WasmVM::msg_sender` (`stylus_sdk::msg::sender`): the account that made the call. It is
/// the same account for as long as the call runs.
#[verifier::external_body]
pub(crate) fn msg_sender(host: &WasmVM) -> (r: Account)
    ensures
        r == call_sender(*host),
{
    Account { bytes: host.msg_sender().0 .0 }
}

/// `WasmVM::raw_log` (`stylus_sdk::evm::raw_log`): adds one entry to the event log. It
/// refuses more than four topics, and does nothing else.
#[verifier::external_body]
pub(crate) fn raw_log(host: &mut WasmVM, topics: &Vec<[u8; 32]>, data: &Vec<u8>)
    requires
        topics@.len() <= 4,
    ensures
        call_sender(*final(host)) == call_sender(*old(host)),
        logged(*final(host)) == logged(*old(host)).push(
            LogEntry { topics: topics@.map_values(|t: [u8; 32]| t@), data: data@ },
        ),
{
    let topics: Vec<_> = topics.iter().map(|t| alloy_primitives::B256::from(*t)).collect();
    let _ = host.raw_log(&topics, data);
}

/// `keccak_const::Keccak256`: the digest of `input`, a function of its bytes alone.
#[verifier::external_body]
pub(crate) fn keccak256(input: &[u8]) -> (r: [u8; 32])
    ensures
        r@ == keccak256_digest(input@),
{
    keccak_const::Keccak256::new().update(input).finalize()
}

} // verus!
