//! Role-based access control: who may perform the privileged actions.

use vstd::prelude::*;
use vstd::string::*;

use openzeppelin_stylus::access::control::{self, AccessControl, IAccessControl};
use openzeppelin_stylus::utils::introspection::erc165::IErc165;
use stylus_sdk::host::WasmVM;

use crate::account::Account;
use crate::events::{role_granted, role_revoked};
use crate::host::{call_sender, keccak256, keccak256_digest, logged, LogEntry};
use crate::word::{lemma_word, word};

verus! {

/// The storage of the access control contract.
#[verifier::external_type_specification]
#[verifier::external_body]
pub struct ExAccessControl(AccessControl);

/// What the access control contract answers when it refuses.
#[verifier::external_type_specification]
#[verifier::external_body]
pub struct ExControlError(control::Error);

/// Why an access control request is refused.
#[derive(Clone, Copy, Debug)]
pub enum AccessError {
    /// `account` lacks the role `needed_role`.
    UnauthorizedAccount { account: Account, needed_role: [u8; 32] },
    /// The caller did not confirm with its own account.
    BadConfirmation,
}

/// The pairs of a role and an account that holds it.
pub uninterp spec fn role_members(access: AccessControl) -> Set<([u8; 32], Account)>;

/// The roles that have been given an admin role, with it.
pub uninterp spec fn role_admins(access: AccessControl) -> Map<[u8; 32], [u8; 32]>;

/// What the refusal `error` says.
pub uninterp spec fn access_error(error: control::Error) -> AccessError;

/// What `r` says, refusals spelled out.
pub open spec fn access_result(r: Result<(), control::Error>) -> Result<(), AccessError> {
    match r {
        Ok(()) => Ok(()),
        Err(error) => Err(access_error(error)),
    }
}

/// The role that administers every role that was given no other admin role.
pub open spec fn default_admin() -> [u8; 32] {
    word(Seq::new(32, |i: int| 0u8))
}

/// The role with the given name: the digest of the name.
pub open spec fn role_named(name: &str) -> [u8; 32] {
    word(keccak256_digest(name.spec_bytes()))
}

/// The role that may mint.
pub open spec fn minter() -> [u8; 32] {
    role_named("MINTER_ROLE")
}

/// The role that may burn.
pub open spec fn burner() -> [u8; 32] {
    role_named("BURNER_ROLE")
}

/// The role that may freeze tokens.
pub open spec fn freezer() -> [u8; 32] {
    role_named("FREEZING_ROLE")
}

/// The role that may change the allowlists.
pub open spec fn whitelister() -> [u8; 32] {
    role_named("WHITELIST_ROLE")
}

/// The role that may seize tokens.
pub open spec fn forcer() -> [u8; 32] {
    role_named("FORCE_TRANSFER_ROLE")
}

/// `AccessControl::DEFAULT_ADMIN_ROLE`, which is 32 zero bytes.
pub fn default_admin_role() -> (r: [u8; 32])
    ensures
        r == default_admin(),
{
    broadcast use lemma_word;

    let r: [u8; 32] = [0u8; 32];
    assert(r@ =~= Seq::new(32, |i: int| 0u8));
    r
}

/// The role that may mint.
pub fn minter_role() -> (r: [u8; 32])
    ensures
        r == minter(),
{
    broadcast use lemma_word;

    keccak256("MINTER_ROLE".as_bytes())
}

/// The role that may burn.
pub fn burner_role() -> (r: [u8; 32])
    ensures
        r == burner(),
{
    broadcast use lemma_word;

    keccak256("BURNER_ROLE".as_bytes())
}

/// The role that may freeze tokens.
pub fn freezing_role() -> (r: [u8; 32])
    ensures
        r == freezer(),
{
    broadcast use lemma_word;

    keccak256("FREEZING_ROLE".as_bytes())
}

/// The role that may change the allowlists.
pub fn whitelist_role() -> (r: [u8; 32])
    ensures
        r == whitelister(),
{
    broadcast use lemma_word;

    keccak256("WHITELIST_ROLE".as_bytes())
}

/// The role that may seize tokens.
pub fn force_transfer_role() -> (r: [u8; 32])
    ensures
        r == forcer(),
{
    broadcast use lemma_word;

    keccak256("FORCE_TRANSFER_ROLE".as_bytes())
}

/// The admin role of `role`, where `admins` are the admin roles that have been given.
pub open spec fn admin_of(admins: Map<[u8; 32], [u8; 32]>, role: [u8; 32]) -> [u8; 32] {
    if admins.dom().contains(role) {
        admins[role]
    } else {
        default_admin()
    }
}

/// What a caller gets who needs `role`, where `members` are the holders of roles.
pub open spec fn role_check(
    members: Set<([u8; 32], Account)>,
    role: [u8; 32],
    caller: Account,
) -> Result<(), AccessError> {
    if members.contains((role, caller)) {
        Ok(())
    } else {
        Err(AccessError::UnauthorizedAccount { account: caller, needed_role: role })
    }
}

/// `members` with every role granted to `account`.
pub open spec fn with_every_role(
    members: Set<([u8; 32], Account)>,
    account: Account,
) -> Set<([u8; 32], Account)> {
    members.insert((default_admin(), account)).insert((minter(), account)).insert(
        (burner(), account),
    ).insert((freezer(), account)).insert((whitelister(), account)).insert((forcer(), account))
}

/// `log` after `sender` granted `role` to `account`: a grant of what is held is not logged.
pub open spec fn log_grant(
    log: Seq<LogEntry>,
    members: Set<([u8; 32], Account)>,
    role: [u8; 32],
    account: Account,
    sender: Account,
) -> Seq<LogEntry> {
    if members.contains((role, account)) {
        log
    } else {
        log.push(role_granted(role, account, sender))
    }
}

/// `log` after `sender` took `role` from `account`: taking what is not held is not logged.
pub open spec fn log_revoke(
    log: Seq<LogEntry>,
    members: Set<([u8; 32], Account)>,
    role: [u8; 32],
    account: Account,
    sender: Account,
) -> Seq<LogEntry> {
    if members.contains((role, account)) {
        log.push(role_revoked(role, account, sender))
    } else {
        log
    }
}

/// `log` after `sender` granted every role to `account`.
pub open spec fn log_every_role(
    log: Seq<LogEntry>,
    members: Set<([u8; 32], Account)>,
    account: Account,
    sender: Account,
) -> Seq<LogEntry> {
    let log1 = log_grant(log, members, default_admin(), account, sender);
    let members1 = members.insert((default_admin(), account));
    let log2 = log_grant(log1, members1, minter(), account, sender);
    let members2 = members1.insert((minter(), account));
    let log3 = log_grant(log2, members2, burner(), account, sender);
    let members3 = members2.insert((burner(), account));
    let log4 = log_grant(log3, members3, freezer(), account, sender);
    let members4 = members3.insert((freezer(), account));
    let log5 = log_grant(log4, members4, whitelister(), account, sender);
    let members5 = members4.insert((whitelister(), account));
    log_grant(log5, members5, forcer(), account, sender)
}

/// `<AccessControl as IAccessControl>::has_role`: whether `account` holds `role`.
#[verifier::external_body]
pub(crate) fn has_role(access: &AccessControl, role: &[u8; 32], account: &Account) -> (r: bool)
    ensures
        r == role_members(*access).contains((*role, *account)),
{
    access.has_role((*role).into(), account.bytes.into())
}

/// `<AccessControl as IAccessControl>::only_role`: refuses unless the account that made the
/// call, which it asks the host for, holds `role`. The refusal names the account and the role.
#[verifier::external_body]
pub(crate) fn only_role(access: &AccessControl, host: &WasmVM, role: &[u8; 32]) -> (r: Result<
    (),
    control::Error,
>)
    ensures
        access_result(r) == role_check(role_members(*access), *role, call_sender(*host)),
{
    access.only_role((*role).into())
}

/// Reads a refusal of the access control contract.
#[verifier::external_body]
pub(crate) fn read_access_error(error: control::Error) -> (r: AccessError)
    ensures
        r == access_error(error),
{
    match error {
        control::Error::UnauthorizedAccount(e) => AccessError::UnauthorizedAccount {
            account: Account { bytes: e.account.0 .0 },
            needed_role: e.needed_role.0,
        },
        control::Error::BadConfirmation(_) => AccessError::BadConfirmation,
    }
}

/// `<AccessControl as IAccessControl>::get_role_admin`: the admin role of `role`, which is
/// 32 zero bytes where none was set.
#[verifier::external_body]
pub(crate) fn get_role_admin(access: &AccessControl, role: &[u8; 32]) -> (r: [u8; 32])
    ensures
        r == admin_of(role_admins(*access), *role),
{
    access.get_role_admin((*role).into()).0
}

/// `AccessControl::_grant_role`: makes `account` a holder of `role`, and says whether it was
/// none before; if so, that is logged with the account that made the call, which it asks the
/// host for. No other holder and no admin role changes.
#[verifier::external_body]
pub(crate) fn grant_role(
    access: &mut AccessControl,
    host: &mut WasmVM,
    role: &[u8; 32],
    account: &Account,
) -> (r: bool)
    ensures
        r == !role_members(*old(access)).contains((*role, *account)),
        role_members(*final(access)) == role_members(*old(access)).insert((*role, *account)),
        role_admins(*final(access)) == role_admins(*old(access)),
        call_sender(*final(host)) == call_sender(*old(host)),
        logged(*final(host)) == log_grant(
            logged(*old(host)),
            role_members(*old(access)),
            *role,
            *account,
            call_sender(*old(host)),
        ),
{
    access._grant_role((*role).into(), account.bytes.into())
}

/// `AccessControl::_revoke_role`: takes `role` from `account`, and says whether `account` held
/// it before; if so, that is logged with the account that made the call, which it asks the
/// host for. No other holder and no admin role changes.
#[verifier::external_body]
pub(crate) fn revoke_role(
    access: &mut AccessControl,
    host: &mut WasmVM,
    role: &[u8; 32],
    account: &Account,
) -> (r: bool)
    ensures
        r == role_members(*old(access)).contains((*role, *account)),
        role_members(*final(access)) == role_members(*old(access)).remove((*role, *account)),
        role_admins(*final(access)) == role_admins(*old(access)),
        call_sender(*final(host)) == call_sender(*old(host)),
        logged(*final(host)) == log_revoke(
            logged(*old(host)),
            role_members(*old(access)),
            *role,
            *account,
            call_sender(*old(host)),
        ),
{
    access._revoke_role((*role).into(), account.bytes.into())
}

/// Whether `id` is the identifier of the access control interface or of interface detection.
pub open spec fn is_access_interface(id: Seq<u8>) -> bool {
    id == seq![0x0eu8, 0xdd, 0x8b, 0x6c] || id == seq![0x01u8, 0xff, 0xc9, 0xa7]
}

/// `<AccessControl as IErc165>::supports_interface`: the access control interface (of which
/// `onlyRole` is a part here, so that its identifier is not the usual one) and
/// interface detection itself.
#[verifier::external_body]
pub(crate) fn supports_interface(access: &AccessControl, id: [u8; 4]) -> (r: bool)
    ensures
        r == is_access_interface(id@),
{
    access.supports_interface(id.into())
}

/// Grants every role to `account`.
pub(crate) fn grant_every_role(access: &mut AccessControl, host: &mut WasmVM, account: &Account)
    ensures
        role_members(*final(access)) == with_every_role(role_members(*old(access)), *account),
        role_admins(*final(access)) == role_admins(*old(access)),
        call_sender(*final(host)) == call_sender(*old(host)),
        logged(*final(host)) == log_every_role(
            logged(*old(host)),
            role_members(*old(access)),
            *account,
            call_sender(*old(host)),
        ),
{
    grant_role(access, host, &default_admin_role(), account);
    grant_role(access, host, &minter_role(), account);
    grant_role(access, host, &burner_role(), account);
    grant_role(access, host, &freezing_role(), account);
    grant_role(access, host, &whitelist_role(), account);
    grant_role(access, host, &force_transfer_role(), account);
}

/// Refuses unless the account that made the call holds `role`.
pub(crate) fn require_role(access: &AccessControl, host: &WasmVM, role: &[u8; 32]) -> (r: Result<
    (),
    AccessError,
>)
    ensures
        r == role_check(role_members(*access), *role, call_sender(*host)),
{
    match only_role(access, host, role) {
        Ok(()) => Ok(()),
        Err(error) => Err(read_access_error(error)),
    }
}

} // verus!
