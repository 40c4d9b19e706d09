//! The fungible token, run on an in-process chain.

use std::collections::{BTreeMap, BTreeSet};

use motsu::prelude::Contract;
use openzeppelin_stylus::access::control::AccessControl;
use openzeppelin_stylus::token::erc20::extensions::Erc20Metadata;
use openzeppelin_stylus::token::erc20::{Erc20, IErc20};
use stylus_sdk::host::WasmVM;
use stylus_sdk::storage::{StorageBool, StorageMap};
use stylus_sdk::testing::TestVM;

use urwa::access::{
    burner_role, default_admin_role, force_transfer_role, freezing_role, minter_role,
    whitelist_role, AccessError,
};
use urwa::account::Account;
use urwa::erc20::Erc20Error;
use urwa::storage::{AccountAmounts, AccountFlags};
use urwa::uint::U256;
use urwa::urwa20::{Error20, URWA20};

struct Token {
    stage: Contract<Erc20>,
    erc20: TestVM,
    access: TestVM,
    metadata: TestVM,
    initialized: TestVM,
    send_whitelist: TestVM,
    receive_whitelist: TestVM,
    frozen: TestVM,
}

impl Token {
    fn deploy() -> Token {
        Token {
            stage: Contract::new(),
            erc20: TestVM::new(),
            access: TestVM::new(),
            metadata: TestVM::new(),
            initialized: TestVM::new(),
            send_whitelist: TestVM::new(),
            receive_whitelist: TestVM::new(),
            frozen: TestVM::new(),
        }
    }

    /// The token, called by `who`.
    fn sender(&self, who: Account) -> URWA20 {
        let _ = self.stage.sender(alloy_primitives::Address::from(who.bytes)).total_supply();
        URWA20 {
            host: WasmVM {},
            erc20: Erc20::from(&self.erc20),
            access: AccessControl::from(&self.access),
            metadata: Erc20Metadata::from(&self.metadata),
            initialized: StorageBool::from(&self.initialized),
            send_whitelist: AccountFlags { slots: StorageMap::from(&self.send_whitelist) },
            receive_whitelist: AccountFlags { slots: StorageMap::from(&self.receive_whitelist) },
            frozen: AccountAmounts { slots: StorageMap::from(&self.frozen) },
        }
    }

    /// The topics and the data of the entries logged under `signature`.
    fn logged(&self, signature: &str) -> Vec<(Vec<[u8; 32]>, Vec<u8>)> {
        let digest = keccak_const::Keccak256::new().update(signature.as_bytes()).finalize();
        let mut found = Vec::new();
        for entry in self.stage.all_events() {
            let topics: Vec<[u8; 32]> = entry.topics().iter().map(|t| t.0).collect();
            if topics[0] == digest {
                found.push((topics[1..].to_vec(), entry.data.to_vec()));
            }
        }
        found
    }

    /// All entries logged so far: topics and data.
    fn log(&self) -> Vec<(Vec<[u8; 32]>, Vec<u8>)> {
        let entries = self.stage.all_events();
        entries
            .iter()
            .map(|e| (e.topics().iter().map(|t| t.0).collect(), e.data.to_vec()))
            .collect()
    }
}

fn entry(
    signature: &str,
    indexed: &[[u8; 32]],
    data: &[[u8; 32]],
) -> (Vec<[u8; 32]>, Vec<u8>) {
    let digest = keccak_const::Keccak256::new().update(signature.as_bytes()).finalize();
    let mut topics = vec![digest];
    topics.extend_from_slice(indexed);
    (topics, data.concat())
}

#[derive(Debug)]
#[allow(dead_code)]
struct TestErr(&'static str);

fn ensure(cond: bool, msg: &'static str) -> Result<(), TestErr> {
    cond.then_some(()).ok_or(TestErr(msg))
}

trait OrTest<T> {
    fn ortest(self, msg: &'static str) -> Result<T, TestErr>;
}

impl<T, E> OrTest<T> for Result<T, E> {
    fn ortest(self, msg: &'static str) -> Result<T, TestErr> {
        self.map_err(|_| TestErr(msg))
    }
}

fn n(x: u64) -> U256 {
    U256::from_u64(x)
}

fn account(tag: u8) -> Account {
    Account { bytes: [tag; 20] }
}

fn admin() -> Account {
    account(0xad)
}

fn holder() -> Account {
    account(0x11)
}

fn dest() -> Account {
    account(0x22)
}

fn mallory() -> Account {
    account(0x66)
}

fn address_word(who: Account) -> [u8; 32] {
    let mut word = [0u8; 32];
    word[12..].copy_from_slice(&who.bytes);
    word
}

fn number_word(x: u64) -> [u8; 32] {
    let mut word = [0u8; 32];
    word[24..].copy_from_slice(&x.to_be_bytes());
    word
}

fn setup_allowlisted(contract: &Token, admin: Account, who: Account) -> Result<(), TestErr> {
    let _ = contract.sender(admin).initialize("uRWA Test".into(), "URWA".into(), admin);
    contract.sender(admin).change_send_whitelist(who, true).ortest("send wl")?;
    contract.sender(admin).change_receive_whitelist(who, true).ortest("recv wl")?;
    Ok(())
}

/// A token of which `holder` has 100, with `holder` and `dest` on both allowlists.
fn funded() -> Result<Token, TestErr> {
    let contract = Token::deploy();
    setup_allowlisted(&contract, admin(), holder())?;
    setup_allowlisted(&contract, admin(), dest())?;
    contract.sender(admin()).mint(holder(), n(100)).ortest("mint")?;
    Ok(contract)
}

#[test]
fn constructor_grants_all_roles() -> Result<(), TestErr> {
    let (contract, admin) = (Token::deploy(), admin());
    contract.sender(admin).initialize("uRWA Test".into(), "URWA".into(), admin).ortest("init")?;
    let c = contract.sender(admin);
    ensure(c.has_role(minter_role(), admin), "MINTER")?;
    ensure(c.has_role(burner_role(), admin), "BURNER")?;
    ensure(c.has_role(freezing_role(), admin), "FREEZING")?;
    ensure(c.has_role(whitelist_role(), admin), "WHITELIST")?;
    ensure(c.has_role(force_transfer_role(), admin), "FORCE_TRANSFER")?;
    ensure(c.has_role(default_admin_role(), admin), "DEFAULT_ADMIN")?;
    Ok(())
}

#[test]
fn metadata_is_set() -> Result<(), TestErr> {
    let (contract, admin) = (Token::deploy(), admin());
    contract
        .sender(admin)
        .initialize("uRWA Real Estate".into(), "uRWA".into(), admin)
        .ortest("init")?;
    ensure(contract.sender(admin).name() == "uRWA Real Estate", "name")?;
    ensure(contract.sender(admin).symbol() == "uRWA", "symbol")?;
    ensure(contract.sender(admin).decimals() == 18, "decimals 18")?;
    Ok(())
}

#[test]
fn whitelisted_transfer_succeeds() -> Result<(), TestErr> {
    let (contract, admin, holder, dest) = (Token::deploy(), admin(), holder(), dest());
    setup_allowlisted(&contract, admin, holder)?;
    setup_allowlisted(&contract, admin, dest)?;
    contract.sender(admin).mint(holder, n(100)).ortest("mint")?;
    contract.sender(holder).transfer(dest, n(40)).ortest("transfer")?;
    ensure(contract.sender(admin).balance_of(holder) == n(60), "holder 60")?;
    ensure(contract.sender(admin).balance_of(dest) == n(40), "dest 40")?;
    Ok(())
}

#[test]
fn transfer_from_non_send_whitelisted_reverts() -> Result<(), TestErr> {
    let (contract, admin, holder, dest) = (Token::deploy(), admin(), holder(), dest());
    contract.sender(admin).initialize("uRWA Test".into(), "URWA".into(), admin).ortest("init")?;
    contract.sender(admin).change_receive_whitelist(holder, true).ortest("recv wl")?;
    setup_allowlisted(&contract, admin, dest)?;
    contract.sender(admin).mint(holder, n(100)).ortest("mint")?;
    ensure(
        contract.sender(holder).transfer(dest, n(10)).is_err(),
        "send-blocked transfer must revert",
    )?;
    ensure(contract.sender(admin).balance_of(holder) == n(100), "balance unchanged")?;
    Ok(())
}

#[test]
fn transfer_to_non_receive_whitelisted_reverts() -> Result<(), TestErr> {
    let (contract, admin, holder, dest) = (Token::deploy(), admin(), holder(), dest());
    setup_allowlisted(&contract, admin, holder)?;
    contract.sender(admin).mint(holder, n(100)).ortest("mint")?;
    ensure(
        contract.sender(holder).transfer(dest, n(10)).is_err(),
        "transfer to non-allowlisted must revert",
    )?;
    Ok(())
}

#[test]
fn freeze_blocks_over_unfrozen_transfer() -> Result<(), TestErr> {
    let (contract, admin, holder, dest) = (Token::deploy(), admin(), holder(), dest());
    setup_allowlisted(&contract, admin, holder)?;
    setup_allowlisted(&contract, admin, dest)?;
    contract.sender(admin).mint(holder, n(100)).ortest("mint")?;
    contract.sender(admin).set_frozen_tokens(holder, n(50)).ortest("freeze")?;
    ensure(contract.sender(holder).transfer(dest, n(60)).is_err(), "over-unfrozen reverts")?;
    contract.sender(holder).transfer(dest, n(50)).ortest("at-unfrozen ok")?;
    ensure(contract.sender(admin).balance_of(holder) == n(50), "holder 50 left")?;
    ensure(contract.sender(admin).get_frozen_tokens(holder) == n(50), "still frozen 50")?;
    Ok(())
}

#[test]
fn can_transfer_matches_execution_over_balance() -> Result<(), TestErr> {
    let (contract, admin, holder, dest) = (Token::deploy(), admin(), holder(), dest());
    setup_allowlisted(&contract, admin, holder)?;
    setup_allowlisted(&contract, admin, dest)?;
    contract.sender(admin).mint(holder, n(50)).ortest("mint")?;
    ensure(
        !contract.sender(holder).can_transfer(holder, dest, n(100)),
        "can_transfer(100) false",
    )?;
    ensure(contract.sender(holder).transfer(dest, n(100)).is_err(), "transfer(100) reverts")?;
    ensure(contract.sender(holder).can_transfer(holder, dest, n(50)), "can_transfer(50) true")?;
    Ok(())
}

#[test]
fn self_forced_transfer_preserves_freeze() -> Result<(), TestErr> {
    let (contract, admin, holder, dest) = (Token::deploy(), admin(), holder(), dest());
    setup_allowlisted(&contract, admin, holder)?;
    setup_allowlisted(&contract, admin, dest)?;
    contract.sender(admin).mint(holder, n(100)).ortest("mint")?;
    contract.sender(admin).set_frozen_tokens(holder, n(80)).ortest("freeze")?;
    contract.sender(admin).forced_transfer(holder, holder, n(80)).ortest("self forced")?;
    ensure(
        contract.sender(admin).get_frozen_tokens(holder) == n(80),
        "freeze intact (not zeroed)",
    )?;
    ensure(contract.sender(admin).balance_of(holder) == n(100), "balance intact")?;
    ensure(
        contract.sender(holder).transfer(dest, n(21)).is_err(),
        "freeze still binds (>20 reverts)",
    )?;
    contract.sender(holder).transfer(dest, n(20)).ortest("20 unfrozen ok")?;
    Ok(())
}

#[test]
fn forced_transfer_seizes_from_blocked_holder() -> Result<(), TestErr> {
    let (contract, admin, holder, dest) = (Token::deploy(), admin(), holder(), dest());
    setup_allowlisted(&contract, admin, holder)?;
    setup_allowlisted(&contract, admin, dest)?;
    contract.sender(admin).mint(holder, n(100)).ortest("mint")?;
    contract.sender(admin).change_send_whitelist(holder, false).ortest("blocklist")?;
    ensure(contract.sender(holder).transfer(dest, n(10)).is_err(), "blocked holder cannot send")?;
    contract.sender(admin).forced_transfer(holder, dest, n(100)).ortest("seize")?;
    ensure(contract.sender(admin).balance_of(holder) == n(0), "holder seized to 0")?;
    ensure(contract.sender(admin).balance_of(dest) == n(100), "dest received 100")?;
    Ok(())
}

#[test]
fn forced_transfer_requires_receive_whitelist_on_to() -> Result<(), TestErr> {
    let (contract, admin, holder, dest) = (Token::deploy(), admin(), holder(), dest());
    setup_allowlisted(&contract, admin, holder)?;
    contract.sender(admin).mint(holder, n(100)).ortest("mint")?;
    ensure(
        contract.sender(admin).forced_transfer(holder, dest, n(10)).is_err(),
        "to must be allowlisted",
    )?;
    Ok(())
}

#[test]
fn privileged_actions_are_role_gated() -> Result<(), TestErr> {
    let (contract, admin, holder, mallory) = (Token::deploy(), admin(), holder(), mallory());
    setup_allowlisted(&contract, admin, holder)?;
    contract.sender(admin).mint(holder, n(100)).ortest("mint")?;
    ensure(
        contract.sender(mallory).set_frozen_tokens(holder, n(10)).is_err(),
        "freeze gated",
    )?;
    ensure(
        contract.sender(mallory).forced_transfer(holder, holder, n(10)).is_err(),
        "force gated",
    )?;
    ensure(
        contract.sender(mallory).change_send_whitelist(mallory, true).is_err(),
        "whitelist gated",
    )?;
    ensure(contract.sender(mallory).mint(mallory, n(10)).is_err(), "mint gated")?;
    Ok(())
}

#[test]
fn mint_requires_receive_whitelist() -> Result<(), TestErr> {
    let (contract, admin, holder) = (Token::deploy(), admin(), holder());
    contract.sender(admin).initialize("uRWA Test".into(), "URWA".into(), admin).ortest("init")?;
    ensure(
        contract.sender(admin).mint(holder, n(100)).is_err(),
        "mint to non-allowlisted reverts",
    )?;
    contract.sender(admin).change_receive_whitelist(holder, true).ortest("recv wl")?;
    contract.sender(admin).mint(holder, n(100)).ortest("mint ok")?;
    ensure(contract.sender(admin).balance_of(holder) == n(100), "minted 100")?;
    Ok(())
}

#[test]
fn burn_clears_excess_frozen() -> Result<(), TestErr> {
    let (contract, admin, holder) = (Token::deploy(), admin(), holder());
    setup_allowlisted(&contract, admin, holder)?;
    contract.sender(admin).mint(holder, n(100)).ortest("mint")?;
    contract.sender(admin).set_frozen_tokens(holder, n(100)).ortest("freeze all")?;
    contract.sender(admin).grant_role(burner_role(), holder).ortest("grant burner")?;
    contract.sender(holder).burn(n(100)).ortest("burn")?;
    ensure(contract.sender(admin).balance_of(holder) == n(0), "burned to 0")?;
    ensure(contract.sender(admin).get_frozen_tokens(holder) == n(0), "frozen cleared on empty")?;
    Ok(())
}

#[test]
fn set_frozen_may_exceed_balance() -> Result<(), TestErr> {
    let (contract, admin, holder, dest) = (Token::deploy(), admin(), holder(), dest());
    setup_allowlisted(&contract, admin, holder)?;
    setup_allowlisted(&contract, admin, dest)?;
    contract.sender(admin).mint(holder, n(50)).ortest("mint")?;
    contract.sender(admin).set_frozen_tokens(holder, n(80)).ortest("over-freeze")?;
    ensure(contract.sender(admin).get_frozen_tokens(holder) == n(80), "frozen 80")?;
    ensure(!contract.sender(holder).can_transfer(holder, dest, n(1)), "nothing transferable")?;
    ensure(contract.sender(holder).transfer(dest, n(1)).is_err(), "even 1 reverts")?;
    Ok(())
}

/// A deterministic generator, so that runs can be repeated.
struct Lcg(u64);

impl Lcg {
    fn new(seed: u64) -> Self {
        Lcg(seed)
    }

    fn next(&mut self) -> u64 {
        self.0 = self.0.wrapping_mul(6364136223846793005).wrapping_add(1442695040888963407);
        self.0 >> 16
    }

    fn below(&mut self, n: u64) -> u64 {
        self.next() % n
    }
}

#[derive(Clone, Copy)]
enum Op {
    SetSendWl { acct: Account, status: bool, by: Account },
    SetRecvWl { acct: Account, status: bool, by: Account },
    Mint { to: Account, amt: u128, by: Account },
    Freeze { acct: Account, amt: u128, by: Account },
    Transfer { from: Account, to: Account, amt: u128 },
    TransferFrom { spender: Account, from: Account, to: Account, amt: u128 },
    Approve { owner: Account, spender: Account, amt: u128 },
    ForcedTransfer { from: Account, to: Account, amt: u128, by: Account },
    Burn { amt: u128, by: Account },
}

/// The token in ordinary maps. Only `admin` holds roles.
struct Ref20 {
    admin: Account,
    bal: BTreeMap<[u8; 20], u128>,
    frozen: BTreeMap<[u8; 20], u128>,
    allow: BTreeMap<([u8; 20], [u8; 20]), u128>,
    send: BTreeSet<[u8; 20]>,
    recv: BTreeSet<[u8; 20]>,
}

impl Ref20 {
    fn new(admin: Account) -> Self {
        Ref20 {
            admin,
            bal: BTreeMap::new(),
            frozen: BTreeMap::new(),
            allow: BTreeMap::new(),
            send: BTreeSet::new(),
            recv: BTreeSet::new(),
        }
    }

    fn b(&self, a: Account) -> u128 {
        *self.bal.get(&a.bytes).unwrap_or(&0)
    }

    fn f(&self, a: Account) -> u128 {
        *self.frozen.get(&a.bytes).unwrap_or(&0)
    }

    fn unfrozen(&self, a: Account) -> u128 {
        let (bal, frz) = (self.b(a), self.f(a));
        if bal < frz {
            0
        } else {
            bal - frz
        }
    }

    fn allowance(&self, owner: Account, spender: Account) -> u128 {
        *self.allow.get(&(owner.bytes, spender.bytes)).unwrap_or(&0)
    }

    fn excess_frozen_update(&mut self, a: Account, amt: u128) {
        let unfrozen = self.unfrozen(a);
        let bal = self.b(a);
        if amt > unfrozen && amt <= bal {
            let next = self.f(a) - (amt - unfrozen);
            self.frozen.insert(a.bytes, next);
        }
    }

    /// Applies `op` if it should succeed, and says whether it should.
    fn apply(&mut self, op: Op) -> bool {
        match op {
            Op::SetSendWl { acct, status, by } => {
                if by != self.admin {
                    false
                } else {
                    if status {
                        self.send.insert(acct.bytes);
                    } else {
                        self.send.remove(&acct.bytes);
                    }
                    true
                }
            }
            Op::SetRecvWl { acct, status, by } => {
                if by != self.admin {
                    false
                } else {
                    if status {
                        self.recv.insert(acct.bytes);
                    } else {
                        self.recv.remove(&acct.bytes);
                    }
                    true
                }
            }
            Op::Mint { to, amt, by } => {
                if by != self.admin || !self.recv.contains(&to.bytes) {
                    false
                } else {
                    self.bal.insert(to.bytes, self.b(to) + amt);
                    true
                }
            }
            Op::Freeze { acct, amt, by } => {
                if by != self.admin {
                    false
                } else {
                    self.frozen.insert(acct.bytes, amt);
                    true
                }
            }
            Op::Transfer { from, to, amt } => {
                if amt > self.unfrozen(from)
                    || !self.send.contains(&from.bytes)
                    || !self.recv.contains(&to.bytes)
                {
                    false
                } else {
                    self.bal.insert(from.bytes, self.b(from) - amt);
                    self.bal.insert(to.bytes, self.b(to) + amt);
                    true
                }
            }
            Op::TransferFrom { spender, from, to, amt } => {
                if self.allowance(from, spender) < amt
                    || amt > self.unfrozen(from)
                    || !self.send.contains(&from.bytes)
                    || !self.recv.contains(&to.bytes)
                {
                    false
                } else {
                    let left = self.allowance(from, spender) - amt;
                    self.allow.insert((from.bytes, spender.bytes), left);
                    self.bal.insert(from.bytes, self.b(from) - amt);
                    self.bal.insert(to.bytes, self.b(to) + amt);
                    true
                }
            }
            Op::Approve { owner, spender, amt } => {
                self.allow.insert((owner.bytes, spender.bytes), amt);
                true
            }
            Op::ForcedTransfer { from, to, amt, by } => {
                if by != self.admin || !self.recv.contains(&to.bytes) || self.b(from) < amt {
                    false
                } else {
                    self.excess_frozen_update(from, amt);
                    self.bal.insert(from.bytes, self.b(from) - amt);
                    self.bal.insert(to.bytes, self.b(to) + amt);
                    true
                }
            }
            Op::Burn { amt, by } => {
                if by != self.admin || !self.send.contains(&by.bytes) || self.b(by) < amt {
                    false
                } else {
                    self.excess_frozen_update(by, amt);
                    self.bal.insert(by.bytes, self.b(by) - amt);
                    true
                }
            }
        }
    }
}

fn gen_op(rng: &mut Lcg, actors: &[Account; 4]) -> Op {
    let admin = actors[0];
    let amt = rng.below(120) as u128;
    let by = if rng.below(5) == 0 { actors[rng.below(4) as usize] } else { admin };
    match rng.below(9) {
        0 => Op::SetSendWl {
            acct: actors[rng.below(4) as usize],
            status: rng.below(2) == 1,
            by,
        },
        1 => Op::SetRecvWl {
            acct: actors[rng.below(4) as usize],
            status: rng.below(2) == 1,
            by,
        },
        2 => Op::Mint { to: actors[rng.below(4) as usize], amt, by },
        3 => Op::Freeze { acct: actors[rng.below(4) as usize], amt, by },
        4 => Op::Transfer {
            from: actors[rng.below(4) as usize],
            to: actors[rng.below(4) as usize],
            amt,
        },
        5 => Op::Approve {
            owner: actors[rng.below(4) as usize],
            spender: actors[rng.below(4) as usize],
            amt,
        },
        6 => Op::TransferFrom {
            spender: actors[rng.below(4) as usize],
            from: actors[rng.below(4) as usize],
            to: actors[rng.below(4) as usize],
            amt,
        },
        7 => {
            let fi = rng.below(4) as usize;
            let ti0 = rng.below(4) as usize;
            let ti = if ti0 == fi { (fi + 1) % 4 } else { ti0 };
            Op::ForcedTransfer { from: actors[fi], to: actors[ti], amt, by }
        }
        _ => Op::Burn { amt, by },
    }
}

fn apply_real(c: &Token, op: Op) -> bool {
    match op {
        Op::SetSendWl { acct, status, by } => {
            c.sender(by).change_send_whitelist(acct, status).is_ok()
        }
        Op::SetRecvWl { acct, status, by } => {
            c.sender(by).change_receive_whitelist(acct, status).is_ok()
        }
        Op::Mint { to, amt, by } => c.sender(by).mint(to, U256::from_u128(amt)).is_ok(),
        Op::Freeze { acct, amt, by } => {
            c.sender(by).set_frozen_tokens(acct, U256::from_u128(amt)).is_ok()
        }
        Op::Transfer { from, to, amt } => {
            c.sender(from).transfer(to, U256::from_u128(amt)).is_ok()
        }
        Op::TransferFrom { spender, from, to, amt } => {
            c.sender(spender).transfer_from(from, to, U256::from_u128(amt)).is_ok()
        }
        Op::Approve { owner, spender, amt } => {
            c.sender(owner).approve(spender, U256::from_u128(amt)).is_ok()
        }
        Op::ForcedTransfer { from, to, amt, by } => {
            c.sender(by).forced_transfer(from, to, U256::from_u128(amt)).is_ok()
        }
        Op::Burn { amt, by } => c.sender(by).burn(U256::from_u128(amt)).is_ok(),
    }
}

fn compare(c: &Token, m: &Ref20, actors: &[Account; 4]) -> Result<(), TestErr> {
    actors.iter().try_for_each(|&a| {
        ensure(
            c.sender(actors[0]).balance_of(a) == U256::from_u128(m.b(a)),
            "balance mismatch",
        )?;
        ensure(
            c.sender(actors[0]).get_frozen_tokens(a) == U256::from_u128(m.f(a)),
            "frozen mismatch",
        )?;
        Ok(())
    })?;
    let total: u128 = actors.iter().map(|&a| m.b(a)).sum();
    ensure(c.sender(actors[0]).total_supply() == U256::from_u128(total), "supply mismatch")?;
    actors.iter().try_for_each(|&owner| {
        actors.iter().try_for_each(|&spender| {
            ensure(
                c.sender(actors[0]).allowance(owner, spender)
                    == U256::from_u128(m.allowance(owner, spender)),
                "allowance mismatch",
            )
        })
    })
}

#[test]
fn differential_vs_reference_model() -> Result<(), TestErr> {
    let (contract, admin) = (Token::deploy(), admin());
    contract.sender(admin).initialize("Diff".into(), "DIF".into(), admin).ortest("init")?;
    let actors = [admin, account(0xa), account(0xb), account(0xc)];
    let mut model = Ref20::new(admin);
    let mut rng = Lcg::new(0x9E3779B97F4A7C15);
    (0..800u64).try_for_each(|_| {
        let op = gen_op(&mut rng, &actors);
        let real_ok = apply_real(&contract, op);
        let model_ok = model.apply(op);
        ensure(real_ok == model_ok, "success/revert divergence vs reference")?;
        compare(&contract, &model, &actors)
    })
}

#[test]
fn differential_flags_self_forced_divergence() -> Result<(), TestErr> {
    let (contract, admin, holder) = (Token::deploy(), admin(), holder());
    setup_allowlisted(&contract, admin, holder)?;
    contract.sender(admin).mint(holder, n(100)).ortest("mint")?;
    contract.sender(admin).set_frozen_tokens(holder, n(80)).ortest("freeze")?;

    let mut model = Ref20::new(admin);
    model.bal.insert(holder.bytes, 100);
    model.frozen.insert(holder.bytes, 80);
    model.excess_frozen_update(holder, 80);
    ensure(model.f(holder) == 20, "reference model would drop frozen to 20")?;

    contract.sender(admin).forced_transfer(holder, holder, n(80)).ortest("self forced")?;
    ensure(
        contract.sender(admin).get_frozen_tokens(holder) == n(80),
        "contract preserves frozen 80",
    )?;
    Ok(())
}

#[test]
fn initialization_happens_once() -> Result<(), TestErr> {
    let contract = Token::deploy();
    contract.sender(admin()).initialize("One".into(), "1".into(), admin()).ortest("init")?;
    let again = contract.sender(mallory()).initialize("Two".into(), "2".into(), mallory());
    assert!(matches!(again, Err(Error20::AlreadyInitialized)));
    assert_eq!(contract.sender(admin()).name(), "One");
    assert_eq!(contract.sender(admin()).symbol(), "1");
    assert!(!contract.sender(admin()).has_role(minter_role(), mallory()));
    Ok(())
}

#[test]
fn refusals_name_the_caller_and_the_role() {
    let contract = Token::deploy();
    let _ = contract.sender(admin()).initialize("T".into(), "T".into(), admin());
    let refused = [
        (contract.sender(mallory()).mint(holder(), n(1)), minter_role()),
        (contract.sender(mallory()).burn(n(1)), burner_role()),
        (contract.sender(mallory()).set_frozen_tokens(holder(), n(1)), freezing_role()),
        (contract.sender(mallory()).change_send_whitelist(holder(), true), whitelist_role()),
        (contract.sender(mallory()).change_receive_whitelist(holder(), true), whitelist_role()),
        (contract.sender(mallory()).forced_transfer(holder(), dest(), n(1)), force_transfer_role()),
    ];
    for (answer, role) in refused {
        assert!(matches!(
            answer,
            Err(Error20::UnauthorizedAccount { account, needed_role })
                if account == mallory() && needed_role == role
        ));
    }
    assert!(!contract.sender(admin()).can_send(holder()));
    assert!(!contract.sender(admin()).can_receive(holder()));
    assert_eq!(contract.sender(admin()).get_frozen_tokens(holder()), n(0));
}

#[test]
fn transfers_are_refused_for_the_first_reason() -> Result<(), TestErr> {
    let contract = funded()?;
    contract.sender(admin()).set_frozen_tokens(holder(), n(70)).ortest("freeze")?;
    assert!(matches!(
        contract.sender(holder()).transfer(mallory(), n(31)),
        Err(Error20::InsufficientUnfrozenBalance { account, amount, unfrozen })
            if account == holder() && amount == n(31) && unfrozen == n(30)
    ));
    contract.sender(admin()).change_send_whitelist(holder(), false).ortest("block")?;
    assert!(matches!(
        contract.sender(holder()).transfer(mallory(), n(30)),
        Err(Error20::CannotSend { account }) if account == holder()
    ));
    contract.sender(admin()).change_send_whitelist(holder(), true).ortest("unblock")?;
    assert!(matches!(
        contract.sender(holder()).transfer(mallory(), n(30)),
        Err(Error20::CannotReceive { account }) if account == mallory()
    ));
    assert!(contract.sender(holder()).enforce_transfer(holder(), dest(), n(30)).is_ok());
    assert_eq!(contract.sender(holder()).unfrozen_balance(holder()), n(30));
    Ok(())
}

#[test]
fn spenders_use_up_their_allowance() -> Result<(), TestErr> {
    let contract = funded()?;
    let spender = account(0x33);
    assert!(matches!(contract.sender(holder()).approve(spender, n(25)), Ok(true)));
    assert_eq!(contract.sender(holder()).allowance(holder(), spender), n(25));
    assert!(matches!(
        contract.sender(spender).transfer_from(holder(), dest(), n(26)),
        Err(Error20::InsufficientAllowance { spender: who, allowance, needed })
            if who == spender && allowance == n(25) && needed == n(26)
    ));
    assert!(matches!(contract.sender(spender).transfer_from(holder(), dest(), n(20)), Ok(true)));
    assert_eq!(contract.sender(holder()).allowance(holder(), spender), n(5));
    assert_eq!(contract.sender(holder()).balance_of(dest()), n(20));
    assert!(contract.sender(holder()).approve(spender, U256::max_value()).is_ok());
    assert!(contract.sender(spender).transfer_from(holder(), dest(), n(30)).is_ok());
    assert_eq!(contract.sender(holder()).allowance(holder(), spender), U256::max_value());
    assert_eq!(contract.sender(holder()).balance_of(holder()), n(50));
    Ok(())
}

#[test]
fn the_zero_account_takes_no_part() -> Result<(), TestErr> {
    let contract = funded()?;
    let zero = Account::zero();
    assert!(matches!(
        contract.sender(admin()).forced_transfer(holder(), zero, n(1)),
        Err(Error20::InvalidReceiver { receiver }) if receiver == zero
    ));
    assert!(matches!(
        contract.sender(admin()).forced_transfer(zero, dest(), n(1)),
        Err(Error20::InvalidSender { sender }) if sender == zero
    ));
    assert!(matches!(
        contract.sender(holder()).approve(zero, n(1)),
        Err(Error20::InvalidSpender { spender }) if spender == zero
    ));
    assert!(matches!(
        contract.sender(zero).approve(holder(), n(1)),
        Err(Error20::InvalidApprover { approver }) if approver == zero
    ));
    setup_allowlisted(&contract, admin(), zero)?;
    assert!(matches!(
        contract.sender(admin()).mint(zero, n(1)),
        Err(Error20::InvalidReceiver { receiver }) if receiver == zero
    ));
    assert!(matches!(
        contract.sender(holder()).transfer(zero, n(1)),
        Err(Error20::InvalidReceiver { receiver }) if receiver == zero
    ));
    assert!(matches!(
        contract.sender(zero).transfer(dest(), n(0)),
        Err(Error20::InvalidSender { sender }) if sender == zero
    ));
    let token = contract.sender(holder());
    assert!(!token.can_transfer(holder(), zero, n(10)));
    assert!(!token.can_transfer(zero, dest(), n(0)));
    assert!(!token.can_transfer(zero, zero, n(0)));
    assert!(token.can_transfer(holder(), dest(), n(10)));
    Ok(())
}

#[test]
fn burning_and_seizing_take_unfrozen_tokens_first() -> Result<(), TestErr> {
    let contract = funded()?;
    contract.sender(admin()).set_frozen_tokens(holder(), n(60)).ortest("freeze")?;
    contract.sender(admin()).grant_role(burner_role(), holder()).ortest("grant")?;
    contract.sender(holder()).burn(n(30)).ortest("burn unfrozen")?;
    assert_eq!(contract.sender(admin()).get_frozen_tokens(holder()), n(60));
    assert_eq!(contract.sender(admin()).unfrozen_balance(holder()), n(10));
    contract.sender(holder()).burn(n(20)).ortest("burn into the freeze")?;
    assert_eq!(contract.sender(admin()).balance_of(holder()), n(50));
    assert_eq!(contract.sender(admin()).get_frozen_tokens(holder()), n(50));
    contract.sender(admin()).forced_transfer(holder(), dest(), n(15)).ortest("seize")?;
    assert_eq!(contract.sender(admin()).balance_of(holder()), n(35));
    assert_eq!(contract.sender(admin()).get_frozen_tokens(holder()), n(35));
    assert_eq!(contract.sender(admin()).balance_of(dest()), n(15));
    assert_eq!(contract.sender(admin()).total_supply(), n(50));
    Ok(())
}

#[test]
fn too_much_is_neither_burned_nor_seized() -> Result<(), TestErr> {
    let contract = funded()?;
    contract.sender(admin()).set_frozen_tokens(holder(), n(60)).ortest("freeze")?;
    contract.sender(admin()).grant_role(burner_role(), holder()).ortest("grant")?;
    for answer in [
        contract.sender(holder()).burn(n(101)),
        contract.sender(admin()).forced_transfer(holder(), dest(), n(101)),
    ] {
        assert!(matches!(
            answer,
            Err(Error20::InsufficientBalance { sender, balance, needed })
                if sender == holder() && balance == n(100) && needed == n(101)
        ));
    }
    assert_eq!(contract.sender(admin()).get_frozen_tokens(holder()), n(60));
    contract.sender(admin()).change_send_whitelist(holder(), false).ortest("block")?;
    assert!(matches!(
        contract.sender(holder()).burn(n(1)),
        Err(Error20::CannotSend { account }) if account == holder()
    ));
    Ok(())
}

#[test]
fn minting_stops_at_the_largest_supply() -> Result<(), TestErr> {
    let contract = funded()?;
    assert!(contract.sender(admin()).try_mint(dest(), U256::max_value()).is_none());
    assert_eq!(contract.sender(admin()).total_supply(), n(100));
    let Some(room) = U256::max_value().checked_sub(&n(100)) else {
        return Err(TestErr("room"));
    };
    assert!(matches!(contract.sender(admin()).try_mint(dest(), room), Some(Ok(()))));
    assert_eq!(contract.sender(admin()).total_supply(), U256::max_value());
    assert!(contract.sender(admin()).try_mint(dest(), n(1)).is_none());
    assert!(matches!(contract.sender(admin()).try_mint(dest(), n(0)), Some(Ok(()))));
    assert!(matches!(
        contract.sender(admin()).try_mint(mallory(), n(1)),
        Some(Err(Error20::CannotReceive { account })) if account == mallory()
    ));
    assert!(matches!(
        contract.sender(mallory()).try_mint(dest(), n(1)),
        Some(Err(Error20::UnauthorizedAccount { .. }))
    ));
    Ok(())
}

#[test]
fn roles_are_granted_revoked_and_renounced() {
    let contract = Token::deploy();
    let _ = contract.sender(admin()).initialize("T".into(), "T".into(), admin());
    assert_eq!(contract.sender(admin()).get_role_admin(minter_role()), default_admin_role());
    assert!(matches!(
        contract.sender(mallory()).grant_role(minter_role(), mallory()),
        Err(AccessError::UnauthorizedAccount { account, needed_role })
            if account == mallory() && needed_role == default_admin_role()
    ));
    assert!(contract.sender(admin()).grant_role(minter_role(), holder()).is_ok());
    assert!(contract.sender(holder()).only_role(minter_role()).is_ok());
    assert!(contract.sender(admin()).revoke_role(minter_role(), holder()).is_ok());
    assert!(!contract.sender(admin()).has_role(minter_role(), holder()));
    assert!(matches!(
        contract.sender(holder()).only_role(minter_role()),
        Err(AccessError::UnauthorizedAccount { account, needed_role })
            if account == holder() && needed_role == minter_role()
    ));
    assert!(matches!(
        contract.sender(mallory()).revoke_role(minter_role(), admin()),
        Err(AccessError::UnauthorizedAccount { .. })
    ));
    assert!(matches!(
        contract.sender(mallory()).renounce_role(minter_role(), admin()),
        Err(AccessError::BadConfirmation)
    ));
    assert!(contract.sender(admin()).has_role(minter_role(), admin()));
    assert!(contract.sender(admin()).renounce_role(minter_role(), admin()).is_ok());
    assert!(!contract.sender(admin()).has_role(minter_role(), admin()));
}

#[test]
fn changes_are_logged() -> Result<(), TestErr> {
    let contract = funded()?;
    contract.sender(admin()).set_frozen_tokens(holder(), n(80)).ortest("freeze")?;
    contract.sender(admin()).forced_transfer(holder(), dest(), n(30)).ortest("seize")?;
    contract.sender(admin()).forced_transfer(holder(), holder(), n(7)).ortest("self")?;
    contract.sender(admin()).change_send_whitelist(holder(), false).ortest("block")?;
    let sends = contract.logged("SendWhitelisted(address,bool)");
    assert_eq!(sends.len(), 3);
    assert_eq!(sends[0], (vec![address_word(holder())], number_word(1).to_vec()));
    assert_eq!(sends[2], (vec![address_word(holder())], number_word(0).to_vec()));
    let receives = contract.logged("ReceiveWhitelisted(address,bool)");
    assert_eq!(receives.len(), 2);
    assert_eq!(receives[1], (vec![address_word(dest())], number_word(1).to_vec()));
    let freezes = contract.logged("Frozen(address,uint256)");
    assert_eq!(
        freezes,
        vec![
            (vec![address_word(holder())], number_word(80).to_vec()),
            (vec![address_word(holder())], number_word(70).to_vec()),
        ]
    );
    let seizures = contract.logged("ForcedTransfer(address,address,uint256)");
    assert_eq!(
        seizures,
        vec![
            (vec![address_word(holder()), address_word(dest())], number_word(30).to_vec()),
            (vec![address_word(holder()), address_word(holder())], number_word(7).to_vec()),
        ]
    );
    Ok(())
}

#[test]
fn interfaces_are_announced() {
    let contract = Token::deploy();
    let token = contract.sender(admin());
    assert!(token.supports_interface([0x01, 0xff, 0xc9, 0xa7]));
    assert!(token.supports_interface([0x36, 0x37, 0x2b, 0x07]));
    assert!(token.supports_interface([0xa2, 0x19, 0xa0, 0x25]));
    assert!(token.supports_interface([0x0e, 0xdd, 0x8b, 0x6c]));
    assert!(!token.supports_interface([0x80, 0xac, 0x58, 0xcd]));
    assert!(!token.supports_interface([0xff, 0xff, 0xff, 0xff]));
}

#[test]
fn refusals_of_the_base_contracts_keep_their_contents() {
    let (a, b) = (account(1), account(2));
    assert!(matches!(
        Error20::from(Erc20Error::InsufficientBalance { sender: a, balance: n(1), needed: n(2) }),
        Error20::InsufficientBalance { sender, balance, needed }
            if sender == a && balance == n(1) && needed == n(2)
    ));
    assert!(matches!(
        Error20::from(Erc20Error::InvalidSender { sender: a }),
        Error20::InvalidSender { sender } if sender == a
    ));
    assert!(matches!(
        Error20::from(Erc20Error::InvalidReceiver { receiver: b }),
        Error20::InvalidReceiver { receiver } if receiver == b
    ));
    assert!(matches!(
        Error20::from(Erc20Error::InsufficientAllowance { spender: b, allowance: n(3), needed: n(4) }),
        Error20::InsufficientAllowance { spender, allowance, needed }
            if spender == b && allowance == n(3) && needed == n(4)
    ));
    assert!(matches!(
        Error20::from(Erc20Error::InvalidSpender { spender: b }),
        Error20::InvalidSpender { spender } if spender == b
    ));
    assert!(matches!(
        Error20::from(Erc20Error::InvalidApprover { approver: a }),
        Error20::InvalidApprover { approver } if approver == a
    ));
    assert!(matches!(
        Error20::from(AccessError::UnauthorizedAccount { account: a, needed_role: [9; 32] }),
        Error20::UnauthorizedAccount { account, needed_role } if account == a && needed_role == [9; 32]
    ));
    assert!(matches!(Error20::from(AccessError::BadConfirmation), Error20::BadConfirmation));
}

#[test]
fn the_books_balance() -> Result<(), TestErr> {
    let contract = funded()?;
    contract.sender(admin()).grant_role(burner_role(), holder()).ortest("grant")?;
    contract.sender(holder()).transfer(dest(), n(40)).ortest("transfer")?;
    contract.sender(admin()).forced_transfer(dest(), holder(), n(15)).ortest("seize")?;
    contract.sender(holder()).burn(n(5)).ortest("burn")?;
    contract.sender(admin()).mint(dest(), n(9)).ortest("mint")?;
    let token = contract.sender(admin());
    assert_eq!(token.balance_of(holder()), n(70));
    assert_eq!(token.balance_of(dest()), n(34));
    assert_eq!(token.total_supply(), n(104));
    Ok(())
}

#[test]
fn every_event_is_logged_in_order() -> Result<(), TestErr> {
    let contract = Token::deploy();
    let zero = address_word(Account::zero());
    let (h, d, a) = (address_word(holder()), address_word(dest()), address_word(admin()));
    let granted = |role: [u8; 32]| {
        let topics = [role, address_word(admin()), address_word(admin())];
        entry("RoleGranted(bytes32,address,address)", &topics, &[])
    };
    contract.sender(admin()).initialize("T".into(), "T".into(), admin()).ortest("init")?;
    contract.sender(admin()).change_send_whitelist(holder(), true).ortest("send wl")?;
    contract.sender(admin()).change_receive_whitelist(holder(), true).ortest("recv wl")?;
    contract.sender(admin()).change_receive_whitelist(dest(), true).ortest("recv wl")?;
    contract.sender(admin()).mint(holder(), n(100)).ortest("mint")?;
    contract.sender(holder()).approve(dest(), n(9)).ortest("approve")?;
    contract.sender(dest()).transfer_from(holder(), dest(), n(4)).ortest("transfer from")?;
    contract.sender(holder()).transfer(dest(), n(6)).ortest("transfer")?;
    contract.sender(admin()).set_frozen_tokens(holder(), n(80)).ortest("freeze")?;
    contract.sender(admin()).grant_role(burner_role(), holder()).ortest("grant")?;
    contract.sender(admin()).grant_role(burner_role(), holder()).ortest("grant again")?;
    contract.sender(holder()).burn(n(20)).ortest("burn")?;
    contract.sender(admin()).forced_transfer(holder(), dest(), n(5)).ortest("seize")?;
    contract.sender(holder()).renounce_role(burner_role(), holder()).ortest("renounce")?;
    contract.sender(admin()).revoke_role(burner_role(), holder()).ortest("revoke what is not held")?;
    let transfer = "Transfer(address,address,uint256)";
    let frozen = "Frozen(address,uint256)";
    assert_eq!(
        contract.log(),
        vec![
            granted(default_admin_role()),
            granted(minter_role()),
            granted(burner_role()),
            granted(freezing_role()),
            granted(whitelist_role()),
            granted(force_transfer_role()),
            entry("SendWhitelisted(address,bool)", &[h], &[number_word(1)]),
            entry("ReceiveWhitelisted(address,bool)", &[h], &[number_word(1)]),
            entry("ReceiveWhitelisted(address,bool)", &[d], &[number_word(1)]),
            entry(transfer, &[zero, h], &[number_word(100)]),
            entry("Approval(address,address,uint256)", &[h, d], &[number_word(9)]),
            entry(transfer, &[h, d], &[number_word(4)]),
            entry(transfer, &[h, d], &[number_word(6)]),
            entry(frozen, &[h], &[number_word(80)]),
            entry("RoleGranted(bytes32,address,address)", &[burner_role(), h, a], &[]),
            entry(frozen, &[h], &[number_word(70)]),
            entry(transfer, &[h, zero], &[number_word(20)]),
            entry(frozen, &[h], &[number_word(65)]),
            entry(transfer, &[h, d], &[number_word(5)]),
            entry("ForcedTransfer(address,address,uint256)", &[h, d], &[number_word(5)]),
            entry("RoleRevoked(bytes32,address,address)", &[burner_role(), h, h], &[]),
        ]
    );
    Ok(())
}
