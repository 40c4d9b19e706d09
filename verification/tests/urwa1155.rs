//! The multi-token, run on an in-process chain.

use motsu::prelude::Contract;
use openzeppelin_stylus::access::control::AccessControl;
use openzeppelin_stylus::token::erc20::Erc20;
use openzeppelin_stylus::token::erc1155::{Erc1155, IErc1155};
use stylus_sdk::host::WasmVM;
use stylus_sdk::storage::StorageMap;
use stylus_sdk::testing::TestVM;

use urwa::access::{
    burner_role, default_admin_role, force_transfer_role, freezing_role, minter_role,
    whitelist_role, AccessError,
};
use urwa::account::Account;
use urwa::erc1155::Erc1155Error;
use urwa::storage::{AccountFlags, TokenAmounts};
use urwa::uint::U256;
use urwa::urwa1155::{Error1155, URWA1155};

struct Token {
    stage: Contract<Erc1155>,
    erc1155: TestVM,
    access: TestVM,
    send_whitelist: TestVM,
    receive_whitelist: TestVM,
    frozen: TestVM,
}

impl Token {
    fn deploy() -> Token {
        Token {
            stage: Contract::new(),
            erc1155: TestVM::new(),
            access: TestVM::new(),
            send_whitelist: TestVM::new(),
            receive_whitelist: TestVM::new(),
            frozen: TestVM::new(),
        }
    }

    /// The token, called by `who`.
    fn sender(&self, who: Account) -> URWA1155 {
        let address = alloy_primitives::Address::from(who.bytes);
        let _ = self.stage.sender(address).is_approved_for_all(address, address);
        URWA1155 {
            host: WasmVM {},
            erc1155: Erc1155::from(&self.erc1155),
            access: AccessControl::from(&self.access),
            send_whitelist: AccountFlags { slots: StorageMap::from(&self.send_whitelist) },
            receive_whitelist: AccountFlags { slots: StorageMap::from(&self.receive_whitelist) },
            frozen: TokenAmounts { slots: StorageMap::from(&self.frozen) },
        }
    }

    /// The topics and the data of the entries logged under `signature`.
    fn logged(&self, signature: &str) -> Vec<(Vec<[u8; 32]>, Vec<u8>)> {
        let digest = keccak_const::Keccak256::new().update(signature.as_bytes()).finalize();
        let mut found = Vec::new();
        for entry in self.stage.all_events() {
            let topics: Vec<[u8; 32]> = entry.topics().iter().map(|t| t.0).collect();
            if topics[0] == digest {
                found.push((topics[1..].to_vec(), entry.data.to_vec()));
            }
        }
        found
    }

    /// All entries logged so far: topics and data.
    fn log(&self) -> Vec<(Vec<[u8; 32]>, Vec<u8>)> {
        let entries = self.stage.all_events();
        entries
            .iter()
            .map(|e| (e.topics().iter().map(|t| t.0).collect(), e.data.to_vec()))
            .collect()
    }
}

fn entry(
    signature: &str,
    indexed: &[[u8; 32]],
    data: &[[u8; 32]],
) -> (Vec<[u8; 32]>, Vec<u8>) {
    let digest = keccak_const::Keccak256::new().update(signature.as_bytes()).finalize();
    let mut topics = vec![digest];
    topics.extend_from_slice(indexed);
    (topics, data.concat())
}

#[derive(Debug)]
#[allow(dead_code)]
struct TestErr(&'static str);

fn ensure(cond: bool, msg: &'static str) -> Result<(), TestErr> {
    cond.then_some(()).ok_or(TestErr(msg))
}

trait OrTest<T> {
    fn ortest(self, msg: &'static str) -> Result<T, TestErr>;
}

impl<T, E> OrTest<T> for Result<T, E> {
    fn ortest(self, msg: &'static str) -> Result<T, TestErr> {
        self.map_err(|_| TestErr(msg))
    }
}

fn n(x: u64) -> U256 {
    U256::from_u64(x)
}

const ID: u64 = 1;

fn account(tag: u8) -> Account {
    Account { bytes: [tag; 20] }
}

fn admin() -> Account {
    account(0xad)
}

fn holder() -> Account {
    account(0x11)
}

fn dest() -> Account {
    account(0x22)
}

fn mallory() -> Account {
    account(0x66)
}

fn address_word(who: Account) -> [u8; 32] {
    let mut word = [0u8; 32];
    word[12..].copy_from_slice(&who.bytes);
    word
}

fn number_word(x: u64) -> [u8; 32] {
    let mut word = [0u8; 32];
    word[24..].copy_from_slice(&x.to_be_bytes());
    word
}

fn setup_allowlisted(contract: &Token, admin: Account, who: Account) -> Result<(), TestErr> {
    contract.sender(admin).constructor(admin);
    contract.sender(admin).change_send_whitelist(who, true).ortest("send wl")?;
    contract.sender(admin).change_receive_whitelist(who, true).ortest("recv wl")?;
    Ok(())
}

/// A contract in which `holder` has 100 of the token, with `holder` and `dest` on both
/// allowlists.
fn funded() -> Result<Token, TestErr> {
    let contract = Token::deploy();
    setup_allowlisted(&contract, admin(), holder())?;
    setup_allowlisted(&contract, admin(), dest())?;
    contract.sender(admin()).mint(holder(), n(ID), n(100)).ortest("mint")?;
    Ok(contract)
}

#[test]
fn single_transfer_respects_freeze() -> Result<(), TestErr> {
    let (contract, admin, holder, dest) = (Token::deploy(), admin(), holder(), dest());
    setup_allowlisted(&contract, admin, holder)?;
    setup_allowlisted(&contract, admin, dest)?;
    contract.sender(admin).mint(holder, n(ID), n(100)).ortest("mint")?;
    contract.sender(admin).set_frozen_tokens(holder, n(ID), n(50)).ortest("freeze")?;
    ensure(
        contract.sender(holder).safe_transfer_from(holder, dest, n(ID), n(60), Vec::new()).is_err(),
        "60 reverts",
    )?;
    contract
        .sender(holder)
        .safe_transfer_from(holder, dest, n(ID), n(50), Vec::new())
        .ortest("50 ok")?;
    ensure(contract.sender(admin).balance_of(holder, n(ID)) == n(50), "holder 50")?;
    Ok(())
}

#[test]
fn duplicate_id_batch_cannot_bypass_freeze() -> Result<(), TestErr> {
    let (contract, admin, holder, dest) = (Token::deploy(), admin(), holder(), dest());
    setup_allowlisted(&contract, admin, holder)?;
    setup_allowlisted(&contract, admin, dest)?;
    contract.sender(admin).mint(holder, n(ID), n(100)).ortest("mint")?;
    contract.sender(admin).set_frozen_tokens(holder, n(ID), n(50)).ortest("freeze 50")?;

    let ids = vec![n(ID), n(ID)];
    let vals = vec![n(50), n(50)];
    ensure(
        contract
            .sender(holder)
            .safe_batch_transfer_from(holder, dest, ids, vals, Vec::new())
            .is_err(),
        "duplicate-id batch must revert (freeze not bypassable)",
    )?;
    ensure(contract.sender(admin).balance_of(holder, n(ID)) == n(100), "holder still 100")?;
    ensure(contract.sender(admin).balance_of(dest, n(ID)) == n(0), "dest still 0")?;
    Ok(())
}

#[test]
fn distinct_id_batch_within_budget_succeeds() -> Result<(), TestErr> {
    let (contract, admin, holder, dest) = (Token::deploy(), admin(), holder(), dest());
    setup_allowlisted(&contract, admin, holder)?;
    setup_allowlisted(&contract, admin, dest)?;
    contract.sender(admin).mint(holder, n(1), n(100)).ortest("mint 1")?;
    contract.sender(admin).mint(holder, n(2), n(100)).ortest("mint 2")?;
    contract.sender(admin).set_frozen_tokens(holder, n(1), n(40)).ortest("freeze 1")?;

    let ids = vec![n(1), n(2)];
    let vals = vec![n(60), n(100)];
    contract
        .sender(holder)
        .safe_batch_transfer_from(holder, dest, ids, vals, Vec::new())
        .ortest("batch ok")?;
    ensure(contract.sender(admin).balance_of(dest, n(1)) == n(60), "dest id1 60")?;
    ensure(contract.sender(admin).balance_of(dest, n(2)) == n(100), "dest id2 100")?;
    Ok(())
}

#[test]
fn transfer_blocked_by_allowlists() -> Result<(), TestErr> {
    let (contract, admin, holder, dest) = (Token::deploy(), admin(), holder(), dest());
    contract.sender(admin).constructor(admin);
    contract.sender(admin).change_receive_whitelist(holder, true).ortest("holder recv")?;
    contract.sender(admin).mint(holder, n(ID), n(100)).ortest("mint")?;
    ensure(
        contract.sender(holder).safe_transfer_from(holder, dest, n(ID), n(1), Vec::new()).is_err(),
        "send blocked",
    )?;
    contract.sender(admin).change_send_whitelist(holder, true).ortest("holder send")?;
    ensure(
        contract.sender(holder).safe_transfer_from(holder, dest, n(ID), n(1), Vec::new()).is_err(),
        "recv blocked",
    )?;
    Ok(())
}

#[test]
fn lib_forced_transfer_seizes_and_self_is_noop() -> Result<(), TestErr> {
    let (contract, admin, holder, dest) = (Token::deploy(), admin(), holder(), dest());
    setup_allowlisted(&contract, admin, holder)?;
    setup_allowlisted(&contract, admin, dest)?;
    contract.sender(admin).mint(holder, n(ID), n(100)).ortest("mint")?;
    contract.sender(admin).set_frozen_tokens(holder, n(ID), n(80)).ortest("freeze 80")?;

    contract.sender(admin).forced_transfer(holder, holder, n(ID), n(80)).ortest("self forced")?;
    ensure(contract.sender(admin).get_frozen_tokens(holder, n(ID)) == n(80), "freeze intact")?;
    ensure(contract.sender(admin).balance_of(holder, n(ID)) == n(100), "balance intact")?;

    contract.sender(admin).forced_transfer(holder, dest, n(ID), n(100)).ortest("seize")?;
    ensure(contract.sender(admin).balance_of(holder, n(ID)) == n(0), "holder 0")?;
    ensure(contract.sender(admin).balance_of(dest, n(ID)) == n(100), "dest 100")?;
    Ok(())
}

#[test]
fn multi_privileged_actions_are_role_gated() -> Result<(), TestErr> {
    let (contract, admin, holder, mallory) = (Token::deploy(), admin(), holder(), mallory());
    setup_allowlisted(&contract, admin, holder)?;
    contract.sender(admin).mint(holder, n(ID), n(100)).ortest("mint")?;
    ensure(
        contract.sender(mallory).set_frozen_tokens(holder, n(ID), n(10)).is_err(),
        "freeze gated",
    )?;
    ensure(
        contract.sender(mallory).forced_transfer(holder, holder, n(ID), n(10)).is_err(),
        "force gated",
    )?;
    ensure(contract.sender(mallory).mint(mallory, n(ID), n(10)).is_err(), "mint gated")?;
    ensure(
        contract.sender(mallory).change_send_whitelist(mallory, true).is_err(),
        "whitelist gated",
    )?;
    Ok(())
}

#[test]
fn can_transfer_matches_execution() -> Result<(), TestErr> {
    let (contract, admin, holder, dest) = (Token::deploy(), admin(), holder(), dest());
    setup_allowlisted(&contract, admin, holder)?;
    setup_allowlisted(&contract, admin, dest)?;
    contract.sender(admin).mint(holder, n(ID), n(50)).ortest("mint")?;
    ensure(
        !contract.sender(holder).can_transfer(holder, dest, n(ID), n(100)),
        "over-balance false",
    )?;
    ensure(contract.sender(holder).can_transfer(holder, dest, n(ID), n(50)), "exact true")?;
    Ok(())
}

#[test]
fn multi_refusals_name_the_caller_and_the_role() {
    let contract = Token::deploy();
    contract.sender(admin()).constructor(admin());
    let one = || vec![n(1)];
    let refused = [
        (contract.sender(mallory()).mint(holder(), n(1), n(1)), minter_role()),
        (contract.sender(mallory()).mint_batch(holder(), one(), one()), minter_role()),
        (contract.sender(mallory()).burn(n(1), n(1)), burner_role()),
        (contract.sender(mallory()).burn_batch(one(), one()), burner_role()),
        (contract.sender(mallory()).set_frozen_tokens(holder(), n(1), n(1)), freezing_role()),
        (contract.sender(mallory()).change_send_whitelist(holder(), true), whitelist_role()),
        (contract.sender(mallory()).change_receive_whitelist(holder(), true), whitelist_role()),
        (
            contract.sender(mallory()).forced_transfer(holder(), dest(), n(1), n(1)),
            force_transfer_role(),
        ),
    ];
    for (answer, role) in refused {
        assert!(matches!(
            answer,
            Err(Error1155::UnauthorizedAccount { account, needed_role })
                if account == mallory() && needed_role == role
        ));
    }
}

#[test]
fn multi_transfers_are_refused_for_the_first_reason() -> Result<(), TestErr> {
    let contract = funded()?;
    contract.sender(admin()).set_frozen_tokens(holder(), n(ID), n(70)).ortest("freeze")?;
    contract.sender(admin()).change_send_whitelist(holder(), false).ortest("block")?;
    let send = |to: Account, value: u64| {
        contract.sender(holder()).safe_transfer_from(holder(), to, n(ID), n(value), Vec::new())
    };
    assert!(matches!(
        send(mallory(), 31),
        Err(Error1155::CannotSend { account }) if account == holder()
    ));
    contract.sender(admin()).change_send_whitelist(holder(), true).ortest("unblock")?;
    assert!(matches!(
        send(mallory(), 31),
        Err(Error1155::CannotReceive { account }) if account == mallory()
    ));
    assert!(matches!(
        send(dest(), 31),
        Err(Error1155::InsufficientUnfrozenBalance { account, token_id, amount, unfrozen })
            if account == holder() && token_id == n(ID) && amount == n(31) && unfrozen == n(30)
    ));
    assert!(send(dest(), 30).is_ok());
    assert_eq!(contract.sender(admin()).unfrozen_balance(holder(), n(ID)), n(0));
    Ok(())
}

#[test]
fn a_batch_is_refused_for_its_first_id_that_is_short() -> Result<(), TestErr> {
    let contract = funded()?;
    contract.sender(admin()).mint(holder(), n(2), n(10)).ortest("mint 2")?;
    contract.sender(admin()).set_frozen_tokens(holder(), n(2), n(4)).ortest("freeze 2")?;
    let answer = contract.sender(holder()).safe_batch_transfer_from(
        holder(),
        dest(),
        vec![n(1), n(2), n(1), n(2)],
        vec![n(50), n(3), n(50), n(4)],
        Vec::new(),
    );
    assert!(matches!(
        answer,
        Err(Error1155::InsufficientUnfrozenBalance { account, token_id, amount, unfrozen })
            if account == holder() && token_id == n(2) && amount == n(7) && unfrozen == n(6)
    ));
    contract
        .sender(holder())
        .safe_batch_transfer_from(
            holder(),
            dest(),
            vec![n(1), n(2), n(1), n(2)],
            vec![n(50), n(3), n(50), n(3)],
            vec![1, 2, 3],
        )
        .ortest("repeated ids within what is not frozen")?;
    assert_eq!(contract.sender(admin()).balance_of(dest(), n(1)), n(100));
    assert_eq!(contract.sender(admin()).balance_of(dest(), n(2)), n(6));
    assert_eq!(contract.sender(admin()).balance_of(holder(), n(2)), n(4));
    Ok(())
}

#[test]
fn a_batch_whose_total_wraps_around_moves_nothing_frozen() -> Result<(), TestErr> {
    let contract = funded()?;
    contract.sender(admin()).set_frozen_tokens(holder(), n(ID), n(100)).ortest("freeze")?;
    let half = U256 { limbs: [0, 0, 0, 1 << 63] };
    let answer = contract.sender(holder()).safe_batch_transfer_from(
        holder(),
        dest(),
        vec![n(ID), n(ID)],
        vec![half, half],
        Vec::new(),
    );
    assert!(matches!(
        answer,
        Err(Error1155::InsufficientBalance { sender, balance, needed, token_id })
            if sender == holder() && balance == n(100) && needed == half && token_id == n(ID)
    ));
    assert_eq!(contract.sender(admin()).balance_of(holder(), n(ID)), n(100));
    Ok(())
}

#[test]
fn lists_must_be_equally_long() -> Result<(), TestErr> {
    let contract = funded()?;
    contract.sender(admin()).grant_role(burner_role(), holder()).ortest("grant")?;
    let answers = [
        contract.sender(holder()).safe_batch_transfer_from(
            holder(),
            dest(),
            vec![n(ID), n(ID)],
            vec![n(1)],
            Vec::new(),
        ),
        contract.sender(admin()).mint_batch(dest(), vec![n(ID), n(ID)], vec![n(1)]),
        contract.sender(holder()).burn_batch(vec![n(ID), n(ID)], vec![n(1)]),
    ];
    for answer in answers {
        assert!(matches!(
            answer,
            Err(Error1155::InvalidArrayLength { ids_length, values_length })
                if ids_length == n(2) && values_length == n(1)
        ));
    }
    assert!(matches!(
        contract.sender(admin()).balance_of_batch(vec![holder()], vec![n(1), n(2), n(3)]),
        Err(Error1155::InvalidArrayLength { ids_length, values_length })
            if ids_length == n(3) && values_length == n(1)
    ));
    assert!(matches!(
        contract.sender(admin()).balance_of_batch(
            vec![holder(), dest(), holder()],
            vec![n(ID), n(ID), n(2)],
        ),
        Ok(balances) if balances == vec![n(100), n(0), n(0)]
    ));
    Ok(())
}

#[test]
fn batches_mint_and_burn() -> Result<(), TestErr> {
    let contract = funded()?;
    contract
        .sender(admin())
        .mint_batch(holder(), vec![n(1), n(2), n(2)], vec![n(5), n(6), n(7)])
        .ortest("mint batch")?;
    assert_eq!(contract.sender(admin()).balance_of(holder(), n(1)), n(105));
    assert_eq!(contract.sender(admin()).balance_of(holder(), n(2)), n(13));
    contract.sender(admin()).grant_role(burner_role(), holder()).ortest("grant")?;
    contract.sender(admin()).set_frozen_tokens(holder(), n(1), n(100)).ortest("freeze")?;
    contract
        .sender(holder())
        .burn_batch(vec![n(1), n(2)], vec![n(15), n(13)])
        .ortest("burn batch")?;
    assert_eq!(contract.sender(admin()).balance_of(holder(), n(1)), n(90));
    assert_eq!(contract.sender(admin()).get_frozen_tokens(holder(), n(1)), n(90));
    assert_eq!(contract.sender(admin()).balance_of(holder(), n(2)), n(0));
    assert!(matches!(
        contract.sender(holder()).burn(n(1), n(91)),
        Err(Error1155::InsufficientBalance { sender, balance, needed, token_id })
            if sender == holder() && balance == n(90) && needed == n(91) && token_id == n(1)
    ));
    contract.sender(admin()).change_send_whitelist(holder(), false).ortest("block")?;
    assert!(matches!(
        contract.sender(holder()).burn(n(1), n(1)),
        Err(Error1155::CannotSend { account }) if account == holder()
    ));
    Ok(())
}

#[test]
fn burning_a_repeated_id_is_burning_one_after_the_other() -> Result<(), TestErr> {
    let burn = |frozen: u64, amounts: &[u64]| -> Result<(U256, U256), TestErr> {
        let contract = funded()?;
        contract.sender(admin()).grant_role(burner_role(), holder()).ortest("grant")?;
        contract.sender(admin()).set_frozen_tokens(holder(), n(ID), n(frozen)).ortest("freeze")?;
        let amounts: Vec<U256> = amounts.iter().map(|amount| n(*amount)).collect();
        contract
            .sender(holder())
            .burn_batch(vec![n(ID); amounts.len()], amounts)
            .ortest("burn batch")?;
        let token = contract.sender(admin());
        Ok((token.balance_of(holder(), n(ID)), token.get_frozen_tokens(holder(), n(ID))))
    };
    assert_eq!(burn(80, &[50, 50])?, (n(0), n(0)));
    assert_eq!(burn(50, &[50, 50])?, (n(0), n(0)));
    assert_eq!(burn(80, &[10, 10])?, (n(80), n(80)));
    assert_eq!(burn(80, &[15, 15])?, (n(70), n(70)));
    assert_eq!(burn(80, &[10, 20, 30])?, (n(40), n(40)));
    assert_eq!(burn(150, &[30, 20])?, (n(50), n(100)));
    Ok(())
}

#[test]
fn burning_a_repeated_id_logs_each_release() -> Result<(), TestErr> {
    let contract = funded()?;
    contract.sender(admin()).grant_role(burner_role(), holder()).ortest("grant")?;
    contract.sender(admin()).set_frozen_tokens(holder(), n(ID), n(80)).ortest("freeze")?;
    contract
        .sender(holder())
        .burn_batch(vec![n(ID), n(ID)], vec![n(50), n(50)])
        .ortest("burn batch")?;
    let amounts: Vec<Vec<u8>> = contract
        .logged("Frozen(address,uint256,uint256)")
        .into_iter()
        .map(|(_, data)| data)
        .collect();
    assert_eq!(
        amounts,
        vec![number_word(80).to_vec(), number_word(50).to_vec(), number_word(0).to_vec()]
    );
    Ok(())
}

#[test]
fn operators_send_for_owners() -> Result<(), TestErr> {
    let contract = funded()?;
    let agent = account(0x33);
    let send = || {
        contract.sender(agent).safe_transfer_from(holder(), dest(), n(ID), n(10), Vec::new())
    };
    assert!(matches!(
        send(),
        Err(Error1155::MissingApprovalForAll { operator, owner })
            if operator == agent && owner == holder()
    ));
    contract.sender(holder()).set_approval_for_all(agent, true).ortest("operator")?;
    assert!(contract.sender(holder()).is_approved_for_all(holder(), agent));
    assert!(send().is_ok());
    assert_eq!(contract.sender(admin()).balance_of(dest(), n(ID)), n(10));
    contract.sender(holder()).set_approval_for_all(agent, false).ortest("no operator")?;
    assert!(send().is_err());
    assert!(matches!(
        contract.sender(holder()).set_approval_for_all(Account::zero(), true),
        Err(Error1155::InvalidOperator { operator }) if operator == Account::zero()
    ));
    Ok(())
}

#[test]
fn the_zero_account_has_no_tokens() -> Result<(), TestErr> {
    let contract = funded()?;
    let zero = Account::zero();
    assert!(matches!(
        contract.sender(admin()).forced_transfer(holder(), zero, n(ID), n(1)),
        Err(Error1155::InvalidReceiver { receiver }) if receiver == zero
    ));
    assert!(matches!(
        contract.sender(admin()).forced_transfer(zero, dest(), n(ID), n(1)),
        Err(Error1155::InvalidSender { sender }) if sender == zero
    ));
    setup_allowlisted(&contract, admin(), zero)?;
    assert!(matches!(
        contract.sender(admin()).mint(zero, n(ID), n(1)),
        Err(Error1155::InvalidReceiver { receiver }) if receiver == zero
    ));
    assert!(matches!(
        contract.sender(holder()).safe_transfer_from(holder(), zero, n(ID), n(1), Vec::new()),
        Err(Error1155::InvalidReceiver { receiver }) if receiver == zero
    ));
    assert!(matches!(
        contract.sender(zero).safe_transfer_from(zero, dest(), n(ID), n(0), Vec::new()),
        Err(Error1155::InvalidSender { sender }) if sender == zero
    ));
    let token = contract.sender(holder());
    assert!(!token.can_transfer(holder(), zero, n(ID), n(1)));
    assert!(!token.can_transfer(zero, dest(), n(ID), n(0)));
    assert!(token.can_transfer(holder(), dest(), n(ID), n(1)));
    Ok(())
}

#[test]
fn seizing_takes_unfrozen_tokens_first() -> Result<(), TestErr> {
    let contract = funded()?;
    contract.sender(admin()).set_frozen_tokens(holder(), n(ID), n(60)).ortest("freeze")?;
    contract.sender(admin()).change_send_whitelist(holder(), false).ortest("block")?;
    contract.sender(admin()).forced_transfer(holder(), dest(), n(ID), n(30)).ortest("seize 30")?;
    assert_eq!(contract.sender(admin()).get_frozen_tokens(holder(), n(ID)), n(60));
    contract.sender(admin()).forced_transfer(holder(), dest(), n(ID), n(30)).ortest("seize 30")?;
    assert_eq!(contract.sender(admin()).get_frozen_tokens(holder(), n(ID)), n(40));
    assert_eq!(contract.sender(admin()).balance_of(holder(), n(ID)), n(40));
    assert_eq!(contract.sender(admin()).balance_of(dest(), n(ID)), n(60));
    assert!(matches!(
        contract.sender(admin()).forced_transfer(holder(), dest(), n(ID), n(41)),
        Err(Error1155::InsufficientBalance { sender, balance, needed, token_id })
            if sender == holder() && balance == n(40) && needed == n(41) && token_id == n(ID)
    ));
    assert_eq!(contract.sender(admin()).get_frozen_tokens(holder(), n(ID)), n(40));
    assert!(matches!(
        contract.sender(admin()).forced_transfer(holder(), mallory(), n(ID), n(1)),
        Err(Error1155::CannotReceive { account }) if account == mallory()
    ));
    Ok(())
}

#[test]
fn a_contract_that_takes_no_tokens_gets_none() -> Result<(), TestErr> {
    let deaf = Contract::<Erc20>::new();
    let custody = Account { bytes: deaf.address().0 .0 };
    let single = "function not found for selector '4063915617'";
    let batch = "function not found for selector '3155786881'";
    let contract = || {
        let contract = funded()?;
        contract.sender(admin()).change_receive_whitelist(custody, true).ortest("recv wl")?;
        Ok::<Token, TestErr>(contract)
    };
    let answers = [
        (contract()?.sender(admin()).mint(custody, n(ID), n(1)), single),
        (
            contract()?.sender(admin()).mint_batch(custody, vec![n(1), n(2)], vec![n(1), n(1)]),
            batch,
        ),
        (contract()?.sender(admin()).forced_transfer(holder(), custody, n(ID), n(1)), single),
        (
            contract()?.sender(holder()).safe_transfer_from(
                holder(),
                custody,
                n(ID),
                n(1),
                vec![5],
            ),
            single,
        ),
        (
            contract()?.sender(holder()).safe_batch_transfer_from(
                holder(),
                custody,
                vec![n(ID), n(ID)],
                vec![n(1), n(1)],
                vec![5],
            ),
            batch,
        ),
    ];
    for (answer, start) in answers {
        assert!(matches!(
            answer,
            Err(Error1155::InvalidReceiverWithReason { reason }) if reason.starts_with(start)
        ));
    }
    assert!(contract()?.sender(admin()).forced_transfer(custody, custody, n(ID), n(1)).is_ok());
    Ok(())
}

#[test]
fn balances_stop_at_the_largest_integer() -> Result<(), TestErr> {
    let contract = funded()?;
    let max = U256::max_value();
    let Some(room) = max.checked_sub(&n(100)) else {
        return Err(TestErr("room"));
    };
    assert!(contract.sender(admin()).try_mint(holder(), n(ID), max).is_none());
    assert!(contract
        .sender(admin())
        .try_mint_batch(holder(), vec![n(ID), n(2), n(ID)], vec![room, max, n(1)])
        .is_none());
    assert_eq!(contract.sender(admin()).balance_of(holder(), n(ID)), n(100));
    assert_eq!(contract.sender(admin()).balance_of(holder(), n(2)), n(0));
    assert!(matches!(
        contract.sender(admin()).try_mint_batch(
            holder(),
            vec![n(ID), n(2)],
            vec![room, max],
        ),
        Some(Ok(()))
    ));
    assert_eq!(contract.sender(admin()).balance_of(holder(), n(ID)), max);
    assert!(matches!(contract.sender(admin()).try_mint(dest(), n(ID), n(7)), Some(Ok(()))));
    let try_send = |from: Account, to: Account, value: U256| {
        contract.sender(from).try_safe_transfer_from(from, to, n(ID), value, Vec::new())
    };
    assert!(try_send(dest(), holder(), n(1)).is_none());
    assert!(matches!(try_send(holder(), holder(), max), Some(Ok(()))));
    assert!(matches!(
        try_send(dest(), holder(), n(8)),
        Some(Err(Error1155::InsufficientUnfrozenBalance { .. }))
    ));
    assert!(contract
        .sender(dest())
        .try_safe_batch_transfer_from(
            dest(),
            holder(),
            vec![n(ID), n(ID)],
            vec![n(0), n(1)],
            Vec::new(),
        )
        .is_none());
    assert!(contract
        .sender(admin())
        .try_forced_transfer(dest(), holder(), n(ID), n(1))
        .is_none());
    assert!(matches!(
        contract.sender(admin()).try_forced_transfer(dest(), holder(), n(ID), n(8)),
        Some(Err(Error1155::InsufficientBalance { .. }))
    ));
    assert!(matches!(
        contract.sender(admin()).try_forced_transfer(holder(), holder(), n(ID), max),
        Some(Ok(()))
    ));
    assert!(matches!(
        contract.sender(dest()).try_safe_batch_transfer_from(
            dest(),
            holder(),
            vec![n(ID), n(ID)],
            vec![n(0), n(0)],
            Vec::new(),
        ),
        Some(Ok(()))
    ));
    assert_eq!(contract.sender(admin()).balance_of(dest(), n(ID)), n(7));
    Ok(())
}

#[test]
fn multi_changes_are_logged() -> Result<(), TestErr> {
    let contract = funded()?;
    contract.sender(admin()).set_frozen_tokens(holder(), n(ID), n(80)).ortest("freeze")?;
    contract.sender(admin()).forced_transfer(holder(), dest(), n(ID), n(30)).ortest("seize")?;
    contract.sender(admin()).forced_transfer(holder(), holder(), n(ID), n(7)).ortest("self")?;
    assert_eq!(
        contract.logged("Frozen(address,uint256,uint256)"),
        vec![
            (vec![address_word(holder()), number_word(ID)], number_word(80).to_vec()),
            (vec![address_word(holder()), number_word(ID)], number_word(70).to_vec()),
        ]
    );
    assert_eq!(
        contract.logged("ForcedTransfer(address,address,uint256,uint256)"),
        vec![
            (
                vec![address_word(holder()), address_word(dest()), number_word(ID)],
                number_word(30).to_vec()
            ),
            (
                vec![address_word(holder()), address_word(holder()), number_word(ID)],
                number_word(7).to_vec()
            ),
        ]
    );
    Ok(())
}

#[test]
fn multi_roles_are_granted_revoked_and_renounced() {
    let contract = Token::deploy();
    contract.sender(admin()).constructor(admin());
    assert_eq!(contract.sender(admin()).get_role_admin(burner_role()), default_admin_role());
    assert!(contract.sender(admin()).grant_role(burner_role(), holder()).is_ok());
    assert!(contract.sender(holder()).only_role(burner_role()).is_ok());
    assert!(contract.sender(admin()).revoke_role(burner_role(), holder()).is_ok());
    assert!(matches!(
        contract.sender(holder()).only_role(burner_role()),
        Err(AccessError::UnauthorizedAccount { account, needed_role })
            if account == holder() && needed_role == burner_role()
    ));
    assert!(matches!(
        contract.sender(holder()).renounce_role(burner_role(), admin()),
        Err(AccessError::BadConfirmation)
    ));
    assert!(contract.sender(admin()).renounce_role(burner_role(), admin()).is_ok());
    assert!(!contract.sender(admin()).has_role(burner_role(), admin()));
}

#[test]
fn multi_interfaces_are_announced() {
    let contract = Token::deploy();
    let token = contract.sender(admin());
    assert!(token.supports_interface([0x01, 0xff, 0xc9, 0xa7]));
    assert!(token.supports_interface([0xd9, 0xb6, 0x7a, 0x26]));
    assert!(token.supports_interface([0x0e, 0xdd, 0x8b, 0x6c]));
    assert!(!token.supports_interface([0x80, 0xac, 0x58, 0xcd]));
    assert!(!token.supports_interface([0xff, 0xff, 0xff, 0xff]));
}

#[test]
fn multi_refusals_of_the_base_contracts_keep_their_contents() {
    let (a, b) = (account(1), account(2));
    assert!(matches!(
        Error1155::from(Erc1155Error::InvalidReceiverWithReason { reason: "no".into() }),
        Error1155::InvalidReceiverWithReason { reason } if reason == "no"
    ));
    assert!(matches!(
        Error1155::from(Erc1155Error::MissingApprovalForAll { operator: a, owner: b }),
        Error1155::MissingApprovalForAll { operator, owner } if operator == a && owner == b
    ));
    assert!(matches!(
        Error1155::from(Erc1155Error::InvalidApprover { approver: a }),
        Error1155::InvalidApprover { approver } if approver == a
    ));
    assert!(matches!(
        Error1155::from(Erc1155Error::InvalidArrayLength {
            ids_length: n(1),
            values_length: n(2)
        }),
        Error1155::InvalidArrayLength { ids_length, values_length }
            if ids_length == n(1) && values_length == n(2)
    ));
    assert!(matches!(
        Error1155::from(AccessError::UnauthorizedAccount { account: a, needed_role: [9; 32] }),
        Error1155::UnauthorizedAccount { account, needed_role }
            if account == a && needed_role == [9; 32]
    ));
    assert!(matches!(Error1155::from(AccessError::BadConfirmation), Error1155::BadConfirmation));
}

#[test]
fn every_multi_event_is_logged_in_order() -> Result<(), TestErr> {
    let contract = Token::deploy();
    let zero = address_word(Account::zero());
    let (h, d, a) = (address_word(holder()), address_word(dest()), address_word(admin()));
    setup_allowlisted(&contract, admin(), holder())?;
    setup_allowlisted(&contract, admin(), dest())?;
    let start = contract.log().len();
    assert_eq!(start, 10);
    contract.sender(admin()).mint(holder(), n(1), n(100)).ortest("mint")?;
    contract
        .sender(admin())
        .mint_batch(holder(), vec![n(1), n(2)], vec![n(3), n(4)])
        .ortest("mint batch")?;
    contract.sender(holder()).set_approval_for_all(dest(), true).ortest("operator")?;
    contract
        .sender(dest())
        .safe_transfer_from(holder(), dest(), n(1), n(5), Vec::new())
        .ortest("transfer")?;
    contract
        .sender(holder())
        .safe_batch_transfer_from(holder(), dest(), Vec::new(), Vec::new(), Vec::new())
        .ortest("nothing")?;
    contract
        .sender(holder())
        .safe_batch_transfer_from(holder(), dest(), vec![n(2)], vec![n(1)], Vec::new())
        .ortest("batch of one")?;
    contract.sender(admin()).set_frozen_tokens(holder(), n(1), n(98)).ortest("freeze")?;
    contract.sender(admin()).forced_transfer(holder(), dest(), n(1), n(8)).ortest("seize")?;
    contract.sender(admin()).grant_role(burner_role(), holder()).ortest("grant")?;
    contract.sender(holder()).burn(n(2), n(1)).ortest("burn")?;
    contract
        .sender(holder())
        .burn_batch(vec![n(2), n(1)], vec![n(2), n(10)])
        .ortest("burn batch")?;
    let single = "TransferSingle(address,address,address,uint256,uint256)";
    let batch = "TransferBatch(address,address,address,uint256[],uint256[])";
    let frozen = "Frozen(address,uint256,uint256)";
    let list = |values: &[u64]| values.iter().map(|v| number_word(*v)).collect::<Vec<_>>();
    assert_eq!(
        contract.log()[start..].to_vec(),
        vec![
            entry(single, &[a, zero, h], &list(&[1, 100])),
            entry(batch, &[a, zero, h], &list(&[64, 160, 2, 1, 2, 2, 3, 4])),
            entry("ApprovalForAll(address,address,bool)", &[h, d], &list(&[1])),
            entry(single, &[d, h, d], &list(&[1, 5])),
            entry(batch, &[h, h, d], &list(&[64, 96, 0, 0])),
            entry(single, &[h, h, d], &list(&[2, 1])),
            entry(frozen, &[h, number_word(1)], &list(&[98])),
            entry(frozen, &[h, number_word(1)], &list(&[90])),
            entry(single, &[a, h, zero], &list(&[1, 8])),
            entry(single, &[a, zero, d], &list(&[1, 8])),
            entry(
                "ForcedTransfer(address,address,uint256,uint256)",
                &[h, d, number_word(1)],
                &list(&[8])
            ),
            entry("RoleGranted(bytes32,address,address)", &[burner_role(), h, a], &[]),
            entry(single, &[h, h, zero], &list(&[2, 1])),
            entry(frozen, &[h, number_word(1)], &list(&[80])),
            entry(batch, &[h, h, zero], &list(&[64, 160, 2, 2, 1, 2, 2, 10])),
        ]
    );
    Ok(())
}

#[test]
fn a_batch_to_oneself_moves_nothing() -> Result<(), TestErr> {
    let contract = funded()?;
    let half = U256 { limbs: [0, 0, 0, 1 << 63] };
    contract.sender(admin()).mint(holder(), n(2), half).ortest("mint half")?;
    contract.sender(admin()).set_frozen_tokens(holder(), n(2), half).ortest("freeze")?;
    let send = |ids: Vec<U256>, values: Vec<U256>| {
        contract.sender(holder()).safe_batch_transfer_from(
            holder(),
            holder(),
            ids,
            values,
            Vec::new(),
        )
    };
    assert!(send(vec![n(ID), n(ID)], vec![n(60), n(40)]).is_ok());
    assert!(matches!(
        send(vec![n(ID), n(ID)], vec![n(60), n(41)]),
        Err(Error1155::InsufficientUnfrozenBalance { amount, unfrozen, .. })
            if amount == n(101) && unfrozen == n(100)
    ));
    assert!(send(vec![n(2), n(2)], vec![half, half]).is_ok());
    assert!(send(vec![n(2)], vec![half]).is_err());
    assert_eq!(contract.sender(admin()).balance_of(holder(), n(ID)), n(100));
    assert_eq!(contract.sender(admin()).balance_of(holder(), n(2)), half);
    assert_eq!(contract.sender(admin()).get_frozen_tokens(holder(), n(2)), half);
    Ok(())
}
