//! The unique token, run on an in-process chain.

use motsu::prelude::Contract;
use openzeppelin_stylus::access::control::AccessControl;
use openzeppelin_stylus::token::erc20::Erc20;
use openzeppelin_stylus::token::erc721::{Erc721, IErc721};
use stylus_sdk::host::WasmVM;
use stylus_sdk::storage::StorageMap;
use stylus_sdk::testing::TestVM;

use urwa::access::{
    burner_role, default_admin_role, force_transfer_role, freezing_role, minter_role,
    whitelist_role, AccessError,
};
use urwa::account::Account;
use urwa::erc721::Erc721Error;
use urwa::storage::{AccountFlags, TokenFlags};
use urwa::uint::U256;
use urwa::urwa721::{Error721, URWA721};

struct Token {
    stage: Contract<Erc721>,
    erc721: TestVM,
    access: TestVM,
    send_whitelist: TestVM,
    receive_whitelist: TestVM,
    frozen: TestVM,
}

impl Token {
    fn deploy() -> Token {
        Token {
            stage: Contract::new(),
            erc721: TestVM::new(),
            access: TestVM::new(),
            send_whitelist: TestVM::new(),
            receive_whitelist: TestVM::new(),
            frozen: TestVM::new(),
        }
    }

    /// The token, called by `who`.
    fn sender(&self, who: Account) -> URWA721 {
        let address = alloy_primitives::Address::from(who.bytes);
        let _ = self.stage.sender(address).is_approved_for_all(address, address);
        URWA721 {
            host: WasmVM {},
            erc721: Erc721::from(&self.erc721),
            access: AccessControl::from(&self.access),
            send_whitelist: AccountFlags { slots: StorageMap::from(&self.send_whitelist) },
            receive_whitelist: AccountFlags { slots: StorageMap::from(&self.receive_whitelist) },
            frozen: TokenFlags { slots: StorageMap::from(&self.frozen) },
        }
    }

    /// The topics and the data of the entries logged under `signature`.
    fn logged(&self, signature: &str) -> Vec<(Vec<[u8; 32]>, Vec<u8>)> {
        let digest = keccak_const::Keccak256::new().update(signature.as_bytes()).finalize();
        let mut found = Vec::new();
        for entry in self.stage.all_events() {
            let topics: Vec<[u8; 32]> = entry.topics().iter().map(|t| t.0).collect();
            if topics[0] == digest {
                found.push((topics[1..].to_vec(), entry.data.to_vec()));
            }
        }
        found
    }

    /// All entries logged so far: topics and data.
    fn log(&self) -> Vec<(Vec<[u8; 32]>, Vec<u8>)> {
        let entries = self.stage.all_events();
        entries
            .iter()
            .map(|e| (e.topics().iter().map(|t| t.0).collect(), e.data.to_vec()))
            .collect()
    }
}

fn entry(
    signature: &str,
    indexed: &[[u8; 32]],
    data: &[[u8; 32]],
) -> (Vec<[u8; 32]>, Vec<u8>) {
    let digest = keccak_const::Keccak256::new().update(signature.as_bytes()).finalize();
    let mut topics = vec![digest];
    topics.extend_from_slice(indexed);
    (topics, data.concat())
}

#[derive(Debug)]
#[allow(dead_code)]
struct TestErr(&'static str);

fn ensure(cond: bool, msg: &'static str) -> Result<(), TestErr> {
    cond.then_some(()).ok_or(TestErr(msg))
}

trait OrTest<T> {
    fn ortest(self, msg: &'static str) -> Result<T, TestErr>;
}

impl<T, E> OrTest<T> for Result<T, E> {
    fn ortest(self, msg: &'static str) -> Result<T, TestErr> {
        self.map_err(|_| TestErr(msg))
    }
}

fn n(x: u64) -> U256 {
    U256::from_u64(x)
}

const TOKEN: u64 = 1;

fn account(tag: u8) -> Account {
    Account { bytes: [tag; 20] }
}

fn admin() -> Account {
    account(0xad)
}

fn holder() -> Account {
    account(0x11)
}

fn dest() -> Account {
    account(0x22)
}

fn mallory() -> Account {
    account(0x66)
}

fn address_word(who: Account) -> [u8; 32] {
    let mut word = [0u8; 32];
    word[12..].copy_from_slice(&who.bytes);
    word
}

fn number_word(x: u64) -> [u8; 32] {
    let mut word = [0u8; 32];
    word[24..].copy_from_slice(&x.to_be_bytes());
    word
}

fn setup_allowlisted(contract: &Token, admin: Account, who: Account) -> Result<(), TestErr> {
    contract.sender(admin).constructor(admin);
    contract.sender(admin).change_send_whitelist(who, true).ortest("send wl")?;
    contract.sender(admin).change_receive_whitelist(who, true).ortest("recv wl")?;
    Ok(())
}

/// A token that `holder` owns, with `holder` and `dest` on both allowlists.
fn minted() -> Result<Token, TestErr> {
    let contract = Token::deploy();
    setup_allowlisted(&contract, admin(), holder())?;
    setup_allowlisted(&contract, admin(), dest())?;
    contract.sender(admin()).safe_mint(holder(), n(TOKEN)).ortest("mint")?;
    Ok(contract)
}

#[test]
fn constructor_grants_roles() -> Result<(), TestErr> {
    let (contract, admin) = (Token::deploy(), admin());
    contract.sender(admin).constructor(admin);
    let c = contract.sender(admin);
    ensure(c.has_role(minter_role(), admin), "MINTER")?;
    ensure(c.has_role(force_transfer_role(), admin), "FORCE")?;
    Ok(())
}

#[test]
fn mint_requires_role_and_receive_allowlist() -> Result<(), TestErr> {
    let (contract, admin, holder, mallory) = (Token::deploy(), admin(), holder(), mallory());
    contract.sender(admin).constructor(admin);
    ensure(
        contract.sender(admin).safe_mint(holder, n(TOKEN)).is_err(),
        "mint to non-allowlisted reverts",
    )?;
    contract.sender(admin).change_receive_whitelist(holder, true).ortest("recv wl")?;
    ensure(contract.sender(mallory).safe_mint(holder, n(TOKEN)).is_err(), "non-minter reverts")?;
    contract.sender(admin).safe_mint(holder, n(TOKEN)).ortest("mint ok")?;
    ensure(contract.sender(admin).owner_of(n(TOKEN)).ortest("owner")? == holder, "holder owns")?;
    Ok(())
}

#[test]
fn transfer_respects_allowlists_and_freeze() -> Result<(), TestErr> {
    let (contract, admin, holder, dest) = (Token::deploy(), admin(), holder(), dest());
    setup_allowlisted(&contract, admin, holder)?;
    setup_allowlisted(&contract, admin, dest)?;
    contract.sender(admin).safe_mint(holder, n(TOKEN)).ortest("mint")?;

    contract.sender(admin).set_frozen_tokens(holder, n(TOKEN), true).ortest("freeze")?;
    ensure(
        contract.sender(holder).transfer_from(holder, dest, n(TOKEN)).is_err(),
        "frozen cannot move",
    )?;

    contract.sender(admin).set_frozen_tokens(holder, n(TOKEN), false).ortest("unfreeze")?;
    contract.sender(holder).transfer_from(holder, dest, n(TOKEN)).ortest("transfer ok")?;
    ensure(contract.sender(admin).owner_of(n(TOKEN)).ortest("owner")? == dest, "dest owns")?;
    Ok(())
}

#[test]
fn transfer_to_non_allowlisted_reverts() -> Result<(), TestErr> {
    let (contract, admin, holder, dest) = (Token::deploy(), admin(), holder(), dest());
    setup_allowlisted(&contract, admin, holder)?;
    contract.sender(admin).safe_mint(holder, n(TOKEN)).ortest("mint")?;
    ensure(
        contract.sender(holder).transfer_from(holder, dest, n(TOKEN)).is_err(),
        "to not allowlisted",
    )?;
    Ok(())
}

#[test]
fn forced_transfer_seizes_and_self_is_noop() -> Result<(), TestErr> {
    let (contract, admin, holder, dest) = (Token::deploy(), admin(), holder(), dest());
    setup_allowlisted(&contract, admin, holder)?;
    setup_allowlisted(&contract, admin, dest)?;
    contract.sender(admin).safe_mint(holder, n(TOKEN)).ortest("mint")?;
    contract.sender(admin).set_frozen_tokens(holder, n(TOKEN), true).ortest("freeze")?;

    contract.sender(admin).forced_transfer(holder, holder, n(TOKEN)).ortest("self forced")?;
    ensure(contract.sender(admin).get_frozen_tokens(holder, n(TOKEN)), "still frozen")?;
    ensure(contract.sender(admin).owner_of(n(TOKEN)).ortest("owner")? == holder, "still holder")?;

    contract.sender(admin).forced_transfer(holder, dest, n(TOKEN)).ortest("seize")?;
    ensure(contract.sender(admin).owner_of(n(TOKEN)).ortest("owner2")? == dest, "dest owns")?;
    ensure(!contract.sender(admin).get_frozen_tokens(dest, n(TOKEN)), "freeze cleared")?;
    Ok(())
}

#[test]
fn forced_transfer_requires_owner_match() -> Result<(), TestErr> {
    let (contract, admin, holder, dest) = (Token::deploy(), admin(), holder(), dest());
    let stranger = account(0x77);
    setup_allowlisted(&contract, admin, holder)?;
    setup_allowlisted(&contract, admin, dest)?;
    contract.sender(admin).safe_mint(holder, n(TOKEN)).ortest("mint")?;
    ensure(
        contract.sender(admin).forced_transfer(stranger, dest, n(TOKEN)).is_err(),
        "wrong from reverts",
    )?;
    Ok(())
}

#[test]
fn lib_privileged_actions_are_role_gated() -> Result<(), TestErr> {
    let (contract, admin, holder, mallory) = (Token::deploy(), admin(), holder(), mallory());
    setup_allowlisted(&contract, admin, holder)?;
    contract.sender(admin).safe_mint(holder, n(TOKEN)).ortest("mint")?;
    ensure(
        contract.sender(mallory).set_frozen_tokens(holder, n(TOKEN), true).is_err(),
        "freeze gated",
    )?;
    ensure(
        contract.sender(mallory).forced_transfer(holder, mallory, n(TOKEN)).is_err(),
        "force gated",
    )?;
    ensure(contract.sender(mallory).burn(n(TOKEN)).is_err(), "burn gated")?;
    ensure(
        contract.sender(mallory).change_send_whitelist(mallory, true).is_err(),
        "whitelist gated",
    )?;
    Ok(())
}

#[test]
fn burn_clears_freeze() -> Result<(), TestErr> {
    let (contract, admin, holder) = (Token::deploy(), admin(), holder());
    setup_allowlisted(&contract, admin, holder)?;
    contract.sender(admin).safe_mint(holder, n(TOKEN)).ortest("mint")?;
    contract.sender(admin).set_frozen_tokens(holder, n(TOKEN), true).ortest("freeze")?;
    contract.sender(admin).burn(n(TOKEN)).ortest("burn")?;
    ensure(contract.sender(admin).owner_of(n(TOKEN)).is_err(), "token gone")?;
    ensure(!contract.sender(admin).get_frozen_tokens(holder, n(TOKEN)), "freeze cleared")?;
    Ok(())
}

#[test]
fn deed_refusals_name_the_caller_and_the_role() {
    let contract = Token::deploy();
    contract.sender(admin()).constructor(admin());
    let refused = [
        (contract.sender(mallory()).safe_mint(holder(), n(TOKEN)), minter_role()),
        (contract.sender(mallory()).burn(n(TOKEN)), burner_role()),
        (contract.sender(mallory()).set_frozen_tokens(holder(), n(TOKEN), true), freezing_role()),
        (contract.sender(mallory()).change_send_whitelist(holder(), true), whitelist_role()),
        (contract.sender(mallory()).change_receive_whitelist(holder(), true), whitelist_role()),
        (
            contract.sender(mallory()).forced_transfer(holder(), dest(), n(TOKEN)),
            force_transfer_role(),
        ),
    ];
    for (answer, role) in refused {
        assert!(matches!(
            answer,
            Err(Error721::UnauthorizedAccount { account, needed_role })
                if account == mallory() && needed_role == role
        ));
    }
}

#[test]
fn deed_transfers_are_refused_for_the_first_reason() -> Result<(), TestErr> {
    let contract = minted()?;
    contract.sender(admin()).set_frozen_tokens(holder(), n(TOKEN), true).ortest("freeze")?;
    contract.sender(admin()).change_send_whitelist(holder(), false).ortest("block")?;
    for answer in [
        contract.sender(holder()).transfer_from(holder(), mallory(), n(TOKEN)),
        contract.sender(holder()).safe_transfer_from(holder(), mallory(), n(TOKEN)),
        contract.sender(holder()).safe_transfer_from_with_data(
            holder(),
            mallory(),
            n(TOKEN),
            vec![1, 2],
        ),
        contract.sender(holder()).enforce_transfer(holder(), mallory(), n(TOKEN)),
    ] {
        assert!(matches!(
            answer,
            Err(Error721::InsufficientUnfrozenBalance { account, token_id })
                if account == holder() && token_id == n(TOKEN)
        ));
    }
    contract.sender(admin()).set_frozen_tokens(holder(), n(TOKEN), false).ortest("thaw")?;
    assert!(matches!(
        contract.sender(holder()).transfer_from(holder(), mallory(), n(TOKEN)),
        Err(Error721::CannotSend { account }) if account == holder()
    ));
    contract.sender(admin()).change_send_whitelist(holder(), true).ortest("unblock")?;
    assert!(matches!(
        contract.sender(holder()).transfer_from(holder(), mallory(), n(TOKEN)),
        Err(Error721::CannotReceive { account }) if account == mallory()
    ));
    Ok(())
}

#[test]
fn the_question_agrees_with_the_deed() -> Result<(), TestErr> {
    let contract = minted()?;
    assert!(contract.sender(holder()).can_transfer(holder(), dest(), n(TOKEN)));
    assert!(!contract.sender(holder()).can_transfer(dest(), holder(), n(TOKEN)));
    assert!(!contract.sender(holder()).can_transfer(holder(), dest(), n(2)));
    assert!(!contract.sender(holder()).can_transfer(holder(), mallory(), n(TOKEN)));
    contract.sender(admin()).set_frozen_tokens(holder(), n(TOKEN), true).ortest("freeze")?;
    assert!(!contract.sender(holder()).can_transfer(holder(), dest(), n(TOKEN)));
    contract.sender(admin()).set_frozen_tokens(holder(), n(TOKEN), false).ortest("thaw")?;
    contract.sender(holder()).safe_transfer_from(holder(), dest(), n(TOKEN)).ortest("move")?;
    assert!(contract.sender(holder()).can_transfer(dest(), holder(), n(TOKEN)));
    assert!(matches!(
        contract.sender(dest()).safe_transfer_from_with_data(
            dest(),
            holder(),
            n(TOKEN),
            vec![7, 7],
        ),
        Ok(())
    ));
    assert!(matches!(
        contract.sender(holder()).owner_of(n(TOKEN)),
        Ok(owner) if owner == holder()
    ));
    Ok(())
}

#[test]
fn only_the_authorized_move_a_token() -> Result<(), TestErr> {
    let contract = minted()?;
    let agent = account(0x33);
    assert!(matches!(
        contract.sender(agent).transfer_from(holder(), dest(), n(TOKEN)),
        Err(Error721::InsufficientApproval { operator, token_id })
            if operator == agent && token_id == n(TOKEN)
    ));
    assert!(matches!(
        contract.sender(agent).approve(agent, n(TOKEN)),
        Err(Error721::InvalidApprover { approver }) if approver == agent
    ));
    contract.sender(holder()).approve(agent, n(TOKEN)).ortest("approve")?;
    assert!(matches!(
        contract.sender(holder()).get_approved(n(TOKEN)),
        Ok(approved) if approved == agent
    ));
    contract.sender(agent).transfer_from(holder(), dest(), n(TOKEN)).ortest("agent moves")?;
    assert!(matches!(
        contract.sender(holder()).get_approved(n(TOKEN)),
        Ok(approved) if approved == Account::zero()
    ));
    assert!(contract.sender(agent).transfer_from(dest(), holder(), n(TOKEN)).is_err());
    contract.sender(dest()).set_approval_for_all(agent, true).ortest("operator")?;
    assert!(contract.sender(dest()).is_approved_for_all(dest(), agent));
    contract.sender(agent).transfer_from(dest(), holder(), n(TOKEN)).ortest("operator moves")?;
    contract.sender(dest()).set_approval_for_all(agent, false).ortest("no operator")?;
    assert!(!contract.sender(dest()).is_approved_for_all(dest(), agent));
    Ok(())
}

#[test]
fn deed_refusals_of_the_base_contract() -> Result<(), TestErr> {
    let contract = minted()?;
    let zero = Account::zero();
    assert!(matches!(
        contract.sender(admin()).owner_of(n(9)),
        Err(Error721::NonexistentToken { token_id }) if token_id == n(9)
    ));
    assert!(matches!(
        contract.sender(admin()).get_approved(n(9)),
        Err(Error721::NonexistentToken { token_id }) if token_id == n(9)
    ));
    assert!(matches!(
        contract.sender(admin()).burn(n(9)),
        Err(Error721::NonexistentToken { token_id }) if token_id == n(9)
    ));
    assert!(matches!(
        contract.sender(admin()).balance_of(zero),
        Err(Error721::InvalidOwner { owner }) if owner == zero
    ));
    assert!(matches!(contract.sender(admin()).balance_of(holder()), Ok(b) if b == n(1)));
    assert!(matches!(
        contract.sender(admin()).safe_mint(dest(), n(TOKEN)),
        Err(Error721::InvalidSender { sender }) if sender == zero
    ));
    let contract = minted()?;
    assert!(matches!(
        contract.sender(holder()).transfer_from(dest(), holder(), n(TOKEN)),
        Err(Error721::IncorrectOwner { sender, token_id, owner })
            if sender == dest() && token_id == n(TOKEN) && owner == holder()
    ));
    assert!(matches!(
        contract.sender(holder()).set_approval_for_all(zero, true),
        Err(Error721::InvalidOperator { operator }) if operator == zero
    ));
    setup_allowlisted(&contract, admin(), zero)?;
    assert!(matches!(
        contract.sender(admin()).safe_mint(zero, n(5)),
        Err(Error721::InvalidReceiver { receiver }) if receiver == zero
    ));
    Ok(())
}

#[test]
fn the_zero_account_neither_sends_nor_receives_a_deed() -> Result<(), TestErr> {
    let contract = minted()?;
    let zero = Account::zero();
    setup_allowlisted(&contract, admin(), zero)?;
    assert!(!contract.sender(holder()).can_transfer(holder(), zero, n(TOKEN)));
    assert!(matches!(
        contract.sender(holder()).transfer_from(holder(), zero, n(TOKEN)),
        Err(Error721::InvalidReceiver { receiver }) if receiver == zero
    ));
    contract.sender(holder()).approve(mallory(), n(TOKEN)).ortest("approve")?;
    contract.sender(admin()).burn(n(TOKEN)).ortest("burn")?;
    assert!(!contract.sender(mallory()).can_transfer(zero, dest(), n(TOKEN)));
    assert!(matches!(
        contract.sender(mallory()).transfer_from(zero, dest(), n(TOKEN)),
        Err(Error721::NonexistentToken { token_id }) if token_id == n(TOKEN)
    ));
    Ok(())
}

#[test]
fn seizures_are_refused_for_the_first_reason() -> Result<(), TestErr> {
    let contract = minted()?;
    let zero = Account::zero();
    assert!(matches!(
        contract.sender(admin()).forced_transfer(zero, zero, n(TOKEN)),
        Err(Error721::InvalidReceiver { receiver }) if receiver == zero
    ));
    assert!(matches!(
        contract.sender(admin()).forced_transfer(zero, mallory(), n(TOKEN)),
        Err(Error721::InvalidSender { sender }) if sender == zero
    ));
    assert!(matches!(
        contract.sender(admin()).forced_transfer(dest(), mallory(), n(9)),
        Err(Error721::CannotReceive { account }) if account == mallory()
    ));
    assert!(matches!(
        contract.sender(admin()).forced_transfer(dest(), holder(), n(9)),
        Err(Error721::NonexistentToken { token_id }) if token_id == n(9)
    ));
    assert!(matches!(
        contract.sender(admin()).forced_transfer(dest(), holder(), n(TOKEN)),
        Err(Error721::IncorrectOwner { sender, token_id, owner })
            if sender == dest() && token_id == n(TOKEN) && owner == holder()
    ));
    Ok(())
}

#[test]
fn a_contract_that_takes_no_tokens_is_seized_into_all_the_same() -> Result<(), TestErr> {
    let contract = minted()?;
    let deaf = Contract::<Erc20>::new();
    let custody = Account { bytes: deaf.address().0 .0 };
    contract.sender(admin()).change_receive_whitelist(custody, true).ortest("recv wl")?;
    assert!(matches!(
        contract.sender(admin()).safe_mint(custody, n(2)),
        Err(Error721::InvalidReceiverWithReason { reason })
            if reason.starts_with("function not found for selector '353073666'")
    ));
    let contract = minted()?;
    contract.sender(admin()).change_receive_whitelist(custody, true).ortest("recv wl")?;
    assert!(matches!(
        contract.sender(holder()).safe_transfer_from(holder(), custody, n(TOKEN)),
        Err(Error721::InvalidReceiverWithReason { reason })
            if reason.starts_with("function not found for selector '353073666'")
    ));
    let contract = minted()?;
    contract.sender(admin()).change_receive_whitelist(custody, true).ortest("recv wl")?;
    assert!(matches!(
        contract.sender(holder()).safe_transfer_from_with_data(
            holder(),
            custody,
            n(TOKEN),
            vec![1],
        ),
        Err(Error721::InvalidReceiverWithReason { .. })
    ));
    let contract = minted()?;
    contract.sender(admin()).change_receive_whitelist(custody, true).ortest("recv wl")?;
    contract.sender(admin()).forced_transfer(holder(), custody, n(TOKEN)).ortest("seize")?;
    assert!(matches!(
        contract.sender(admin()).owner_of(n(TOKEN)),
        Ok(owner) if owner == custody
    ));
    Ok(())
}

#[test]
fn balances_count_what_is_owned() -> Result<(), TestErr> {
    let contract = minted()?;
    contract.sender(admin()).safe_mint(holder(), n(2)).ortest("mint 2")?;
    contract.sender(admin()).safe_mint(dest(), n(3)).ortest("mint 3")?;
    contract.sender(holder()).transfer_from(holder(), dest(), n(2)).ortest("move 2")?;
    contract.sender(admin()).forced_transfer(dest(), holder(), n(3)).ortest("seize 3")?;
    contract.sender(admin()).burn(n(TOKEN)).ortest("burn 1")?;
    assert!(matches!(contract.sender(admin()).balance_of(holder()), Ok(b) if b == n(1)));
    assert!(matches!(contract.sender(admin()).balance_of(dest()), Ok(b) if b == n(1)));
    contract.sender(admin()).safe_mint(dest(), n(TOKEN)).ortest("mint anew")?;
    assert!(matches!(contract.sender(admin()).balance_of(dest()), Ok(b) if b == n(2)));
    Ok(())
}

#[test]
fn burning_ignores_freeze_and_allowlist() -> Result<(), TestErr> {
    let contract = minted()?;
    contract.sender(admin()).set_frozen_tokens(holder(), n(TOKEN), true).ortest("freeze")?;
    contract.sender(admin()).change_send_whitelist(holder(), false).ortest("block")?;
    contract.sender(admin()).burn(n(TOKEN)).ortest("burn")?;
    assert!(contract.sender(admin()).owner_of(n(TOKEN)).is_err());
    Ok(())
}

#[test]
fn deed_changes_are_logged() -> Result<(), TestErr> {
    let contract = minted()?;
    contract.sender(admin()).set_frozen_tokens(holder(), n(TOKEN), true).ortest("freeze")?;
    contract.sender(admin()).forced_transfer(holder(), dest(), n(TOKEN)).ortest("seize")?;
    contract.sender(admin()).forced_transfer(dest(), dest(), n(TOKEN)).ortest("self")?;
    assert_eq!(
        contract.logged("Frozen(address,uint256,bool)"),
        vec![
            (vec![address_word(holder()), number_word(TOKEN)], number_word(1).to_vec()),
            (vec![address_word(holder()), number_word(TOKEN)], number_word(0).to_vec()),
        ]
    );
    assert_eq!(
        contract.logged("ForcedTransfer(address,address,uint256)"),
        vec![
            (
                vec![address_word(holder()), address_word(dest()), number_word(TOKEN)],
                Vec::new()
            ),
            (vec![address_word(dest()), address_word(dest()), number_word(TOKEN)], Vec::new()),
        ]
    );
    assert_eq!(contract.logged("SendWhitelisted(address,bool)").len(), 2);
    assert_eq!(contract.logged("ReceiveWhitelisted(address,bool)").len(), 2);
    Ok(())
}

#[test]
fn deed_roles_are_granted_revoked_and_renounced() {
    let contract = Token::deploy();
    contract.sender(admin()).constructor(admin());
    assert_eq!(contract.sender(admin()).get_role_admin(burner_role()), default_admin_role());
    assert!(contract.sender(admin()).grant_role(burner_role(), holder()).is_ok());
    assert!(contract.sender(holder()).only_role(burner_role()).is_ok());
    assert!(contract.sender(admin()).revoke_role(burner_role(), holder()).is_ok());
    assert!(matches!(
        contract.sender(holder()).only_role(burner_role()),
        Err(AccessError::UnauthorizedAccount { account, needed_role })
            if account == holder() && needed_role == burner_role()
    ));
    assert!(matches!(
        contract.sender(holder()).renounce_role(burner_role(), admin()),
        Err(AccessError::BadConfirmation)
    ));
    assert!(contract.sender(admin()).renounce_role(burner_role(), admin()).is_ok());
    assert!(!contract.sender(admin()).has_role(burner_role(), admin()));
}

#[test]
fn deed_interfaces_are_announced() {
    let contract = Token::deploy();
    let token = contract.sender(admin());
    assert!(token.supports_interface([0x01, 0xff, 0xc9, 0xa7]));
    assert!(token.supports_interface([0x80, 0xac, 0x58, 0xcd]));
    assert!(token.supports_interface([0x0e, 0xdd, 0x8b, 0x6c]));
    assert!(!token.supports_interface([0x36, 0x37, 0x2b, 0x07]));
    assert!(!token.supports_interface([0xff, 0xff, 0xff, 0xff]));
}

#[test]
fn deed_refusals_of_the_base_contracts_keep_their_contents() {
    let (a, b) = (account(1), account(2));
    assert!(matches!(
        Error721::from(Erc721Error::InvalidReceiverWithReason { reason: "no".into() }),
        Error721::InvalidReceiverWithReason { reason } if reason == "no"
    ));
    assert!(matches!(
        Error721::from(Erc721Error::IncorrectOwner { sender: a, token_id: n(4), owner: b }),
        Error721::IncorrectOwner { sender, token_id, owner }
            if sender == a && token_id == n(4) && owner == b
    ));
    assert!(matches!(
        Error721::from(Erc721Error::InsufficientApproval { operator: b, token_id: n(4) }),
        Error721::InsufficientApproval { operator, token_id }
            if operator == b && token_id == n(4)
    ));
    assert!(matches!(
        Error721::from(Erc721Error::InvalidApprover { approver: a }),
        Error721::InvalidApprover { approver } if approver == a
    ));
    assert!(matches!(
        Error721::from(Erc721Error::InvalidOperator { operator: b }),
        Error721::InvalidOperator { operator } if operator == b
    ));
    assert!(matches!(
        Error721::from(AccessError::UnauthorizedAccount { account: a, needed_role: [9; 32] }),
        Error721::UnauthorizedAccount { account, needed_role }
            if account == a && needed_role == [9; 32]
    ));
    assert!(matches!(Error721::from(AccessError::BadConfirmation), Error721::BadConfirmation));
}

#[test]
fn every_deed_event_is_logged_in_order() -> Result<(), TestErr> {
    let contract = Token::deploy();
    let zero = address_word(Account::zero());
    let (h, d) = (address_word(holder()), address_word(dest()));
    let id = number_word(TOKEN);
    let granted = |role: [u8; 32]| {
        let topics = [role, address_word(admin()), address_word(admin())];
        entry("RoleGranted(bytes32,address,address)", &topics, &[])
    };
    setup_allowlisted(&contract, admin(), holder())?;
    setup_allowlisted(&contract, admin(), dest())?;
    contract.sender(admin()).safe_mint(holder(), n(TOKEN)).ortest("mint")?;
    contract.sender(holder()).approve(dest(), n(TOKEN)).ortest("approve")?;
    contract.sender(holder()).set_approval_for_all(dest(), true).ortest("operator")?;
    contract.sender(dest()).transfer_from(holder(), dest(), n(TOKEN)).ortest("transfer")?;
    contract.sender(dest()).safe_transfer_from(dest(), holder(), n(TOKEN)).ortest("back")?;
    contract.sender(admin()).set_frozen_tokens(holder(), n(TOKEN), true).ortest("freeze")?;
    contract.sender(admin()).forced_transfer(holder(), dest(), n(TOKEN)).ortest("seize")?;
    contract.sender(admin()).set_frozen_tokens(dest(), n(TOKEN), true).ortest("freeze")?;
    contract.sender(admin()).burn(n(TOKEN)).ortest("burn")?;
    contract.sender(admin()).safe_mint(holder(), n(TOKEN)).ortest("mint anew")?;
    contract.sender(admin()).burn(n(TOKEN)).ortest("burn unfrozen")?;
    let transfer = "Transfer(address,address,uint256)";
    assert_eq!(
        contract.log(),
        vec![
            granted(default_admin_role()),
            granted(minter_role()),
            granted(burner_role()),
            granted(freezing_role()),
            granted(whitelist_role()),
            granted(force_transfer_role()),
            entry("SendWhitelisted(address,bool)", &[h], &[number_word(1)]),
            entry("ReceiveWhitelisted(address,bool)", &[h], &[number_word(1)]),
            entry("SendWhitelisted(address,bool)", &[d], &[number_word(1)]),
            entry("ReceiveWhitelisted(address,bool)", &[d], &[number_word(1)]),
            entry(transfer, &[zero, h, id], &[]),
            entry("Approval(address,address,uint256)", &[h, d, id], &[]),
            entry("ApprovalForAll(address,address,bool)", &[h, d], &[number_word(1)]),
            entry(transfer, &[h, d, id], &[]),
            entry(transfer, &[d, h, id], &[]),
            entry("Frozen(address,uint256,bool)", &[h, id], &[number_word(1)]),
            entry("Frozen(address,uint256,bool)", &[h, id], &[number_word(0)]),
            entry(transfer, &[h, d, id], &[]),
            entry("ForcedTransfer(address,address,uint256)", &[h, d, id], &[]),
            entry("Frozen(address,uint256,bool)", &[d, id], &[number_word(1)]),
            entry("Frozen(address,uint256,bool)", &[d, id], &[number_word(0)]),
            entry(transfer, &[d, zero, id], &[]),
            entry(transfer, &[zero, h, id], &[]),
            entry(transfer, &[h, zero, id], &[]),
        ]
    );
    Ok(())
}
