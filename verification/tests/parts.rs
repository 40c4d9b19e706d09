//! Integers, words, roles and batches by themselves.

use urwa::access::{
    burner_role, default_admin_role, force_transfer_role, freezing_role, minter_role,
    whitelist_role,
};
use urwa::account::Account;
use urwa::batch::requested_total;
use urwa::uint::U256;
use urwa::word::{account_to_word, bool_to_word, uint_to_word};

fn n(x: u64) -> U256 {
    U256::from_u64(x)
}

#[test]
fn integers_carry_between_limbs() {
    let low = U256 { limbs: [u64::MAX, u64::MAX, 0, 0] };
    assert_eq!(low.wrapping_add(&n(1)), U256 { limbs: [0, 0, 1, 0] });
    assert_eq!(low.checked_add(&n(1)), Some(U256 { limbs: [0, 0, 1, 0] }));
    assert_eq!(U256 { limbs: [0, 0, 1, 0] }.checked_sub(&n(1)), Some(low));
    assert_eq!(U256::from_u128(u128::MAX), low);
    assert_eq!(U256::from_usize(7), n(7));
}

#[test]
fn integers_end_at_their_largest() {
    let max = U256::max_value();
    assert_eq!(max, U256 { limbs: [u64::MAX; 4] });
    assert_eq!(max.checked_add(&n(1)), None);
    assert_eq!(max.wrapping_add(&n(1)), U256::zero());
    assert_eq!(max.wrapping_add(&max), U256 { limbs: [u64::MAX - 1, u64::MAX, u64::MAX, u64::MAX] });
    assert_eq!(n(1).checked_sub(&n(2)), None);
    assert_eq!(U256::zero().checked_sub(&U256::zero()), Some(U256::zero()));
}

#[test]
fn integers_are_ordered_by_their_highest_limb() {
    let high = U256 { limbs: [0, 0, 0, 1] };
    let low = U256 { limbs: [9, 9, 9, 0] };
    assert!(low.at_most(&high));
    assert!(!high.at_most(&low));
    assert!(high.at_most(&high));
    assert!(low != high);
}

#[test]
fn words_are_big_endian_and_padded() {
    let mut expected = [0u8; 32];
    expected[30] = 0x12;
    expected[31] = 0x34;
    assert_eq!(uint_to_word(&n(0x1234)), expected);
    assert_eq!(uint_to_word(&U256::max_value()), [0xff; 32]);
    let mut top = [0u8; 32];
    top[0] = 0x01;
    assert_eq!(uint_to_word(&U256 { limbs: [0, 0, 0, 1 << 56] }), top);
    let mut address = [0u8; 32];
    address[12] = 0xaa;
    address[31] = 0xbb;
    let mut bytes = [0u8; 20];
    bytes[0] = 0xaa;
    bytes[19] = 0xbb;
    assert_eq!(account_to_word(&Account { bytes }), address);
    assert_eq!(bool_to_word(true), uint_to_word(&n(1)));
    assert_eq!(bool_to_word(false), [0; 32]);
}

#[test]
fn accounts_are_their_addresses() {
    assert!(Account::zero().is_zero());
    let mut bytes = [0u8; 20];
    bytes[19] = 1;
    assert!(!Account { bytes }.is_zero());
    assert!(Account { bytes } != Account::zero());
    assert!(Account { bytes } == Account { bytes });
}

#[test]
fn roles_are_digests_of_their_names() {
    let digest = |name: &[u8]| keccak_const::Keccak256::new().update(name).finalize();
    assert_eq!(minter_role(), digest(b"MINTER_ROLE"));
    assert_eq!(burner_role(), digest(b"BURNER_ROLE"));
    assert_eq!(freezing_role(), digest(b"FREEZING_ROLE"));
    assert_eq!(whitelist_role(), digest(b"WHITELIST_ROLE"));
    assert_eq!(force_transfer_role(), digest(b"FORCE_TRANSFER_ROLE"));
    assert_eq!(default_admin_role(), [0; 32]);
    assert_eq!(minter_role()[..4], [0x9f, 0x2d, 0xf0, 0xfe]);
    assert_eq!(minter_role()[28..], [0x1c, 0x89, 0x56, 0xa6]);
}

#[test]
fn batches_are_added_up_by_id() {
    let ids = vec![n(1), n(2), n(1), n(3), n(1)];
    let values = vec![n(10), n(20), n(30), n(40)];
    assert_eq!(requested_total(&ids, &values, &n(1)), n(40));
    assert_eq!(requested_total(&ids, &values, &n(2)), n(20));
    assert_eq!(requested_total(&ids, &values, &n(3)), n(40));
    assert_eq!(requested_total(&ids, &values, &n(4)), n(0));
    assert_eq!(requested_total(&Vec::new(), &values, &n(1)), n(0));
    let large = vec![U256::max_value(), n(3)];
    assert_eq!(requested_total(&vec![n(1), n(1)], &large, &n(1)), n(2));
}
