use std::str::FromStr;

use bid_contract::keys::AccountId;
use bid_contract::errors::BidError;
use bid_contract::seeds;
use bid_contract::vault::Vault;

fn id(n: u8) -> AccountId {
    AccountId::new(vec![n; 32])
}

fn open(bidder: &AccountId) -> Vault {
    Vault::open_vault(bidder).expect("a vault address derives for this bidder")
}

#[test]
fn vault_address_matches_native_derivation() {
    let bidder = id(7);
    let v = open(&bidder);
    let pid = solana_program::pubkey::Pubkey::new_from_array(
        seeds::program_id().bytes.try_into().unwrap(),
    );
    let (expected, bump) = solana_program::pubkey::Pubkey::find_program_address(
        &[b"bidvault", &bidder.bytes],
        &pid,
    );
    assert_eq!(v.address.bytes, expected.to_bytes().to_vec());
    assert_eq!(v.bump, bump);
    assert_ne!(v.address.bytes, bidder.bytes);
}

#[test]
fn program_id_constant_matches_base58_form() {
    let pid = solana_program::pubkey::Pubkey::from_str(
        "bidPUtgGxbSqVTv1zYtAysAvPW4J5LqcUfhp3xNJECB",
    )
    .unwrap();
    assert_eq!(seeds::program_id().bytes, pid.to_bytes().to_vec());
    let tax = solana_program::pubkey::Pubkey::from_str(
        "3iYf9hHQPciwgJ1TCjpRUp1A3QW4AfaK7J6vCmETRMuu",
    )
    .unwrap();
    assert_eq!(seeds::sales_tax_recipient().bytes, tax.to_bytes().to_vec());
    let meta = solana_program::pubkey::Pubkey::from_str(
        "metaqbxxUerdq28cj1RbAWkYQm3ybzjb6a8bt518x1s",
    )
    .unwrap();
    assert_eq!(seeds::metadata_program_id().bytes, meta.to_bytes().to_vec());
}

#[test]
fn deposit_grows_balance() {
    let bidder = id(1);
    let mut v = open(&bidder);
    assert_eq!(v.balance, 0);
    assert_eq!(v.add_to_vault(1_000, 600), Ok(()));
    assert_eq!(v.balance, 600);
    assert_eq!(v.add_to_vault(400, 400), Ok(()));
    assert_eq!(v.balance, 1_000);
}

#[test]
fn deposit_over_available_fails() {
    let bidder = id(2);
    let mut v = open(&bidder);
    assert_eq!(v.add_to_vault(100, 101), Err(BidError::InsufficientFunds));
    assert_eq!(v.balance, 0);
}

#[test]
fn withdraw_more_than_balance_fails_and_leaves_balance() {
    let bidder = id(3);
    let mut v = open(&bidder);
    v.add_to_vault(u64::MAX, 500).unwrap();
    let bump = v.bump;
    assert_eq!(v.withdraw_from_vault(501, bump), Err(BidError::InsufficientFunds));
    assert_eq!(v.balance, 500);
    assert_eq!(v.withdraw_from_vault(500, bump), Ok(()));
    assert_eq!(v.balance, 0);
}

#[test]
fn withdraw_with_wrong_salt_fails() {
    let bidder = id(4);
    let mut v = open(&bidder);
    v.add_to_vault(1_000, 1_000).unwrap();
    let wrong = v.bump.wrapping_add(1);
    assert_eq!(v.withdraw_from_vault(10, wrong), Err(BidError::BadDerivation));
    assert_eq!(v.balance, 1_000);
}

#[test]
fn withdraw_sequence_never_overdraws() {
    let bidder = id(5);
    let mut v = open(&bidder);
    v.add_to_vault(10_000, 300).unwrap();
    let bump = v.bump;
    assert_eq!(v.withdraw_from_vault(200, bump), Ok(()));
    assert_eq!(v.withdraw_from_vault(200, bump), Err(BidError::InsufficientFunds));
    assert_eq!(v.balance, 100);
    assert_eq!(v.withdraw_from_vault(100, bump), Ok(()));
    assert_eq!(v.balance, 0);
}
