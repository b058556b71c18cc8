use anchor_lang::prelude::{borsh, Pubkey};
use solana_lockup::address::Address;
use solana_lockup::error::LockupError;
use solana_lockup::states::{Vault, VAULT_BYTES};

fn address(fill: u8) -> Address {
    Address::new([fill; 32])
}

#[test]
fn a_new_vault_is_empty_and_bound() {
    let vault = Vault::new(address(1), address(2));
    assert_eq!(
        vault,
        Vault { authority: address(1), amount: 0, start_time: 0, end_time: 0, mint: address(2) }
    );
}

#[test]
fn lock_records_amount_start_and_end() {
    let mut vault = Vault::new(address(1), address(2));
    assert_eq!(vault.lock(1000, 1_700_000_000, 3600), Ok(()));
    assert_eq!(
        vault,
        Vault {
            authority: address(1),
            amount: 1000,
            start_time: 1_700_000_000,
            end_time: 1_700_003_600,
            mint: address(2),
        }
    );
}

#[test]
fn lock_with_period_zero_ends_when_it_starts() {
    let mut vault = Vault::new(address(1), address(2));
    assert_eq!(vault.lock(5, 77, 0), Ok(()));
    assert_eq!(vault.start_time, 77);
    assert_eq!(vault.end_time, 77);
}

#[test]
fn lock_reaches_the_last_instant() {
    let mut vault = Vault::new(address(1), address(2));
    assert_eq!(vault.lock(5, u64::MAX - 10, 10), Ok(()));
    assert_eq!(vault.end_time, u64::MAX);
    assert_eq!(vault.start_time, u64::MAX - 10);
}

#[test]
fn lock_beyond_the_last_instant_overflows_and_changes_nothing() {
    let mut vault = Vault::new(address(1), address(2));
    assert_eq!(vault.lock(9, 100, 50), Ok(()));
    let before = vault;
    assert_eq!(vault.lock(5, u64::MAX - 10, 11), Err(LockupError::Overflow));
    assert_eq!(vault, before);
    assert_eq!(vault.lock(5, 1, u64::MAX), Err(LockupError::Overflow));
    assert_eq!(vault, before);
    assert_eq!(vault.lock(5, u64::MAX, u64::MAX), Err(LockupError::Overflow));
    assert_eq!(vault, before);
}

#[test]
fn lock_replaces_the_lock_before_it() {
    let mut vault = Vault::new(address(1), address(2));
    assert_eq!(vault.lock(1000, 100, 50), Ok(()));
    assert_eq!(vault.lock(300, 120, 10), Ok(()));
    assert_eq!(vault.amount, 300);
    assert_eq!(vault.start_time, 120);
    assert_eq!(vault.end_time, 130);
    assert_eq!(vault.authority, address(1));
    assert_eq!(vault.mint, address(2));
}

#[test]
fn a_vault_is_unlocked_from_its_end_on() {
    let mut vault = Vault::new(address(1), address(2));
    assert_eq!(vault.lock(1000, 100, 50), Ok(()));
    assert!(!vault.is_unlocked(0));
    assert!(!vault.is_unlocked(100));
    assert!(!vault.is_unlocked(149));
    assert!(vault.is_unlocked(150));
    assert!(vault.is_unlocked(151));
    assert!(vault.is_unlocked(u64::MAX));
}

#[test]
fn an_empty_vault_is_unlocked() {
    assert!(Vault::new(address(1), address(2)).is_unlocked(0));
}

fn sample() -> Vault {
    Vault {
        authority: address(1),
        amount: 0x0102_0304_0506_0708,
        start_time: 1_700_000_000,
        end_time: u64::MAX,
        mint: address(2),
    }
}

#[test]
fn a_stored_record_has_eighty_eight_bytes() {
    assert_eq!(VAULT_BYTES, 88);
    assert_eq!(sample().to_bytes().len(), 88);
    assert_eq!(Vault::new(address(0), address(0)).to_bytes(), vec![0u8; 88]);
}

#[test]
fn to_bytes_lays_the_fields_out_in_order() {
    let mut expected = vec![1u8; 32];
    expected.extend([8u8, 7, 6, 5, 4, 3, 2, 1]);
    expected.extend([0x00u8, 0xf1, 0x53, 0x65, 0, 0, 0, 0]);
    expected.extend([0xffu8; 8]);
    expected.extend([2u8; 32]);
    assert_eq!(sample().to_bytes(), expected);
}

#[test]
fn to_bytes_is_the_layout_of_the_chain() {
    let vault = sample();
    let expected = borsh::to_vec(&(
        Pubkey::new_from_array(vault.authority.bytes),
        vault.amount,
        vault.start_time,
        vault.end_time,
        Pubkey::new_from_array(vault.mint.bytes),
    ))
    .unwrap();
    assert_eq!(vault.to_bytes(), expected);
}

#[test]
fn from_bytes_reads_back_what_to_bytes_wrote() {
    let blank = Vault::new(address(0), address(0));
    for vault in [sample(), blank, Vault::new(address(255), address(7))] {
        assert_eq!(Vault::from_bytes(&vault.to_bytes()), Some(vault));
    }
}

#[test]
fn from_bytes_reads_each_field_from_its_place() {
    let mut bytes = vec![0u8; 88];
    bytes[0] = 9;
    bytes[31] = 8;
    bytes[32] = 1;
    bytes[41] = 1;
    bytes[55] = 1;
    bytes[56] = 7;
    bytes[87] = 6;
    let mut authority = [0u8; 32];
    authority[0] = 9;
    authority[31] = 8;
    let mut mint = [0u8; 32];
    mint[0] = 7;
    mint[31] = 6;
    assert_eq!(
        Vault::from_bytes(&bytes),
        Some(Vault {
            authority: Address::new(authority),
            amount: 1,
            start_time: 256,
            end_time: 1 << 56,
            mint: Address::new(mint),
        })
    );
}

#[test]
fn from_bytes_takes_no_other_length() {
    assert_eq!(Vault::from_bytes(&[]), None);
    assert_eq!(Vault::from_bytes(&[0u8; 87]), None);
    assert_eq!(Vault::from_bytes(&[0u8; 89]), None);
    assert!(Vault::from_bytes(&[0u8; 88]).is_some());
}
