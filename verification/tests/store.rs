use solana_lockup::address::{
    associated_token_address, vault_address, vault_asset_address, Address,
};
use solana_lockup::error::LockupError;
use solana_lockup::instructions::{Transfer, TransferCall};
use solana_lockup::states::Vault;
use solana_lockup::store::{VaultHandle, VaultStore};

const T: u64 = 1_700_000_000;

fn address(fill: u8) -> Address {
    Address::new([fill; 32])
}

fn account(owner: &Address, mint: &Address) -> Address {
    associated_token_address(owner, mint).unwrap()
}

fn handle(owner: &Address) -> VaultHandle {
    VaultHandle {
        vault: vault_address(owner).unwrap(),
        asset_account: vault_asset_address().unwrap(),
    }
}

#[test]
fn a_new_store_holds_nothing() {
    let store = VaultStore::new();
    assert_eq!(store.get(&vault_address(&address(1)).unwrap()), None);
    assert_eq!(store.resolve(&address(1)), Err(LockupError::NotFound));
}

#[test]
fn create_puts_an_empty_vault_at_the_derived_address() {
    let owner = address(1);
    let mint = address(2);
    let mut store = VaultStore::new();
    assert_eq!(store.create(&owner, &mint), Ok(handle(&owner)));
    assert_eq!(store.get(&handle(&owner).vault), Some(Vault::new(owner, mint)));
    assert_eq!(store.get(&owner), None);
    assert_eq!(store.resolve(&owner), Ok(handle(&owner)));
    assert_eq!(store.resolve(&address(3)), Err(LockupError::NotFound));
}

#[test]
fn create_twice_fails_and_keeps_the_first_vault() {
    let owner = address(1);
    let mut store = VaultStore::new();
    assert!(store.create(&owner, &address(2)).is_ok());
    assert_eq!(store.create(&owner, &address(9)), Err(LockupError::AlreadyExists));
    assert_eq!(store.get(&handle(&owner).vault), Some(Vault::new(owner, address(2))));
}

#[test]
fn initialize_twice_fails_with_already_exists() {
    for fill in [0u8, 1, 50, 255] {
        let owner = address(fill);
        let mint = address(2);
        let mut store = VaultStore::new();
        assert_eq!(store.initialize(&owner, &mint), Ok(()));
        assert_eq!(store.initialize(&owner, &mint), Err(LockupError::AlreadyExists));
        assert_eq!(store.initialize(&owner, &mint), Err(LockupError::AlreadyExists));
        assert_eq!(store.get(&handle(&owner).vault), Some(Vault::new(owner, mint)));
    }
}

#[test]
fn each_owner_has_one_vault() {
    let mut store = VaultStore::new();
    assert_eq!(store.initialize(&address(1), &address(2)), Ok(()));
    assert_eq!(store.initialize(&address(3), &address(4)), Ok(()));
    assert_eq!(store.initialize(&address(1), &address(4)), Err(LockupError::AlreadyExists));
    assert_eq!(store.get(&handle(&address(1)).vault), Some(Vault::new(address(1), address(2))));
    assert_eq!(store.get(&handle(&address(3)).vault), Some(Vault::new(address(3), address(4))));
    assert_eq!(handle(&address(1)).asset_account, handle(&address(3)).asset_account);
}

#[test]
fn deposit_without_a_vault_is_not_found() {
    let owner = address(1);
    let mint = address(2);
    let mut store = VaultStore::new();
    assert_eq!(
        store.deposit(&owner, &account(&owner, &mint), &mint, 1000, 3600, T),
        Err(LockupError::NotFound)
    );
    assert_eq!(
        store.withdraw(&owner, &account(&owner, &mint), &mint, T),
        Err(LockupError::NotFound)
    );
    assert_eq!(store.get(&handle(&owner).vault), None);
}

#[test]
fn lock_and_release_end_to_end() {
    let owner = address(1);
    let mint = address(2);
    let owner_account = account(&owner, &mint);
    let vault_account = vault_asset_address().unwrap();
    let mut store = VaultStore::new();

    assert_eq!(store.initialize(&owner, &mint), Ok(()));
    assert_eq!(
        store.deposit(&owner, &owner_account, &mint, 1000, 3600, T),
        Ok(TransferCall {
            accounts: Transfer { from: owner_account, to: vault_account, authority: owner },
            amount: 1000,
        })
    );
    let vault = store.get(&handle(&owner).vault).unwrap();
    assert_eq!(vault.amount, 1000);
    assert_eq!(vault.end_time, T + 3600);
    assert_eq!(vault.start_time, T);

    assert_eq!(
        store.withdraw(&owner, &owner_account, &mint, T + 100),
        Err(LockupError::LockNotExpired)
    );
    assert_eq!(
        store.withdraw(&owner, &owner_account, &mint, T + 3600),
        Ok(TransferCall {
            accounts: Transfer {
                from: vault_account,
                to: owner_account,
                authority: vault_account,
            },
            amount: 1000,
        })
    );
    assert_eq!(store.get(&handle(&owner).vault), Some(vault));
}

#[test]
fn a_repeated_deposit_overwrites_the_lock() {
    let owner = address(1);
    let mint = address(2);
    let owner_account = account(&owner, &mint);
    let mut store = VaultStore::new();
    assert_eq!(store.initialize(&owner, &mint), Ok(()));
    let first = store.deposit(&owner, &owner_account, &mint, 1000, 3600, T);
    let second = store.deposit(&owner, &owner_account, &mint, 1000, 3600, T + 10);
    assert!(first.is_ok());
    assert_eq!(first, second);
    assert_eq!(
        store.get(&handle(&owner).vault),
        Some(Vault {
            authority: owner,
            amount: 1000,
            start_time: T + 10,
            end_time: T + 3610,
            mint,
        })
    );
    assert_eq!(
        store.withdraw(&owner, &owner_account, &mint, T + 3600),
        Err(LockupError::LockNotExpired)
    );
    assert!(store.deposit(&owner, &owner_account, &mint, 250, 5, T + 20).is_ok());
    assert_eq!(store.get(&handle(&owner).vault).unwrap().amount, 250);
    assert_eq!(store.withdraw(&owner, &owner_account, &mint, T + 25).unwrap().amount, 250);
}

#[test]
fn a_deposit_after_withdrawal_arms_the_lock_again() {
    let owner = address(1);
    let mint = address(2);
    let owner_account = account(&owner, &mint);
    let mut store = VaultStore::new();
    assert_eq!(store.initialize(&owner, &mint), Ok(()));
    assert!(store.deposit(&owner, &owner_account, &mint, 10, 5, T).is_ok());
    assert!(store.withdraw(&owner, &owner_account, &mint, T + 5).is_ok());
    assert!(store.deposit(&owner, &owner_account, &mint, 20, 5, T + 6).is_ok());
    assert_eq!(
        store.withdraw(&owner, &owner_account, &mint, T + 10),
        Err(LockupError::LockNotExpired)
    );
    assert_eq!(store.withdraw(&owner, &owner_account, &mint, T + 11).unwrap().amount, 20);
}

#[test]
fn a_failed_deposit_leaves_the_store_untouched() {
    let owner = address(1);
    let mint = address(2);
    let owner_account = account(&owner, &mint);
    let mut store = VaultStore::new();
    assert_eq!(store.initialize(&owner, &mint), Ok(()));
    assert!(store.deposit(&owner, &owner_account, &mint, 1000, 3600, T).is_ok());
    let before = store.get(&handle(&owner).vault);

    assert_eq!(
        store.deposit(&owner, &owner_account, &mint, 5, u64::MAX, T),
        Err(LockupError::Overflow)
    );
    assert_eq!(store.get(&handle(&owner).vault), before);
    assert_eq!(
        store.deposit(&owner, &account(&address(3), &mint), &mint, 5, 5, T),
        Err(LockupError::InvalidAccountBinding)
    );
    assert_eq!(store.get(&handle(&owner).vault), before);
    assert_eq!(
        store.deposit(&owner, &owner_account, &address(9), 5, 5, T),
        Err(LockupError::MintMismatch)
    );
    assert_eq!(store.get(&handle(&owner).vault), before);
}

#[test]
fn an_account_of_another_owner_is_not_bound() {
    let owner = address(1);
    let other = address(3);
    let mint = address(2);
    let mut store = VaultStore::new();
    assert_eq!(store.initialize(&owner, &mint), Ok(()));
    assert_eq!(store.initialize(&other, &mint), Ok(()));
    assert!(store.deposit(&owner, &account(&owner, &mint), &mint, 1000, 0, T).is_ok());
    assert_eq!(
        store.withdraw(&owner, &account(&other, &mint), &mint, T),
        Err(LockupError::InvalidAccountBinding)
    );
    assert_eq!(
        store.deposit(&owner, &account(&other, &mint), &mint, 1, 1, T),
        Err(LockupError::InvalidAccountBinding)
    );
    assert_eq!(
        store.withdraw(&other, &account(&other, &mint), &mint, T).unwrap().amount,
        0
    );
}

#[test]
fn vaults_do_not_disturb_each_other() {
    let first = address(1);
    let second = address(3);
    let mint = address(2);
    let mut store = VaultStore::new();
    assert_eq!(store.initialize(&first, &mint), Ok(()));
    assert_eq!(store.initialize(&second, &mint), Ok(()));
    assert!(store.deposit(&first, &account(&first, &mint), &mint, 10, 100, T).is_ok());
    assert!(store.deposit(&second, &account(&second, &mint), &mint, 20, 200, T + 1).is_ok());
    assert!(store.deposit(&first, &account(&first, &mint), &mint, 30, 300, T + 2).is_ok());
    assert_eq!(
        store.get(&handle(&first).vault),
        Some(Vault { authority: first, amount: 30, start_time: T + 2, end_time: T + 302, mint })
    );
    assert_eq!(
        store.get(&handle(&second).vault),
        Some(Vault { authority: second, amount: 20, start_time: T + 1, end_time: T + 201, mint })
    );
}
