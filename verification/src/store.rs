//! The keyed store of vault records: one record per owner, at the address
//! that is derived from the owner's identity.

use crate::address::{
    address_with, lemma_address_with, spec_vault_address, spec_vault_asset_address,
    vault_address, vault_asset_address, Address,
};
use crate::error::LockupError;
use crate::instructions::{
    deposit, deposit_outcome, initialize, vault_bound, withdraw, withdraw_outcome, Deposit,
    Initialize, TransferCall, Withdraw,
};
use crate::states::Vault;
use vstd::prelude::*;

verus! {

/// Where a vault is found: the address of its record, and the address of the
/// asset-holding account that backs it.
#[derive(Clone, Copy, Debug, PartialEq, Eq)]
pub struct VaultHandle {
    pub vault: Address,
    pub asset_account: Address,
}

#[derive(Clone, Copy, Debug)]
struct Entry {
    key: Address,
    vault: Vault,
}

/// The vault records, each under the address of its vault. No address holds
/// two records. The view is the map from the bytes of an address to the
/// record that it holds.
pub struct VaultStore {
    entries: Vec<Entry>,
}

/// The handle of the vault of `owner`: the two derived addresses, where both
/// can be derived.
pub open spec fn spec_handle(owner: Address) -> Option<VaultHandle> {
    match (spec_vault_address(owner@), spec_vault_asset_address()) {
        (Some(vault), Some(asset)) => Some(
            VaultHandle { vault: address_with(vault), asset_account: address_with(asset) },
        ),
        _ => None,
    }
}

/// Whether `records` holds a record at the derived address of the vault of
/// `owner`.
pub open spec fn has_vault(records: Map<Seq<u8>, Vault>, owner: Address) -> bool {
    match spec_vault_address(owner@) {
        Some(vault) => records.dom().contains(vault),
        None => false,
    }
}

/// The record of the vault of `owner` in `records`.
pub open spec fn vault_of(records: Map<Seq<u8>, Vault>, owner: Address) -> Vault
    recommends
        has_vault(records, owner),
{
    records[spec_vault_address(owner@).unwrap()]
}

/// `records` with `vault` as the record of the vault of `owner`.
pub open spec fn with_vault(records: Map<Seq<u8>, Vault>, owner: Address, vault: Vault) -> Map<
    Seq<u8>,
    Vault,
> {
    records.insert(spec_vault_address(owner@).unwrap(), vault)
}

/// What looking up the vault of `owner` yields: `InvalidAccountBinding`
/// where an address cannot be derived, `NotFound` where no record is at the
/// derived address, else the handle.
pub open spec fn spec_resolve(records: Map<Seq<u8>, Vault>, owner: Address) -> Result<
    VaultHandle,
    LockupError,
> {
    match spec_handle(owner) {
        None => Err(LockupError::InvalidAccountBinding),
        Some(handle) => if has_vault(records, owner) {
            Ok(handle)
        } else {
            Err(LockupError::NotFound)
        },
    }
}

/// What creating the vault of `owner` yields: `InvalidAccountBinding` where
/// an address cannot be derived, `AlreadyExists` where a record is at the
/// derived address, else the handle.
pub open spec fn spec_create(records: Map<Seq<u8>, Vault>, owner: Address) -> Result<
    VaultHandle,
    LockupError,
> {
    match spec_handle(owner) {
        None => Err(LockupError::InvalidAccountBinding),
        Some(handle) => if has_vault(records, owner) {
            Err(LockupError::AlreadyExists)
        } else {
            Ok(handle)
        },
    }
}

/// The records after the vault of `owner` was created for the asset type
/// `mint`: where that succeeds, an empty vault of the owner is at the derived
/// address; where it fails, nothing has changed.
pub open spec fn created(records: Map<Seq<u8>, Vault>, owner: Address, mint: Address) -> Map<
    Seq<u8>,
    Vault,
> {
    if spec_create(records, owner) is Ok {
        with_vault(
            records,
            owner,
            Vault { authority: owner, amount: 0, start_time: 0, end_time: 0, mint },
        )
    } else {
        records
    }
}

/// What `initialize` returns on `records`.
pub open spec fn spec_initialize(records: Map<Seq<u8>, Vault>, owner: Address) -> Result<
    (),
    LockupError,
> {
    match spec_create(records, owner) {
        Ok(_) => Ok(()),
        Err(e) => Err(e),
    }
}

/// The accounts of a deposit by `caller` as the store resolves them.
pub open spec fn deposit_accounts(
    records: Map<Seq<u8>, Vault>,
    handle: VaultHandle,
    caller: Address,
    caller_asset_account: Address,
    mint: Address,
    now: u64,
) -> Deposit {
    Deposit {
        authority: caller,
        signed: true,
        authority_ata: caller_asset_account,
        vault_address: handle.vault,
        vault_account: vault_of(records, caller),
        vault_ata: handle.asset_account,
        mint,
        clock: now,
    }
}

/// What `deposit` returns on `records`: the error of the lookup, else what
/// the instruction returns on the resolved accounts.
pub open spec fn spec_deposit(
    records: Map<Seq<u8>, Vault>,
    caller: Address,
    caller_asset_account: Address,
    mint: Address,
    amount: u64,
    period: u64,
    now: u64,
) -> Result<TransferCall, LockupError> {
    match spec_resolve(records, caller) {
        Err(e) => Err(e),
        Ok(handle) => deposit_outcome(
            deposit_accounts(records, handle, caller, caller_asset_account, mint, now),
            amount,
            period,
        ),
    }
}

/// The records after `deposit`: where it succeeds the caller's vault holds
/// the new lock in place of the old one; where it fails, nothing has changed.
pub open spec fn deposited(
    records: Map<Seq<u8>, Vault>,
    caller: Address,
    caller_asset_account: Address,
    mint: Address,
    amount: u64,
    period: u64,
    now: u64,
) -> Map<Seq<u8>, Vault> {
    if spec_deposit(records, caller, caller_asset_account, mint, amount, period, now) is Ok {
        with_vault(records, caller, vault_of(records, caller).locked(amount, now, period))
    } else {
        records
    }
}

/// The accounts of a withdrawal by `caller` as the store resolves them.
pub open spec fn withdraw_accounts(
    records: Map<Seq<u8>, Vault>,
    handle: VaultHandle,
    caller: Address,
    caller_asset_account: Address,
    mint: Address,
    now: u64,
) -> Withdraw {
    Withdraw {
        authority: caller,
        signed: true,
        authority_ata: caller_asset_account,
        vault_address: handle.vault,
        vault_account: vault_of(records, caller),
        vault_ata: handle.asset_account,
        mint,
        clock: now,
    }
}

/// What `withdraw` returns on `records`: the error of the lookup, else what
/// the instruction returns on the resolved accounts.
pub open spec fn spec_withdraw(
    records: Map<Seq<u8>, Vault>,
    caller: Address,
    caller_asset_account: Address,
    mint: Address,
    now: u64,
) -> Result<TransferCall, LockupError> {
    match spec_resolve(records, caller) {
        Err(e) => Err(e),
        Ok(handle) => withdraw_outcome(
            withdraw_accounts(records, handle, caller, caller_asset_account, mint, now),
        ),
    }
}

spec fn holds(entries: Seq<Entry>, key: Seq<u8>, i: int) -> bool {
    0 <= i < entries.len() && entries[i].key@ == key
}

spec fn distinct(entries: Seq<Entry>) -> bool {
    forall|i: int, j: int|
        0 <= i < j < entries.len() ==> (#[trigger] entries[i]).key@ != (#[trigger] entries[j]).key@
}

spec fn records(entries: Seq<Entry>) -> Map<Seq<u8>, Vault> {
    Map::new(
        |key: Seq<u8>| exists|i: int| holds(entries, key, i),
        |key: Seq<u8>| entries[choose|i: int| holds(entries, key, i)].vault,
    )
}

/// Placing an entry where its key is held, or at the end where no entry holds
/// its key, keeps the keys distinct and maps the key to the new record.
proof fn lemma_placed(before: Seq<Entry>, after: Seq<Entry>, at: int, entry: Entry)
    requires
        distinct(before),
        holds(before, entry.key@, at) && after == before.update(at, entry) || at == before.len()
            && after == before.push(entry) && forall|i: int| !holds(before, entry.key@, i),
    ensures
        distinct(after),
        records(after) == records(before).insert(entry.key@, entry.vault),
{
    let key = entry.key@;
    assert(holds(after, key, at));
    assert forall|i: int| 0 <= i < before.len() && i != at implies after[i] == before[i]
        && !holds(before, key, i) by {
    }
    assert forall|k: Seq<u8>| #[trigger]
        records(after).dom().contains(k) == records(before).insert(
            key,
            entry.vault,
        ).dom().contains(k) by {
        if exists|i: int| holds(after, k, i) {
            let i = choose|i: int| holds(after, k, i);
            if k != key {
                assert(holds(before, k, i));
            }
        }
        if exists|i: int| holds(before, k, i) {
            let i = choose|i: int| holds(before, k, i);
            assert(holds(after, k, i) || k == key);
        }
    }
}

impl View for VaultStore {
    type V = Map<Seq<u8>, Vault>;

    closed spec fn view(&self) -> Map<Seq<u8>, Vault> {
        records(self.entries@)
    }
}

impl VaultStore {
    #[verifier::type_invariant]
    spec fn inv(self) -> bool {
        distinct(self.entries@)
    }

    /// A store without records.
    pub fn new() -> (store: VaultStore)
        ensures
            store@ == Map::<Seq<u8>, Vault>::empty(),
    {
        let store = VaultStore { entries: Vec::new() };
        store
    }

    fn find(&self, key: &Address) -> (found: Option<usize>)
        ensures
            match found {
                Some(i) => holds(self.entries@, key@, i as int),
                None => forall|i: int| !holds(self.entries@, key@, i),
            },
    {
        let mut i: usize = 0;
        while i < self.entries.len()
            invariant
                i <= self.entries.len(),
                forall|j: int| 0 <= j < i ==> !holds(self.entries@, key@, j),
            decreases self.entries.len() - i,
        {
            if self.entries[i].key == *key {
                return Some(i);
            }
            i += 1;
        }
        None
    }

    /// The record at the address `key`, if the store holds one there.
    pub fn get(&self, key: &Address) -> (record: Option<Vault>)
        ensures
            self@.dom().contains(key@) ==> record == Some(self@[key@]),
            !self@.dom().contains(key@) ==> record.is_none(),
    {
        proof {
            use_type_invariant(self);
        }
        match self.find(key) {
            Some(i) => {
                Some(self.entries[i].vault)
            },
            None => None,
        }
    }

    fn put(&mut self, key: Address, vault: Vault)
        ensures
            final(self)@ == old(self)@.insert(key@, vault),
    {
        proof {
            use_type_invariant(&*self);
        }
        let ghost before = self.entries@;
        let found = self.find(&key);
        let mut entries: Vec<Entry> = Vec::new();
        std::mem::swap(&mut self.entries, &mut entries);
        match found {
            Some(i) => {
                entries.set(i, Entry { key, vault });
                proof {
                    lemma_placed(before, entries@, i as int, Entry { key, vault });
                }
            },
            None => {
                entries.push(Entry { key, vault });
                proof {
                    lemma_placed(before, entries@, before.len() as int, Entry { key, vault });
                }
            },
        }
        std::mem::swap(&mut self.entries, &mut entries);
    }

    fn handle(owner: &Address) -> (handle: Option<VaultHandle>)
        ensures
            handle == spec_handle(*owner),
            handle matches Some(h) ==> vault_bound(*owner, h.vault, h.asset_account),
    {
        let vault = match vault_address(owner) {
            Some(vault) => vault,
            None => {
                return None;
            },
        };
        let asset_account = match vault_asset_address() {
            Some(asset_account) => asset_account,
            None => {
                return None;
            },
        };
        proof {
            lemma_address_with(vault);
            lemma_address_with(asset_account);
        }
        Some(VaultHandle { vault, asset_account })
    }

    /// Finds the vault of `owner` at the address derived from the owner's
    /// identity.
    pub fn resolve(&self, owner: &Address) -> (outcome: Result<VaultHandle, LockupError>)
        ensures
            outcome == spec_resolve(self@, *owner),
            outcome matches Ok(handle) ==> vault_bound(*owner, handle.vault, handle.asset_account),
    {
        let handle = match Self::handle(owner) {
            Some(handle) => handle,
            None => {
                return Err(LockupError::InvalidAccountBinding);
            },
        };
        match self.get(&handle.vault) {
            Some(_) => Ok(handle),
            None => Err(LockupError::NotFound),
        }
    }

    /// Creates the vault of `owner` for the asset type `mint`, empty, at the
    /// address derived from the owner's identity. The handle also names the
    /// asset-holding account that backs the vault, which holds the same
    /// asset type and is controlled by the program.
    pub fn create(&mut self, owner: &Address, mint: &Address) -> (outcome: Result<
        VaultHandle,
        LockupError,
    >)
        ensures
            outcome == spec_create(old(self)@, *owner),
            outcome matches Ok(handle) ==> vault_bound(*owner, handle.vault, handle.asset_account),
            final(self)@ == created(old(self)@, *owner, *mint),
    {
        let handle = match Self::handle(owner) {
            Some(handle) => handle,
            None => {
                return Err(LockupError::InvalidAccountBinding);
            },
        };
        if self.get(&handle.vault).is_some() {
            return Err(LockupError::AlreadyExists);
        }
        let blank = Address::new([0u8;32]);
        let mut ctx = Initialize {
            authority: *owner,
            signed: true,
            vault_address: handle.vault,
            vault_account: Vault::new(blank, blank),
            vault_ata: handle.asset_account,
            mint: *mint,
        };
        match initialize(&mut ctx) {
            Err(e) => {
                return Err(e);
            },
            Ok(_) => {},
        }
        self.put(handle.vault, ctx.vault_account);
        Ok(handle)
    }

    /// The `initialize` instruction of `owner`, who signed it: creates the
    /// vault of `owner` for the asset type `mint`.
    pub fn initialize(&mut self, owner: &Address, mint: &Address) -> (outcome: Result<
        (),
        LockupError,
    >)
        ensures
            outcome == spec_initialize(old(self)@, *owner),
            final(self)@ == created(old(self)@, *owner, *mint),
    {
        match self.create(owner, mint) {
            Ok(_) => Ok(()),
            Err(e) => Err(e),
        }
    }

    /// The `deposit` instruction of `caller`, who signed it, at the time
    /// `now`: locks `amount` in the caller's vault for `period` seconds and
    /// asks for the transfer of `amount` from the caller's asset-holding
    /// account to the vault's. `mint` is the asset type of the supplied
    /// account.
    pub fn deposit(
        &mut self,
        caller: &Address,
        caller_asset_account: &Address,
        mint: &Address,
        amount: u64,
        period: u64,
        now: u64,
    ) -> (outcome: Result<TransferCall, LockupError>)
        ensures
            outcome == spec_deposit(
                old(self)@,
                *caller,
                *caller_asset_account,
                *mint,
                amount,
                period,
                now,
            ),
            final(self)@ == deposited(
                old(self)@,
                *caller,
                *caller_asset_account,
                *mint,
                amount,
                period,
                now,
            ),
    {
        let handle = match self.resolve(caller) {
            Ok(handle) => handle,
            Err(e) => {
                return Err(e);
            },
        };
        let record = match self.get(&handle.vault) {
            Some(record) => record,
            None => {
                return Err(LockupError::NotFound);
            },
        };
        let mut ctx = Deposit {
            authority: *caller,
            signed: true,
            authority_ata: *caller_asset_account,
            vault_address: handle.vault,
            vault_account: record,
            vault_ata: handle.asset_account,
            mint: *mint,
            clock: now,
        };
        let outcome = deposit(&mut ctx, amount, period);
        if outcome.is_ok() {
            self.put(handle.vault, ctx.vault_account);
        }
        outcome
    }

    /// The `withdraw` instruction of `caller`, who signed it, at the time
    /// `now`: asks for the transfer of the whole balance of the caller's
    /// vault to the caller's asset-holding account, once the lock has ended.
    /// `mint` is the asset type of the supplied account.
    pub fn withdraw(
        &self,
        caller: &Address,
        caller_asset_account: &Address,
        mint: &Address,
        now: u64,
    ) -> (outcome: Result<TransferCall, LockupError>)
        ensures
            outcome == spec_withdraw(self@, *caller, *caller_asset_account, *mint, now),
    {
        let handle = match self.resolve(caller) {
            Ok(handle) => handle,
            Err(e) => {
                return Err(e);
            },
        };
        let record = match self.get(&handle.vault) {
            Some(record) => record,
            None => {
                return Err(LockupError::NotFound);
            },
        };
        let ctx = Withdraw {
            authority: *caller,
            signed: true,
            authority_ata: *caller_asset_account,
            vault_address: handle.vault,
            vault_account: record,
            vault_ata: handle.asset_account,
            mint: *mint,
            clock: now,
        };
        withdraw(&ctx)
    }
}

} // verus!
