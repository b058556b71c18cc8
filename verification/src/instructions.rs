//! The three instructions of the vault, each on the accounts that a request
//! names: what must hold before value moves, and the transfer that follows.

use crate::address::{
    associated_token_address, spec_associated_token_address, spec_vault_address,
    spec_vault_asset_address, vault_asset_address, Address,
};
use crate::error::LockupError;
use crate::states::{lock_end, Vault};
use vstd::prelude::*;

verus! {

/// The accounts of one transfer: value leaves `from` for `to` on the word of
/// `authority`, which must control `from`.
#[derive(Clone, Copy, Debug, PartialEq, Eq)]
pub struct Transfer {
    pub from: Address,
    pub to: Address,
    pub authority: Address,
}

/// A transfer that an instruction asks the transfer primitive to perform.
#[derive(Clone, Copy, Debug, PartialEq, Eq)]
pub struct TransferCall {
    pub accounts: Transfer,
    pub amount: u64,
}

impl TransferCall {
    /// The outcome of the instruction that issued this call, once the
    /// transfer primitive has said whether it moved the value.
    pub fn settle(&self, moved: bool) -> (outcome: Result<(), LockupError>)
        ensures
            moved ==> outcome == Ok::<(), LockupError>(()),
            !moved ==> outcome == Err::<(), LockupError>(LockupError::TransferFailed),
    {
        if moved {
            Ok(())
        } else {
            Err(LockupError::TransferFailed)
        }
    }
}

/// The accounts of an `initialize` request.
#[derive(Clone, Copy, Debug, PartialEq, Eq)]
pub struct Initialize {
    /// The owner in whose name the request is made.
    pub authority: Address,
    /// Whether the owner signed the request.
    pub signed: bool,
    /// The address at which the record was allocated.
    pub vault_address: Address,
    /// The record that was allocated for the owner.
    pub vault_account: Vault,
    /// The asset-holding account that was allocated to back the vault.
    pub vault_ata: Address,
    /// The asset type that the vault is to hold.
    pub mint: Address,
}

/// The accounts of a `deposit` request, and the time at which it is handled.
#[derive(Clone, Copy, Debug, PartialEq, Eq)]
pub struct Deposit {
    /// The caller in whose name the request is made.
    pub authority: Address,
    /// Whether the caller signed the request.
    pub signed: bool,
    /// The asset-holding account that the caller supplied as their own.
    pub authority_ata: Address,
    /// The address at which the vault record was found.
    pub vault_address: Address,
    /// The vault record that was found there.
    pub vault_account: Vault,
    /// The asset-holding account that the caller supplied as the vault's.
    pub vault_ata: Address,
    /// The asset type that the supplied accounts hold.
    pub mint: Address,
    /// The current time, in seconds since the epoch.
    pub clock: u64,
}

/// The accounts of a `withdraw` request, and the time at which it is handled.
#[derive(Clone, Copy, Debug, PartialEq, Eq)]
pub struct Withdraw {
    /// The caller in whose name the request is made.
    pub authority: Address,
    /// Whether the caller signed the request.
    pub signed: bool,
    /// The asset-holding account that the caller supplied as their own.
    pub authority_ata: Address,
    /// The address at which the vault record was found.
    pub vault_address: Address,
    /// The vault record that was found there.
    pub vault_account: Vault,
    /// The asset-holding account that the caller supplied as the vault's.
    pub vault_ata: Address,
    /// The asset type that the supplied accounts hold.
    pub mint: Address,
    /// The current time, in seconds since the epoch.
    pub clock: u64,
}

/// The caller signed the request and is the authority that the vault
/// records.
pub open spec fn authorized(vault: Vault, authority: Address, signed: bool) -> bool {
    signed && vault.authority@ == authority@
}

/// The supplied addresses of the vault are the derived ones: its record is at
/// the address that belongs to the tag and the owner, and its asset-holding
/// account at the one that belongs to the tag alone.
pub open spec fn vault_bound(
    authority: Address,
    vault_address: Address,
    vault_ata: Address,
) -> bool {
    &&& spec_vault_address(authority@) == Some(vault_address@)
    &&& spec_vault_asset_address() == Some(vault_ata@)
}

/// The asset-holding account supplied as the caller's is the one derived for
/// the caller and the asset type of the vault.
pub open spec fn caller_bound(vault: Vault, authority: Address, authority_ata: Address) -> bool {
    spec_associated_token_address(authority@, vault.mint@) == Some(authority_ata@)
}

/// Every supplied account is the derived one.
pub open spec fn accounts_bound(
    vault: Vault,
    authority: Address,
    authority_ata: Address,
    vault_address: Address,
    vault_ata: Address,
) -> bool {
    &&& vault_bound(authority, vault_address, vault_ata)
    &&& caller_bound(vault, authority, authority_ata)
}

/// The supplied asset type is the one that the vault holds.
pub open spec fn mint_matches(vault: Vault, mint: Address) -> bool {
    vault.mint@ == mint@
}

/// What the check of a request's accounts against a vault yields: the first
/// of the three conditions that fails decides the error.
pub open spec fn accounts_check(
    vault: Vault,
    authority: Address,
    signed: bool,
    authority_ata: Address,
    vault_address: Address,
    vault_ata: Address,
    mint: Address,
) -> Result<(), LockupError> {
    if !authorized(vault, authority, signed) {
        Err(LockupError::Unauthorized)
    } else if !accounts_bound(vault, authority, authority_ata, vault_address, vault_ata) {
        Err(LockupError::InvalidAccountBinding)
    } else if !mint_matches(vault, mint) {
        Err(LockupError::MintMismatch)
    } else {
        Ok(())
    }
}

/// Whether the supplied addresses of the vault of `authority` are the derived
/// ones.
pub fn is_vault_bound(authority: &Address, vault_address: &Address, vault_ata: &Address) -> (bound:
    bool)
    ensures
        bound == vault_bound(*authority, *vault_address, *vault_ata),
{
    let record_bound = match crate::address::vault_address(authority) {
        Some(expected) => expected == *vault_address,
        None => false,
    };
    let asset_bound = match vault_asset_address() {
        Some(expected) => expected == *vault_ata,
        None => false,
    };
    record_bound && asset_bound
}

/// Checks the accounts of a request against the vault: that the caller
/// signed and is its authority, that every supplied account is the derived
/// one, and that the asset type is the vault's.
pub fn check_accounts(
    vault: &Vault,
    authority: &Address,
    signed: bool,
    authority_ata: &Address,
    vault_address: &Address,
    vault_ata: &Address,
    mint: &Address,
) -> (outcome: Result<(), LockupError>)
    ensures
        outcome == accounts_check(
            *vault,
            *authority,
            signed,
            *authority_ata,
            *vault_address,
            *vault_ata,
            *mint,
        ),
{
    if !signed || vault.authority != *authority {
        return Err(LockupError::Unauthorized);
    }
    if !is_vault_bound(authority, vault_address, vault_ata) {
        return Err(LockupError::InvalidAccountBinding);
    }
    let own_account = match associated_token_address(authority, &vault.mint) {
        Some(expected) => expected == *authority_ata,
        None => false,
    };
    if !own_account {
        return Err(LockupError::InvalidAccountBinding);
    }
    if vault.mint != *mint {
        return Err(LockupError::MintMismatch);
    }
    Ok(())
}

impl Initialize {
    /// What the check of the accounts yields: `Unauthorized` unless the
    /// owner signed, else `InvalidAccountBinding` unless the supplied
    /// addresses of the vault are the derived ones.
    pub open spec fn check(&self) -> Result<(), LockupError> {
        if !self.signed {
            Err(LockupError::Unauthorized)
        } else if !vault_bound(self.authority, self.vault_address, self.vault_ata) {
            Err(LockupError::InvalidAccountBinding)
        } else {
            Ok(())
        }
    }

    /// The accounts once the record is bound to the owner and to the asset
    /// type: it keeps its balance and its instants.
    pub open spec fn bound(self) -> Initialize {
        Initialize {
            vault_account: Vault {
                authority: self.authority,
                mint: self.mint,
                ..self.vault_account
            },
            ..self
        }
    }

    /// Checks that the owner signed, and the supplied addresses of the vault
    /// against the derived ones.
    pub fn validate(&self) -> (outcome: Result<(), LockupError>)
        ensures
            outcome == self.check(),
    {
        if !self.signed {
            Err(LockupError::Unauthorized)
        } else if !is_vault_bound(&self.authority, &self.vault_address, &self.vault_ata) {
            Err(LockupError::InvalidAccountBinding)
        } else {
            Ok(())
        }
    }
}

/// Binds the record that was allocated for the owner to the owner and to the
/// asset type. Where the accounts fail the check, nothing changes.
pub fn initialize(ctx: &mut Initialize) -> (outcome: Result<(), LockupError>)
    ensures
        outcome == old(ctx).check(),
        outcome is Ok ==> *final(ctx) == old(ctx).bound(),
        outcome is Err ==> *final(ctx) == *old(ctx),
        old(ctx).vault_account.wf() ==> final(ctx).vault_account.wf(),
{
    match ctx.validate() {
        Err(e) => {
            return Err(e);
        },
        Ok(_) => {},
    }
    ctx.vault_account.authority = ctx.authority;
    ctx.vault_account.mint = ctx.mint;
    Ok(())
}

impl Deposit {
    /// What the check of the accounts yields.
    pub open spec fn check(&self) -> Result<(), LockupError> {
        accounts_check(
            self.vault_account,
            self.authority,
            self.signed,
            self.authority_ata,
            self.vault_address,
            self.vault_ata,
            self.mint,
        )
    }

    /// The accounts of the transfer that a deposit asks for: from the
    /// caller's account to the vault's, on the caller's word.
    pub open spec fn transfer(&self) -> Transfer {
        Transfer { from: self.authority_ata, to: self.vault_ata, authority: self.authority }
    }

    /// Checks the accounts against the vault.
    pub fn validate(&self) -> (outcome: Result<(), LockupError>)
        ensures
            outcome == self.check(),
    {
        check_accounts(
            &self.vault_account,
            &self.authority,
            self.signed,
            &self.authority_ata,
            &self.vault_address,
            &self.vault_ata,
            &self.mint,
        )
    }

    /// The accounts of the transfer that a deposit asks for.
    pub fn into_transfer_cpi_context(&self) -> (accounts: Transfer)
        ensures
            accounts == self.transfer(),
    {
        Transfer { from: self.authority_ata, to: self.vault_ata, authority: self.authority }
    }
}

/// What a deposit of `amount` for `period` seconds returns: the error of the
/// account check, else `Overflow` where the lock would end beyond 64 bits,
/// else the transfer of `amount` into the vault.
pub open spec fn deposit_outcome(ctx: Deposit, amount: u64, period: u64) -> Result<
    TransferCall,
    LockupError,
> {
    match ctx.check() {
        Err(e) => Err(e),
        Ok(_) => if lock_end(ctx.clock, period) > u64::MAX {
            Err(LockupError::Overflow)
        } else {
            Ok(TransferCall { accounts: ctx.transfer(), amount })
        },
    }
}

/// The accounts after a deposit: where it succeeds the record holds the new
/// lock in place of the old one, and where it fails nothing has changed.
pub open spec fn deposit_effect(ctx: Deposit, amount: u64, period: u64) -> Deposit {
    if deposit_outcome(ctx, amount, period) is Ok {
        Deposit { vault_account: ctx.vault_account.locked(amount, ctx.clock, period), ..ctx }
    } else {
        ctx
    }
}

/// Locks `amount` in the vault from the current time for `period` seconds,
/// and asks for the transfer of `amount` from the caller's account to the
/// vault's. The record is written before the transfer is performed: where
/// the transfer then fails, the host discards the instruction's effects.
pub fn deposit(ctx: &mut Deposit, amount: u64, period: u64) -> (outcome: Result<
    TransferCall,
    LockupError,
>)
    ensures
        outcome == deposit_outcome(*old(ctx), amount, period),
        *final(ctx) == deposit_effect(*old(ctx), amount, period),
        outcome is Ok ==> final(ctx).vault_account.wf() && final(ctx).vault_account.end_time
            == final(ctx).vault_account.start_time + period,
{
    match ctx.validate() {
        Err(e) => {
            return Err(e);
        },
        Ok(_) => {},
    }
    let now: u64 = ctx.clock;
    match ctx.vault_account.lock(amount, now, period) {
        Err(e) => {
            return Err(e);
        },
        Ok(_) => {},
    }
    Ok(TransferCall { accounts: ctx.into_transfer_cpi_context(), amount })
}

impl Withdraw {
    /// What the check of the accounts yields.
    pub open spec fn check(&self) -> Result<(), LockupError> {
        accounts_check(
            self.vault_account,
            self.authority,
            self.signed,
            self.authority_ata,
            self.vault_address,
            self.vault_ata,
            self.mint,
        )
    }

    /// The accounts of the transfer that a withdrawal asks for: from the
    /// vault's account to the caller's, on the word of the vault's account,
    /// which the program controls.
    pub open spec fn transfer(&self) -> Transfer {
        Transfer { from: self.vault_ata, to: self.authority_ata, authority: self.vault_ata }
    }

    /// Checks the accounts against the vault.
    pub fn validate(&self) -> (outcome: Result<(), LockupError>)
        ensures
            outcome == self.check(),
    {
        check_accounts(
            &self.vault_account,
            &self.authority,
            self.signed,
            &self.authority_ata,
            &self.vault_address,
            &self.vault_ata,
            &self.mint,
        )
    }

    /// Rejects the withdrawal with `LockNotExpired` while the lock lasts.
    pub fn time_check(&self) -> (outcome: Result<(), LockupError>)
        ensures
            self.vault_account.unlocked_at(self.clock) ==> outcome == Ok::<(), LockupError>(()),
            !self.vault_account.unlocked_at(self.clock) ==> outcome == Err::<(), LockupError>(
                LockupError::LockNotExpired,
            ),
    {
        let now: u64 = self.clock;
        let unlock_time: u64 = self.vault_account.end_time;
        if now < unlock_time {
            return Err(LockupError::LockNotExpired);
        }
        Ok(())
    }

    /// The accounts of the transfer that a withdrawal asks for.
    pub fn into_transfer_cpi_context(&self) -> (accounts: Transfer)
        ensures
            accounts == self.transfer(),
    {
        Transfer { from: self.vault_ata, to: self.authority_ata, authority: self.vault_ata }
    }
}

/// What a withdrawal returns: the error of the account check, else
/// `LockNotExpired` while the lock lasts, else the transfer of the whole
/// balance out of the vault.
pub open spec fn withdraw_outcome(ctx: Withdraw) -> Result<TransferCall, LockupError> {
    match ctx.check() {
        Err(e) => Err(e),
        Ok(_) => if !ctx.vault_account.unlocked_at(ctx.clock) {
            Err(LockupError::LockNotExpired)
        } else {
            Ok(TransferCall { accounts: ctx.transfer(), amount: ctx.vault_account.amount })
        },
    }
}

/// Asks for the transfer of the vault's whole balance to the caller's
/// account, once the lock has ended. The record itself is left as it is.
pub fn withdraw(ctx: &Withdraw) -> (outcome: Result<TransferCall, LockupError>)
    ensures
        outcome == withdraw_outcome(*ctx),
{
    match ctx.validate() {
        Err(e) => {
            return Err(e);
        },
        Ok(_) => {},
    }
    match ctx.time_check() {
        Err(e) => {
            return Err(e);
        },
        Ok(_) => {},
    }
    Ok(TransferCall { accounts: ctx.into_transfer_cpi_context(), amount: ctx.vault_account.amount })
}

} // verus!
