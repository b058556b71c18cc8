//! What holds of the instructions on every input.

use crate::address::{lemma_address_by_view, spec_vault_address, Address};
use crate::error::LockupError;
use crate::instructions::{
    authorized, caller_bound, deposit_effect, deposit_outcome, vault_bound, withdraw_outcome,
    Deposit, TransferCall, Withdraw,
};
use crate::states::{lock_end, Vault};
use crate::store::{
    created, deposited, has_vault, spec_deposit, spec_handle, spec_initialize, spec_withdraw,
    vault_of,
};
use vstd::bytes::{lemma_auto_spec_u64_to_from_le_bytes, spec_u64_to_le_bytes};
use vstd::prelude::*;

verus! {

/// A vault is created once: whatever the store held, after `initialize` for
/// an owner a further `initialize` for the same owner fails and changes
/// nothing, whichever asset type it names. It fails with `AlreadyExists` for
/// every owner for whom the addresses of a vault can be derived, and so
/// whenever the first one succeeded.
pub proof fn law_initialize_twice(
    records: Map<Seq<u8>, Vault>,
    owner: Address,
    first_mint: Address,
    second_mint: Address,
)
    ensures
        spec_initialize(created(records, owner, first_mint), owner) is Err,
        spec_handle(owner) is Some || spec_initialize(records, owner) is Ok ==> spec_initialize(
            created(records, owner, first_mint),
            owner,
        ) == Err::<(), LockupError>(LockupError::AlreadyExists),
        created(created(records, owner, first_mint), owner, second_mint) == created(
            records,
            owner,
            first_mint,
        ),
{
}

/// After `initialize` has succeeded the vault of the owner is empty and bound
/// to the owner and to the asset type.
pub proof fn law_initialize_creates(records: Map<Seq<u8>, Vault>, owner: Address, mint: Address)
    requires
        spec_initialize(records, owner) is Ok,
    ensures
        !has_vault(records, owner),
        has_vault(created(records, owner, mint), owner),
        vault_of(created(records, owner, mint), owner) == (Vault {
            authority: owner,
            amount: 0,
            start_time: 0,
            end_time: 0,
            mint,
        }),
{
}

/// A deposit that succeeds records the lock exactly: it starts at the current
/// time, ends `period` seconds later, and holds `amount`. The authority and
/// the asset type of the vault stay as they were.
pub proof fn law_deposit_records_lock(ctx: Deposit, amount: u64, period: u64)
    requires
        deposit_outcome(ctx, amount, period) is Ok,
    ensures
        ({
            let vault = deposit_effect(ctx, amount, period).vault_account;
            &&& vault.start_time == ctx.clock
            &&& vault.end_time == vault.start_time + period
            &&& vault.amount == amount
            &&& vault.authority == ctx.vault_account.authority
            &&& vault.mint == ctx.vault_account.mint
            &&& vault.wf()
        }),
{
}

/// A deposit whose lock would end beyond 64 bits fails with `Overflow` and
/// leaves the record untouched, where the accounts pass the check.
pub proof fn law_deposit_overflow(ctx: Deposit, amount: u64, period: u64)
    requires
        ctx.check() is Ok,
        lock_end(ctx.clock, period) > u64::MAX,
    ensures
        deposit_outcome(ctx, amount, period) == Err::<TransferCall, LockupError>(
            LockupError::Overflow,
        ),
        deposit_effect(ctx, amount, period) == ctx,
{
}

/// A deposit that fails, for whatever reason, leaves the store as it was.
pub proof fn law_failed_deposit_changes_nothing(
    records: Map<Seq<u8>, Vault>,
    caller: Address,
    caller_asset_account: Address,
    mint: Address,
    amount: u64,
    period: u64,
    now: u64,
)
    requires
        spec_deposit(records, caller, caller_asset_account, mint, amount, period, now) is Err,
    ensures
        deposited(records, caller, caller_asset_account, mint, amount, period, now) == records,
{
}

/// While the lock lasts no withdrawal succeeds, and one whose accounts pass
/// the check fails with `LockNotExpired`.
pub proof fn law_withdraw_waits(ctx: Withdraw)
    requires
        ctx.clock < ctx.vault_account.end_time,
    ensures
        withdraw_outcome(ctx) is Err,
        ctx.check() is Ok ==> withdraw_outcome(ctx) == Err::<TransferCall, LockupError>(
            LockupError::LockNotExpired,
        ),
{
}

/// While the lock of the caller's vault lasts, no withdrawal from the store
/// succeeds.
pub proof fn law_store_withdraw_waits(
    records: Map<Seq<u8>, Vault>,
    caller: Address,
    caller_asset_account: Address,
    mint: Address,
    now: u64,
)
    requires
        has_vault(records, caller),
        now < vault_of(records, caller).end_time,
    ensures
        spec_withdraw(records, caller, caller_asset_account, mint, now) is Err,
{
}

/// A withdrawal in the name of anyone but the authority that the vault
/// records, or one that its caller did not sign, fails with `Unauthorized`,
/// whatever the other accounts and the time are. So does a deposit.
pub proof fn law_only_the_authority(
    withdrawal: Withdraw,
    deposit: Deposit,
    amount: u64,
    period: u64,
)
    ensures
        !withdrawal.signed || withdrawal.vault_account.authority@ != withdrawal.authority@
            ==> withdraw_outcome(withdrawal) == Err::<TransferCall, LockupError>(
            LockupError::Unauthorized,
        ),
        !deposit.signed || deposit.vault_account.authority@ != deposit.authority@
            ==> deposit_outcome(deposit, amount, period) == Err::<TransferCall, LockupError>(
            LockupError::Unauthorized,
        ),
{
}

/// Where the caller signed and is the authority of the vault, and a supplied
/// account is not the derived one, deposit and withdrawal both fail with
/// `InvalidAccountBinding`, whatever the time, the amount and the period are.
/// This holds of each supplied account: of the asset-holding account supplied
/// as the caller's, which must be the one derived for the caller and the
/// asset type of the vault, of the address of the vault record, and of the
/// asset-holding account supplied as the vault's.
pub proof fn law_unbound_account(
    vault: Vault,
    caller: Address,
    caller_asset_account: Address,
    vault_address: Address,
    vault_asset_account: Address,
    mint: Address,
    clock: u64,
    amount: u64,
    period: u64,
)
    requires
        authorized(vault, caller, true),
        !caller_bound(vault, caller, caller_asset_account) || !vault_bound(
            caller,
            vault_address,
            vault_asset_account,
        ),
    ensures
        deposit_outcome(
            Deposit {
                authority: caller,
                signed: true,
                authority_ata: caller_asset_account,
                vault_address,
                vault_account: vault,
                vault_ata: vault_asset_account,
                mint,
                clock,
            },
            amount,
            period,
        ) == Err::<TransferCall, LockupError>(LockupError::InvalidAccountBinding),
        withdraw_outcome(
            Withdraw {
                authority: caller,
                signed: true,
                authority_ata: caller_asset_account,
                vault_address,
                vault_account: vault,
                vault_ata: vault_asset_account,
                mint,
                clock,
            },
        ) == Err::<TransferCall, LockupError>(LockupError::InvalidAccountBinding),
{
}

/// A deposit replaces the lock before it: after two deposits that succeed in
/// turn, the store is as it would be after the second alone. The vault holds
/// the second amount, not the sum, from the second time for the second
/// period.
pub proof fn law_deposit_overwrites(
    records: Map<Seq<u8>, Vault>,
    caller: Address,
    caller_asset_account: Address,
    mint: Address,
    first_amount: u64,
    first_period: u64,
    first_now: u64,
    second_amount: u64,
    second_period: u64,
    second_now: u64,
)
    requires
        spec_deposit(
            records,
            caller,
            caller_asset_account,
            mint,
            first_amount,
            first_period,
            first_now,
        ) is Ok,
        spec_deposit(
            deposited(
                records,
                caller,
                caller_asset_account,
                mint,
                first_amount,
                first_period,
                first_now,
            ),
            caller,
            caller_asset_account,
            mint,
            second_amount,
            second_period,
            second_now,
        ) is Ok,
    ensures
        ({
            let once = deposited(
                records,
                caller,
                caller_asset_account,
                mint,
                first_amount,
                first_period,
                first_now,
            );
            let twice = deposited(
                once,
                caller,
                caller_asset_account,
                mint,
                second_amount,
                second_period,
                second_now,
            );
            &&& twice == deposited(
                records,
                caller,
                caller_asset_account,
                mint,
                second_amount,
                second_period,
                second_now,
            )
            &&& vault_of(twice, caller).amount == second_amount
            &&& vault_of(twice, caller).start_time == second_now
            &&& vault_of(twice, caller).end_time == second_now + second_period
        }),
{
}

/// Every record is at the address derived for its authority, and no lock in
/// it ends before it starts.
pub open spec fn well_kept(records: Map<Seq<u8>, Vault>) -> bool {
    forall|key: Seq<u8>| #[trigger]
        records.dom().contains(key) ==> records[key].wf() && spec_vault_address(
            records[key].authority@,
        ) == Some(key)
}

/// The instructions keep the store well kept: `initialize` and `deposit`
/// never move a record away from the address of its authority, never change
/// the authority or the asset type of a vault that exists, and never record a
/// lock that ends before it starts.
pub proof fn law_store_stays_well_kept(
    records: Map<Seq<u8>, Vault>,
    caller: Address,
    caller_asset_account: Address,
    mint: Address,
    amount: u64,
    period: u64,
    now: u64,
)
    requires
        well_kept(records),
    ensures
        well_kept(created(records, caller, mint)),
        well_kept(deposited(records, caller, caller_asset_account, mint, amount, period, now)),
        has_vault(records, caller) ==> ({
            let after = deposited(records, caller, caller_asset_account, mint, amount, period, now);
            &&& has_vault(after, caller)
            &&& vault_of(after, caller).authority == vault_of(records, caller).authority
            &&& vault_of(after, caller).mint == vault_of(records, caller).mint
        }),
{
}

/// In a well-kept store the vault that is resolved for a caller records the
/// caller as its authority, where no other identity derives the address of
/// the caller's vault: no instruction on the store then fails with
/// `Unauthorized`. The check of the authority is what is left to guard a
/// vault should two identities ever derive one address.
pub proof fn law_resolved_vault_is_the_callers(
    records: Map<Seq<u8>, Vault>,
    caller: Address,
    caller_asset_account: Address,
    mint: Address,
    amount: u64,
    period: u64,
    now: u64,
)
    requires
        well_kept(records),
        forall|other: Seq<u8>| #[trigger]
            spec_vault_address(other) == spec_vault_address(caller@) ==> other == caller@,
    ensures
        spec_withdraw(records, caller, caller_asset_account, mint, now) != Err::<
            TransferCall,
            LockupError,
        >(LockupError::Unauthorized),
        spec_deposit(records, caller, caller_asset_account, mint, amount, period, now) != Err::<
            TransferCall,
            LockupError,
        >(LockupError::Unauthorized),
{
}

/// Two records with the same stored form are the same record: reading back
/// what was stored gives the record that was stored.
pub proof fn law_stored_form_is_exact(a: Vault, b: Vault)
    requires
        a.layout() == b.layout(),
    ensures
        a == b,
{
    lemma_auto_spec_u64_to_from_le_bytes();
    let s = a.layout();
    assert(a.authority@ == s.subrange(0, 32));
    assert(b.authority@ == s.subrange(0, 32));
    assert(spec_u64_to_le_bytes(a.amount) == s.subrange(32, 40));
    assert(spec_u64_to_le_bytes(b.amount) == s.subrange(32, 40));
    assert(spec_u64_to_le_bytes(a.start_time) == s.subrange(40, 48));
    assert(spec_u64_to_le_bytes(b.start_time) == s.subrange(40, 48));
    assert(spec_u64_to_le_bytes(a.end_time) == s.subrange(48, 56));
    assert(spec_u64_to_le_bytes(b.end_time) == s.subrange(48, 56));
    assert(a.mint@ == s.subrange(56, 88));
    assert(b.mint@ == s.subrange(56, 88));
    lemma_address_by_view(a.authority, b.authority);
    lemma_address_by_view(a.mint, b.mint);
}

} // verus!
