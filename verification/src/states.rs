//! The persistent record of a vault.

use crate::address::Address;
use crate::error::LockupError;
use vstd::bytes::{
    lemma_auto_spec_u64_to_from_le_bytes, spec_u64_to_le_bytes, u64_from_le_bytes,
    u64_to_le_bytes,
};
use vstd::prelude::*;
use vstd::slice::slice_subrange;

verus! {

/// The record of one owner's locked balance and of the time at which it is
/// released.
#[derive(Clone, Copy, Debug, PartialEq, Eq)]
pub struct Vault {
    /// The owner entitled to deposit and to withdraw.
    pub authority: Address,
    /// The quantity that the current lock holds.
    pub amount: u64,
    /// When the current lock began, in seconds since the epoch.
    pub start_time: u64,
    /// When the current lock ends, in seconds since the epoch.
    pub end_time: u64,
    /// The one asset type that the vault holds.
    pub mint: Address,
}

/// The instant at which a lock that starts at `start` and lasts `period`
/// seconds ends.
pub open spec fn lock_end(start: u64, period: u64) -> int {
    start + period
}

/// Number of bytes in a stored record.
pub const VAULT_BYTES: usize = 88;

impl Vault {
    /// The stored form of the record: the authority, then the balance, the
    /// start and the end of the lock, each as eight bytes with the lowest
    /// first, then the asset type.
    pub open spec fn layout(self) -> Seq<u8> {
        self.authority@ + spec_u64_to_le_bytes(self.amount) + spec_u64_to_le_bytes(
            self.start_time,
        ) + spec_u64_to_le_bytes(self.end_time) + self.mint@
    }

    /// The stored form of the record.
    pub fn to_bytes(&self) -> (bytes: Vec<u8>)
        ensures
            bytes@ == self.layout(),
            bytes@.len() == VAULT_BYTES,
    {
        let mut bytes = self.authority.to_vec();
        let mut amount = u64_to_le_bytes(self.amount);
        let mut start_time = u64_to_le_bytes(self.start_time);
        let mut end_time = u64_to_le_bytes(self.end_time);
        let mut mint = self.mint.to_vec();
        bytes.append(&mut amount);
        bytes.append(&mut start_time);
        bytes.append(&mut end_time);
        bytes.append(&mut mint);
        bytes
    }

    /// The record whose stored form is `bytes`: there is one where `bytes`
    /// has the length of a stored record, and none else.
    pub fn from_bytes(bytes: &[u8]) -> (vault: Option<Vault>)
        ensures
            bytes@.len() != VAULT_BYTES ==> vault.is_none(),
            bytes@.len() == VAULT_BYTES ==> vault.is_some() && vault.unwrap().layout() == bytes@,
    {
        if bytes.len() != VAULT_BYTES {
            return None;
        }
        let vault = Vault {
            authority: Address::read(bytes, 0),
            amount: u64_from_le_bytes(slice_subrange(bytes, 32, 40)),
            start_time: u64_from_le_bytes(slice_subrange(bytes, 40, 48)),
            end_time: u64_from_le_bytes(slice_subrange(bytes, 48, 56)),
            mint: Address::read(bytes, 56),
        };
        proof {
            lemma_auto_spec_u64_to_from_le_bytes();
        }
        Some(vault)
    }

    /// A lock never ends before it starts.
    pub open spec fn wf(&self) -> bool {
        self.start_time <= self.end_time
    }

    /// Whether the balance may leave the vault at the instant `now`.
    pub open spec fn unlocked_at(&self, now: u64) -> bool {
        now >= self.end_time
    }

    /// The record as it is when `amount` is locked at `now` for `period`
    /// seconds: the balance and both instants are replaced, whatever they
    /// were, and the rest stays.
    pub open spec fn locked(self, amount: u64, now: u64, period: u64) -> Vault {
        Vault {
            amount,
            start_time: now,
            end_time: lock_end(now, period) as u64,
            ..self
        }
    }

    /// An empty vault of `authority` for the asset type `mint`.
    pub fn new(authority: Address, mint: Address) -> (vault: Vault)
        ensures
            vault == (Vault { authority, amount: 0, start_time: 0, end_time: 0, mint }),
            vault.wf(),
    {
        Vault { authority, amount: 0, start_time: 0, end_time: 0, mint }
    }

    /// Locks `amount` from `now` for `period` seconds. Fails with `Overflow`,
    /// and changes nothing, where the end of the lock does not fit in 64 bits.
    pub fn lock(&mut self, amount: u64, now: u64, period: u64) -> (outcome: Result<(), LockupError>)
        ensures
            lock_end(now, period) <= u64::MAX ==> outcome == Ok::<(), LockupError>(())
                && *final(self) == old(self).locked(amount, now, period),
            lock_end(now, period) > u64::MAX ==> outcome == Err::<(), LockupError>(
                LockupError::Overflow,
            ) && *final(self) == *old(self),
            outcome is Ok ==> final(self).wf() && final(self).end_time == final(self).start_time
                + period,
    {
        match now.checked_add(period) {
            Some(end) => {
                self.amount = amount;
                self.start_time = now;
                self.end_time = end;
                Ok(())
            },
            None => Err(LockupError::Overflow),
        }
    }

    /// Whether the lock has ended at the instant `now`.
    pub fn is_unlocked(&self, now: u64) -> (unlocked: bool)
        ensures
            unlocked == self.unlocked_at(now),
    {
        now >= self.end_time
    }
}

} // verus!
