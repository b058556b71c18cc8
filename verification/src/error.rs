//! The ways in which an instruction is rejected.

use vstd::prelude::*;

verus! {

/// Why an instruction was rejected. An instruction that is rejected has no
/// effect.
#[derive(Clone, Copy, Debug, PartialEq, Eq, Structural)]
pub enum LockupError {
    /// A vault record is already present at the owner's derived address.
    AlreadyExists,
    /// No vault record is present at the owner's derived address.
    NotFound,
    /// A supplied account is not the one that the derivation gives.
    InvalidAccountBinding,
    /// The caller is not the authority that the vault records.
    Unauthorized,
    /// The supplied asset type is not the one that the vault holds.
    MintMismatch,
    /// The end of the lock does not fit in 64 bits.
    Overflow,
    /// The lock has not ended yet.
    LockNotExpired,
    /// The transfer primitive rejected the movement of value.
    TransferFailed,
}

} // verus!
