//! Time-locked custody vault: account binding and time gating.
//!
//! An owner deposits a quantity of one asset type together with a lock
//! period, and may withdraw it once the period has elapsed. The library
//! decides, for each request, whether value may move: it checks the accounts
//! that the request names against the addresses that it derives itself, and
//! the time against the lock. It performs no transfer: an instruction that
//! passes returns the transfer that the host is to perform.

pub mod address;
pub mod error;
pub mod instructions;
pub mod laws;
pub mod states;
pub mod store;

pub use crate::address::Address;
pub use crate::error::LockupError;
pub use crate::instructions::{
    deposit, initialize, withdraw, Deposit, Initialize, Transfer, TransferCall, Withdraw,
};
pub use crate::states::Vault;
pub use crate::store::{VaultHandle, VaultStore};
