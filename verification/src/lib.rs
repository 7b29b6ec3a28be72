//! Share accounting for a pooled investment vault.
//!
//! A vault holds one pool of value that many depositors and a manager (optionally also a
//! protocol) own in shares. The manager's balance is never stored: it is what remains of
//! `total_shares` once the depositors' and the protocol's shares are taken away. Every operation
//! takes the current value of the pool and the current time from the caller, works in checked
//! integer arithmetic, and either succeeds as a whole or leaves every record untouched.
//!
//! - `state` holds the records: the vault, its protocol, a depositor with its withdraw request,
//!   the exchange's fuel counters, and the records that an operation hands back.
//! - `operations` holds what a depositor can do: deposit, ask for a withdrawal, take the
//!   request back, redeem it, and have its profit share charged.
//! - `math` holds the checked arithmetic, `keys` the account address of the host chain.
//! - `proofs` holds what is proved of the operations together: that the shares add up, that a
//!   high-water mark never falls, and that a deposit at a whole price can be had back to the
//!   unit.

pub mod constants;
pub mod error;
pub mod keys;
pub mod math;
pub mod operations;
pub mod proofs;
pub mod state;

pub use error::ErrorCode;
pub use state::{Vault, VaultDepositor, VaultProtocol, WithdrawRequest, WithdrawUnit};
