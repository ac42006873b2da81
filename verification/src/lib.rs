//! A hash-timelock escrow engine for cross-chain atomic swaps.
//!
//! The engine is pure: every operation is a function from the current
//! record, the caller, the ledger timestamp and the facts the host has
//! established (authorizations, balances) to either an exact error or a
//! new record together with the token movements the host must perform.
//! The host commits or discards each call atomically, so all fallible
//! checks here run before any effect is emitted.

pub mod engine;
pub mod errors;
pub mod factory;
pub mod hashing;
pub mod identity;
pub mod order_traits;
pub mod pricing;
pub mod terms;
pub mod timelocks;

pub use engine::{
    CancelReceipt, Escrow, EscrowCancelled, FundsRescued, RescueReceipt, TokenFlow, Withdrawal,
    WithdrawReceipt,
};
pub use errors::EscrowError;
pub use factory::{CreateContext, CreateReceipt, EscrowFactory};
pub use hashing::{hash_secret, secret_matches};
pub use identity::derive_identity;
pub use pricing::{AmountCalc, DutchAuction};
pub use terms::{
    AccountId, EscrowDirection, EscrowImmutables, EscrowResolves, EscrowState, TimeLocks, TokenId,
};
pub use timelocks::{Stage, Timelocks};
