//! The error codes every escrow operation can surface.

use vstd::prelude::*;

verus! {

/// Why an escrow operation was refused. Each operation rejects before it
/// emits any effect, so an error never leaves a record partially changed.
#[derive(Clone, Copy, Debug, PartialEq, Eq, Structural)]
pub enum EscrowError {
    /// A linear pricing window whose end does not lie after its start.
    InvalidAuctionWindow,
    /// A timelock or amount computation left the representable range.
    ArithmeticOverflow,
    /// A required party has not authorized exactly this operation.
    Unauthorized,
    /// The stage that admits the caller has not started yet.
    TooEarly,
    /// The window that admits the operation has already closed.
    TooLate,
    /// The record is already terminal (withdrawn or cancelled).
    NotActive,
    /// A record already exists at the derived identity.
    AlreadyExists,
    /// The digest of the offered secret does not match the hashlock.
    InvalidSecret,
    /// A paying party holds less than the operation must move.
    InsufficientBalance,
}

} // verus!
