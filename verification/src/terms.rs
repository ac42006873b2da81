//! The swap terms an escrow is created with, and the values resolved at
//! creation. Parties and tokens are the plain identifiers under which
//! the host ledger knows them.

use vstd::prelude::*;

use crate::pricing::AmountCalc;

verus! {

/// A party, under the identifier the host ledger assigns it.
#[derive(Clone, Copy, Debug, PartialEq, Eq, Hash, Structural)]
pub struct AccountId(pub u64);

/// A token, under the identifier the host ledger assigns it.
#[derive(Clone, Copy, Debug, PartialEq, Eq, Hash, Structural)]
pub struct TokenId(pub u64);

/// Which party funds the principal of the swap.
#[derive(Clone, Copy, Debug, PartialEq, Eq, Structural)]
pub enum EscrowDirection {
    /// The maker pays the principal in; a successful withdrawal pays the
    /// taker.
    Maker2Taker,
    /// The taker pays the principal in; a successful withdrawal pays the
    /// maker.
    Taker2Maker,
}

/// Relative timelock offsets, in seconds from the creation timestamp.
/// Each stage starts at creation time plus its offset; the designated
/// taker acts from the tighter stage, anyone else from the public one.
#[derive(Clone, Copy, Debug, PartialEq, Eq, Structural)]
pub struct TimeLocks {
    pub withdrawal: u64,
    pub public_withdrawal: u64,
    pub cancellation: u64,
    pub public_cancellation: u64,
}

/// The immutable terms of one swap, fixed when the escrow is created.
#[derive(Clone, Debug, PartialEq, Eq)]
pub struct EscrowImmutables {
    /// The order this swap settles, as a 32-byte hash.
    pub order_hash: Vec<u8>,
    /// The 32-byte digest of the secret that unlocks withdrawal.
    pub hashlock: Vec<u8>,
    pub direction: EscrowDirection,
    pub maker: AccountId,
    /// The token the principal is paid in.
    pub token: TokenId,
    /// How the principal amount is computed at creation time.
    pub amount: AmountCalc,
    pub safety_deposit_token: TokenId,
    pub safety_deposit_amount: i128,
    pub timelocks: TimeLocks,
}

impl EscrowImmutables {
    /// The terms invariant: the two hashes have their fixed length and
    /// the amounts are non-negative and within arithmetic range. The
    /// auction window is deliberately not part of it: an invalid window
    /// is rejected at creation with its own error.
    pub open spec fn wf(self) -> bool {
        &&& self.order_hash@.len() == 32
        &&& self.hashlock@.len() == 32
        &&& self.amount.amounts_bounded()
        &&& 0 <= self.safety_deposit_amount
    }
}

/// The values resolved when the escrow was created.
#[derive(Clone, Copy, Debug, PartialEq, Eq, Structural)]
pub struct EscrowResolves {
    /// The counterparty that accepted the swap.
    pub taker: AccountId,
    /// The principal amount, priced at the creation timestamp.
    pub amount: i128,
    /// The creation timestamp all timelock stages are relative to.
    pub timestamp: u64,
}

/// The lifecycle state of an escrow record. `Active` is initial;
/// `Withdrawn` and `Cancelled` are terminal and mutually exclusive.
#[derive(Clone, Copy, Debug, PartialEq, Eq, Structural)]
pub enum EscrowState {
    Active,
    Withdrawn,
    Cancelled,
}

} // verus!
