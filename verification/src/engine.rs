//! The escrow record and its lifecycle operations. Every operation is
//! pure: it checks the caller, the time and the offered secret against
//! the stored terms, and on success transitions the record and returns
//! the token movements and the event the host must emit. Every fallible
//! check precedes every effect, so an error leaves the record unchanged.

use vstd::prelude::*;

use crate::errors::EscrowError;
use crate::hashing::{digest_of, hash_secret, bytes_eq};
use crate::terms::{AccountId, EscrowDirection, EscrowImmutables, EscrowResolves, EscrowState, TokenId};

verus! {

/// One token movement the host ledger must perform on behalf of the
/// escrow. Amounts are non-negative.
#[derive(Clone, Copy, Debug, PartialEq, Eq, Structural)]
pub enum TokenFlow {
    /// `amount` of `token` moves from `from` into the escrow's custody.
    IntoEscrow { token: TokenId, from: AccountId, amount: i128 },
    /// `amount` of `token` leaves the escrow's custody toward `to`.
    OutOfEscrow { token: TokenId, to: AccountId, amount: i128 },
}

/// The event a successful withdrawal publishes: the revealed secret.
/// Publication is the cross-chain signal, not logging: the counterpart
/// escrow on the other ledger is unlocked with the same secret.
#[derive(Clone, Debug, PartialEq, Eq)]
pub struct Withdrawal {
    pub secret: Vec<u8>,
}

/// The event a successful cancellation publishes.
#[derive(Clone, Copy, Debug, PartialEq, Eq, Structural)]
pub struct EscrowCancelled;

/// The event a successful rescue publishes.
#[derive(Clone, Copy, Debug, PartialEq, Eq, Structural)]
pub struct FundsRescued {
    pub token: TokenId,
    pub amount: i128,
}

/// What a successful withdrawal hands the host: the two outgoing
/// movements (principal to the payee, safety deposit to the caller), in
/// order, and the event to publish.
#[derive(Clone, Debug, PartialEq, Eq)]
pub struct WithdrawReceipt {
    pub flows: Vec<TokenFlow>,
    pub event: Withdrawal,
}

/// What a successful cancellation hands the host: the two outgoing
/// movements (principal back to its payer, safety deposit to the
/// caller), in order, and the event to publish.
#[derive(Clone, Debug, PartialEq, Eq)]
pub struct CancelReceipt {
    pub flows: Vec<TokenFlow>,
    pub event: EscrowCancelled,
}

/// What a successful rescue hands the host: one outgoing movement and
/// the event to publish.
#[derive(Clone, Copy, Debug, PartialEq, Eq, Structural)]
pub struct RescueReceipt {
    pub flow: TokenFlow,
    pub event: FundsRescued,
}

/// One escrow record: the immutable swap terms, the values resolved at
/// creation, and the lifecycle state.
#[derive(Clone, Debug, PartialEq, Eq)]
pub struct Escrow {
    pub immutables: EscrowImmutables,
    pub resolves: EscrowResolves,
    pub state: EscrowState,
}

/// The withdrawal-stage offset that applies to `caller`: the designated
/// taker uses the tighter `withdrawal` stage, anyone else must wait for
/// `public_withdrawal`.
pub open spec fn withdraw_offset(e: Escrow, caller: AccountId) -> u64 {
    if caller == e.resolves.taker {
        e.immutables.timelocks.withdrawal
    } else {
        e.immutables.timelocks.public_withdrawal
    }
}

/// The cancellation-stage offset that applies to `caller`, with the same
/// designated-versus-public tiering as withdrawal.
pub open spec fn cancel_offset(e: Escrow, caller: AccountId) -> u64 {
    if caller == e.resolves.taker {
        e.immutables.timelocks.cancellation
    } else {
        e.immutables.timelocks.public_cancellation
    }
}

/// The party a successful withdrawal pays the principal to.
pub open spec fn withdraw_payee(e: Escrow) -> AccountId {
    match e.immutables.direction {
        EscrowDirection::Maker2Taker => e.resolves.taker,
        EscrowDirection::Taker2Maker => e.immutables.maker,
    }
}

/// The party a successful cancellation returns the principal to: the
/// party that paid it in.
pub open spec fn cancel_payee(e: Escrow) -> AccountId {
    match e.immutables.direction {
        EscrowDirection::Maker2Taker => e.immutables.maker,
        EscrowDirection::Taker2Maker => e.resolves.taker,
    }
}

/// Whether `withdraw` succeeds on `e` for a secret with digest `digest`,
/// offered by `caller` at time `now` — and if not, with which error. The
/// checks run in this order: lifecycle state, the caller's withdrawal
/// stage has started, the cancellation stage has not, the digest matches
/// the hashlock. A stage whose absolute start leaves the representable
/// range is an arithmetic error.
pub open spec fn withdraw_decision(
    e: Escrow,
    digest: Seq<u8>,
    caller: AccountId,
    now: u64,
) -> Result<(), EscrowError> {
    let created = e.resolves.timestamp as int;
    if e.state != EscrowState::Active {
        Err(EscrowError::NotActive)
    } else if created + withdraw_offset(e, caller) > u64::MAX {
        Err(EscrowError::ArithmeticOverflow)
    } else if (now as int) < created + withdraw_offset(e, caller) {
        Err(EscrowError::TooEarly)
    } else if created + e.immutables.timelocks.cancellation > u64::MAX {
        Err(EscrowError::ArithmeticOverflow)
    } else if created + e.immutables.timelocks.cancellation <= now as int {
        Err(EscrowError::TooLate)
    } else if digest != e.immutables.hashlock@ {
        Err(EscrowError::InvalidSecret)
    } else {
        Ok(())
    }
}

/// Whether `cancel` succeeds on `e` for `caller` at time `now` — and if
/// not, with which error. The checks run in this order: lifecycle state,
/// the caller's cancellation stage has started, the caller has
/// authorized the call.
pub open spec fn cancel_decision(
    e: Escrow,
    caller: AccountId,
    now: u64,
    caller_authorized: bool,
) -> Result<(), EscrowError> {
    let created = e.resolves.timestamp as int;
    if e.state != EscrowState::Active {
        Err(EscrowError::NotActive)
    } else if created + cancel_offset(e, caller) > u64::MAX {
        Err(EscrowError::ArithmeticOverflow)
    } else if (now as int) < created + cancel_offset(e, caller) {
        Err(EscrowError::TooEarly)
    } else if !caller_authorized {
        Err(EscrowError::Unauthorized)
    } else {
        Ok(())
    }
}

/// Whether `rescue_funds` succeeds on `e` for `caller` at time `now`
/// with the given rescue delay — and if not, with which error. Only the
/// designated taker may rescue, and only once the rescue window has
/// opened. The lifecycle state is not consulted.
pub open spec fn rescue_decision(
    e: Escrow,
    caller: AccountId,
    now: u64,
    rescue_delay: u64,
) -> Result<(), EscrowError> {
    let created = e.resolves.timestamp as int;
    if caller != e.resolves.taker {
        Err(EscrowError::Unauthorized)
    } else if created + rescue_delay > u64::MAX {
        Err(EscrowError::ArithmeticOverflow)
    } else if (now as int) < created + rescue_delay {
        Err(EscrowError::TooEarly)
    } else {
        Ok(())
    }
}

impl Escrow {
    /// A fresh record over the given terms and resolved values, in the
    /// initial `Active` state.
    pub fn new(immutables: EscrowImmutables, resolves: EscrowResolves) -> (r: Escrow)
        ensures
            r == (Escrow { immutables, resolves, state: EscrowState::Active }),
    {
        Escrow { immutables, resolves, state: EscrowState::Active }
    }

    /// The stored swap terms.
    pub fn get_immutables(&self) -> (r: &EscrowImmutables)
        ensures
            r == &self.immutables,
    {
        &self.immutables
    }

    /// The values resolved at creation.
    pub fn get_resolves(&self) -> (r: EscrowResolves)
        ensures
            r == self.resolves,
    {
        self.resolves
    }

    /// The current lifecycle state.
    pub fn get_state(&self) -> (r: EscrowState)
        ensures
            r == self.state,
    {
        self.state
    }

    /// Withdraws against a secret: on success the record transitions
    /// `Active` to `Withdrawn`, the principal flows to the
    /// direction-determined payee, the safety deposit flows to the
    /// caller, and the secret is published. Any failure leaves the
    /// record exactly as it was — in particular still `Active`, so a
    /// correct secret can still be tried later.
    pub fn withdraw(&mut self, secret: &Vec<u8>, caller: AccountId, now: u64) -> (r: Result<
        WithdrawReceipt,
        EscrowError,
    >)
        ensures
            match r {
                Ok(receipt) => {
                    &&& withdraw_decision(*old(self), digest_of(secret@), caller, now)
                        == Ok::<(), EscrowError>(())
                    &&& *final(self) == (Escrow { state: EscrowState::Withdrawn, ..*old(self) })
                    &&& receipt.flows@ =~= seq![
                        (TokenFlow::OutOfEscrow {
                            token: old(self).immutables.token,
                            to: withdraw_payee(*old(self)),
                            amount: old(self).resolves.amount,
                        }),
                        (TokenFlow::OutOfEscrow {
                            token: old(self).immutables.safety_deposit_token,
                            to: caller,
                            amount: old(self).immutables.safety_deposit_amount,
                        }),
                    ]
                    &&& receipt.event.secret@ == secret@
                },
                Err(e) => {
                    &&& withdraw_decision(*old(self), digest_of(secret@), caller, now)
                        == Err::<(), EscrowError>(e)
                    &&& *final(self) == *old(self)
                },
            },
    {
        let digest = hash_secret(secret);
        self.withdraw_with_digest(&digest, secret, caller, now)
    }

    /// The withdrawal logic over an already-computed digest: exactly the
    /// decision `withdraw_decision` describes, for every digest value.
    pub fn withdraw_with_digest(
        &mut self,
        digest: &Vec<u8>,
        secret: &Vec<u8>,
        caller: AccountId,
        now: u64,
    ) -> (r: Result<WithdrawReceipt, EscrowError>)
        ensures
            match r {
                Ok(receipt) => {
                    &&& withdraw_decision(*old(self), digest@, caller, now)
                        == Ok::<(), EscrowError>(())
                    &&& *final(self) == (Escrow { state: EscrowState::Withdrawn, ..*old(self) })
                    &&& receipt.flows@ =~= seq![
                        (TokenFlow::OutOfEscrow {
                            token: old(self).immutables.token,
                            to: withdraw_payee(*old(self)),
                            amount: old(self).resolves.amount,
                        }),
                        (TokenFlow::OutOfEscrow {
                            token: old(self).immutables.safety_deposit_token,
                            to: caller,
                            amount: old(self).immutables.safety_deposit_amount,
                        }),
                    ]
                    &&& receipt.event.secret@ == secret@
                },
                Err(e) => {
                    &&& withdraw_decision(*old(self), digest@, caller, now)
                        == Err::<(), EscrowError>(e)
                    &&& *final(self) == *old(self)
                },
            },
    {
        if !matches!(self.state, EscrowState::Active) {
            return Err(EscrowError::NotActive);
        }
        let offset = if caller == self.resolves.taker {
            self.immutables.timelocks.withdrawal
        } else {
            self.immutables.timelocks.public_withdrawal
        };
        let start = match self.resolves.timestamp.checked_add(offset) {
            Some(start) => start,
            None => {
                return Err(EscrowError::ArithmeticOverflow);
            },
        };
        if now < start {
            return Err(EscrowError::TooEarly);
        }
        let closing = match self.resolves.timestamp.checked_add(self.immutables.timelocks.cancellation) {
            Some(closing) => closing,
            None => {
                return Err(EscrowError::ArithmeticOverflow);
            },
        };
        if closing <= now {
            return Err(EscrowError::TooLate);
        }
        if !bytes_eq(digest, &self.immutables.hashlock) {
            return Err(EscrowError::InvalidSecret);
        }
        let payee = match self.immutables.direction {
            EscrowDirection::Maker2Taker => self.resolves.taker,
            EscrowDirection::Taker2Maker => self.immutables.maker,
        };
        let mut flows: Vec<TokenFlow> = Vec::new();
        flows.push(TokenFlow::OutOfEscrow {
            token: self.immutables.token,
            to: payee,
            amount: self.resolves.amount,
        });
        flows.push(TokenFlow::OutOfEscrow {
            token: self.immutables.safety_deposit_token,
            to: caller,
            amount: self.immutables.safety_deposit_amount,
        });
        self.state = EscrowState::Withdrawn;
        Ok(WithdrawReceipt { flows, event: Withdrawal { secret: secret.clone() } })
    }

    /// Cancels the escrow: on success the record transitions `Active` to
    /// `Cancelled`, the principal flows back to the party that paid it
    /// in, and the safety deposit flows to the caller. Any failure
    /// leaves the record exactly as it was.
    pub fn cancel(&mut self, caller: AccountId, now: u64, caller_authorized: bool) -> (r: Result<
        CancelReceipt,
        EscrowError,
    >)
        ensures
            match r {
                Ok(receipt) => {
                    &&& cancel_decision(*old(self), caller, now, caller_authorized)
                        == Ok::<(), EscrowError>(())
                    &&& *final(self) == (Escrow { state: EscrowState::Cancelled, ..*old(self) })
                    &&& receipt.flows@ =~= seq![
                        (TokenFlow::OutOfEscrow {
                            token: old(self).immutables.token,
                            to: cancel_payee(*old(self)),
                            amount: old(self).resolves.amount,
                        }),
                        (TokenFlow::OutOfEscrow {
                            token: old(self).immutables.safety_deposit_token,
                            to: caller,
                            amount: old(self).immutables.safety_deposit_amount,
                        }),
                    ]
                },
                Err(e) => {
                    &&& cancel_decision(*old(self), caller, now, caller_authorized)
                        == Err::<(), EscrowError>(e)
                    &&& *final(self) == *old(self)
                },
            },
    {
        if !matches!(self.state, EscrowState::Active) {
            return Err(EscrowError::NotActive);
        }
        let offset = if caller == self.resolves.taker {
            self.immutables.timelocks.cancellation
        } else {
            self.immutables.timelocks.public_cancellation
        };
        let start = match self.resolves.timestamp.checked_add(offset) {
            Some(start) => start,
            None => {
                return Err(EscrowError::ArithmeticOverflow);
            },
        };
        if now < start {
            return Err(EscrowError::TooEarly);
        }
        if !caller_authorized {
            return Err(EscrowError::Unauthorized);
        }
        let payee = match self.immutables.direction {
            EscrowDirection::Maker2Taker => self.immutables.maker,
            EscrowDirection::Taker2Maker => self.resolves.taker,
        };
        let mut flows: Vec<TokenFlow> = Vec::new();
        flows.push(TokenFlow::OutOfEscrow {
            token: self.immutables.token,
            to: payee,
            amount: self.resolves.amount,
        });
        flows.push(TokenFlow::OutOfEscrow {
            token: self.immutables.safety_deposit_token,
            to: caller,
            amount: self.immutables.safety_deposit_amount,
        });
        self.state = EscrowState::Cancelled;
        Ok(CancelReceipt { flows, event: EscrowCancelled })
    }

    /// Rescues a stranded balance: `amount` of `token` flows to the
    /// designated taker once the rescue window has opened. The lifecycle
    /// state is neither consulted nor touched — rescue recovers tokens
    /// that reached the escrow outside the normal flow.
    pub fn rescue_funds(&self, token: TokenId, amount: i128, caller: AccountId, now: u64, rescue_delay: u64)
        -> (r: Result<RescueReceipt, EscrowError>)
        requires
            0 <= amount,
        ensures
            match r {
                Ok(receipt) => {
                    &&& rescue_decision(*self, caller, now, rescue_delay) == Ok::<(), EscrowError>(())
                    &&& receipt.flow == (TokenFlow::OutOfEscrow { token, to: caller, amount })
                    &&& receipt.event == (FundsRescued { token, amount })
                },
                Err(e) => rescue_decision(*self, caller, now, rescue_delay)
                    == Err::<(), EscrowError>(e),
            },
    {
        if !(caller == self.resolves.taker) {
            return Err(EscrowError::Unauthorized);
        }
        let start = match self.resolves.timestamp.checked_add(rescue_delay) {
            Some(start) => start,
            None => {
                return Err(EscrowError::ArithmeticOverflow);
            },
        };
        if now < start {
            return Err(EscrowError::TooEarly);
        }
        Ok(RescueReceipt {
            flow: TokenFlow::OutOfEscrow { token, to: caller, amount },
            event: FundsRescued { token, amount },
        })
    }
}

/// Law: before the withdrawal stage that applies to the caller, and
/// while the record is active, `withdraw` fails with `TooEarly` whatever
/// the secret — the record stays exactly as it is.
pub proof fn lemma_withdraw_too_early(e: Escrow, digest: Seq<u8>, caller: AccountId, now: u64)
    requires
        e.state == EscrowState::Active,
        e.resolves.timestamp + withdraw_offset(e, caller) <= u64::MAX,
        (now as int) < e.resolves.timestamp + withdraw_offset(e, caller),
    ensures
        withdraw_decision(e, digest, caller, now) == Err::<(), EscrowError>(EscrowError::TooEarly),
{
}

/// Law: a secret whose digest does not match the hashlock makes
/// `withdraw` fail with `InvalidSecret` for any caller whose time window
/// is open — the record stays active, so the correct secret can still be
/// offered later.
pub proof fn lemma_withdraw_wrong_secret(e: Escrow, digest: Seq<u8>, caller: AccountId, now: u64)
    requires
        e.state == EscrowState::Active,
        e.resolves.timestamp + withdraw_offset(e, caller) <= now,
        e.resolves.timestamp + e.immutables.timelocks.cancellation <= u64::MAX,
        (now as int) < e.resolves.timestamp + e.immutables.timelocks.cancellation,
        digest != e.immutables.hashlock@,
    ensures
        withdraw_decision(e, digest, caller, now)
            == Err::<(), EscrowError>(EscrowError::InvalidSecret),
{
}

/// Law: a failed secret check is retryable. While the record is active
/// and its cancellation bound fits the representable range, a secret
/// with the wrong digest fails with `InvalidSecret` — and `withdraw`
/// leaves the record unchanged on every failure — so a later call whose
/// digest matches the hashlock, made while the window is open for its
/// caller, succeeds.
pub proof fn lemma_wrong_secret_then_correct(
    e: Escrow,
    digest: Seq<u8>,
    caller: AccountId,
    now: u64,
    retry_digest: Seq<u8>,
    retry_caller: AccountId,
    retry_now: u64,
)
    requires
        e.state == EscrowState::Active,
        e.resolves.timestamp + e.immutables.timelocks.cancellation <= u64::MAX,
        e.resolves.timestamp + withdraw_offset(e, caller) <= now,
        (now as int) < e.resolves.timestamp + e.immutables.timelocks.cancellation,
        digest != e.immutables.hashlock@,
        retry_digest == e.immutables.hashlock@,
        e.resolves.timestamp + withdraw_offset(e, retry_caller) <= retry_now,
        (retry_now as int) < e.resolves.timestamp + e.immutables.timelocks.cancellation,
    ensures
        withdraw_decision(e, digest, caller, now)
            == Err::<(), EscrowError>(EscrowError::InvalidSecret),
        withdraw_decision(e, retry_digest, retry_caller, retry_now) == Ok::<(), EscrowError>(()),
{
}

/// Law: `Withdrawn` and `Cancelled` are terminal and mutually exclusive.
/// Once a record is no longer active — as it is after either `withdraw`
/// or `cancel` succeeds — both operations fail with `NotActive` for
/// every caller, secret, time and authorization: the other operation can
/// never fire, and repeating the successful one fails the same way.
pub proof fn lemma_terminal_exclusive(
    e: Escrow,
    digest: Seq<u8>,
    caller: AccountId,
    now: u64,
    caller_authorized: bool,
)
    requires
        e.state != EscrowState::Active,
    ensures
        withdraw_decision(e, digest, caller, now) == Err::<(), EscrowError>(EscrowError::NotActive),
        cancel_decision(e, caller, now, caller_authorized)
            == Err::<(), EscrowError>(EscrowError::NotActive),
{
}

} // verus!
