//! The escrow registry and its creation path: a keyed map from derived
//! identity to escrow record, guarded by a single insert-if-absent
//! operation, so each swap maps to at most one escrow instance.

use vstd::prelude::*;

use crate::engine::{
    cancel_decision, rescue_decision, withdraw_decision, CancelReceipt, Escrow, RescueReceipt,
    TokenFlow, WithdrawReceipt,
};
use crate::errors::EscrowError;
use crate::hashing::{bytes_eq, copy_bytes, digest_of};
use crate::identity::{derive_identity, spec_identity};
use crate::terms::{AccountId, EscrowDirection, EscrowImmutables, EscrowResolves, EscrowState, TokenId};

verus! {

/// The facts the host has established before a creation call: the
/// current time, which parties have authorized exactly this operation,
/// and the balances the two inbound movements would draw from.
#[derive(Clone, Copy, Debug, PartialEq, Eq, Structural)]
pub struct CreateContext {
    /// The current ledger timestamp.
    pub now: u64,
    /// The taker has authorized this creation.
    pub taker_authorized: bool,
    /// The maker has authorized this creation (consulted only when the
    /// maker pays the principal in).
    pub maker_authorized: bool,
    /// The paying party's balance in the principal token. When the
    /// paying party is the taker and the principal token is also the
    /// safety-deposit token, both balance fields describe one balance
    /// and must agree.
    pub payer_principal_balance: i128,
    /// The taker's balance in the safety-deposit token.
    pub taker_deposit_balance: i128,
}

/// What a successful creation hands the host: the derived identity the
/// record is registered under, and the two inbound movements (principal
/// from the paying party, safety deposit from the taker), in order.
#[derive(Clone, Debug, PartialEq, Eq)]
pub struct CreateReceipt {
    pub id: Vec<u8>,
    pub flows: Vec<TokenFlow>,
}

/// The party that pays the principal in, determined by the direction.
pub open spec fn spec_payer(t: EscrowImmutables, taker: AccountId) -> AccountId {
    match t.direction {
        EscrowDirection::Maker2Taker => t.maker,
        EscrowDirection::Taker2Maker => taker,
    }
}

/// Whether the balances the host reported cannot cover the two inbound
/// movements. When the paying party and token of both movements
/// coincide, one balance must cover their sum.
pub open spec fn balances_short(t: EscrowImmutables, taker: AccountId, ctx: CreateContext) -> bool {
    let amount = t.amount.spec_calc(ctx.now);
    if spec_payer(t, taker) == taker && t.token == t.safety_deposit_token {
        (ctx.payer_principal_balance as int) < amount + t.safety_deposit_amount
    } else {
        (ctx.payer_principal_balance as int) < amount || t.safety_deposit_amount
            > ctx.taker_deposit_balance
    }
}

/// The registry of all escrows this factory has created, keyed by
/// derived identity. Keys are pairwise distinct.
pub struct EscrowFactory {
    escrows: Vec<(Vec<u8>, Escrow)>,
}

/// Whether `create_escrow` succeeds on a factory holding `f` — and if
/// not, with which error. The checks run in this order: the taker has
/// authorized, the paying maker has authorized, the pricing window is
/// valid, no record exists at the derived identity, the reported
/// balances cover both movements.
pub open spec fn create_decision(
    f: EscrowFactory,
    t: EscrowImmutables,
    taker: AccountId,
    ctx: CreateContext,
) -> Result<(), EscrowError> {
    if !ctx.taker_authorized {
        Err(EscrowError::Unauthorized)
    } else if t.direction == EscrowDirection::Maker2Taker && !ctx.maker_authorized {
        Err(EscrowError::Unauthorized)
    } else if !t.amount.window_valid() {
        Err(EscrowError::InvalidAuctionWindow)
    } else if f.spec_contains(spec_identity(t)) {
        Err(EscrowError::AlreadyExists)
    } else if balances_short(t, taker, ctx) {
        Err(EscrowError::InsufficientBalance)
    } else {
        Ok(())
    }
}

impl EscrowFactory {
    /// The registry contents: identity/record pairs in creation order.
    pub closed spec fn entries(self) -> Seq<(Vec<u8>, Escrow)> {
        self.escrows@
    }

    /// Registry well-formedness: identities are pairwise distinct, so
    /// each identity keys at most one record.
    pub open spec fn wf(self) -> bool {
        forall|i: int, j: int|
            0 <= i < j < self.entries().len() ==> self.entries()[i].0@ != self.entries()[j].0@
    }

    /// Whether a record is registered under `id`.
    pub open spec fn spec_contains(self, id: Seq<u8>) -> bool {
        exists|i: int| 0 <= i < self.entries().len() && self.entries()[i].0@ == id
    }

    /// The position of the record registered under `id`.
    pub open spec fn index_at(self, id: Seq<u8>) -> int {
        choose|i: int| 0 <= i < self.entries().len() && self.entries()[i].0@ == id
    }

    /// The record registered under `id`.
    pub open spec fn record_at(self, id: Seq<u8>) -> Escrow {
        self.entries()[self.index_at(id)].1
    }

    /// An empty registry.
    pub fn new() -> (r: EscrowFactory)
        ensures
            r.wf(),
            r.entries() == Seq::<(Vec<u8>, Escrow)>::empty(),
    {
        EscrowFactory { escrows: Vec::new() }
    }

    /// The position of the record stored under `id`, if any.
    fn find_index(&self, id: &Vec<u8>) -> (r: Option<usize>)
        ensures
            match r {
                Some(i) => (i as int) < self.entries().len() && self.entries()[i as int].0@
                    == id@,
                None => !self.spec_contains(id@),
            },
    {
        let mut i: usize = 0;
        while i < self.escrows.len()
            invariant
                i <= self.escrows@.len(),
                forall|j: int| 0 <= j < i ==> self.escrows@[j].0@ != id@,
            decreases self.escrows@.len() - i,
        {
            if bytes_eq(&self.escrows[i].0, id) {
                return Some(i);
            }
            i += 1;
        }
        None
    }

    /// Whether a record is registered under `id`.
    pub fn has_escrow(&self, id: &Vec<u8>) -> (r: bool)
        ensures
            r == self.spec_contains(id@),
    {
        self.find_index(id).is_some()
    }

    /// Creates a new escrow for an atomic swap: prices the principal at
    /// the current time, derives the identity of the terms, and — when
    /// every check passes — registers the `Active` record under that
    /// identity and hands back the two inbound movements. Any failure
    /// leaves the registry exactly as it was.
    pub fn create_escrow(
        &mut self,
        immutables: EscrowImmutables,
        taker: AccountId,
        ctx: CreateContext,
    ) -> (r: Result<CreateReceipt, EscrowError>)
        requires
            old(self).wf(),
            immutables.wf(),
            0 <= ctx.payer_principal_balance,
            0 <= ctx.taker_deposit_balance,
            (spec_payer(immutables, taker) == taker && immutables.token
                == immutables.safety_deposit_token) ==> ctx.payer_principal_balance
                == ctx.taker_deposit_balance,
        ensures
            final(self).wf(),
            match r {
                Ok(receipt) => {
                    &&& create_decision(*old(self), immutables, taker, ctx)
                        == Ok::<(), EscrowError>(())
                    &&& receipt.id@ == spec_identity(immutables)
                    &&& final(self).entries().len() == old(self).entries().len() + 1
                    &&& forall|i: int|
                        0 <= i < old(self).entries().len()
                            ==> final(self).entries()[i] == old(self).entries()[i]
                    &&& final(self).entries().last().0@ == spec_identity(immutables)
                    &&& final(self).entries().last().1 == (Escrow {
                        immutables,
                        resolves: (EscrowResolves {
                            taker,
                            amount: immutables.amount.spec_calc(ctx.now) as i128,
                            timestamp: ctx.now,
                        }),
                        state: EscrowState::Active,
                    })
                    &&& receipt.flows@ =~= seq![
                        (TokenFlow::IntoEscrow {
                            token: immutables.token,
                            from: spec_payer(immutables, taker),
                            amount: immutables.amount.spec_calc(ctx.now) as i128,
                        }),
                        (TokenFlow::IntoEscrow {
                            token: immutables.safety_deposit_token,
                            from: taker,
                            amount: immutables.safety_deposit_amount,
                        }),
                    ]
                },
                Err(e) => {
                    &&& create_decision(*old(self), immutables, taker, ctx)
                        == Err::<(), EscrowError>(e)
                    &&& final(self).entries() == old(self).entries()
                },
            },
    {
        if !ctx.taker_authorized {
            return Err(EscrowError::Unauthorized);
        }
        if matches!(immutables.direction, EscrowDirection::Maker2Taker) && !ctx.maker_authorized {
            return Err(EscrowError::Unauthorized);
        }
        let amount = match immutables.amount.evaluate(ctx.now) {
            Ok(amount) => amount,
            Err(e) => {
                return Err(e);
            },
        };
        let id = derive_identity(&immutables);
        if self.find_index(&id).is_some() {
            return Err(EscrowError::AlreadyExists);
        }
        let payer = match immutables.direction {
            EscrowDirection::Maker2Taker => immutables.maker,
            EscrowDirection::Taker2Maker => taker,
        };
        let enough = if payer == taker && immutables.token == immutables.safety_deposit_token {
            ctx.payer_principal_balance >= amount && ctx.payer_principal_balance - amount
                >= immutables.safety_deposit_amount
        } else {
            ctx.payer_principal_balance >= amount && ctx.taker_deposit_balance
                >= immutables.safety_deposit_amount
        };
        if !enough {
            return Err(EscrowError::InsufficientBalance);
        }
        let mut flows: Vec<TokenFlow> = Vec::new();
        flows.push(TokenFlow::IntoEscrow { token: immutables.token, from: payer, amount });
        flows.push(TokenFlow::IntoEscrow {
            token: immutables.safety_deposit_token,
            from: taker,
            amount: immutables.safety_deposit_amount,
        });
        let key = copy_bytes(&id);
        let record = Escrow::new(
            immutables,
            EscrowResolves { taker, amount, timestamp: ctx.now },
        );
        let ghost old_entries = self.escrows@;
        self.escrows.push((key, record));
        proof {
            assert forall|i: int, j: int|
                0 <= i < j < self.escrows@.len() implies self.escrows@[i].0@
                != self.escrows@[j].0@ by {
                if j < old_entries.len() {
                } else {
                    assert(self.escrows@[j].0@ == id@);
                    assert(!old(self).spec_contains(id@));
                    assert(self.escrows@[i] == old_entries[i]);
                }
            }
        }
        Ok(CreateReceipt { id, flows })
    }

    /// Withdraws from the record registered under `id`; see
    /// `Escrow::withdraw`. Every other entry stays as it is.
    pub fn withdraw(
        &mut self,
        id: &Vec<u8>,
        secret: &Vec<u8>,
        caller: AccountId,
        now: u64,
    ) -> (r: Result<WithdrawReceipt, EscrowError>)
        requires
            old(self).wf(),
            old(self).spec_contains(id@),
        ensures
            final(self).wf(),
            final(self).spec_contains(id@),
            final(self).index_at(id@) == old(self).index_at(id@),
            ({
                let before = old(self).record_at(id@);
                let k = old(self).index_at(id@);
                match r {
                    Ok(receipt) => {
                        &&& withdraw_decision(before, digest_of(secret@), caller, now)
                            == Ok::<(), EscrowError>(())
                        &&& final(self).record_at(id@) == (Escrow {
                            state: EscrowState::Withdrawn,
                            ..before
                        })
                        &&& forall|i: int|
                            0 <= i < old(self).entries().len() && i != k
                                ==> final(self).entries()[i] == old(self).entries()[i]
                        &&& final(self).entries().len() == old(self).entries().len()
                        &&& receipt.flows@ =~= seq![
                            (TokenFlow::OutOfEscrow {
                                token: before.immutables.token,
                                to: crate::engine::withdraw_payee(before),
                                amount: before.resolves.amount,
                            }),
                            (TokenFlow::OutOfEscrow {
                                token: before.immutables.safety_deposit_token,
                                to: caller,
                                amount: before.immutables.safety_deposit_amount,
                            }),
                        ]
                        &&& receipt.event.secret@ == secret@
                    },
                    Err(e) => {
                        &&& withdraw_decision(before, digest_of(secret@), caller, now)
                            == Err::<(), EscrowError>(e)
                        &&& final(self).entries() == old(self).entries()
                    },
                }
            }),
    {
        let idx = self.find_index(id).unwrap();
        proof {
            lemma_index_unique(*old(self), id@, idx as int);
        }
        let result = self.escrows[idx].1.withdraw(secret, caller, now);
        proof {
            lemma_update_keeps_keys(old(self).entries(), self.entries(), idx as int, id@);
        }
        result
    }

    /// Cancels the record registered under `id`; see `Escrow::cancel`.
    /// Every other entry stays as it is.
    pub fn cancel(
        &mut self,
        id: &Vec<u8>,
        caller: AccountId,
        now: u64,
        caller_authorized: bool,
    ) -> (r: Result<CancelReceipt, EscrowError>)
        requires
            old(self).wf(),
            old(self).spec_contains(id@),
        ensures
            final(self).wf(),
            final(self).spec_contains(id@),
            final(self).index_at(id@) == old(self).index_at(id@),
            ({
                let before = old(self).record_at(id@);
                let k = old(self).index_at(id@);
                match r {
                    Ok(receipt) => {
                        &&& cancel_decision(before, caller, now, caller_authorized)
                            == Ok::<(), EscrowError>(())
                        &&& final(self).record_at(id@) == (Escrow {
                            state: EscrowState::Cancelled,
                            ..before
                        })
                        &&& forall|i: int|
                            0 <= i < old(self).entries().len() && i != k
                                ==> final(self).entries()[i] == old(self).entries()[i]
                        &&& final(self).entries().len() == old(self).entries().len()
                        &&& receipt.flows@ =~= seq![
                            (TokenFlow::OutOfEscrow {
                                token: before.immutables.token,
                                to: crate::engine::cancel_payee(before),
                                amount: before.resolves.amount,
                            }),
                            (TokenFlow::OutOfEscrow {
                                token: before.immutables.safety_deposit_token,
                                to: caller,
                                amount: before.immutables.safety_deposit_amount,
                            }),
                        ]
                    },
                    Err(e) => {
                        &&& cancel_decision(before, caller, now, caller_authorized)
                            == Err::<(), EscrowError>(e)
                        &&& final(self).entries() == old(self).entries()
                    },
                }
            }),
    {
        let idx = self.find_index(id).unwrap();
        proof {
            lemma_index_unique(*old(self), id@, idx as int);
        }
        let result = self.escrows[idx].1.cancel(caller, now, caller_authorized);
        proof {
            lemma_update_keeps_keys(old(self).entries(), self.entries(), idx as int, id@);
        }
        result
    }

    /// Rescues a stranded balance from the record registered under `id`;
    /// see `Escrow::rescue_funds`. The registry is read, never changed.
    pub fn rescue_funds(
        &self,
        id: &Vec<u8>,
        token: TokenId,
        amount: i128,
        caller: AccountId,
        now: u64,
        rescue_delay: u64,
    ) -> (r: Result<RescueReceipt, EscrowError>)
        requires
            self.wf(),
            self.spec_contains(id@),
            0 <= amount,
        ensures
            ({
                let record = self.record_at(id@);
                match r {
                    Ok(receipt) => {
                        &&& rescue_decision(record, caller, now, rescue_delay)
                            == Ok::<(), EscrowError>(())
                        &&& receipt.flow == (TokenFlow::OutOfEscrow { token, to: caller, amount })
                    },
                    Err(e) => rescue_decision(record, caller, now, rescue_delay)
                        == Err::<(), EscrowError>(e),
                }
            }),
    {
        let idx = self.find_index(id).unwrap();
        proof {
            lemma_index_unique(*self, id@, idx as int);
        }
        self.escrows[idx].1.rescue_funds(token, amount, caller, now, rescue_delay)
    }

    /// The lifecycle state of the record registered under `id`.
    pub fn get_state(&self, id: &Vec<u8>) -> (r: EscrowState)
        requires
            self.wf(),
            self.spec_contains(id@),
        ensures
            r == self.record_at(id@).state,
    {
        let idx = self.find_index(id).unwrap();
        proof {
            lemma_index_unique(*self, id@, idx as int);
        }
        self.escrows[idx].1.get_state()
    }

    /// The swap terms of the record registered under `id`.
    pub fn get_immutables(&self, id: &Vec<u8>) -> (r: &EscrowImmutables)
        requires
            self.wf(),
            self.spec_contains(id@),
        ensures
            r == &self.record_at(id@).immutables,
    {
        let idx = self.find_index(id).unwrap();
        proof {
            lemma_index_unique(*self, id@, idx as int);
        }
        self.escrows[idx].1.get_immutables()
    }

    /// The resolved values of the record registered under `id`.
    pub fn get_resolves(&self, id: &Vec<u8>) -> (r: EscrowResolves)
        requires
            self.wf(),
            self.spec_contains(id@),
        ensures
            r == self.record_at(id@).resolves,
    {
        let idx = self.find_index(id).unwrap();
        proof {
            lemma_index_unique(*self, id@, idx as int);
        }
        self.escrows[idx].1.get_resolves()
    }
}

/// Law: each swap maps to at most one escrow instance — in a
/// well-formed registry, two entries that carry the same identity are
/// one and the same entry.
pub proof fn lemma_at_most_one_escrow(f: EscrowFactory, i: int, j: int)
    requires
        f.wf(),
        0 <= i < f.entries().len(),
        0 <= j < f.entries().len(),
        f.entries()[i].0@ == f.entries()[j].0@,
    ensures
        i == j,
{
}

/// In a well-formed registry an index that carries `id` is the one
/// `index_at` names.
proof fn lemma_index_unique(f: EscrowFactory, id: Seq<u8>, i: int)
    requires
        f.wf(),
        0 <= i < f.entries().len(),
        f.entries()[i].0@ == id,
    ensures
        f.index_at(id) == i,
        f.spec_contains(id),
{
    assert(f.spec_contains(id));
    let j = f.index_at(id);
    assert(0 <= j < f.entries().len() && f.entries()[j].0@ == id);
    if i < j {
        assert(f.entries()[i].0@ != f.entries()[j].0@);
    } else if j < i {
        assert(f.entries()[j].0@ != f.entries()[i].0@);
    }
}

/// An update that keeps every key keeps the registry well-formed and
/// keeps `index_at` stable.
proof fn lemma_update_keeps_keys(
    before: Seq<(Vec<u8>, Escrow)>,
    after: Seq<(Vec<u8>, Escrow)>,
    k: int,
    id: Seq<u8>,
)
    requires
        before.len() == after.len(),
        0 <= k < before.len(),
        before[k].0@ == id,
        forall|i: int| 0 <= i < before.len() && i != k ==> after[i] == before[i],
        after[k].0 == before[k].0,
        forall|i: int, j: int| 0 <= i < j < before.len() ==> before[i].0@ != before[j].0@,
    ensures
        forall|i: int, j: int| 0 <= i < j < after.len() ==> after[i].0@ != after[j].0@,
        forall|i: int| 0 <= i < after.len() ==> after[i].0@ == before[i].0@,
{
    assert forall|i: int| 0 <= i < after.len() implies after[i].0@ == before[i].0@ by {
        if i != k {
            assert(after[i] == before[i]);
        }
    }
}

} // verus!
