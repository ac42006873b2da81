//! Settlement pricing: the amount owed at a given timestamp is either a
//! constant or a linear interpolation between two time/amount endpoints
//! (a Dutch auction), clamped at the boundaries.

use vstd::arithmetic::div_mod::{lemma_div_by_multiple, lemma_div_is_ordered, lemma_div_pos_is_pos};
use vstd::arithmetic::mul::{
    lemma_mul_inequality, lemma_mul_is_distributive_add, lemma_mul_is_distributive_sub,
    lemma_mul_is_distributive_sub_other_way, lemma_mul_nonnegative,
};
use vstd::prelude::*;

use crate::errors::EscrowError;

verus! {

/// Parameters of a Dutch auction: the owed amount moves linearly from
/// `start_amount` at `start_time` to `end_amount` at `end_time`.
#[derive(Clone, Copy, Debug, PartialEq, Eq, Structural)]
pub struct DutchAuction {
    pub start_time: u64,
    pub end_time: u64,
    pub start_amount: i128,
    pub end_amount: i128,
}

impl DutchAuction {
    /// The auction window ends strictly after it starts.
    pub open spec fn window_valid(self) -> bool {
        self.start_time < self.end_time
    }

    /// The endpoint amounts are non-negative and small enough that the
    /// interpolation arithmetic stays within `i128`.
    pub open spec fn amounts_bounded(self) -> bool {
        &&& 0 <= self.start_amount
        &&& 0 <= self.end_amount
        &&& self.start_amount * (self.end_time - self.start_time) <= i128::MAX
        &&& self.end_amount * (self.end_time - self.start_time) <= i128::MAX
    }

    pub open spec fn wf(self) -> bool {
        self.window_valid() && self.amounts_bounded()
    }

    /// The timestamp the interpolation evaluates at: `now` clamped into
    /// the auction window.
    pub open spec fn clamped(self, now: u64) -> u64 {
        if now < self.start_time {
            self.start_time
        } else if now > self.end_time {
            self.end_time
        } else {
            now
        }
    }

    /// The amount owed at `now`: linear interpolation between the two
    /// endpoints, with the division truncating. The numerator is
    /// non-negative for well-formed parameters, so truncating and
    /// flooring agree.
    pub open spec fn price_at(self, now: u64) -> int
        recommends
            self.window_valid(),
    {
        let t0 = self.start_time as int;
        let t1 = self.end_time as int;
        let tc = self.clamped(now) as int;
        (self.start_amount * (t1 - tc) + self.end_amount * (tc - t0)) / (t1 - t0)
    }

    /// Computes the owed amount at `now`.
    pub fn price(&self, now: u64) -> (r: i128)
        requires
            self.wf(),
        ensures
            r == self.price_at(now),
            0 <= r,
    {
        let tc = if now < self.start_time {
            self.start_time
        } else if now > self.end_time {
            self.end_time
        } else {
            now
        };
        let dur = self.end_time - self.start_time;
        let until_end = self.end_time - tc;
        let since_start = tc - self.start_time;
        proof {
            lemma_interpolation_fits(*self, tc);
        }
        let a = self.start_amount * (until_end as i128);
        let b = self.end_amount * (since_start as i128);
        let num = a + b;
        proof {
            lemma_div_pos_is_pos(num as int, dur as int);
        }
        num / (dur as i128)
    }
}

/// For well-formed parameters and a timestamp `tc` inside the window,
/// both interpolation products and their sum fit in `i128`.
proof fn lemma_interpolation_fits(da: DutchAuction, tc: u64)
    requires
        da.wf(),
        da.start_time <= tc <= da.end_time,
    ensures
        0 <= da.start_amount * (da.end_time - tc) <= i128::MAX,
        0 <= da.end_amount * (tc - da.start_time) <= i128::MAX,
        da.start_amount * (da.end_time - tc) + da.end_amount * (tc - da.start_time) <= i128::MAX,
{
    let a0 = da.start_amount as int;
    let a1 = da.end_amount as int;
    let x = da.end_time - tc;
    let y = tc - da.start_time;
    let dur = da.end_time - da.start_time;
    let m = if a0 <= a1 { a1 } else { a0 };
    lemma_mul_nonnegative(a0, x);
    lemma_mul_nonnegative(a1, y);
    lemma_mul_inequality(x, dur, a0);
    lemma_mul_inequality(y, dur, a1);
    assert(a0 * x + a1 * y <= m * x + m * y) by {
        lemma_mul_inequality(a0, m, x);
        lemma_mul_inequality(a1, m, y);
        vstd::arithmetic::mul::lemma_mul_is_commutative(a0, x);
        vstd::arithmetic::mul::lemma_mul_is_commutative(m, x);
        vstd::arithmetic::mul::lemma_mul_is_commutative(a1, y);
        vstd::arithmetic::mul::lemma_mul_is_commutative(m, y);
    }
    assert(m * x + m * y == m * dur) by {
        lemma_mul_is_distributive_add(m, x, y);
    }
    assert(m * dur <= i128::MAX);
}

/// Law: a well-formed Dutch auction price is exactly `start_amount` at
/// `start_time`, exactly `end_amount` at `end_time`, and moves
/// monotonically from the one toward the other in between (and is
/// constant outside the window, where the timestamp is clamped).
pub proof fn lemma_price_monotonic(da: DutchAuction, s: u64, t: u64)
    requires
        da.wf(),
        s <= t,
    ensures
        da.price_at(da.start_time) == da.start_amount,
        da.price_at(da.end_time) == da.end_amount,
        da.end_amount <= da.start_amount ==> da.price_at(t) <= da.price_at(s),
        da.start_amount <= da.end_amount ==> da.price_at(s) <= da.price_at(t),
{
    let a0 = da.start_amount as int;
    let a1 = da.end_amount as int;
    let t0 = da.start_time as int;
    let t1 = da.end_time as int;
    let dur = t1 - t0;

    assert(da.price_at(da.start_time) == a0) by {
        assert(da.clamped(da.start_time) == da.start_time);
        assert(a0 * (t1 - t0) + a1 * (t0 - t0) == a0 * dur) by {
            vstd::arithmetic::mul::lemma_mul_basics_2(a1);
        }
        lemma_div_by_multiple(a0, dur);
    }
    assert(da.price_at(da.end_time) == a1) by {
        assert(da.clamped(da.end_time) == da.end_time);
        assert(a0 * (t1 - t1) + a1 * (t1 - t0) == a1 * dur) by {
            vstd::arithmetic::mul::lemma_mul_basics_2(a0);
        }
        lemma_div_by_multiple(a1, dur);
    }

    let cs = da.clamped(s) as int;
    let ct = da.clamped(t) as int;
    assert(cs <= ct);
    let ns = a0 * (t1 - cs) + a1 * (cs - t0);
    let nt = a0 * (t1 - ct) + a1 * (ct - t0);
    assert(ns - nt == (a0 - a1) * (ct - cs)) by {
        lemma_mul_is_distributive_sub(a0, t1 - cs, t1 - ct);
        lemma_mul_is_distributive_sub(a1, ct - t0, cs - t0);
        lemma_mul_is_distributive_sub_other_way(ct - cs, a0, a1);
    }
    if da.end_amount <= da.start_amount {
        lemma_mul_nonnegative(a0 - a1, ct - cs);
        lemma_div_is_ordered(nt, ns, dur);
    }
    if da.start_amount <= da.end_amount {
        lemma_mul_nonnegative(a1 - a0, ct - cs);
        assert((a1 - a0) * (ct - cs) == -((a0 - a1) * (ct - cs))) by {
            vstd::arithmetic::mul::lemma_mul_unary_negation(a0 - a1, ct - cs);
        }
        lemma_div_is_ordered(ns, nt, dur);
    }
}

/// How the principal amount owed by the paying party is computed.
#[derive(Clone, Copy, Debug, PartialEq, Eq, Structural)]
pub enum AmountCalc {
    /// A constant amount.
    Flat(i128),
    /// A Dutch auction: linear interpolation between two endpoints.
    Linear(DutchAuction),
}

impl AmountCalc {
    /// The amounts involved are non-negative and the interpolation
    /// arithmetic stays within `i128`.
    pub open spec fn amounts_bounded(self) -> bool {
        match self {
            AmountCalc::Flat(amount) => 0 <= amount,
            AmountCalc::Linear(da) => da.amounts_bounded(),
        }
    }

    /// A linear variant has a valid auction window.
    pub open spec fn window_valid(self) -> bool {
        match self {
            AmountCalc::Flat(_) => true,
            AmountCalc::Linear(da) => da.window_valid(),
        }
    }

    pub open spec fn wf(self) -> bool {
        self.amounts_bounded() && self.window_valid()
    }

    /// The amount owed at `timestamp`.
    pub open spec fn spec_calc(self, timestamp: u64) -> int
        recommends
            self.wf(),
    {
        match self {
            AmountCalc::Flat(amount) => amount as int,
            AmountCalc::Linear(da) => da.price_at(timestamp),
        }
    }

    /// Computes the amount owed at `timestamp`.
    pub fn calc(&self, timestamp: u64) -> (r: i128)
        requires
            self.wf(),
        ensures
            r == self.spec_calc(timestamp),
            0 <= r,
    {
        match self {
            AmountCalc::Flat(amount) => *amount,
            AmountCalc::Linear(da) => da.price(timestamp),
        }
    }

    /// Computes the amount owed at `timestamp`, rejecting a linear
    /// variant whose auction window is invalid.
    pub fn evaluate(&self, timestamp: u64) -> (r: Result<i128, EscrowError>)
        requires
            self.amounts_bounded(),
        ensures
            self.window_valid() ==> r == Ok::<i128, EscrowError>(self.spec_calc(timestamp) as i128)
                && 0 <= self.spec_calc(timestamp) <= i128::MAX,
            !self.window_valid() ==> r == Err::<i128, EscrowError>(EscrowError::InvalidAuctionWindow),
    {
        match self {
            AmountCalc::Flat(amount) => Ok(*amount),
            AmountCalc::Linear(da) => {
                if da.start_time < da.end_time {
                    Ok(da.price(timestamp))
                } else {
                    Err(EscrowError::InvalidAuctionWindow)
                }
            },
        }
    }
}

} // verus!
