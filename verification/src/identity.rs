//! Deterministic escrow identity: the digest of a canonical, injective
//! serialization of the swap terms. Equal terms always yield the same
//! identity, and distinct terms yield distinct serializations — so two
//! swaps collide only if the digest collides on distinct inputs.

use vstd::bytes::{
    lemma_auto_spec_u128_to_from_le_bytes, lemma_auto_spec_u64_to_from_le_bytes,
    spec_u128_from_le_bytes, spec_u128_to_le_bytes, spec_u64_from_le_bytes, spec_u64_to_le_bytes,
    u128_to_le_bytes, u64_to_le_bytes,
};
use vstd::prelude::*;

use crate::hashing::{digest_of, sha256_bytes};
use crate::pricing::AmountCalc;
use crate::terms::{EscrowDirection, EscrowImmutables, TimeLocks};

verus! {

/// The byte that tags the direction in the canonical serialization.
pub open spec fn spec_direction_byte(d: EscrowDirection) -> u8 {
    match d {
        EscrowDirection::Maker2Taker => 0u8,
        EscrowDirection::Taker2Maker => 1u8,
    }
}

/// The canonical bytes of the pricing variant: a tag byte, then the
/// variant's fields in little-endian order. Amounts are well-formed
/// (non-negative), so the `u128` image determines them.
pub open spec fn spec_amount_bytes(a: AmountCalc) -> Seq<u8> {
    match a {
        AmountCalc::Flat(amount) => seq![0u8] + spec_u128_to_le_bytes(amount as u128),
        AmountCalc::Linear(da) => seq![1u8] + spec_u64_to_le_bytes(da.start_time)
            + spec_u64_to_le_bytes(da.end_time) + spec_u128_to_le_bytes(da.start_amount as u128)
            + spec_u128_to_le_bytes(da.end_amount as u128),
    }
}

/// The canonical bytes of the timelock offsets.
pub open spec fn spec_timelock_bytes(t: TimeLocks) -> Seq<u8> {
    spec_u64_to_le_bytes(t.withdrawal) + spec_u64_to_le_bytes(t.public_withdrawal)
        + spec_u64_to_le_bytes(t.cancellation) + spec_u64_to_le_bytes(t.public_cancellation)
}

/// The fixed-width fields that precede the pricing variant.
pub open spec fn spec_head_bytes(t: EscrowImmutables) -> Seq<u8> {
    t.order_hash@ + t.hashlock@ + seq![spec_direction_byte(t.direction)]
        + spec_u64_to_le_bytes(t.maker.0) + spec_u64_to_le_bytes(t.token.0)
}

/// The fixed-width fields that follow the pricing variant.
pub open spec fn spec_tail_bytes(t: EscrowImmutables) -> Seq<u8> {
    spec_u64_to_le_bytes(t.safety_deposit_token.0) + spec_u128_to_le_bytes(
        t.safety_deposit_amount as u128,
    ) + spec_timelock_bytes(t.timelocks)
}

/// The canonical serialization of the swap terms.
pub open spec fn spec_canonical_bytes(t: EscrowImmutables) -> Seq<u8> {
    spec_head_bytes(t) + spec_amount_bytes(t.amount) + spec_tail_bytes(t)
}

/// The identity of the swap the terms describe: the digest of their
/// canonical serialization.
pub open spec fn spec_identity(t: EscrowImmutables) -> Seq<u8> {
    digest_of(spec_canonical_bytes(t))
}

/// Field-level equality of two terms, comparing byte strings by their
/// contents.
pub open spec fn terms_alike(a: EscrowImmutables, b: EscrowImmutables) -> bool {
    &&& a.order_hash@ == b.order_hash@
    &&& a.hashlock@ == b.hashlock@
    &&& a.direction == b.direction
    &&& a.maker == b.maker
    &&& a.token == b.token
    &&& a.amount == b.amount
    &&& a.safety_deposit_token == b.safety_deposit_token
    &&& a.safety_deposit_amount == b.safety_deposit_amount
    &&& a.timelocks == b.timelocks
}

/// Appends the little-endian bytes of `x`.
fn push_u64_le(out: &mut Vec<u8>, x: u64)
    ensures
        final(out)@ == old(out)@ + spec_u64_to_le_bytes(x),
{
    let mut bytes = u64_to_le_bytes(x);
    out.append(&mut bytes);
}

/// Appends the little-endian bytes of `x`.
fn push_u128_le(out: &mut Vec<u8>, x: u128)
    ensures
        final(out)@ == old(out)@ + spec_u128_to_le_bytes(x),
{
    let mut bytes = u128_to_le_bytes(x);
    out.append(&mut bytes);
}

/// Serializes the swap terms canonically.
pub fn canonical_bytes(t: &EscrowImmutables) -> (r: Vec<u8>)
    requires
        t.wf(),
    ensures
        r@ == spec_canonical_bytes(*t),
{
    let mut out: Vec<u8> = Vec::new();
    out.extend_from_slice(t.order_hash.as_slice());
    out.extend_from_slice(t.hashlock.as_slice());
    match t.direction {
        EscrowDirection::Maker2Taker => out.push(0u8),
        EscrowDirection::Taker2Maker => out.push(1u8),
    }
    push_u64_le(&mut out, t.maker.0);
    push_u64_le(&mut out, t.token.0);
    proof {
        assert(out@ =~= spec_head_bytes(*t));
    }
    match &t.amount {
        AmountCalc::Flat(amount) => {
            out.push(0u8);
            push_u128_le(&mut out, *amount as u128);
        },
        AmountCalc::Linear(da) => {
            out.push(1u8);
            push_u64_le(&mut out, da.start_time);
            push_u64_le(&mut out, da.end_time);
            push_u128_le(&mut out, da.start_amount as u128);
            push_u128_le(&mut out, da.end_amount as u128);
        },
    }
    proof {
        assert(out@ =~= spec_head_bytes(*t) + spec_amount_bytes(t.amount));
    }
    push_u64_le(&mut out, t.safety_deposit_token.0);
    push_u128_le(&mut out, t.safety_deposit_amount as u128);
    push_u64_le(&mut out, t.timelocks.withdrawal);
    push_u64_le(&mut out, t.timelocks.public_withdrawal);
    push_u64_le(&mut out, t.timelocks.cancellation);
    push_u64_le(&mut out, t.timelocks.public_cancellation);
    proof {
        assert(out@ =~= spec_canonical_bytes(*t));
    }
    out
}

/// Derives the deterministic, swap-unique identity of the terms. Every
/// escrow instance is keyed by this value, so re-creation with identical
/// terms is rejected instead of silently duplicated.
pub fn derive_identity(t: &EscrowImmutables) -> (r: Vec<u8>)
    requires
        t.wf(),
    ensures
        r@ == spec_identity(*t),
        r@.len() == 32,
{
    let bytes = canonical_bytes(t);
    sha256_bytes(&bytes)
}

/// If two concatenations are equal and their left parts have equal
/// length, the parts coincide.
proof fn lemma_concat_parts_left(a: Seq<u8>, b: Seq<u8>, c: Seq<u8>, d: Seq<u8>)
    requires
        a.len() == c.len(),
        a + b == c + d,
    ensures
        a == c,
        b == d,
{
    assert((a + b).len() == a.len() + b.len());
    assert((c + d).len() == c.len() + d.len());
    assert forall|i: int| 0 <= i < a.len() implies a[i] == c[i] by {
        assert((a + b)[i] == a[i]);
        assert((c + d)[i] == c[i]);
    }
    assert(a =~= c);
    assert(b.len() == d.len());
    assert forall|i: int| 0 <= i < b.len() implies b[i] == d[i] by {
        assert((a + b)[a.len() + i] == b[i]);
        assert((c + d)[c.len() + i] == d[i]);
    }
    assert(b =~= d);
}

/// If two concatenations are equal and their right parts have equal
/// length, the parts coincide.
proof fn lemma_concat_parts_right(a: Seq<u8>, b: Seq<u8>, c: Seq<u8>, d: Seq<u8>)
    requires
        b.len() == d.len(),
        a + b == c + d,
    ensures
        a == c,
        b == d,
{
    assert((a + b).len() == a.len() + b.len());
    assert((c + d).len() == c.len() + d.len());
    lemma_concat_parts_left(a, b, c, d);
}

/// Law: the identity is a pure function of the terms — terms equal field
/// by field derive the same identity.
pub proof fn lemma_identity_pure(a: EscrowImmutables, b: EscrowImmutables)
    requires
        terms_alike(a, b),
    ensures
        spec_identity(a) == spec_identity(b),
{
    assert(spec_head_bytes(a) == spec_head_bytes(b));
    assert(spec_amount_bytes(a.amount) == spec_amount_bytes(b.amount));
    assert(spec_tail_bytes(a) == spec_tail_bytes(b));
}

/// Law: the canonical serialization is injective on well-formed terms.
/// Distinct terms therefore derive distinct identities unless the digest
/// itself collides on distinct inputs — the one case no serialization
/// can exclude.
pub proof fn lemma_canonical_bytes_injective(a: EscrowImmutables, b: EscrowImmutables)
    requires
        a.wf(),
        b.wf(),
        spec_canonical_bytes(a) == spec_canonical_bytes(b),
    ensures
        terms_alike(a, b),
{
    lemma_auto_spec_u64_to_from_le_bytes();
    lemma_auto_spec_u128_to_from_le_bytes();

    // Split off the fixed-width tail, then split head from the pricing
    // bytes, whose length may differ between the variants.
    assert(spec_tail_bytes(a).len() == 56 && spec_tail_bytes(b).len() == 56);
    lemma_concat_parts_right(
        spec_head_bytes(a) + spec_amount_bytes(a.amount),
        spec_tail_bytes(a),
        spec_head_bytes(b) + spec_amount_bytes(b.amount),
        spec_tail_bytes(b),
    );
    assert(spec_head_bytes(a).len() == 81 && spec_head_bytes(b).len() == 81);
    lemma_concat_parts_left(
        spec_head_bytes(a),
        spec_amount_bytes(a.amount),
        spec_head_bytes(b),
        spec_amount_bytes(b.amount),
    );

    // The head: peel each fixed-width field.
    let dir_a = head_through_direction(a);
    let dir_b = head_through_direction(b);
    lemma_concat_parts_right(head_through_maker(a), spec_u64_to_le_bytes(a.token.0), head_through_maker(b), spec_u64_to_le_bytes(b.token.0));
    lemma_concat_parts_right(dir_a, spec_u64_to_le_bytes(a.maker.0), dir_b, spec_u64_to_le_bytes(b.maker.0));
    assert(a.token.0 == b.token.0) by {
        assert(spec_u64_from_le_bytes(spec_u64_to_le_bytes(a.token.0)) == a.token.0);
    }
    assert(a.maker.0 == b.maker.0) by {
        assert(spec_u64_from_le_bytes(spec_u64_to_le_bytes(a.maker.0)) == a.maker.0);
    }
    lemma_concat_parts_right(
        head_hashes(a),
        seq![spec_direction_byte(a.direction)],
        head_hashes(b),
        seq![spec_direction_byte(b.direction)],
    );
    assert(spec_direction_byte(a.direction) == seq![spec_direction_byte(a.direction)][0]);
    assert(a.direction == b.direction);
    lemma_concat_parts_left(a.order_hash@, a.hashlock@, b.order_hash@, b.hashlock@);

    // The tail: safety deposit token and amount, then the four offsets.
    assert(spec_tail_bytes(a) =~= spec_u64_to_le_bytes(a.safety_deposit_token.0) + (
    spec_u128_to_le_bytes(a.safety_deposit_amount as u128) + spec_timelock_bytes(a.timelocks)));
    assert(spec_tail_bytes(b) =~= spec_u64_to_le_bytes(b.safety_deposit_token.0) + (
    spec_u128_to_le_bytes(b.safety_deposit_amount as u128) + spec_timelock_bytes(b.timelocks)));
    lemma_concat_parts_left(
        spec_u64_to_le_bytes(a.safety_deposit_token.0),
        spec_u128_to_le_bytes(a.safety_deposit_amount as u128) + spec_timelock_bytes(a.timelocks),
        spec_u64_to_le_bytes(b.safety_deposit_token.0),
        spec_u128_to_le_bytes(b.safety_deposit_amount as u128) + spec_timelock_bytes(b.timelocks),
    );
    assert(a.safety_deposit_token.0 == b.safety_deposit_token.0) by {
        assert(spec_u64_from_le_bytes(spec_u64_to_le_bytes(a.safety_deposit_token.0))
            == a.safety_deposit_token.0);
    }
    lemma_concat_parts_left(
        spec_u128_to_le_bytes(a.safety_deposit_amount as u128),
        spec_timelock_bytes(a.timelocks),
        spec_u128_to_le_bytes(b.safety_deposit_amount as u128),
        spec_timelock_bytes(b.timelocks),
    );
    assert(a.safety_deposit_amount as u128 == b.safety_deposit_amount as u128) by {
        assert(spec_u128_from_le_bytes(spec_u128_to_le_bytes(a.safety_deposit_amount as u128))
            == a.safety_deposit_amount as u128);
    }
    lemma_timelock_bytes_injective(a.timelocks, b.timelocks);

    // The pricing variant: the tag byte decides the variant, then each
    // field is fixed-width.
    lemma_amount_bytes_injective(a.amount, b.amount);
}

/// The head without its last field (the token).
spec fn head_through_maker(t: EscrowImmutables) -> Seq<u8> {
    t.order_hash@ + t.hashlock@ + seq![spec_direction_byte(t.direction)]
        + spec_u64_to_le_bytes(t.maker.0)
}

/// The head without its last two fields (the token and the maker).
spec fn head_through_direction(t: EscrowImmutables) -> Seq<u8> {
    t.order_hash@ + t.hashlock@ + seq![spec_direction_byte(t.direction)]
}

/// The two hashes alone.
spec fn head_hashes(t: EscrowImmutables) -> Seq<u8> {
    t.order_hash@ + t.hashlock@
}

/// Equal timelock bytes mean equal offsets.
proof fn lemma_timelock_bytes_injective(a: TimeLocks, b: TimeLocks)
    requires
        spec_timelock_bytes(a) == spec_timelock_bytes(b),
    ensures
        a == b,
{
    lemma_auto_spec_u64_to_from_le_bytes();
    lemma_concat_parts_right(
        spec_u64_to_le_bytes(a.withdrawal) + spec_u64_to_le_bytes(a.public_withdrawal)
            + spec_u64_to_le_bytes(a.cancellation),
        spec_u64_to_le_bytes(a.public_cancellation),
        spec_u64_to_le_bytes(b.withdrawal) + spec_u64_to_le_bytes(b.public_withdrawal)
            + spec_u64_to_le_bytes(b.cancellation),
        spec_u64_to_le_bytes(b.public_cancellation),
    );
    lemma_concat_parts_right(
        spec_u64_to_le_bytes(a.withdrawal) + spec_u64_to_le_bytes(a.public_withdrawal),
        spec_u64_to_le_bytes(a.cancellation),
        spec_u64_to_le_bytes(b.withdrawal) + spec_u64_to_le_bytes(b.public_withdrawal),
        spec_u64_to_le_bytes(b.cancellation),
    );
    lemma_concat_parts_right(
        spec_u64_to_le_bytes(a.withdrawal),
        spec_u64_to_le_bytes(a.public_withdrawal),
        spec_u64_to_le_bytes(b.withdrawal),
        spec_u64_to_le_bytes(b.public_withdrawal),
    );
    assert(spec_u64_from_le_bytes(spec_u64_to_le_bytes(a.withdrawal)) == a.withdrawal);
    assert(spec_u64_from_le_bytes(spec_u64_to_le_bytes(a.public_withdrawal))
        == a.public_withdrawal);
    assert(spec_u64_from_le_bytes(spec_u64_to_le_bytes(a.cancellation)) == a.cancellation);
    assert(spec_u64_from_le_bytes(spec_u64_to_le_bytes(a.public_cancellation))
        == a.public_cancellation);
}

/// The first byte of a linear variant's canonical bytes is its tag.
proof fn lemma_linear_tag(da: crate::pricing::DutchAuction)
    ensures
        spec_amount_bytes(AmountCalc::Linear(da))[0] == 1u8,
{
    let s1 = seq![1u8] + spec_u64_to_le_bytes(da.start_time);
    let s2 = s1 + spec_u64_to_le_bytes(da.end_time);
    let s3 = s2 + spec_u128_to_le_bytes(da.start_amount as u128);
    let s4 = s3 + spec_u128_to_le_bytes(da.end_amount as u128);
    assert(s1[0] == 1u8);
    assert(s2[0] == 1u8);
    assert(s3[0] == 1u8);
    assert(s4[0] == 1u8);
}

/// Equal pricing bytes mean equal pricing, for bounded (non-negative)
/// amounts.
proof fn lemma_amount_bytes_injective(a: AmountCalc, b: AmountCalc)
    requires
        a.amounts_bounded(),
        b.amounts_bounded(),
        spec_amount_bytes(a) == spec_amount_bytes(b),
    ensures
        a == b,
{
    lemma_auto_spec_u64_to_from_le_bytes();
    lemma_auto_spec_u128_to_from_le_bytes();
    assert(spec_amount_bytes(a)[0] == spec_amount_bytes(b)[0]);
    match (a, b) {
        (AmountCalc::Flat(x), AmountCalc::Flat(y)) => {
            lemma_concat_parts_left(
                seq![0u8],
                spec_u128_to_le_bytes(x as u128),
                seq![0u8],
                spec_u128_to_le_bytes(y as u128),
            );
            assert(spec_u128_from_le_bytes(spec_u128_to_le_bytes(x as u128)) == x as u128);
        },
        (AmountCalc::Linear(da), AmountCalc::Linear(db)) => {
            lemma_concat_parts_right(
                seq![1u8] + spec_u64_to_le_bytes(da.start_time) + spec_u64_to_le_bytes(da.end_time)
                    + spec_u128_to_le_bytes(da.start_amount as u128),
                spec_u128_to_le_bytes(da.end_amount as u128),
                seq![1u8] + spec_u64_to_le_bytes(db.start_time) + spec_u64_to_le_bytes(db.end_time)
                    + spec_u128_to_le_bytes(db.start_amount as u128),
                spec_u128_to_le_bytes(db.end_amount as u128),
            );
            lemma_concat_parts_right(
                seq![1u8] + spec_u64_to_le_bytes(da.start_time) + spec_u64_to_le_bytes(da.end_time),
                spec_u128_to_le_bytes(da.start_amount as u128),
                seq![1u8] + spec_u64_to_le_bytes(db.start_time) + spec_u64_to_le_bytes(db.end_time),
                spec_u128_to_le_bytes(db.start_amount as u128),
            );
            lemma_concat_parts_right(
                seq![1u8] + spec_u64_to_le_bytes(da.start_time),
                spec_u64_to_le_bytes(da.end_time),
                seq![1u8] + spec_u64_to_le_bytes(db.start_time),
                spec_u64_to_le_bytes(db.end_time),
            );
            lemma_concat_parts_left(
                seq![1u8],
                spec_u64_to_le_bytes(da.start_time),
                seq![1u8],
                spec_u64_to_le_bytes(db.start_time),
            );
            assert(spec_u64_from_le_bytes(spec_u64_to_le_bytes(da.start_time)) == da.start_time);
            assert(spec_u64_from_le_bytes(spec_u64_to_le_bytes(da.end_time)) == da.end_time);
            assert(spec_u128_from_le_bytes(spec_u128_to_le_bytes(da.start_amount as u128))
                == da.start_amount as u128);
            assert(spec_u128_from_le_bytes(spec_u128_to_le_bytes(da.end_amount as u128))
                == da.end_amount as u128);
        },
        (AmountCalc::Flat(x), AmountCalc::Linear(db)) => {
            assert((seq![0u8] + spec_u128_to_le_bytes(x as u128))[0] == 0u8);
            lemma_linear_tag(db);
            assert(false);
        },
        (AmountCalc::Linear(da), AmountCalc::Flat(y)) => {
            assert((seq![0u8] + spec_u128_to_le_bytes(y as u128))[0] == 0u8);
            lemma_linear_tag(da);
            assert(false);
        },
    }
}

} // verus!
