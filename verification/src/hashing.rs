//! The one fixed hash function of the system: hashlocks commit to the
//! SHA-256 digest of a secret, and escrow identities are digests of the
//! canonically serialized terms. The digest itself comes from the host
//! platform; everything stated about it here is that it is a 32-byte
//! function of the input bytes alone.

use vstd::prelude::*;

verus! {

/// The 32-byte digest the system's fixed hash function assigns to a byte
/// string. What the bytes are is never stated here: proofs treat the
/// digest as an opaque function of the input.
pub uninterp spec fn digest_of(input: Seq<u8>) -> Seq<u8>;

/// Relies on soroban_sdk's `Crypto::sha256`: "Returns the SHA-256 hash
/// of the data". The digest is a 32-byte function of the input bytes
/// alone. The environment's metering budget is lifted first
/// (`Budget::reset_unlimited`), so the call cannot trap on a large
/// input.
#[verifier::external_body]
pub(crate) fn sha256_bytes(input: &Vec<u8>) -> (r: Vec<u8>)
    ensures
        r@ == digest_of(input@),
        r@.len() == 32,
{
    let env = soroban_sdk::Env::default();
    env.cost_estimate().budget().reset_unlimited();
    let data = soroban_sdk::Bytes::from_slice(&env, input.as_slice());
    env.crypto().sha256(&data).to_array().to_vec()
}

/// Computes the 32-byte digest a hashlock commits to: a taker publishes
/// `hash_secret(secret)` as the hashlock, and `withdraw` later releases
/// funds only against a secret with that digest.
pub fn hash_secret(secret: &Vec<u8>) -> (r: Vec<u8>)
    ensures
        r@ == digest_of(secret@),
        r@.len() == 32,
{
    sha256_bytes(secret)
}

/// Decides whether `secret` is the preimage `hashlock` commits to.
pub fn secret_matches(secret: &Vec<u8>, hashlock: &Vec<u8>) -> (r: bool)
    ensures
        r == (digest_of(secret@) == hashlock@),
{
    let digest = sha256_bytes(secret);
    bytes_eq(&digest, hashlock)
}

/// Copies a byte string.
pub fn copy_bytes(v: &Vec<u8>) -> (r: Vec<u8>)
    ensures
        r@ == v@,
{
    let mut out: Vec<u8> = Vec::new();
    let mut i: usize = 0;
    while i < v.len()
        invariant
            i <= v.len(),
            out@ == v@.take(i as int),
        decreases v@.len() - i,
    {
        out.push(v[i]);
        proof {
            assert(out@ =~= v@.take(i + 1 as int));
        }
        i += 1;
    }
    proof {
        assert(v@.take(v@.len() as int) =~= v@);
    }
    out
}

/// Decides equality of two byte strings.
pub fn bytes_eq(a: &Vec<u8>, b: &Vec<u8>) -> (r: bool)
    ensures
        r == (a@ == b@),
{
    if a.len() != b.len() {
        return false;
    }
    let mut i: usize = 0;
    while i < a.len()
        invariant
            i <= a.len(),
            a@.len() == b@.len(),
            forall|j: int| 0 <= j < i ==> a@[j] == b@[j],
        decreases a@.len() - i,
    {
        if a[i] != b[i] {
            return false;
        }
        i += 1;
    }
    proof {
        assert(a@ =~= b@);
    }
    true
}

} // verus!
