use vstd::prelude::*;

use sha2::Digest;

verus! {

/// The digest that SHA-256 assigns to a byte sequence. Left without a body:
/// the contracts below say only that the digest is a function of the input
/// bytes, never what it is on given bytes.
pub uninterp spec fn digest_of(data: Seq<u8>) -> Seq<u8>;

/// Relies on sha2's `Sha256::digest`: the 32-byte digest depends on the input
/// bytes alone.
#[verifier::external_body]
fn sha256_digest(data: &Vec<u8>) -> (digest: [u8; 32])
    ensures
        digest@ == digest_of(data@),
{
    sha2::Sha256::digest(data.as_slice()).into()
}

/// The commitment bound to a secret: its SHA-256 digest.
pub open spec fn spec_commitment(secret: Seq<u8>) -> Seq<u8> {
    digest_of(secret)
}

/// A candidate secret opens a commitment when recomputing the commitment
/// from the candidate yields the stored value.
pub open spec fn spec_matches(commitment: Seq<u8>, secret: Seq<u8>) -> bool {
    commitment == digest_of(secret)
}

/// Constant-time equality of two 32-byte values: every byte is examined
/// whatever the outcome, so the comparison leaks no timing correlated with
/// how long a matching prefix is.
pub fn constant_time_eq_32(a: &[u8; 32], b: &[u8; 32]) -> (eq: bool)
    ensures
        eq == (a@ == b@),
{
    let mut diff: u8 = 0;
    let mut i: usize = 0;
    while i < 32
        invariant
            i <= 32,
            (diff == 0) <==> (forall|j: int| 0 <= j < i ==> a@[j] == b@[j]),
        decreases 32 - i,
    {
        let x = a[i];
        let y = b[i];
        let ghost d0: u8 = diff;
        diff = diff | (x ^ y);
        proof {
            assert((d0 | (x ^ y)) == 0 <==> d0 == 0 && x == y) by (bit_vector);
        }
        i = i + 1;
    }
    if diff == 0 {
        proof {
            assert(a@ =~= b@);
        }
        true
    } else {
        false
    }
}

/// Derive the commitment under which a secret locks an escrow.
pub fn create_hashlock(secret: &Vec<u8>) -> (commitment: [u8; 32])
    ensures
        commitment@ == spec_commitment(secret@),
{
    sha256_digest(secret)
}

/// Check a revealed secret against a stored commitment: recompute the
/// commitment and compare in constant time.
pub fn verify_hashlock(hashlock: &[u8; 32], secret: &Vec<u8>) -> (ok: bool)
    ensures
        ok == spec_matches(hashlock@, secret@),
{
    let candidate = sha256_digest(secret);
    constant_time_eq_32(hashlock, &candidate)
}

/// Holds the commitment an escrow was created with and checks revealed
/// secrets against it.
#[derive(Clone, Copy, Debug)]
pub struct HashlockValidator {
    pub expected_hash: [u8; 32],
}

impl HashlockValidator {
    pub fn new(expected_hash: [u8; 32]) -> (validator: Self)
        ensures
            validator.expected_hash == expected_hash,
    {
        HashlockValidator { expected_hash }
    }

    pub fn validate(&self, secret: &Vec<u8>) -> (ok: bool)
        ensures
            ok == spec_matches(self.expected_hash@, secret@),
    {
        verify_hashlock(&self.expected_hash, secret)
    }
}

/// Hashlock soundness: a commitment derived from a secret is opened by that
/// same secret. (That no other secret opens it is collision resistance of the
/// digest, a probabilistic fact no proof here can state.)
pub proof fn lemma_hashlock_sound(secret: Seq<u8>)
    ensures
        spec_matches(spec_commitment(secret), secret),
{
}

} // verus!
