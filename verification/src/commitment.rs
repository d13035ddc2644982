use sha2::Digest;
use vstd::prelude::*;

verus! {

/// The SHA-256 digest of a byte string, as the `sha2` crate computes it.
pub uninterp spec fn sha256_digest(data: Seq<u8>) -> Seq<u8>;

/// Calls `sha2::Sha256::digest`. The contract claims that the result is the
/// 32-byte SHA-256 digest of `data`, a function of the bytes alone.
#[verifier::external_body]
fn sha256(data: &[u8]) -> (r: [u8; 32])
    ensures
        r@ == sha256_digest(data@),
{
    sha2::Sha256::digest(data).into()
}

/// The commitment that binds a plaintext: its digest.
pub open spec fn spec_commit(plaintext: Seq<u8>) -> Seq<u8> {
    sha256_digest(plaintext)
}

/// Whether `digest` is the commitment of `plaintext`.
pub open spec fn spec_verify(digest: Seq<u8>, plaintext: Seq<u8>) -> bool {
    spec_commit(plaintext) == digest
}

/// Computes the commitment of a plaintext.
pub fn commit(plaintext: &[u8]) -> (digest: [u8; 32])
    ensures
        digest@ == spec_commit(plaintext@),
{
    sha256(plaintext)
}

/// Recomputes the commitment of `plaintext` and compares it with `digest`.
pub fn verify(digest: &[u8; 32], plaintext: &[u8]) -> (ok: bool)
    ensures
        ok == spec_verify(digest@, plaintext@),
{
    let computed = commit(plaintext);
    crate::identity::bytes_equal(&computed, digest)
}

/// A commitment always verifies against the plaintext it was computed from.
pub proof fn lemma_commit_verifies(plaintext: Seq<u8>)
    ensures
        spec_verify(spec_commit(plaintext), plaintext),
{
}

/// Verification accepts a digest exactly when it is the plaintext's commitment.
pub proof fn lemma_verify_is_commit_equality(digest: Seq<u8>, plaintext: Seq<u8>)
    ensures
        spec_verify(digest, plaintext) <==> digest == spec_commit(plaintext),
{
}

} // verus!
