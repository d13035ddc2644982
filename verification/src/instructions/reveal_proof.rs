use crate::commitment::{commit, spec_commit};
use crate::errors::ProofOfHackError;
use crate::identity::{bytes_equal, Identity};
use crate::state::{Disclosure, DisclosureStatus};
use vstd::prelude::*;

verus! {

/// Longest plaintext that can be revealed.
pub const MAX_PLAINTEXT_PROOF: usize = 1024;

/// What a reveal names: the disclosure and the caller.
#[derive(Clone, Debug)]
pub struct RevealProof {
    pub disclosure: Disclosure,
    pub hacker: Identity,
}

/// The disclosure after its plaintext was published.
pub open spec fn revealed(d: Disclosure, plaintext: Vec<u8>) -> Disclosure {
    Disclosure { encrypted_proof: plaintext, status: DisclosureStatus::Revealed, ..d }
}

/// What a reveal does, given the digest of the plaintext: the new state of
/// the accounts, or the first check that failed.
pub open spec fn reveal_outcome(ctx: RevealProof, plaintext: Vec<u8>, now: i64, digest: Seq<u8>)
    -> Result<RevealProof, ProofOfHackError> {
    if ctx.disclosure.hacker@ != ctx.hacker@ {
        Err(ProofOfHackError::UnauthorizedHackerAction)
    } else if ctx.disclosure.status == DisclosureStatus::Revealed {
        Err(ProofOfHackError::InvalidStatus)
    } else if plaintext@.len() > MAX_PLAINTEXT_PROOF {
        Err(ProofOfHackError::PlaintextProofTooLarge)
    } else if ctx.disclosure.submitted_at + ctx.disclosure.grace_period > i64::MAX
        || ctx.disclosure.submitted_at + ctx.disclosure.grace_period < i64::MIN {
        Err(ProofOfHackError::GracePeriodOverflow)
    } else if now < ctx.disclosure.submitted_at + ctx.disclosure.grace_period {
        Err(ProofOfHackError::GracePeriodNotElapsed)
    } else if digest != ctx.disclosure.proof_hash@ {
        Err(ProofOfHackError::ProofHashMismatch)
    } else {
        Ok(RevealProof { disclosure: revealed(ctx.disclosure, plaintext), hacker: ctx.hacker })
    }
}

/// Publishes a plaintext whose digest the caller has already computed.
///
/// Only the hacker may reveal, only once, only after the grace period, and
/// only the plaintext the disclosure committed to. On failure nothing changes.
pub fn reveal_with_digest(
    ctx: &mut RevealProof,
    plaintext: Vec<u8>,
    now: i64,
    digest: &[u8; 32],
) -> (r: Result<(), ProofOfHackError>)
    ensures
        reveal_outcome(*old(ctx), plaintext, now, digest@) == match r {
            Ok(()) => Ok::<RevealProof, ProofOfHackError>(*final(ctx)),
            Err(e) => Err(e),
        },
        r is Err ==> *final(ctx) == *old(ctx),
        old(ctx).disclosure@.steps_to(final(ctx).disclosure@),
{
    if ctx.disclosure.hacker != ctx.hacker {
        return Err(ProofOfHackError::UnauthorizedHackerAction);
    }
    match ctx.disclosure.status {
        DisclosureStatus::Revealed => {
            return Err(ProofOfHackError::InvalidStatus);
        },
        _ => {},
    }
    if plaintext.len() > MAX_PLAINTEXT_PROOF {
        return Err(ProofOfHackError::PlaintextProofTooLarge);
    }
    let deadline = match ctx.disclosure.submitted_at.checked_add(ctx.disclosure.grace_period) {
        Some(t) => t,
        None => {
            return Err(ProofOfHackError::GracePeriodOverflow);
        },
    };
    if now < deadline {
        return Err(ProofOfHackError::GracePeriodNotElapsed);
    }
    if !bytes_equal(digest, &ctx.disclosure.proof_hash) {
        return Err(ProofOfHackError::ProofHashMismatch);
    }
    ctx.disclosure.encrypted_proof = plaintext;
    ctx.disclosure.status = DisclosureStatus::Revealed;
    Ok(())
}

/// Publishes the plaintext of a disclosure once its grace period has passed.
///
/// Succeeds exactly when the caller is the hacker, the disclosure is not yet
/// revealed, the plaintext fits, the deadline has passed and the plaintext's
/// commitment is the committed hash. On failure nothing changes.
pub fn handler(ctx: &mut RevealProof, plaintext_proof: Vec<u8>, now: i64) -> (r: Result<
    (),
    ProofOfHackError,
>)
    ensures
        reveal_outcome(*old(ctx), plaintext_proof, now, spec_commit(plaintext_proof@)) == match r {
            Ok(()) => Ok::<RevealProof, ProofOfHackError>(*final(ctx)),
            Err(e) => Err(e),
        },
        r is Err ==> *final(ctx) == *old(ctx),
        old(ctx).disclosure@.steps_to(final(ctx).disclosure@),
{
    let digest = commit(plaintext_proof.as_slice());
    reveal_with_digest(ctx, plaintext_proof, now, &digest)
}

} // verus!
