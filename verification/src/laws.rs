use crate::commitment::spec_commit;
use crate::errors::ProofOfHackError;
use crate::instructions::accept_authority::{accept_outcome, AcceptAuthority};
use crate::instructions::acknowledge_disclosure::{acknowledge_outcome, AcknowledgeDisclosure};
use crate::instructions::claim_bounty_reward::{claim_bounty_outcome, ClaimBounty};
use crate::instructions::claim_disclosure::{claim_outcome, ClaimDisclosure};
use crate::instructions::deactivate_bounty::{deactivate_outcome, DeactivateBounty};
use crate::instructions::fund_bounty::{fund_outcome, FundBounty};
use crate::instructions::resolve_disclosure::{resolve_outcome, ResolveDisclosure};
use crate::instructions::reveal_proof::{reveal_outcome, RevealProof, MAX_PLAINTEXT_PROOF};
use crate::instructions::submit_disclosure::{submit_outcome, SubmitDisclosure};
use crate::instructions::transfer_authority::{transfer_outcome, TransferAuthority};
use crate::instructions::update_encryption_key::{update_key_outcome, UpdateEncryptionKey};
use crate::instructions::withdraw_bounty::{withdraw_outcome, WithdrawBounty};
use crate::state::{DisclosureStatus, ProtocolModel};
use vstd::prelude::*;

verus! {

/// Adopting a disclosure never moves its status back and keeps its
/// commitment.
pub proof fn lemma_claim_is_step(ctx: ClaimDisclosure)
    ensures
        claim_outcome(ctx) matches Ok(after) ==> ctx.disclosure@.steps_to(after.disclosure@)
            && after.disclosure.status == ctx.disclosure.status,
{
}

/// Acknowledging moves a disclosure from submitted to acknowledged, never
/// back, and keeps its commitment.
pub proof fn lemma_acknowledge_is_step(ctx: AcknowledgeDisclosure, now: i64)
    ensures
        acknowledge_outcome(ctx, now) matches Ok(after) ==> ctx.disclosure@.steps_to(
            after.disclosure@,
        ) && ctx.disclosure.status == DisclosureStatus::Submitted && after.disclosure.status
            == DisclosureStatus::Acknowledged,
{
}

/// Resolving moves a disclosure from acknowledged to resolved, never back,
/// and keeps its commitment.
pub proof fn lemma_resolve_is_step(
    ctx: ResolveDisclosure,
    payment_hash: [u8; 32],
    res_type: u8,
    now: i64,
)
    ensures
        resolve_outcome(ctx, payment_hash, res_type, now) matches Ok(after) ==> ctx.disclosure@.steps_to(
            after.disclosure@,
        ) && ctx.disclosure.status == DisclosureStatus::Acknowledged && after.disclosure.status
            == DisclosureStatus::Resolved,
{
}

/// Revealing moves a disclosure from any earlier state to revealed, only at
/// or after its deadline, keeps its commitment, and puts the plaintext, which
/// fits, in place of the payload.
pub proof fn lemma_reveal_is_step(ctx: RevealProof, plaintext: Vec<u8>, now: i64, digest: Seq<u8>)
    ensures
        reveal_outcome(ctx, plaintext, now, digest) matches Ok(after) ==> ctx.disclosure@.steps_to(
            after.disclosure@,
        ) && ctx.disclosure.status != DisclosureStatus::Revealed && after.disclosure.status
            == DisclosureStatus::Revealed && now >= ctx.disclosure@.deadline()
            && after.disclosure@.payload == plaintext@ && plaintext@.len()
            <= MAX_PLAINTEXT_PROOF,
{
}

/// Paying a bounty leaves the disclosure as it was.
pub proof fn lemma_claim_bounty_keeps_disclosure(ctx: ClaimBounty)
    ensures
        claim_bounty_outcome(ctx) matches Ok(after) ==> after.disclosure == ctx.disclosure,
{
}

/// A revealed disclosure is final: nothing acknowledges, resolves, adopts
/// or reveals it again.
pub proof fn lemma_revealed_is_final(
    claim: ClaimDisclosure,
    acknowledge: AcknowledgeDisclosure,
    resolve: ResolveDisclosure,
    reveal: RevealProof,
    payment_hash: [u8; 32],
    res_type: u8,
    plaintext: Vec<u8>,
    now: i64,
    digest: Seq<u8>,
)
    ensures
        claim.disclosure.status == DisclosureStatus::Revealed ==> claim_outcome(claim) is Err,
        acknowledge.disclosure.status == DisclosureStatus::Revealed ==> acknowledge_outcome(
            acknowledge,
            now,
        ) is Err,
        resolve.disclosure.status == DisclosureStatus::Revealed ==> resolve_outcome(
            resolve,
            payment_hash,
            res_type,
            now,
        ) is Err,
        reveal.disclosure.status == DisclosureStatus::Revealed ==> reveal_outcome(
            reveal,
            plaintext,
            now,
            digest,
        ) is Err,
{
}

/// Once the hacker may reveal (right caller, not yet revealed, plaintext
/// that fits, a deadline that is a valid time and has passed), the reveal
/// succeeds exactly when the
/// plaintext's commitment is the committed hash, and otherwise fails as a
/// mismatch.
pub proof fn lemma_reveal_iff_commitment(ctx: RevealProof, plaintext: Vec<u8>, now: i64)
    requires
        ctx.disclosure.hacker@ == ctx.hacker@,
        ctx.disclosure.status != DisclosureStatus::Revealed,
        plaintext@.len() <= MAX_PLAINTEXT_PROOF,
        i64::MIN <= ctx.disclosure@.deadline() <= now,
    ensures
        reveal_outcome(ctx, plaintext, now, spec_commit(plaintext@)) is Ok <==> spec_commit(
            plaintext@,
        ) == ctx.disclosure.proof_hash@,
        reveal_outcome(ctx, plaintext, now, spec_commit(plaintext@)) is Err ==> reveal_outcome(
            ctx,
            plaintext,
            now,
            spec_commit(plaintext@),
        ) == Err::<RevealProof, ProofOfHackError>(ProofOfHackError::ProofHashMismatch),
{
}

/// A reveal never succeeds with a plaintext whose commitment differs from
/// the committed hash, whatever else holds.
pub proof fn lemma_reveal_needs_commitment(ctx: RevealProof, plaintext: Vec<u8>, now: i64)
    ensures
        reveal_outcome(ctx, plaintext, now, spec_commit(plaintext@)) is Ok ==> spec_commit(
            plaintext@,
        ) == ctx.disclosure.proof_hash@,
{
}

/// A bounty is paid at most once for a disclosure and a vault: while the
/// receipt exists no claim succeeds, and a claim made right after a
/// successful one fails as already claimed.
pub proof fn lemma_bounty_paid_once(ctx: ClaimBounty)
    ensures
        ctx.claim is Some ==> claim_bounty_outcome(ctx) is Err,
        claim_bounty_outcome(ctx) matches Ok(after) ==> after.claim is Some && claim_bounty_outcome(
            after,
        ) == Err::<ClaimBounty, ProofOfHackError>(ProofOfHackError::BountyAlreadyClaimed),
{
}

/// A successful claim pays exactly the vault's rate for the disclosure's
/// severity, out of funds the vault had.
pub proof fn lemma_bounty_pays_rate(ctx: ClaimBounty)
    ensures
        claim_bounty_outcome(ctx) matches Ok(after) ==> after.vault@.total_paid
            == ctx.vault@.total_paid + ctx.vault@.rates[ctx.disclosure@.severity]
            && after.vault@.total_deposited == ctx.vault@.total_deposited
            && after.vault@.rates == ctx.vault@.rates
            && ctx.vault@.rates[ctx.disclosure@.severity] <= ctx.vault@.available(),
{
}

/// No operation on a vault lets what it paid exceed what was deposited.
pub proof fn lemma_vault_never_overpays(
    fund: FundBounty,
    claim: ClaimBounty,
    deactivate: DeactivateBounty,
    withdraw: WithdrawBounty,
    amount: u64,
)
    ensures
        fund.vault.wf() ==> (fund_outcome(fund, amount) matches Ok(after) ==> after.vault.wf()),
        claim_bounty_outcome(claim) matches Ok(after) ==> after.vault.wf(),
        deactivate.vault.wf() ==> (deactivate_outcome(deactivate) matches Ok(after)
            ==> after.vault.wf()),
        withdraw_outcome(withdraw, amount) matches Ok(after) ==> after.vault.wf(),
{
}

/// A withdrawal from a vault that is still active fails.
pub proof fn lemma_withdraw_needs_inactive(ctx: WithdrawBounty, amount: u64)
    ensures
        ctx.vault.active ==> withdraw_outcome(ctx, amount) is Err,
        withdraw_outcome(ctx, amount) is Ok ==> !ctx.vault.active,
{
}

/// A frozen vault stays frozen: no operation on a vault sets it active.
pub proof fn lemma_inactive_stays_inactive(
    fund: FundBounty,
    claim: ClaimBounty,
    deactivate: DeactivateBounty,
    withdraw: WithdrawBounty,
    amount: u64,
)
    ensures
        !fund.vault.active ==> fund_outcome(fund, amount) is Err,
        !claim.vault.active ==> claim_bounty_outcome(claim) is Err,
        deactivate_outcome(deactivate) matches Ok(after) ==> !after.vault.active,
        withdraw_outcome(withdraw, amount) matches Ok(after) ==> !after.vault.active,
{
}

/// A proposal leaves the authority in control and records the candidate.
pub proof fn lemma_transfer_records_candidate(ctx: TransferAuthority)
    ensures
        transfer_outcome(ctx) matches Ok(after) ==> after.protocol@.authority
            == ctx.protocol@.authority && after.protocol@.pending_authority == Some(
            ctx.new_authority@,
        ) && (ctx.protocol.wf() ==> after.protocol.wf()),
{
}

/// Accepting hands control to the pending authority, which is never the
/// null identity, and clears the pending slot.
pub proof fn lemma_accept_hands_over(ctx: AcceptAuthority)
    ensures
        accept_outcome(ctx) matches Ok(after) ==> ctx.protocol@.pending_authority == Some(
            ctx.new_authority@,
        ) && after.protocol@.authority == ctx.new_authority@ && after.protocol@.pending_authority
            is None && after.protocol@.authority != crate::identity::null_bytes() && (
        ctx.protocol.wf() ==> after.protocol.wf()),
{
    crate::identity::Identity::lemma_null_identity(ctx.protocol.pending_authority);
}

/// After a proposal, only the proposed identity can accept: anyone else is
/// refused, and the proposed identity becomes the authority.
pub proof fn lemma_only_candidate_accepts(ctx: TransferAuthority, caller: crate::identity::Identity)
    ensures
        transfer_outcome(ctx) matches Ok(proposed) ==> {
            let accept = AcceptAuthority { protocol: proposed.protocol, new_authority: caller };
            if caller@ == ctx.new_authority@ {
                accept_outcome(accept) matches Ok(after) && after.protocol@.authority == caller@
                    && after.protocol@.pending_authority is None
            } else {
                accept_outcome(accept) == Err::<AcceptAuthority, ProofOfHackError>(
                    ProofOfHackError::UnauthorizedProtocolAction,
                )
            }
        },
{
    crate::identity::Identity::lemma_null_identity(ctx.new_authority);
}

/// Rotating the key changes nothing else about the protocol.
pub proof fn lemma_key_rotation_changes_only_key(ctx: UpdateEncryptionKey, new_key: [u8; 32])
    ensures
        update_key_outcome(ctx, new_key) matches Ok(after) ==> after.protocol@ == (ProtocolModel {
            encryption_key: new_key@,
            ..ctx.protocol@
        }),
{
}

/// A submission that succeeds respects the global bounds and the minimum
/// that the protocol's settings impose, whether or not the hacker linked
/// the report to the protocol.
pub proof fn lemma_submission_respects_minimum(
    ctx: SubmitDisclosure,
    governing_protocol: Option<Seq<u8>>,
    floor: Result<i64, ProofOfHackError>,
    proof_hash: [u8; 32],
    encrypted_proof: Vec<u8>,
    sender_encryption_key: [u8; 32],
    sev: u8,
    grace_period: i64,
    nonce: u64,
    now: i64,
)
    ensures
        submit_outcome(
            ctx,
            governing_protocol,
            floor,
            proof_hash,
            encrypted_proof,
            sender_encryption_key,
            sev,
            grace_period,
            nonce,
            now,
        ) matches Ok(d) ==> d.wf() && d@.status == DisclosureStatus::Submitted && d@.grace_period
            == grace_period && (floor matches Ok(min) && (min > 0 ==> grace_period >= min)) && (
        d@.protocol matches Some(p) ==> governing_protocol == Some(p)) && (encrypted_proof@.len()
            == 0 || encrypted_proof@.len() >= 48),
{
}

} // verus!
