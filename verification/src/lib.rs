pub mod address;
pub mod codec;
pub mod commitment;
pub mod errors;
pub mod identity;
pub mod instructions;
pub mod laws;
pub mod state;

use crate::address::spec_protocol_address;
use crate::address::spec_program_data_address;
use crate::commitment::spec_commit;
use crate::errors::ProofOfHackError;
use crate::identity::Identity;
use crate::instructions::accept_authority::{accept_outcome, AcceptAuthority};
use crate::instructions::acknowledge_disclosure::{acknowledge_outcome, AcknowledgeDisclosure};
use crate::instructions::claim_bounty_reward::{claim_bounty_outcome, ClaimBounty};
use crate::instructions::claim_disclosure::{claim_outcome, ClaimDisclosure};
use crate::instructions::create_bounty::{create_bounty_outcome, CreateBounty};
use crate::instructions::create_protocol_config::{create_config_outcome, CreateProtocolConfig};
use crate::instructions::deactivate_bounty::{deactivate_outcome, DeactivateBounty};
use crate::instructions::fund_bounty::{fund_outcome, FundBounty};
use crate::instructions::register_protocol::{register_outcome, RegisterProtocol};
use crate::instructions::resolve_disclosure::{resolve_outcome, ResolveDisclosure};
use crate::instructions::reveal_proof::{reveal_outcome, RevealProof};
use crate::instructions::submit_disclosure::{
    policy_floor, spec_governing_config, submit_outcome, SubmitDisclosure,
};
use crate::instructions::transfer_authority::{transfer_outcome, TransferAuthority};
use crate::instructions::update_encryption_key::{update_key_outcome, UpdateEncryptionKey};
use crate::instructions::update_protocol_config::{update_config_outcome, UpdateProtocolConfig};
use crate::instructions::withdraw_bounty::{withdraw_outcome, WithdrawBounty};
use crate::state::{AccountRecord, BountyVault, Disclosure, Protocol, ProtocolConfig};
use vstd::prelude::*;

verus! {

/// Registers a protocol with its encryption key. The caller must be the
/// upgrade authority of the target program.
pub fn register_protocol(
    ctx: &RegisterProtocol,
    program_address: Identity,
    name: String,
    encryption_key: [u8; 32],
    now: i64,
) -> (r: Result<Protocol, ProofOfHackError>)
    ensures
        r == register_outcome(
            *ctx,
            spec_program_data_address(program_address@),
            program_address,
            name,
            encryption_key,
            now,
        ),
        r matches Ok(p) ==> p.pending_authority.is_null_spec(),
        r matches Ok(p) ==> (p.wf() <==> !ctx.authority.is_null_spec()),
{
    instructions::register_protocol::handler(ctx, program_address, name, encryption_key, now)
}

/// Submits a vulnerability disclosure with its commitment and encrypted
/// payload.
pub fn submit_disclosure(
    ctx: &SubmitDisclosure,
    program_id: &Identity,
    remaining_accounts: &Vec<AccountRecord>,
    proof_hash: [u8; 32],
    encrypted_proof: Vec<u8>,
    sender_encryption_key: [u8; 32],
    severity: u8,
    grace_period: i64,
    nonce: u64,
    now: i64,
) -> (r: Result<Disclosure, ProofOfHackError>)
    ensures
        r == submit_outcome(
            *ctx,
            spec_protocol_address(ctx.target_program@, program_id@),
            policy_floor(
                remaining_accounts@,
                spec_governing_config(ctx.target_program@, program_id@),
                program_id@,
            ),
            proof_hash,
            encrypted_proof,
            sender_encryption_key,
            severity,
            grace_period,
            nonce,
            now,
        ),
        r matches Ok(d) ==> d.wf(),
{
    instructions::submit_disclosure::handler(
        ctx,
        program_id,
        remaining_accounts,
        proof_hash,
        encrypted_proof,
        sender_encryption_key,
        severity,
        grace_period,
        nonce,
        now,
    )
}

/// The protocol acknowledges receipt of a disclosure.
pub fn acknowledge_disclosure(ctx: &mut AcknowledgeDisclosure, now: i64) -> (r: Result<
    (),
    ProofOfHackError,
>)
    ensures
        acknowledge_outcome(*old(ctx), now) == match r {
            Ok(()) => Ok::<AcknowledgeDisclosure, ProofOfHackError>(*final(ctx)),
            Err(e) => Err(e),
        },
        r is Err ==> *final(ctx) == *old(ctx),
        old(ctx).disclosure@.steps_to(final(ctx).disclosure@),
{
    instructions::acknowledge_disclosure::handler(ctx, now)
}

/// The protocol resolves a disclosure and records how, with a reference to
/// the payment.
pub fn resolve_disclosure(
    ctx: &mut ResolveDisclosure,
    payment_hash: [u8; 32],
    resolution_type: u8,
    now: i64,
) -> (r: Result<(), ProofOfHackError>)
    ensures
        resolve_outcome(*old(ctx), payment_hash, resolution_type, now) == match r {
            Ok(()) => Ok::<ResolveDisclosure, ProofOfHackError>(*final(ctx)),
            Err(e) => Err(e),
        },
        r is Err ==> *final(ctx) == *old(ctx),
        old(ctx).disclosure@.steps_to(final(ctx).disclosure@),
{
    instructions::resolve_disclosure::handler(ctx, payment_hash, resolution_type, now)
}

/// The hacker publishes the plaintext after the grace period. This stays
/// possible after a resolution: the right to publish is unconditional.
pub fn reveal_proof(ctx: &mut RevealProof, plaintext_proof: Vec<u8>, now: i64) -> (r: Result<
    (),
    ProofOfHackError,
>)
    ensures
        reveal_outcome(*old(ctx), plaintext_proof, now, spec_commit(plaintext_proof@)) == match r {
            Ok(()) => Ok::<RevealProof, ProofOfHackError>(*final(ctx)),
            Err(e) => Err(e),
        },
        r is Err ==> *final(ctx) == *old(ctx),
        old(ctx).disclosure@.steps_to(final(ctx).disclosure@),
{
    instructions::reveal_proof::handler(ctx, plaintext_proof, now)
}

/// A protocol adopts a disclosure that was submitted before it registered.
pub fn claim_disclosure(ctx: &mut ClaimDisclosure) -> (r: Result<(), ProofOfHackError>)
    ensures
        claim_outcome(*old(ctx)) == match r {
            Ok(()) => Ok::<ClaimDisclosure, ProofOfHackError>(*final(ctx)),
            Err(e) => Err(e),
        },
        r is Err ==> *final(ctx) == *old(ctx),
        old(ctx).disclosure@.steps_to(final(ctx).disclosure@),
{
    instructions::claim_disclosure::handler(ctx)
}

/// Creates a protocol's bounty vault with one payout rate per severity.
pub fn create_bounty(
    ctx: &CreateBounty,
    low: u64,
    medium: u64,
    high: u64,
    critical: u64,
    deposit: u64,
    now: i64,
) -> (r: Result<BountyVault, ProofOfHackError>)
    ensures
        r == create_bounty_outcome(*ctx, low, medium, high, critical, deposit, now),
        r matches Ok(v) ==> v.wf(),
{
    instructions::create_bounty::handler(ctx, low, medium, high, critical, deposit, now)
}

/// Adds funds to an active bounty vault.
pub fn fund_bounty(ctx: &mut FundBounty, amount: u64) -> (r: Result<(), ProofOfHackError>)
    ensures
        fund_outcome(*old(ctx), amount) == match r {
            Ok(()) => Ok::<FundBounty, ProofOfHackError>(*final(ctx)),
            Err(e) => Err(e),
        },
        r is Err ==> *final(ctx) == *old(ctx),
        old(ctx).vault.wf() ==> final(ctx).vault.wf(),
{
    instructions::fund_bounty::handler(ctx, amount)
}

/// The hacker claims the bounty of a resolved disclosure; the result is the
/// amount owed.
pub fn claim_bounty(ctx: &mut ClaimBounty) -> (r: Result<u64, ProofOfHackError>)
    ensures
        claim_bounty_outcome(*old(ctx)) == match r {
            Ok(paid) => Ok::<ClaimBounty, ProofOfHackError>(*final(ctx)),
            Err(e) => Err(e),
        },
        r matches Ok(paid) ==> paid == old(ctx).vault.spec_rate(old(ctx).disclosure.severity),
        r is Err ==> *final(ctx) == *old(ctx),
        old(ctx).disclosure@.steps_to(final(ctx).disclosure@),
        old(ctx).vault.wf() ==> final(ctx).vault.wf(),
{
    instructions::claim_bounty_reward::handler(ctx)
}

/// Creates a protocol's settings.
pub fn create_protocol_config(ctx: &CreateProtocolConfig, min_grace_period: i64) -> (r: Result<
    ProtocolConfig,
    ProofOfHackError,
>)
    ensures
        r == create_config_outcome(*ctx, min_grace_period),
{
    instructions::create_protocol_config::handler(ctx, min_grace_period)
}

/// Updates a protocol's existing settings.
pub fn update_protocol_config(ctx: &mut UpdateProtocolConfig, min_grace_period: i64) -> (r: Result<
    (),
    ProofOfHackError,
>)
    ensures
        update_config_outcome(*old(ctx), min_grace_period) == match r {
            Ok(()) => Ok::<UpdateProtocolConfig, ProofOfHackError>(*final(ctx)),
            Err(e) => Err(e),
        },
        r is Err ==> *final(ctx) == *old(ctx),
{
    instructions::update_protocol_config::handler(ctx, min_grace_period)
}

/// Freezes a bounty vault. Only the protocol's authority may do so.
pub fn deactivate_bounty(ctx: &mut DeactivateBounty) -> (r: Result<(), ProofOfHackError>)
    ensures
        deactivate_outcome(*old(ctx)) == match r {
            Ok(()) => Ok::<DeactivateBounty, ProofOfHackError>(*final(ctx)),
            Err(e) => Err(e),
        },
        r is Err ==> *final(ctx) == *old(ctx),
        old(ctx).vault.wf() ==> final(ctx).vault.wf(),
{
    instructions::deactivate_bounty::handler(ctx)
}

/// Proposes a new authority for a protocol; the candidate must accept.
pub fn transfer_authority(ctx: &mut TransferAuthority) -> (r: Result<(), ProofOfHackError>)
    ensures
        transfer_outcome(*old(ctx)) == match r {
            Ok(()) => Ok::<TransferAuthority, ProofOfHackError>(*final(ctx)),
            Err(e) => Err(e),
        },
        r is Err ==> *final(ctx) == *old(ctx),
        old(ctx).protocol.wf() ==> final(ctx).protocol.wf(),
{
    instructions::transfer_authority::handler(ctx)
}

/// Accepts a pending authority transfer. The caller must be the pending
/// authority.
pub fn accept_authority(ctx: &mut AcceptAuthority) -> (r: Result<(), ProofOfHackError>)
    ensures
        accept_outcome(*old(ctx)) == match r {
            Ok(()) => Ok::<AcceptAuthority, ProofOfHackError>(*final(ctx)),
            Err(e) => Err(e),
        },
        r is Err ==> *final(ctx) == *old(ctx),
        old(ctx).protocol.wf() ==> final(ctx).protocol.wf(),
{
    instructions::accept_authority::handler(ctx)
}

/// Withdraws funds from a frozen bounty vault.
pub fn withdraw_bounty(ctx: &mut WithdrawBounty, amount: u64) -> (r: Result<(), ProofOfHackError>)
    ensures
        withdraw_outcome(*old(ctx), amount) == match r {
            Ok(()) => Ok::<WithdrawBounty, ProofOfHackError>(*final(ctx)),
            Err(e) => Err(e),
        },
        r is Err ==> *final(ctx) == *old(ctx),
        r is Ok ==> !old(ctx).vault.active,
        old(ctx).vault.wf() ==> final(ctx).vault.wf(),
{
    instructions::withdraw_bounty::handler(ctx, amount)
}

/// Replaces a protocol's encryption key.
pub fn update_encryption_key(ctx: &mut UpdateEncryptionKey, new_key: [u8; 32]) -> (r: Result<
    (),
    ProofOfHackError,
>)
    ensures
        update_key_outcome(*old(ctx), new_key) == match r {
            Ok(()) => Ok::<UpdateEncryptionKey, ProofOfHackError>(*final(ctx)),
            Err(e) => Err(e),
        },
        r is Err ==> *final(ctx) == *old(ctx),
        old(ctx).protocol.wf() ==> final(ctx).protocol.wf(),
{
    instructions::update_encryption_key::handler(ctx, new_key)
}

} // verus!
