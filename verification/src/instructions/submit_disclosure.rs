use crate::address::{
    address_view, derive_config_address, derive_protocol_address, spec_config_address,
    spec_protocol_address,
};
use crate::errors::ProofOfHackError;
use crate::identity::Identity;
use crate::state::{AccountRecord, Disclosure, DisclosureStatus, ProtocolConfig, ResolutionType, Severity};
use vstd::prelude::*;

verus! {

/// Shortest grace period any disclosure may ask for, in seconds.
pub const MIN_GRACE_PERIOD: i64 = 60;

/// Longest grace period: one year.
pub const MAX_GRACE_PERIOD: i64 = 31_536_000;

/// The customary grace period: seven days.
pub const DEFAULT_GRACE_PERIOD: i64 = 604800;

/// Longest encrypted payload.
pub const MAX_ENCRYPTED_PROOF: usize = 1024;

/// Shortest non-empty encrypted payload: a 24-byte nonce, a 16-byte
/// authentication tag and eight bytes of content.
pub const MIN_ENCRYPTED_PROOF: usize = 48;

/// What a submission names.
#[derive(Clone, Copy, Debug)]
pub struct SubmitDisclosure {
    pub hacker: Identity,
    pub target_program: Identity,
    /// Whether the target is a deployed, executable program.
    pub target_executable: bool,
    /// Address of the protocol record the hacker links the report to; the
    /// null identity for none.
    pub protocol: Identity,
    /// Bump of the address at which the new disclosure is stored.
    pub bump: u8,
}

/// Whether `account` is the live settings record at `config_address`.
pub open spec fn is_config_account(
    account: AccountRecord,
    config_address: Option<Seq<u8>>,
    program_id: Seq<u8>,
) -> bool {
    config_address == Some(account.key@) && account.owner@ == program_id && account.data@.len() > 0
}

/// Index of the first settings record among `accounts` at or after `from`.
pub open spec fn first_config_from(
    accounts: Seq<AccountRecord>,
    config_address: Option<Seq<u8>>,
    program_id: Seq<u8>,
    from: int,
) -> Option<int>
    decreases accounts.len() - from,
{
    if from < 0 || from >= accounts.len() {
        None
    } else if is_config_account(accounts[from], config_address, program_id) {
        Some(from)
    } else {
        first_config_from(accounts, config_address, program_id, from + 1)
    }
}

/// The minimum grace period that the protocol's settings impose: zero where
/// no settings record is among `accounts`, an error where the first one
/// cannot be read.
pub open spec fn policy_floor(
    accounts: Seq<AccountRecord>,
    config_address: Option<Seq<u8>>,
    program_id: Seq<u8>,
) -> Result<i64, ProofOfHackError> {
    match first_config_from(accounts, config_address, program_id, 0) {
        None => Ok(0i64),
        Some(i) => if ProtocolConfig::spec_well_formed(accounts[i].data@) {
            Ok(ProtocolConfig::spec_min_grace_period(accounts[i].data@))
        } else {
            Err(ProofOfHackError::InvalidProtocolConfig)
        },
    }
}

/// Looks among `accounts` for the settings record at `config_address` and
/// reads the minimum grace period from the first one found.
pub fn find_policy_floor(
    accounts: &Vec<AccountRecord>,
    config_address: &Option<Identity>,
    program_id: &Identity,
) -> (r: Result<i64, ProofOfHackError>)
    ensures
        r == policy_floor(accounts@, address_view(*config_address), program_id@),
{
    let address = match config_address {
        Some(a) => *a,
        None => {
            proof {
                lemma_no_address_no_config(accounts@, program_id@, 0);
            }
            return Ok(0);
        },
    };
    let ghost target = address_view(*config_address);
    let mut i: usize = 0;
    while i < accounts.len()
        invariant
            i <= accounts.len(),
            target == Some(address@),
            target == address_view(*config_address),
            first_config_from(accounts@, target, program_id@, 0) == first_config_from(
                accounts@,
                target,
                program_id@,
                i as int,
            ),
        decreases accounts.len() - i,
    {
        let account = &accounts[i];
        if account.key == address && account.owner == *program_id && account.data.len() > 0 {
            assert(is_config_account(accounts@[i as int], target, program_id@));
            assert(first_config_from(accounts@, target, program_id@, i as int) == Some(i as int));
            let parsed = ProtocolConfig::try_deserialize(account.data.as_slice());
            return match parsed {
                Some(config) => Ok(config.min_grace_period),
                None => Err(ProofOfHackError::InvalidProtocolConfig),
            };
        }
        i += 1;
    }
    Ok(0)
}

/// With no settings address, no account is a settings record.
pub proof fn lemma_no_address_no_config(
    accounts: Seq<AccountRecord>,
    program_id: Seq<u8>,
    from: int,
)
    ensures
        first_config_from(accounts, None, program_id, from) is None,
    decreases accounts.len() - from,
{
    if 0 <= from < accounts.len() {
        lemma_no_address_no_config(accounts, program_id, from + 1);
    }
}

/// The record that a successful submission creates.
pub open spec fn new_disclosure(
    ctx: SubmitDisclosure,
    proof_hash: [u8; 32],
    encrypted_proof: Vec<u8>,
    sender_encryption_key: [u8; 32],
    severity: Severity,
    grace_period: i64,
    nonce: u64,
    now: i64,
) -> Disclosure {
    Disclosure {
        hacker: ctx.hacker,
        protocol: ctx.protocol,
        target_program: ctx.target_program,
        proof_hash,
        encrypted_proof,
        sender_encryption_key,
        severity,
        status: DisclosureStatus::Submitted,
        resolution_type: ResolutionType::Unresolved,
        payment_hash: vstd::array::spec_array_fill_for_copy_type::<u8, 32>(0u8),
        submitted_at: now,
        acknowledged_at: 0,
        resolved_at: 0,
        grace_period,
        nonce,
        bump: ctx.bump,
    }
}

/// What a submission does, given the address of the protocol that governs
/// the target and the minimum that this protocol's settings impose: the new
/// disclosure, or the first check that failed.
pub open spec fn submit_outcome(
    ctx: SubmitDisclosure,
    governing_protocol: Option<Seq<u8>>,
    floor: Result<i64, ProofOfHackError>,
    proof_hash: [u8; 32],
    encrypted_proof: Vec<u8>,
    sender_encryption_key: [u8; 32],
    sev: u8,
    grace_period: i64,
    nonce: u64,
    now: i64,
) -> Result<Disclosure, ProofOfHackError> {
    if !ctx.target_executable {
        Err(ProofOfHackError::InvalidTargetProgram)
    } else if Severity::spec_from_u8(sev) is None {
        Err(ProofOfHackError::InvalidSeverity)
    } else if grace_period < MIN_GRACE_PERIOD {
        Err(ProofOfHackError::GracePeriodTooShort)
    } else if grace_period > MAX_GRACE_PERIOD {
        Err(ProofOfHackError::GracePeriodTooLong)
    } else if encrypted_proof@.len() > MAX_ENCRYPTED_PROOF {
        Err(ProofOfHackError::EncryptedProofTooLarge)
    } else if 0 < encrypted_proof@.len() < MIN_ENCRYPTED_PROOF {
        Err(ProofOfHackError::EncryptedProofTooSmall)
    } else if floor is Err {
        Err(floor->Err_0)
    } else if floor->Ok_0 > 0 && grace_period < floor->Ok_0 {
        Err(ProofOfHackError::GracePeriodBelowProtocolMinimum)
    } else if !ctx.protocol.is_null_spec() && governing_protocol != Some(ctx.protocol@) {
        Err(ProofOfHackError::ProtocolMismatch)
    } else {
        Ok(
            new_disclosure(
                ctx,
                proof_hash,
                encrypted_proof,
                sender_encryption_key,
                Severity::spec_from_u8(sev)->0,
                grace_period,
                nonce,
                now,
            ),
        )
    }
}

/// Submits a disclosure, given the two addresses derived from the target:
/// that of its governing protocol and that of the protocol's settings.
pub fn submit_with_addresses(
    ctx: &SubmitDisclosure,
    program_id: &Identity,
    remaining_accounts: &Vec<AccountRecord>,
    governing_protocol: &Option<Identity>,
    config_address: &Option<Identity>,
    proof_hash: [u8; 32],
    encrypted_proof: Vec<u8>,
    sender_encryption_key: [u8; 32],
    sev: u8,
    grace_period: i64,
    nonce: u64,
    now: i64,
) -> (r: Result<Disclosure, ProofOfHackError>)
    ensures
        r == submit_outcome(
            *ctx,
            address_view(*governing_protocol),
            policy_floor(remaining_accounts@, address_view(*config_address), program_id@),
            proof_hash,
            encrypted_proof,
            sender_encryption_key,
            sev,
            grace_period,
            nonce,
            now,
        ),
        r matches Ok(d) ==> d.wf(),
{
    if !ctx.target_executable {
        return Err(ProofOfHackError::InvalidTargetProgram);
    }
    let severity = match Severity::from_u8(sev) {
        Some(s) => s,
        None => {
            return Err(ProofOfHackError::InvalidSeverity);
        },
    };
    if grace_period < MIN_GRACE_PERIOD {
        return Err(ProofOfHackError::GracePeriodTooShort);
    }
    if grace_period > MAX_GRACE_PERIOD {
        return Err(ProofOfHackError::GracePeriodTooLong);
    }
    if encrypted_proof.len() > MAX_ENCRYPTED_PROOF {
        return Err(ProofOfHackError::EncryptedProofTooLarge);
    }
    if encrypted_proof.len() > 0 && encrypted_proof.len() < MIN_ENCRYPTED_PROOF {
        return Err(ProofOfHackError::EncryptedProofTooSmall);
    }
    let min = match find_policy_floor(remaining_accounts, config_address, program_id) {
        Ok(min) => min,
        Err(e) => {
            return Err(e);
        },
    };
    if min > 0 && grace_period < min {
        return Err(ProofOfHackError::GracePeriodBelowProtocolMinimum);
    }
    if !ctx.protocol.is_null() {
        let linked = match governing_protocol {
            Some(p) => *p == ctx.protocol,
            None => false,
        };
        if !linked {
            return Err(ProofOfHackError::ProtocolMismatch);
        }
    }
    Ok(
        Disclosure {
            hacker: ctx.hacker,
            protocol: ctx.protocol,
            target_program: ctx.target_program,
            proof_hash,
            encrypted_proof,
            sender_encryption_key,
            severity,
            status: DisclosureStatus::Submitted,
            resolution_type: ResolutionType::Unresolved,
            payment_hash: [0u8; 32],
            submitted_at: now,
            acknowledged_at: 0,
            resolved_at: 0,
            grace_period,
            nonce,
            bump: ctx.bump,
        },
    )
}

/// Address of the settings of the protocol that governs `target`, if both
/// derivations succeed.
pub open spec fn spec_governing_config(target: Seq<u8>, program_id: Seq<u8>) -> Option<Seq<u8>> {
    match spec_protocol_address(target, program_id) {
        Some(p) => spec_config_address(p, program_id),
        None => None,
    }
}

/// Submits a disclosure against `ctx.target_program`.
///
/// The protocol that governs the target is derived from the target alone, so
/// its settings bind the submission whether or not the hacker links the
/// report to it. `remaining_accounts` are the records the caller passed
/// along; `now` is the current time.
pub fn handler(
    ctx: &SubmitDisclosure,
    program_id: &Identity,
    remaining_accounts: &Vec<AccountRecord>,
    proof_hash: [u8; 32],
    encrypted_proof: Vec<u8>,
    sender_encryption_key: [u8; 32],
    sev: u8,
    grace_period: i64,
    nonce: u64,
    now: i64,
) -> (r: Result<Disclosure, ProofOfHackError>)
    ensures
        r == submit_outcome(
            *ctx,
            spec_protocol_address(ctx.target_program@, program_id@),
            policy_floor(
                remaining_accounts@,
                spec_governing_config(ctx.target_program@, program_id@),
                program_id@,
            ),
            proof_hash,
            encrypted_proof,
            sender_encryption_key,
            sev,
            grace_period,
            nonce,
            now,
        ),
        r matches Ok(d) ==> d.wf(),
{
    let governing_protocol = derive_protocol_address(&ctx.target_program, program_id);
    let config_address = match &governing_protocol {
        Some(p) => derive_config_address(p, program_id),
        None => None,
    };
    submit_with_addresses(
        ctx,
        program_id,
        remaining_accounts,
        &governing_protocol,
        &config_address,
        proof_hash,
        encrypted_proof,
        sender_encryption_key,
        sev,
        grace_period,
        nonce,
        now,
    )
}

} // verus!
