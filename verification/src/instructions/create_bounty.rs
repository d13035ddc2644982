use crate::errors::ProofOfHackError;
use crate::identity::Identity;
use crate::state::{BountyVault, Protocol};
use vstd::prelude::*;

verus! {

/// What creating a vault names: the protocol, where it is stored, and the
/// caller.
#[derive(Clone, Debug)]
pub struct CreateBounty {
    pub protocol: Protocol,
    /// Address of the protocol record.
    pub protocol_key: Identity,
    pub authority: Identity,
    /// Bump of the address at which the vault is stored.
    pub bump: u8,
}

/// What creating a vault does: the new vault, or the check that failed.
pub open spec fn create_bounty_outcome(
    ctx: CreateBounty,
    low: u64,
    medium: u64,
    high: u64,
    critical: u64,
    deposit: u64,
    now: i64,
) -> Result<BountyVault, ProofOfHackError> {
    if ctx.protocol.authority@ != ctx.authority@ {
        Err(ProofOfHackError::UnauthorizedVaultAction)
    } else {
        Ok(
            BountyVault {
                protocol: ctx.protocol_key,
                low_bounty: low,
                medium_bounty: medium,
                high_bounty: high,
                critical_bounty: critical,
                total_deposited: deposit,
                total_paid: 0,
                active: true,
                created_at: now,
                bump: ctx.bump,
            },
        )
    }
}

/// Creates the bounty vault of a protocol with one payout rate per severity
/// and a first deposit, which the caller transfers into it. Only the
/// protocol's authority may do so. The new vault is active and has paid
/// nothing.
pub fn handler(
    ctx: &CreateBounty,
    low: u64,
    medium: u64,
    high: u64,
    critical: u64,
    deposit: u64,
    now: i64,
) -> (r: Result<BountyVault, ProofOfHackError>)
    ensures
        r == create_bounty_outcome(*ctx, low, medium, high, critical, deposit, now),
        r matches Ok(v) ==> v.wf(),
{
    if ctx.protocol.authority != ctx.authority {
        return Err(ProofOfHackError::UnauthorizedVaultAction);
    }
    Ok(
        BountyVault {
            protocol: ctx.protocol_key,
            low_bounty: low,
            medium_bounty: medium,
            high_bounty: high,
            critical_bounty: critical,
            total_deposited: deposit,
            total_paid: 0,
            active: true,
            created_at: now,
            bump: ctx.bump,
        },
    )
}

} // verus!
