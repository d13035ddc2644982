use crate::errors::ProofOfHackError;
use crate::identity::Identity;
use crate::state::{BountyClaim, BountyVault, Disclosure, DisclosureStatus};
use vstd::prelude::*;

verus! {

/// What a bounty claim names: the disclosure, the vault, the receipt for
/// this pair if one exists, and the caller.
#[derive(Clone, Debug)]
pub struct ClaimBounty {
    pub disclosure: Disclosure,
    pub vault: BountyVault,
    /// The receipt for this disclosure and vault; `None` until a payout.
    pub claim: Option<BountyClaim>,
    pub hacker: Identity,
    /// Bump of the address at which a new receipt is stored.
    pub claim_bump: u8,
}

/// What a bounty claim does: the new state of the accounts, or the first
/// check that failed.
pub open spec fn claim_bounty_outcome(ctx: ClaimBounty) -> Result<ClaimBounty, ProofOfHackError> {
    if ctx.disclosure.hacker@ != ctx.hacker@ {
        Err(ProofOfHackError::UnauthorizedHackerAction)
    } else if ctx.disclosure.status != DisclosureStatus::Resolved {
        Err(ProofOfHackError::DisclosureNotResolved)
    } else if ctx.vault.protocol@ != ctx.disclosure.protocol@ {
        Err(ProofOfHackError::ProtocolMismatch)
    } else if !ctx.vault.active {
        Err(ProofOfHackError::VaultNotActive)
    } else if ctx.claim is Some {
        Err(ProofOfHackError::BountyAlreadyClaimed)
    } else if ctx.vault.total_paid > ctx.vault.total_deposited || ctx.vault.spec_rate(
        ctx.disclosure.severity,
    ) > ctx.vault.total_deposited - ctx.vault.total_paid {
        Err(ProofOfHackError::InsufficientVaultFunds)
    } else {
        Ok(
            ClaimBounty {
                vault: BountyVault {
                    total_paid: (ctx.vault.total_paid + ctx.vault.spec_rate(
                        ctx.disclosure.severity,
                    )) as u64,
                    ..ctx.vault
                },
                claim: Some(BountyClaim { bump: ctx.claim_bump }),
                ..ctx
            },
        )
    }
}

/// Pays the bounty of a resolved disclosure from its protocol's vault.
///
/// On success the result is the amount owed to the hacker, the vault's rate
/// for the disclosure's severity; the vault has paid that much more, and
/// the receipt now exists, so that no second claim for this pair can
/// succeed. On failure nothing changes.
pub fn handler(ctx: &mut ClaimBounty) -> (r: Result<u64, ProofOfHackError>)
    ensures
        claim_bounty_outcome(*old(ctx)) == match r {
            Ok(paid) => Ok::<ClaimBounty, ProofOfHackError>(*final(ctx)),
            Err(e) => Err(e),
        },
        r matches Ok(paid) ==> paid == old(ctx).vault.spec_rate(old(ctx).disclosure.severity),
        r is Err ==> *final(ctx) == *old(ctx),
        old(ctx).disclosure@.steps_to(final(ctx).disclosure@),
        r is Ok ==> old(ctx).claim is None && final(ctx).claim is Some,
        old(ctx).vault.wf() ==> final(ctx).vault.wf(),
{
    if ctx.disclosure.hacker != ctx.hacker {
        return Err(ProofOfHackError::UnauthorizedHackerAction);
    }
    match ctx.disclosure.status {
        DisclosureStatus::Resolved => {},
        _ => {
            return Err(ProofOfHackError::DisclosureNotResolved);
        },
    }
    if ctx.vault.protocol != ctx.disclosure.protocol {
        return Err(ProofOfHackError::ProtocolMismatch);
    }
    if !ctx.vault.active {
        return Err(ProofOfHackError::VaultNotActive);
    }
    if ctx.claim.is_some() {
        return Err(ProofOfHackError::BountyAlreadyClaimed);
    }
    let rate: u64 = ctx.vault.rate(ctx.disclosure.severity);
    if ctx.vault.total_paid > ctx.vault.total_deposited {
        return Err(ProofOfHackError::InsufficientVaultFunds);
    }
    if rate > ctx.vault.total_deposited - ctx.vault.total_paid {
        return Err(ProofOfHackError::InsufficientVaultFunds);
    }
    ctx.vault.total_paid = ctx.vault.total_paid + rate;
    ctx.claim = Some(BountyClaim { bump: ctx.claim_bump });
    Ok(rate)
}

} // verus!
