use crate::errors::ProofOfHackError;
use crate::identity::Identity;
use crate::state::BountyVault;
use vstd::prelude::*;

verus! {

/// What a deposit names: the vault and whoever pays in.
#[derive(Clone, Copy, Debug)]
pub struct FundBounty {
    pub vault: BountyVault,
    pub funder: Identity,
}

/// What a deposit does: the new state of the accounts, or the first check
/// that failed.
pub open spec fn fund_outcome(ctx: FundBounty, amount: u64) -> Result<FundBounty, ProofOfHackError> {
    if !ctx.vault.active {
        Err(ProofOfHackError::VaultNotActive)
    } else if ctx.vault.total_deposited + amount > u64::MAX {
        Err(ProofOfHackError::BountyOverflow)
    } else {
        Ok(
            FundBounty {
                vault: BountyVault {
                    total_deposited: (ctx.vault.total_deposited + amount) as u64,
                    ..ctx.vault
                },
                ..ctx
            },
        )
    }
}

/// Adds `amount`, which the funder transfers in, to an active vault. Anyone
/// may fund a vault. On failure nothing changes.
pub fn handler(ctx: &mut FundBounty, amount: u64) -> (r: Result<(), ProofOfHackError>)
    ensures
        fund_outcome(*old(ctx), amount) == match r {
            Ok(()) => Ok::<FundBounty, ProofOfHackError>(*final(ctx)),
            Err(e) => Err(e),
        },
        r is Err ==> *final(ctx) == *old(ctx),
        old(ctx).vault.wf() ==> final(ctx).vault.wf(),
{
    if !ctx.vault.active {
        return Err(ProofOfHackError::VaultNotActive);
    }
    let total = match ctx.vault.total_deposited.checked_add(amount) {
        Some(t) => t,
        None => {
            return Err(ProofOfHackError::BountyOverflow);
        },
    };
    ctx.vault.total_deposited = total;
    Ok(())
}

} // verus!
