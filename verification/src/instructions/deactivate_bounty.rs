use crate::errors::ProofOfHackError;
use crate::identity::Identity;
use crate::state::{BountyVault, Protocol};
use vstd::prelude::*;

verus! {

/// What freezing a vault names: the vault, its protocol, where the protocol
/// is stored, and the caller.
#[derive(Clone, Debug)]
pub struct DeactivateBounty {
    pub vault: BountyVault,
    pub protocol: Protocol,
    /// Address of the protocol record.
    pub protocol_key: Identity,
    pub authority: Identity,
}

/// What freezing a vault does: the new state of the accounts, or the first
/// check that failed.
pub open spec fn deactivate_outcome(ctx: DeactivateBounty) -> Result<
    DeactivateBounty,
    ProofOfHackError,
> {
    if ctx.vault.protocol@ != ctx.protocol_key@ {
        Err(ProofOfHackError::ProtocolMismatch)
    } else if ctx.protocol.authority@ != ctx.authority@ {
        Err(ProofOfHackError::UnauthorizedVaultAction)
    } else if !ctx.vault.active {
        Err(ProofOfHackError::VaultAlreadyInactive)
    } else {
        Ok(DeactivateBounty { vault: BountyVault { active: false, ..ctx.vault }, ..ctx })
    }
}

/// Freezes a vault: it takes no more deposits and pays no more claims, and
/// its funds can be withdrawn. Only the protocol's authority may do so. On
/// failure nothing changes.
pub fn handler(ctx: &mut DeactivateBounty) -> (r: Result<(), ProofOfHackError>)
    ensures
        deactivate_outcome(*old(ctx)) == match r {
            Ok(()) => Ok::<DeactivateBounty, ProofOfHackError>(*final(ctx)),
            Err(e) => Err(e),
        },
        r is Err ==> *final(ctx) == *old(ctx),
        old(ctx).vault.wf() ==> final(ctx).vault.wf(),
{
    if ctx.vault.protocol != ctx.protocol_key {
        return Err(ProofOfHackError::ProtocolMismatch);
    }
    if ctx.protocol.authority != ctx.authority {
        return Err(ProofOfHackError::UnauthorizedVaultAction);
    }
    if !ctx.vault.active {
        return Err(ProofOfHackError::VaultAlreadyInactive);
    }
    ctx.vault.active = false;
    Ok(())
}

} // verus!
