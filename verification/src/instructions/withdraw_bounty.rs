use crate::errors::ProofOfHackError;
use crate::identity::Identity;
use crate::state::{BountyVault, Protocol};
use vstd::prelude::*;

verus! {

/// What a withdrawal names: the vault, its protocol, where the protocol is
/// stored, and the caller.
#[derive(Clone, Debug)]
pub struct WithdrawBounty {
    pub vault: BountyVault,
    pub protocol: Protocol,
    /// Address of the protocol record.
    pub protocol_key: Identity,
    pub authority: Identity,
}

/// What a withdrawal does: the new state of the accounts, or the first
/// check that failed.
pub open spec fn withdraw_outcome(ctx: WithdrawBounty, amount: u64) -> Result<
    WithdrawBounty,
    ProofOfHackError,
> {
    if ctx.vault.protocol@ != ctx.protocol_key@ {
        Err(ProofOfHackError::ProtocolMismatch)
    } else if ctx.protocol.authority@ != ctx.authority@ {
        Err(ProofOfHackError::UnauthorizedVaultAction)
    } else if ctx.vault.active {
        Err(ProofOfHackError::VaultStillActive)
    } else if ctx.vault.total_paid > ctx.vault.total_deposited || amount
        > ctx.vault.total_deposited - ctx.vault.total_paid {
        Err(ProofOfHackError::InsufficientVaultFunds)
    } else {
        Ok(
            WithdrawBounty {
                vault: BountyVault {
                    total_deposited: (ctx.vault.total_deposited - amount) as u64,
                    ..ctx.vault
                },
                ..ctx
            },
        )
    }
}

/// Takes `amount` out of a frozen vault: on success the caller is owed a
/// transfer of `amount` from the vault, and the vault's deposits shrink by
/// as much. Only the protocol's authority may withdraw, only from a vault
/// that is no longer active, and no more than what has not been paid out.
/// On failure nothing changes.
pub fn handler(ctx: &mut WithdrawBounty, amount: u64) -> (r: Result<(), ProofOfHackError>)
    ensures
        withdraw_outcome(*old(ctx), amount) == match r {
            Ok(()) => Ok::<WithdrawBounty, ProofOfHackError>(*final(ctx)),
            Err(e) => Err(e),
        },
        r is Err ==> *final(ctx) == *old(ctx),
        r is Ok ==> !old(ctx).vault.active,
        old(ctx).vault.wf() ==> final(ctx).vault.wf(),
{
    if ctx.vault.protocol != ctx.protocol_key {
        return Err(ProofOfHackError::ProtocolMismatch);
    }
    if ctx.protocol.authority != ctx.authority {
        return Err(ProofOfHackError::UnauthorizedVaultAction);
    }
    if ctx.vault.active {
        return Err(ProofOfHackError::VaultStillActive);
    }
    if ctx.vault.total_paid > ctx.vault.total_deposited {
        return Err(ProofOfHackError::InsufficientVaultFunds);
    }
    if amount > ctx.vault.total_deposited - ctx.vault.total_paid {
        return Err(ProofOfHackError::InsufficientVaultFunds);
    }
    ctx.vault.total_deposited = ctx.vault.total_deposited - amount;
    Ok(())
}

} // verus!
