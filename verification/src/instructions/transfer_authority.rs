use crate::errors::ProofOfHackError;
use crate::identity::Identity;
use crate::state::Protocol;
use vstd::prelude::*;

verus! {

/// What the first step of an authority transfer names: the protocol, the
/// caller, and the identity proposed as the next authority.
#[derive(Clone, Debug)]
pub struct TransferAuthority {
    pub protocol: Protocol,
    pub authority: Identity,
    pub new_authority: Identity,
}

/// What proposing a transfer does: the new state of the accounts, or the
/// first check that failed.
pub open spec fn transfer_outcome(ctx: TransferAuthority) -> Result<
    TransferAuthority,
    ProofOfHackError,
> {
    if ctx.protocol.authority@ != ctx.authority@ {
        Err(ProofOfHackError::UnauthorizedProtocolAction)
    } else if ctx.new_authority.is_null_spec() {
        Err(ProofOfHackError::InvalidNewAuthority)
    } else {
        Ok(
            TransferAuthority {
                protocol: Protocol { pending_authority: ctx.new_authority, ..ctx.protocol },
                ..ctx
            },
        )
    }
}

/// Proposes `ctx.new_authority` as the next authority of the protocol. The
/// current authority stays in control until the candidate accepts. On
/// failure nothing changes.
pub fn handler(ctx: &mut TransferAuthority) -> (r: Result<(), ProofOfHackError>)
    ensures
        transfer_outcome(*old(ctx)) == match r {
            Ok(()) => Ok::<TransferAuthority, ProofOfHackError>(*final(ctx)),
            Err(e) => Err(e),
        },
        r is Err ==> *final(ctx) == *old(ctx),
        old(ctx).protocol.wf() ==> final(ctx).protocol.wf(),
{
    if ctx.protocol.authority != ctx.authority {
        return Err(ProofOfHackError::UnauthorizedProtocolAction);
    }
    if ctx.new_authority.is_null() {
        return Err(ProofOfHackError::InvalidNewAuthority);
    }
    ctx.protocol.pending_authority = ctx.new_authority;
    Ok(())
}

} // verus!
