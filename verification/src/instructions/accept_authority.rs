use crate::errors::ProofOfHackError;
use crate::identity::{null_identity, Identity};
use crate::state::Protocol;
use vstd::prelude::*;

verus! {

/// What the second step of an authority transfer names: the protocol and the
/// caller who claims to be its pending authority.
#[derive(Clone, Debug)]
pub struct AcceptAuthority {
    pub protocol: Protocol,
    pub new_authority: Identity,
}

/// What accepting a transfer does: the new state of the accounts, or the
/// first check that failed.
pub open spec fn accept_outcome(ctx: AcceptAuthority) -> Result<AcceptAuthority, ProofOfHackError> {
    if ctx.protocol.pending_authority@ != ctx.new_authority@ {
        Err(ProofOfHackError::UnauthorizedProtocolAction)
    } else if ctx.protocol.pending_authority.is_null_spec() {
        Err(ProofOfHackError::NoPendingTransfer)
    } else {
        Ok(
            AcceptAuthority {
                protocol: Protocol {
                    authority: ctx.protocol.pending_authority,
                    pending_authority: null_identity(),
                    ..ctx.protocol
                },
                new_authority: ctx.new_authority,
            },
        )
    }
}

/// Completes an authority transfer: the pending authority takes control and
/// the pending slot is cleared. On failure nothing changes.
pub fn handler(ctx: &mut AcceptAuthority) -> (r: Result<(), ProofOfHackError>)
    ensures
        accept_outcome(*old(ctx)) == match r {
            Ok(()) => Ok::<AcceptAuthority, ProofOfHackError>(*final(ctx)),
            Err(e) => Err(e),
        },
        r is Err ==> *final(ctx) == *old(ctx),
        old(ctx).protocol.wf() ==> final(ctx).protocol.wf(),
        r is Ok ==> final(ctx).protocol.authority@ == old(ctx).new_authority@,
        r is Ok ==> final(ctx).protocol.pending_authority.is_null_spec(),
        r is Ok ==> !final(ctx).protocol.authority.is_null_spec(),
{
    if ctx.protocol.pending_authority != ctx.new_authority {
        return Err(ProofOfHackError::UnauthorizedProtocolAction);
    }
    if ctx.protocol.pending_authority.is_null() {
        return Err(ProofOfHackError::NoPendingTransfer);
    }
    ctx.protocol.authority = ctx.protocol.pending_authority;
    ctx.protocol.pending_authority = Identity::null();
    Ok(())
}

} // verus!
