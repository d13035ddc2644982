use crate::errors::ProofOfHackError;
use crate::identity::Identity;
use crate::state::{Disclosure, DisclosureStatus, Protocol};
use vstd::prelude::*;

verus! {

/// What adopting a disclosure names: the disclosure, the protocol, where the
/// protocol is stored, and the caller.
#[derive(Clone, Debug)]
pub struct ClaimDisclosure {
    pub disclosure: Disclosure,
    pub protocol: Protocol,
    /// Address of the protocol record.
    pub protocol_key: Identity,
    pub authority: Identity,
}

/// What adopting a disclosure does: the new state of the accounts, or the
/// first check that failed.
pub open spec fn claim_outcome(ctx: ClaimDisclosure) -> Result<ClaimDisclosure, ProofOfHackError> {
    if ctx.disclosure.target_program@ != ctx.protocol.program_address@ {
        Err(ProofOfHackError::ProtocolMismatch)
    } else if !ctx.disclosure.protocol.is_null_spec() {
        Err(ProofOfHackError::AlreadyClaimed)
    } else if ctx.disclosure.status != DisclosureStatus::Submitted {
        Err(ProofOfHackError::InvalidStatus)
    } else if ctx.protocol.authority@ != ctx.authority@ {
        Err(ProofOfHackError::UnauthorizedProtocolAction)
    } else {
        Ok(
            ClaimDisclosure {
                disclosure: Disclosure { protocol: ctx.protocol_key, ..ctx.disclosure },
                ..ctx
            },
        )
    }
}

/// Links a disclosure that was submitted without a protocol to the protocol
/// that has since registered for its target. On failure nothing changes.
pub fn handler(ctx: &mut ClaimDisclosure) -> (r: Result<(), ProofOfHackError>)
    ensures
        claim_outcome(*old(ctx)) == match r {
            Ok(()) => Ok::<ClaimDisclosure, ProofOfHackError>(*final(ctx)),
            Err(e) => Err(e),
        },
        r is Err ==> *final(ctx) == *old(ctx),
        old(ctx).disclosure@.steps_to(final(ctx).disclosure@),
{
    if ctx.disclosure.target_program != ctx.protocol.program_address {
        return Err(ProofOfHackError::ProtocolMismatch);
    }
    if !ctx.disclosure.protocol.is_null() {
        return Err(ProofOfHackError::AlreadyClaimed);
    }
    match ctx.disclosure.status {
        DisclosureStatus::Submitted => {},
        _ => {
            return Err(ProofOfHackError::InvalidStatus);
        },
    }
    if ctx.protocol.authority != ctx.authority {
        return Err(ProofOfHackError::UnauthorizedProtocolAction);
    }
    ctx.disclosure.protocol = ctx.protocol_key;
    Ok(())
}

} // verus!
