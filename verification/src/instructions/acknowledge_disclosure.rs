use crate::errors::ProofOfHackError;
use crate::identity::Identity;
use crate::state::{Disclosure, DisclosureStatus, Protocol};
use vstd::prelude::*;

verus! {

/// What an acknowledgment names: the disclosure, the protocol, where the
/// protocol is stored, and the caller.
#[derive(Clone, Debug)]
pub struct AcknowledgeDisclosure {
    pub disclosure: Disclosure,
    pub protocol: Protocol,
    /// Address of the protocol record.
    pub protocol_key: Identity,
    pub authority: Identity,
}

/// What an acknowledgment does: the new state of the accounts, or the first
/// check that failed.
pub open spec fn acknowledge_outcome(ctx: AcknowledgeDisclosure, now: i64) -> Result<
    AcknowledgeDisclosure,
    ProofOfHackError,
> {
    if ctx.disclosure.protocol.is_null_spec() || ctx.disclosure.protocol@ != ctx.protocol_key@ {
        Err(ProofOfHackError::ProtocolMismatch)
    } else if ctx.disclosure.status != DisclosureStatus::Submitted {
        Err(ProofOfHackError::InvalidStatus)
    } else if ctx.protocol.authority@ != ctx.authority@ {
        Err(ProofOfHackError::UnauthorizedProtocolAction)
    } else {
        Ok(
            AcknowledgeDisclosure {
                disclosure: Disclosure {
                    status: DisclosureStatus::Acknowledged,
                    acknowledged_at: now,
                    ..ctx.disclosure
                },
                ..ctx
            },
        )
    }
}

/// Records that the protocol has received a disclosure addressed to it, at
/// time `now`. On failure nothing changes.
pub fn handler(ctx: &mut AcknowledgeDisclosure, now: i64) -> (r: Result<(), ProofOfHackError>)
    ensures
        acknowledge_outcome(*old(ctx), now) == match r {
            Ok(()) => Ok::<AcknowledgeDisclosure, ProofOfHackError>(*final(ctx)),
            Err(e) => Err(e),
        },
        r is Err ==> *final(ctx) == *old(ctx),
        old(ctx).disclosure@.steps_to(final(ctx).disclosure@),
{
    if ctx.disclosure.protocol.is_null() || ctx.disclosure.protocol != ctx.protocol_key {
        return Err(ProofOfHackError::ProtocolMismatch);
    }
    match ctx.disclosure.status {
        DisclosureStatus::Submitted => {},
        _ => {
            return Err(ProofOfHackError::InvalidStatus);
        },
    }
    if ctx.protocol.authority != ctx.authority {
        return Err(ProofOfHackError::UnauthorizedProtocolAction);
    }
    ctx.disclosure.status = DisclosureStatus::Acknowledged;
    ctx.disclosure.acknowledged_at = now;
    Ok(())
}

} // verus!
