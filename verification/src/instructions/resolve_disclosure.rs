use crate::errors::ProofOfHackError;
use crate::identity::Identity;
use crate::state::{Disclosure, DisclosureStatus, Protocol, ResolutionType};
use vstd::prelude::*;

verus! {

/// What a resolution names: the disclosure, the protocol, where the protocol
/// is stored, and the caller.
#[derive(Clone, Debug)]
pub struct ResolveDisclosure {
    pub disclosure: Disclosure,
    pub protocol: Protocol,
    /// Address of the protocol record.
    pub protocol_key: Identity,
    pub authority: Identity,
}

/// The resolution that a wire code names; the code for "unresolved" names none.
pub open spec fn spec_resolution(code: u8) -> Option<ResolutionType> {
    if code == 0 {
        None
    } else {
        ResolutionType::spec_from_u8(code)
    }
}

/// What a resolution does: the new state of the accounts, or the first
/// check that failed.
pub open spec fn resolve_outcome(
    ctx: ResolveDisclosure,
    payment_hash: [u8; 32],
    res_type: u8,
    now: i64,
) -> Result<ResolveDisclosure, ProofOfHackError> {
    if ctx.disclosure.protocol@ != ctx.protocol_key@ {
        Err(ProofOfHackError::ProtocolMismatch)
    } else if ctx.disclosure.status != DisclosureStatus::Acknowledged {
        Err(ProofOfHackError::InvalidStatus)
    } else if ctx.protocol.authority@ != ctx.authority@ {
        Err(ProofOfHackError::UnauthorizedProtocolAction)
    } else if spec_resolution(res_type) is None {
        Err(ProofOfHackError::InvalidResolutionType)
    } else {
        Ok(
            ResolveDisclosure {
                disclosure: Disclosure {
                    status: DisclosureStatus::Resolved,
                    payment_hash,
                    resolution_type: spec_resolution(res_type)->0,
                    resolved_at: now,
                    ..ctx.disclosure
                },
                ..ctx
            },
        )
    }
}

/// Records how the protocol resolved an acknowledged disclosure, with a
/// reference to the payment, at time `now`. This moves no funds. On failure
/// nothing changes.
pub fn handler(ctx: &mut ResolveDisclosure, payment_hash: [u8; 32], res_type: u8, now: i64) -> (r:
    Result<(), ProofOfHackError>)
    ensures
        resolve_outcome(*old(ctx), payment_hash, res_type, now) == match r {
            Ok(()) => Ok::<ResolveDisclosure, ProofOfHackError>(*final(ctx)),
            Err(e) => Err(e),
        },
        r is Err ==> *final(ctx) == *old(ctx),
        old(ctx).disclosure@.steps_to(final(ctx).disclosure@),
{
    if ctx.disclosure.protocol != ctx.protocol_key {
        return Err(ProofOfHackError::ProtocolMismatch);
    }
    match ctx.disclosure.status {
        DisclosureStatus::Acknowledged => {},
        _ => {
            return Err(ProofOfHackError::InvalidStatus);
        },
    }
    if ctx.protocol.authority != ctx.authority {
        return Err(ProofOfHackError::UnauthorizedProtocolAction);
    }
    let resolution = match ResolutionType::from_u8(res_type) {
        Some(ResolutionType::Unresolved) | None => {
            return Err(ProofOfHackError::InvalidResolutionType);
        },
        Some(t) => t,
    };
    ctx.disclosure.status = DisclosureStatus::Resolved;
    ctx.disclosure.payment_hash = payment_hash;
    ctx.disclosure.resolution_type = resolution;
    ctx.disclosure.resolved_at = now;
    Ok(())
}

} // verus!
