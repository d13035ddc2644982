use crate::errors::ProofOfHackError;
use crate::identity::Identity;
use crate::state::Protocol;
use vstd::prelude::*;

verus! {

/// What a key rotation names: the protocol and the caller.
#[derive(Clone, Debug)]
pub struct UpdateEncryptionKey {
    pub protocol: Protocol,
    pub authority: Identity,
}

/// What a key rotation does: the new state of the accounts, or the check
/// that failed.
pub open spec fn update_key_outcome(ctx: UpdateEncryptionKey, new_key: [u8; 32]) -> Result<
    UpdateEncryptionKey,
    ProofOfHackError,
> {
    if ctx.protocol.authority@ != ctx.authority@ {
        Err(ProofOfHackError::UnauthorizedProtocolAction)
    } else {
        Ok(
            UpdateEncryptionKey {
                protocol: Protocol { encryption_key: new_key, ..ctx.protocol },
                ..ctx
            },
        )
    }
}

/// Replaces the key to which new reports for the protocol are encrypted.
/// Only the protocol's authority may do so. On failure nothing changes.
pub fn handler(ctx: &mut UpdateEncryptionKey, new_key: [u8; 32]) -> (r: Result<
    (),
    ProofOfHackError,
>)
    ensures
        update_key_outcome(*old(ctx), new_key) == match r {
            Ok(()) => Ok::<UpdateEncryptionKey, ProofOfHackError>(*final(ctx)),
            Err(e) => Err(e),
        },
        r is Err ==> *final(ctx) == *old(ctx),
        old(ctx).protocol.wf() ==> final(ctx).protocol.wf(),
{
    if ctx.protocol.authority != ctx.authority {
        return Err(ProofOfHackError::UnauthorizedProtocolAction);
    }
    ctx.protocol.encryption_key = new_key;
    Ok(())
}

} // verus!
