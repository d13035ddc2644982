use crate::errors::ProofOfHackError;
use crate::identity::Identity;
use crate::instructions::create_protocol_config::{
    min_grace_period_is_valid, MAX_MIN_GRACE_PERIOD,
};
use crate::state::{Protocol, ProtocolConfig};
use vstd::prelude::*;

verus! {

/// What updating a protocol's settings names: the settings, the protocol,
/// where the protocol is stored, and the caller.
#[derive(Clone, Debug)]
pub struct UpdateProtocolConfig {
    pub config: ProtocolConfig,
    pub protocol: Protocol,
    /// Address of the protocol record.
    pub protocol_key: Identity,
    pub authority: Identity,
}

/// What updating the settings does: the new state of the accounts, or the
/// first check that failed.
pub open spec fn update_config_outcome(ctx: UpdateProtocolConfig, min_grace_period: i64) -> Result<
    UpdateProtocolConfig,
    ProofOfHackError,
> {
    if ctx.config.protocol@ != ctx.protocol_key@ {
        Err(ProofOfHackError::InvalidProtocolConfig)
    } else if ctx.protocol.authority@ != ctx.authority@ {
        Err(ProofOfHackError::UnauthorizedProtocolAction)
    } else if !min_grace_period_is_valid(min_grace_period) {
        Err(ProofOfHackError::InvalidMinGracePeriod)
    } else {
        Ok(UpdateProtocolConfig { config: ProtocolConfig { min_grace_period, ..ctx.config }, ..ctx })
    }
}

/// Changes the minimum grace period in a protocol's existing settings. Only
/// the protocol's authority may do so. On failure nothing changes.
pub fn handler(ctx: &mut UpdateProtocolConfig, min_grace_period: i64) -> (r: Result<
    (),
    ProofOfHackError,
>)
    ensures
        update_config_outcome(*old(ctx), min_grace_period) == match r {
            Ok(()) => Ok::<UpdateProtocolConfig, ProofOfHackError>(*final(ctx)),
            Err(e) => Err(e),
        },
        r is Err ==> *final(ctx) == *old(ctx),
        r is Ok ==> final(ctx).config.wf(),
{
    if ctx.config.protocol != ctx.protocol_key {
        return Err(ProofOfHackError::InvalidProtocolConfig);
    }
    if ctx.protocol.authority != ctx.authority {
        return Err(ProofOfHackError::UnauthorizedProtocolAction);
    }
    if min_grace_period < 0 || min_grace_period > MAX_MIN_GRACE_PERIOD {
        return Err(ProofOfHackError::InvalidMinGracePeriod);
    }
    ctx.config.min_grace_period = min_grace_period;
    Ok(())
}

} // verus!
