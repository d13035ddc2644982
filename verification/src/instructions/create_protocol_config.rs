use crate::errors::ProofOfHackError;
use crate::identity::Identity;
use crate::state::{Protocol, ProtocolConfig};
use vstd::prelude::*;

verus! {

/// Largest minimum grace period a protocol may impose: one year.
pub const MAX_MIN_GRACE_PERIOD: i64 = 31_536_000;

/// What creating a protocol's settings names: the protocol, where it is
/// stored, and the caller.
#[derive(Clone, Debug)]
pub struct CreateProtocolConfig {
    pub protocol: Protocol,
    /// Address of the protocol record.
    pub protocol_key: Identity,
    pub authority: Identity,
    /// Bump of the address at which the settings are stored.
    pub bump: u8,
}

/// Whether a minimum grace period is one a protocol may set.
pub open spec fn min_grace_period_is_valid(min_grace_period: i64) -> bool {
    0 <= min_grace_period <= MAX_MIN_GRACE_PERIOD
}

/// What creating the settings does: the new settings, or the first check
/// that failed.
pub open spec fn create_config_outcome(ctx: CreateProtocolConfig, min_grace_period: i64) -> Result<
    ProtocolConfig,
    ProofOfHackError,
> {
    if ctx.protocol.authority@ != ctx.authority@ {
        Err(ProofOfHackError::UnauthorizedProtocolAction)
    } else if !min_grace_period_is_valid(min_grace_period) {
        Err(ProofOfHackError::InvalidMinGracePeriod)
    } else {
        Ok(ProtocolConfig { protocol: ctx.protocol_key, min_grace_period, bump: ctx.bump })
    }
}

/// Creates the settings of a protocol with the given minimum grace period.
/// Only the protocol's authority may do so.
pub fn handler(ctx: &CreateProtocolConfig, min_grace_period: i64) -> (r: Result<
    ProtocolConfig,
    ProofOfHackError,
>)
    ensures
        r == create_config_outcome(*ctx, min_grace_period),
        r matches Ok(c) ==> c.wf(),
{
    if ctx.protocol.authority != ctx.authority {
        return Err(ProofOfHackError::UnauthorizedProtocolAction);
    }
    if min_grace_period < 0 || min_grace_period > MAX_MIN_GRACE_PERIOD {
        return Err(ProofOfHackError::InvalidMinGracePeriod);
    }
    Ok(ProtocolConfig { protocol: ctx.protocol_key, min_grace_period, bump: ctx.bump })
}

} // verus!
