use crate::address::{
    address_view, derive_program_data_address, loader_id_bytes, spec_program_data_address,
    upgradeable_loader_id,
};
use crate::errors::ProofOfHackError;
use crate::identity::{null_identity, Identity};
use crate::codec::read_identity;
use crate::state::{name_bytes, name_is_valid, AccountRecord, Protocol};
use vstd::prelude::*;
use vstd::string::StringSliceAdditionalSpecFns;

verus! {

/// Longest protocol name, in bytes.
pub const MAX_NAME_LEN: usize = 64;

/// What a registration names: the caller and the record in which the loader
/// keeps the target program's data.
#[derive(Clone, Debug)]
pub struct RegisterProtocol {
    pub authority: Identity,
    pub program_data: AccountRecord,
    /// Bump of the address at which the new protocol is stored.
    pub bump: u8,
}

/// Checks a protocol name.
pub fn check_name(name: &str) -> (ok: bool)
    ensures
        ok == name_is_valid(name_bytes(name@)),
{
    let bytes = name.as_bytes();
    assert(bytes@ == name.spec_bytes());
    if bytes.len() == 0 || bytes.len() > MAX_NAME_LEN {
        return false;
    }
    let mut i: usize = 0;
    while i < bytes.len()
        invariant
            i <= bytes.len(),
            bytes@ == name_bytes(name@),
            forall|j: int| 0 <= j < i ==> 0x20 <= #[trigger] bytes@[j] <= 0x7E,
        decreases bytes.len() - i,
    {
        if bytes[i] < 0x20 || bytes[i] > 0x7E {
            assert(!(0x20 <= name_bytes(name@)[i as int] <= 0x7E));
            return false;
        }
        i += 1;
    }
    true
}

/// Whether `data` is the stored form of an upgradeable program's data: at
/// least 45 bytes that open with the number 3, least significant byte first.
pub open spec fn is_program_data(data: Seq<u8>) -> bool {
    data.len() >= 45 && data[0] == 3 && data[1] == 0 && data[2] == 0 && data[3] == 0
}

/// The upgrade authority that a program's data names: bytes 13 to 44,
/// present when byte 12 is 1.
pub open spec fn spec_upgrade_authority(data: Seq<u8>) -> Option<Seq<u8>>
    recommends
        data.len() >= 45,
{
    if data[12] == 1 {
        Some(data.subrange(13, 45))
    } else {
        None
    }
}

/// Reads the upgrade authority from a program's data; `None` where the
/// program can no longer be upgraded.
pub fn upgrade_authority(data: &[u8]) -> (r: Option<Identity>)
    requires
        data@.len() >= 45,
    ensures
        address_view(r) == spec_upgrade_authority(data@),
{
    if data[12] == 1 {
        Some(read_identity(data, 13))
    } else {
        None
    }
}

/// What a registration does, given the address at which the loader keeps the
/// target's data: the new protocol, or the first check that failed.
pub open spec fn register_outcome(
    ctx: RegisterProtocol,
    expected_program_data: Option<Seq<u8>>,
    program_address: Identity,
    name: String,
    encryption_key: [u8; 32],
    now: i64,
) -> Result<Protocol, ProofOfHackError> {
    if !name_is_valid(name_bytes(name@)) {
        Err(ProofOfHackError::InvalidProtocolName)
    } else if expected_program_data != Some(ctx.program_data.key@) {
        Err(ProofOfHackError::InvalidProgramData)
    } else if ctx.program_data.owner@ != loader_id_bytes() {
        Err(ProofOfHackError::InvalidProgramData)
    } else if !is_program_data(ctx.program_data.data@) {
        Err(ProofOfHackError::InvalidProgramData)
    } else if spec_upgrade_authority(ctx.program_data.data@) != Some(ctx.authority@) {
        Err(ProofOfHackError::NotUpgradeAuthority)
    } else {
        Ok(
            Protocol {
                authority: ctx.authority,
                program_address,
                name,
                encryption_key,
                registered_at: now,
                pending_authority: null_identity(),
                bump: ctx.bump,
            },
        )
    }
}

/// Registers a protocol, given the address at which the loader keeps the
/// target program's data.
pub fn register_with_program_data_address(
    ctx: &RegisterProtocol,
    expected_program_data: &Option<Identity>,
    program_address: Identity,
    name: String,
    encryption_key: [u8; 32],
    now: i64,
) -> (r: Result<Protocol, ProofOfHackError>)
    ensures
        r == register_outcome(
            *ctx,
            address_view(*expected_program_data),
            program_address,
            name,
            encryption_key,
            now,
        ),
        r matches Ok(p) ==> p.pending_authority.is_null_spec(),
        r matches Ok(p) ==> (p.wf() <==> !ctx.authority.is_null_spec()),
{
    if !check_name(name.as_str()) {
        return Err(ProofOfHackError::InvalidProtocolName);
    }
    let at_expected = match expected_program_data {
        Some(e) => ctx.program_data.key == *e,
        None => false,
    };
    if !at_expected {
        return Err(ProofOfHackError::InvalidProgramData);
    }
    if ctx.program_data.owner != upgradeable_loader_id() {
        return Err(ProofOfHackError::InvalidProgramData);
    }
    let data = ctx.program_data.data.as_slice();
    if data.len() < 45 || data[0] != 3 || data[1] != 0 || data[2] != 0 || data[3] != 0 {
        return Err(ProofOfHackError::InvalidProgramData);
    }
    let is_authority = match upgrade_authority(data) {
        Some(a) => a == ctx.authority,
        None => false,
    };
    if !is_authority {
        return Err(ProofOfHackError::NotUpgradeAuthority);
    }
    let pending = Identity::null();
    Ok(
        Protocol {
            authority: ctx.authority,
            program_address,
            name,
            encryption_key,
            registered_at: now,
            pending_authority: pending,
            bump: ctx.bump,
        },
    )
}

/// Registers the protocol that protects `program_address`.
///
/// The caller must be the upgrade authority that the loader records for the
/// program, which shows both that the program is deployed and that the
/// caller controls it.
pub fn handler(
    ctx: &RegisterProtocol,
    program_address: Identity,
    name: String,
    encryption_key: [u8; 32],
    now: i64,
) -> (r: Result<Protocol, ProofOfHackError>)
    ensures
        r == register_outcome(
            *ctx,
            spec_program_data_address(program_address@),
            program_address,
            name,
            encryption_key,
            now,
        ),
        r matches Ok(p) ==> p.pending_authority.is_null_spec(),
        r matches Ok(p) ==> (p.wf() <==> !ctx.authority.is_null_spec()),
{
    let expected = derive_program_data_address(&program_address);
    register_with_program_data_address(ctx, &expected, program_address, name, encryption_key, now)
}

} // verus!
