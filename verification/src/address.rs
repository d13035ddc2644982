use crate::identity::Identity;
use anchor_lang::prelude::Pubkey;
use vstd::prelude::*;

verus! {

/// The program-derived address for a list of seeds under a program id, as
/// `Pubkey::try_find_program_address` finds it; `None` where no bump seed
/// yields an address off the curve or the seeds are out of bounds.
pub uninterp spec fn program_derived_address(seeds: Seq<Seq<u8>>, program_id: Seq<u8>) -> Option<
    Seq<u8>,
>;

/// The byte strings that a list of seed vectors holds.
pub open spec fn seeds_view(seeds: Seq<Vec<u8>>) -> Seq<Seq<u8>> {
    Seq::new(seeds.len(), |i: int| seeds[i]@)
}

/// Calls `Pubkey::try_find_program_address` and keeps the address, dropping
/// the bump seed. The contract claims that the outcome is a function of the
/// seeds and the program id alone.
#[verifier::external_body]
fn try_find_program_address(seeds: &Vec<Vec<u8>>, program_id: &Identity) -> (r: Option<Identity>)
    ensures
        match r {
            Some(a) => program_derived_address(seeds_view(seeds@), program_id@) == Some(a@),
            None => program_derived_address(seeds_view(seeds@), program_id@) is None,
        },
{
    let parts: Vec<&[u8]> = seeds.iter().map(|s| s.as_slice()).collect();
    let id = Pubkey::new_from_array(program_id.bytes);
    Pubkey::try_find_program_address(&parts, &id).map(|found| Identity { bytes: found.0.to_bytes() })
}

/// The id of the upgradeable loader, `BPFLoaderUpgradeab1e11111111111111111111111`.
pub open spec fn loader_id_bytes() -> Seq<u8> {
    seq![
        2u8, 168, 246, 145, 78, 136, 161, 176, 226, 16, 21, 62, 247, 99, 174, 43,
        0, 194, 185, 61, 22, 193, 36, 210, 192, 83, 122, 16, 4, 128, 0, 0,
    ]
}

/// Calls `bpf_loader_upgradeable::id`. The contract claims that it returns
/// the loader's fixed id.
#[verifier::external_body]
pub(crate) fn upgradeable_loader_id() -> (r: Identity)
    ensures
        r@ == loader_id_bytes(),
{
    Identity { bytes: anchor_lang::solana_program::bpf_loader_upgradeable::id().to_bytes() }
}

/// The seed tag of protocol records: the ASCII text `protocol`.
pub open spec fn protocol_tag() -> Seq<u8> {
    seq![112u8, 114, 111, 116, 111, 99, 111, 108]
}

/// The seed tag of protocol settings: the ASCII text `protocol_config`.
pub open spec fn config_tag() -> Seq<u8> {
    seq![112u8, 114, 111, 116, 111, 99, 111, 108, 95, 99, 111, 110, 102, 105, 103]
}

/// Address of the protocol record that governs `artifact` under `program_id`.
pub open spec fn spec_protocol_address(artifact: Seq<u8>, program_id: Seq<u8>) -> Option<Seq<u8>> {
    program_derived_address(seq![protocol_tag(), artifact], program_id)
}

/// Address of the settings record of the protocol at `protocol`.
pub open spec fn spec_config_address(protocol: Seq<u8>, program_id: Seq<u8>) -> Option<Seq<u8>> {
    program_derived_address(seq![config_tag(), protocol], program_id)
}

/// Address at which the upgradeable loader keeps the data of `program`.
pub open spec fn spec_program_data_address(program: Seq<u8>) -> Option<Seq<u8>> {
    program_derived_address(seq![program], loader_id_bytes())
}

/// The bytes of an address that may be absent.
pub open spec fn address_view(found: Option<Identity>) -> Option<Seq<u8>> {
    match found {
        Some(a) => Some(a@),
        None => None,
    }
}

/// Copies the bytes of an identity into a vector.
pub fn identity_bytes(id: &Identity) -> (v: Vec<u8>)
    ensures
        v@ == id@,
{
    let mut v: Vec<u8> = Vec::new();
    let mut i: usize = 0;
    while i < 32
        invariant
            i <= 32,
            v@.len() == i,
            forall|j: int| 0 <= j < i ==> v@[j] == id.bytes@[j],
        decreases 32 - i,
    {
        v.push(id.bytes[i]);
        i += 1;
    }
    assert(v@ =~= id@);
    v
}

/// Derives the address of the protocol record that governs `artifact`.
pub fn derive_protocol_address(artifact: &Identity, program_id: &Identity) -> (r: Option<Identity>)
    ensures
        address_view(r) == spec_protocol_address(artifact@, program_id@),
{
    let tag: Vec<u8> = vec![112u8, 114, 111, 116, 111, 99, 111, 108];
    assert(tag@ =~= protocol_tag());
    let mut seeds: Vec<Vec<u8>> = Vec::new();
    seeds.push(tag);
    seeds.push(identity_bytes(artifact));
    assert(seeds_view(seeds@) =~= seq![protocol_tag(), artifact@]);
    try_find_program_address(&seeds, program_id)
}

/// Derives the address of the settings record of the protocol at `protocol`.
pub fn derive_config_address(protocol: &Identity, program_id: &Identity) -> (r: Option<Identity>)
    ensures
        address_view(r) == spec_config_address(protocol@, program_id@),
{
    let tag: Vec<u8> = vec![112u8, 114, 111, 116, 111, 99, 111, 108, 95, 99, 111, 110, 102, 105, 103];
    assert(tag@ =~= config_tag());
    let mut seeds: Vec<Vec<u8>> = Vec::new();
    seeds.push(tag);
    seeds.push(identity_bytes(protocol));
    assert(seeds_view(seeds@) =~= seq![config_tag(), protocol@]);
    try_find_program_address(&seeds, program_id)
}

/// Derives the address at which the upgradeable loader keeps the data of
/// `program`.
pub fn derive_program_data_address(program: &Identity) -> (r: Option<Identity>)
    ensures
        address_view(r) == spec_program_data_address(program@),
{
    let loader = upgradeable_loader_id();
    let mut seeds: Vec<Vec<u8>> = Vec::new();
    seeds.push(identity_bytes(program));
    assert(seeds_view(seeds@) =~= seq![program@]);
    try_find_program_address(&seeds, &loader)
}

} // verus!
