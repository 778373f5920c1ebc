use vstd::prelude::*;
use vstd::bytes::{spec_u64_to_le_bytes, u64_to_le_bytes};

use crate::errors::InstructionError;
use crate::state::Pubkey;

verus! {

/// The program derived address and bump seed that anchor_lang's
/// `Pubkey::try_find_program_address` finds for `seeds` and `program_id`,
/// or `None` where it finds none. It is a function of its arguments alone
/// (hashes over the seeds, the program id and a bump byte).
pub uninterp spec fn program_address(seeds: Seq<Seq<u8>>, program_id: Seq<u8>) -> Option<(Seq<u8>, u8)>;

/// Calls anchor_lang's `Pubkey::try_find_program_address` (re-exported from
/// solana-address) on the seeds and the program id. The contract claims only
/// that the result is `program_address` of the arguments: which address and
/// bump come out is not stated.
#[verifier::external_body]
fn try_find_program_address(seeds: &Vec<Vec<u8>>, program_id: &Pubkey) -> (r: Option<(Pubkey, u8)>)
    ensures
        derived_view(r) == program_address(seeds.deep_view(), program_id@),
{
    let slices: Vec<&[u8]> = seeds.iter().map(|s| s.as_slice()).collect();
    let id = anchor_lang::prelude::Pubkey::new_from_array(program_id.bytes);
    match anchor_lang::prelude::Pubkey::try_find_program_address(&slices, &id) {
        Some((key, bump)) => Some((Pubkey { bytes: key.to_bytes() }, bump)),
        None => None,
    }
}

/// A derived address and bump, taken by their views.
pub open spec fn derived_view(d: Option<(Pubkey, u8)>) -> Option<(Seq<u8>, u8)> {
    match d {
        Some((key, bump)) => Some((key@, bump)),
        None => None,
    }
}

/// The bytes of the seed tag `b"escrow"`.
pub open spec fn escrow_tag() -> Seq<u8> {
    seq![101u8, 115u8, 99u8, 114u8, 111u8, 119u8]
}

/// The seeds of an escrow's address: the tag, the client's address and the
/// job id in little-endian bytes.
pub open spec fn escrow_seeds_spec(client: Seq<u8>, job_id: u64) -> Seq<Seq<u8>> {
    seq![escrow_tag(), client, spec_u64_to_le_bytes(job_id)]
}

/// The address at which the escrow of `client` for `job_id` lives, under
/// `program_id`.
pub open spec fn escrow_address_spec(client: Seq<u8>, job_id: u64, program_id: Seq<u8>) -> Option<(Seq<u8>, u8)> {
    program_address(escrow_seeds_spec(client, job_id), program_id)
}

/// What the seeds constraint makes of the derived address: the bump where the
/// escrow account stands at the derived address, `ConstraintSeeds` otherwise.
pub open spec fn seeds_check(escrow: Seq<u8>, derived: Option<(Seq<u8>, u8)>) -> Result<u8, InstructionError> {
    match derived {
        Some((key, bump)) => if key == escrow {
            Ok(bump)
        } else {
            Err(InstructionError::ConstraintSeeds)
        },
        None => Err(InstructionError::ConstraintSeeds),
    }
}

/// The seeds of the escrow of `client` for `job_id`.
pub fn escrow_seeds(client: &Pubkey, job_id: u64) -> (r: Vec<Vec<u8>>)
    ensures
        r.deep_view() == escrow_seeds_spec(client@, job_id),
{
    let tag: Vec<u8> = vec![101u8, 115u8, 99u8, 114u8, 111u8, 119u8];
    let mut key: Vec<u8> = Vec::new();
    let mut i: usize = 0;
    while i < 32
        invariant
            0 <= i <= 32,
            client@.len() == 32,
            key@ =~= client@.subrange(0, i as int),
        decreases 32 - i,
    {
        key.push(client.bytes[i]);
        i = i + 1;
    }
    let id = u64_to_le_bytes(job_id);
    assert(tag.deep_view() =~= escrow_tag());
    assert(key.deep_view() =~= client@);
    assert(id.deep_view() =~= spec_u64_to_le_bytes(job_id));
    let ghost parts = seq![tag.deep_view(), key.deep_view(), id.deep_view()];
    let mut seeds: Vec<Vec<u8>> = Vec::new();
    seeds.push(tag);
    seeds.push(key);
    seeds.push(id);
    assert(seeds.deep_view() =~= parts);
    seeds
}

/// The address and bump of the escrow of `client` for `job_id` under
/// `program_id`.
pub fn derive_escrow_address(client: &Pubkey, job_id: u64, program_id: &Pubkey) -> (r: Option<(Pubkey, u8)>)
    ensures
        derived_view(r) == escrow_address_spec(client@, job_id, program_id@),
{
    let seeds = escrow_seeds(client, job_id);
    try_find_program_address(&seeds, program_id)
}

/// The seeds constraint: the escrow account must stand at the derived address.
pub fn verify_escrow_address(escrow: &Pubkey, derived: &Option<(Pubkey, u8)>) -> (r: Result<u8, InstructionError>)
    ensures
        r == seeds_check(escrow@, derived_view(*derived)),
{
    match derived {
        Some((key, bump)) => {
            if key.same_key(escrow) {
                Ok(*bump)
            } else {
                Err(InstructionError::ConstraintSeeds)
            }
        },
        None => Err(InstructionError::ConstraintSeeds),
    }
}

} // verus!
