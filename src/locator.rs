//! Where a deployed program's binary lives, and how to recover it from that
//! account's data.
use solana_pubkey::Pubkey;
use vstd::prelude::*;
use vstd::slice::{slice_subrange, slice_to_vec};

use crate::error::ReadError;

verus! {

/// Bytes ahead of the binary in a program-data account: the 8-byte slot, the
/// option tag of the upgrade authority, a 32-byte slot for that authority and
/// the 4-byte length of the binary.
///
/// The authority's slot is taken to be present whatever the tag says.
pub const PROGRAM_DATA_HEADER_LEN: usize = 45;

/// The program-derived address for one seed under `program_id`, if one
/// exists.
pub uninterp spec fn program_address_of(seed: Seq<u8>, program_id: Seq<u8>) -> Option<Seq<u8>>;

/// Relies on solana_pubkey::Pubkey::try_find_program_address with a single
/// seed: a hash of the seed, a bump byte and the program id, searched from the
/// highest bump down; it depends on its arguments alone and does not panic.
#[verifier::external_body]
fn find_program_address(seed: &[u8; 32], program_id: &[u8; 32]) -> (r: Option<[u8; 32]>)
    ensures
        match r {
            Some(a) => program_address_of(seed@, program_id@) == Some(a@),
            None => program_address_of(seed@, program_id@) is None,
        },
{
    let program_id = Pubkey::new_from_array(*program_id);
    Pubkey::try_find_program_address(&[seed.as_slice()], &program_id).map(|(a, _)| a.to_bytes())
}

/// The address of the account that holds the binary of `program_id`, derived
/// under the upgradeable loader `loader_id` with the program id as the seed.
pub fn locate(program_id: &[u8; 32], loader_id: &[u8; 32]) -> (r: Option<[u8; 32]>)
    ensures
        match r {
            Some(a) => program_address_of(program_id@, loader_id@) == Some(a@),
            None => program_address_of(program_id@, loader_id@) is None,
        },
{
    find_program_address(program_id, loader_id)
}

/// The binary held in a program-data account's `data`: everything after the
/// header. Data no longer than the header holds no binary.
pub fn program_binary(data: &[u8]) -> (r: Result<Vec<u8>, ReadError>)
    ensures
        match r {
            Ok(b) => data@.len() > PROGRAM_DATA_HEADER_LEN && b@ == data@.subrange(
                PROGRAM_DATA_HEADER_LEN as int,
                data@.len() as int,
            ),
            Err(e) => data@.len() <= PROGRAM_DATA_HEADER_LEN && e == ReadError::TruncatedAccount,
        },
{
    if data.len() <= PROGRAM_DATA_HEADER_LEN {
        return Err(ReadError::TruncatedAccount);
    }
    Ok(slice_to_vec(slice_subrange(data, PROGRAM_DATA_HEADER_LEN, data.len())))
}

/// Locating a program's binary gives the same address on every call.
pub proof fn lemma_locate_deterministic(
    program_id: [u8; 32],
    loader_id: [u8; 32],
    first: Option<[u8; 32]>,
    second: Option<[u8; 32]>,
)
    requires
        match first {
            Some(a) => program_address_of(program_id@, loader_id@) == Some(a@),
            None => program_address_of(program_id@, loader_id@) is None,
        },
        match second {
            Some(a) => program_address_of(program_id@, loader_id@) == Some(a@),
            None => program_address_of(program_id@, loader_id@) is None,
        },
    ensures
        first == second,
{
    if first is Some && second is Some {
        assert(first->0 =~= second->0);
    }
}

} // verus!
