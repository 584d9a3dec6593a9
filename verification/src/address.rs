//! Program-derived addresses.

use vstd::prelude::*;

verus! {

/// The program-derived address for `seeds` under the program `id`, with its bump
/// seed, where one exists.
pub uninterp spec fn program_address_of(seeds: Seq<Seq<u8>>, id: Seq<u8>) -> Option<(Seq<u8>, u8)>;

/// Calls `anchor_lang::prelude::Pubkey::try_find_program_address` for `seeds` and
/// the program `program_id`. Trusted: the address and the bump seed depend on the
/// seeds and the program alone; the call gives `None` where no address exists.
#[verifier::external_body]
pub(crate) fn find_program_address(seeds: &Vec<Vec<u8>>, program_id: &[u8; 32]) -> (found: Option<
    ([u8; 32], u8),
>)
    ensures
        match found {
            Some((key, bump)) => program_address_of(seeds.deep_view(), program_id@) == Some(
                (key@, bump),
            ),
            None => program_address_of(seeds.deep_view(), program_id@) is None,
        },
{
    let slices: Vec<&[u8]> = seeds.iter().map(|s| s.as_slice()).collect();
    let program = anchor_lang::prelude::Pubkey::new_from_array(*program_id);
    match anchor_lang::prelude::Pubkey::try_find_program_address(&slices, &program) {
        Some((key, bump)) => Some((key.to_bytes(), bump)),
        None => None,
    }
}

} // verus!
