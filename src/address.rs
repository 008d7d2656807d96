//! Program-derived addresses of links.
use vstd::prelude::*;
use crate::state::Address;
use solana_program::pubkey::Pubkey;

verus! {

/// The program address that `seeds` give under `program_id` with the
/// highest bump seed that yields one, and that bump seed; none where no
/// bump seed yields one or the seeds are out of bounds.
pub uninterp spec fn program_address(seeds: Seq<Seq<u8>>, program_id: Seq<u8>) -> Option<(Seq<u8>, u8)>;

/// The seed prefix of a link's address: ASCII "cash".
pub open spec fn cash_prefix() -> Seq<u8> {
    seq![99u8, 97u8, 115u8, 104u8]
}

/// Relies on solana_program's `Pubkey::try_find_program_address` (1.18): the
/// address and bump seed derived from `seeds` and `program_id`, or `None`
/// where no bump seed works or the seeds break its bounds; it never panics.
#[verifier::external_body]
fn try_find_program_address(seeds: &Vec<Vec<u8>>, program_id: &Address) -> (r: Option<(Address, u8)>)
    ensures
        match r {
            Some((key, bump)) => program_address(seeds@.map_values(|s: Vec<u8>| s@), program_id@)
                == Some((key@, bump)),
            None => program_address(seeds@.map_values(|s: Vec<u8>| s@), program_id@) is None,
        },
{
    let refs: Vec<&[u8]> = seeds.iter().map(|s| s.as_slice()).collect();
    Pubkey::try_find_program_address(&refs, &Pubkey::new_from_array(program_id.bytes))
        .map(|(key, bump)| (Address::new(key.to_bytes()), bump))
}

/// The address of the link gated by `pass_key`, with its bump seed: the
/// program address of the seeds "cash" and the pass key's bytes.
pub fn find_cash_link_program_address(program_id: &Address, pass_key: &Address) -> (r: Option<
    (Address, u8),
>)
    ensures
        match r {
            Some((key, bump)) => program_address(seq![cash_prefix(), pass_key@], program_id@)
                == Some((key@, bump)),
            None => program_address(seq![cash_prefix(), pass_key@], program_id@) is None,
        },
{
    let prefix: Vec<u8> = vec![99u8, 97u8, 115u8, 104u8];
    let mut key: Vec<u8> = Vec::new();
    let mut i: usize = 0;
    while i < 32
        invariant
            0 <= i <= 32,
            pass_key@.len() == 32,
            key@ == pass_key@.subrange(0, i as int),
        decreases 32 - i,
    {
        key.push(pass_key.bytes[i]);
        i = i + 1;
    }
    assert(key@ =~= pass_key@);
    let seeds: Vec<Vec<u8>> = vec![prefix, key];
    assert(seeds@.map_values(|s: Vec<u8>| s@) =~= seq![cash_prefix(), pass_key@]);
    try_find_program_address(&seeds, program_id)
}

} // verus!
