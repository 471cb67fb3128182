use vstd::prelude::*;

use crate::addr::Address;

verus! {

/// Most seed slices a derivation accepts.
pub const MAX_SEEDS: usize = 16;

/// Longest seed slice a derivation accepts.
pub const MAX_SEED_LEN: usize = 32;

/// The one-way derivation at the bottom of every program-derived address:
/// the address that the seed tuple plus program identity hashes to, or
/// `None` when that hash lands on the signing curve (or a seed bound is
/// broken) and the seeds are invalid.
pub uninterp spec fn spec_create_pda(seeds: Seq<Seq<u8>>, program_id: Seq<u8>) -> Option<Seq<u8>>;

/// The bump search, from `bump` down to 1: the first bump byte whose
/// appended single-byte seed makes the derivation succeed, with the
/// address it derives.
pub open spec fn spec_find_bump(seeds: Seq<Seq<u8>>, program_id: Seq<u8>, bump: int) -> Option<
    (Seq<u8>, u8),
>
    decreases bump,
{
    if bump < 1 {
        None
    } else {
        match spec_create_pda(seeds.push(seq![bump as u8]), program_id) {
            Option::Some(a) => Some((a, bump as u8)),
            Option::None => spec_find_bump(seeds, program_id, bump - 1),
        }
    }
}

/// The full authority derivation: the highest bump byte, from 255
/// downward, under which the seeds derive an off-curve address — and that
/// address.  `None` when no bump works or too many seeds are given.
pub open spec fn spec_try_find_pda(seeds: Seq<Seq<u8>>, program_id: Seq<u8>) -> Option<
    (Seq<u8>, u8),
> {
    if seeds.len() >= MAX_SEEDS {
        None
    } else {
        spec_find_bump(seeds, program_id, 255)
    }
}

/// Relies on `solana_address::Address::create_program_address`: the
/// one-way hash of the seed tuple and program identity, refused when the
/// result is a curve point or a seed bound is broken.  The result depends
/// on the arguments alone.
#[verifier::external_body]
pub(crate) fn create_pda(seeds: &Vec<Vec<u8>>, program_id: &Address) -> (r: Option<Address>)
    ensures
        r is Some <==> spec_create_pda(seeds.deep_view(), program_id@) is Some,
        r is Some ==> r.unwrap()@ =~= spec_create_pda(seeds.deep_view(), program_id@).unwrap(),
{
    let seed_slices: Vec<&[u8]> = seeds.iter().map(|s| s.as_slice()).collect();
    let ext = solana_address::Address::new_from_array(*program_id);
    match solana_address::Address::create_program_address(&seed_slices, &ext) {
        Ok(a) => Some(a.to_bytes()),
        Err(_) => None,
    }
}

/// Relies on `solana_address::Address::try_find_program_address`: the
/// bump search from 255 downward over `create_program_address`, refusing
/// a seed list at the seed-count bound.  Seeds longer than the seed-length
/// bound are left out here: with one of those the search would stop early.
/// The result depends on the arguments alone.
#[verifier::external_body]
pub(crate) fn try_find_pda(seeds: &Vec<Vec<u8>>, program_id: &Address) -> (r: Option<
    (Address, u8),
>)
    requires
        forall|i: int|
            0 <= i < seeds.deep_view().len() ==> #[trigger] seeds.deep_view()[i].len()
                <= MAX_SEED_LEN,
    ensures
        r is Some <==> spec_try_find_pda(seeds.deep_view(), program_id@) is Some,
        r is Some ==> r.unwrap().0@ =~= spec_try_find_pda(
            seeds.deep_view(),
            program_id@,
        ).unwrap().0 && r.unwrap().1 == spec_try_find_pda(seeds.deep_view(), program_id@).unwrap().1,
{
    let seed_slices: Vec<&[u8]> = seeds.iter().map(|s| s.as_slice()).collect();
    let ext = solana_address::Address::new_from_array(*program_id);
    match solana_address::Address::try_find_program_address(&seed_slices, &ext) {
        Some((a, b)) => Some((a.to_bytes(), b)),
        None => None,
    }
}

/// Derives the address and bump for a seed tuple under a program
/// identity: the public face of the authority derivation.
pub fn derive_address(seeds: &Vec<Vec<u8>>, program_id: &Address) -> (r: Option<(Address, u8)>)
    requires
        forall|i: int|
            0 <= i < seeds.deep_view().len() ==> #[trigger] seeds.deep_view()[i].len()
                <= MAX_SEED_LEN,
    ensures
        r is Some <==> spec_try_find_pda(seeds.deep_view(), program_id@) is Some,
        r is Some ==> r.unwrap().0@ =~= spec_try_find_pda(
            seeds.deep_view(),
            program_id@,
        ).unwrap().0 && r.unwrap().1 == spec_try_find_pda(seeds.deep_view(), program_id@).unwrap().1,
{
    try_find_pda(seeds, program_id)
}

/// Replays a derivation from stored seeds and a stored bump: the address
/// the seed tuple with that bump byte appended derives, if any.
pub fn replay_derivation(seeds: &Vec<Vec<u8>>, bump: u8, program_id: &Address) -> (r: Option<
    Address,
>)
    ensures
        r is Some <==> spec_create_pda(seeds.deep_view().push(seq![bump]), program_id@) is Some,
        r is Some ==> r.unwrap()@ =~= spec_create_pda(
            seeds.deep_view().push(seq![bump]),
            program_id@,
        ).unwrap(),
{
    let mut with_bump: Vec<Vec<u8>> = Vec::new();
    let mut i: usize = 0;
    while i < seeds.len()
        invariant
            i <= seeds@.len(),
            with_bump@.len() == i,
            forall|j: int| 0 <= j < i ==> #[trigger] with_bump@[j]@ =~= seeds@[j]@,
        decreases seeds@.len() - i,
    {
        with_bump.push(crate::bytes::clone_bytes(&seeds[i]));
        i += 1;
    }
    let mut bump_seed: Vec<u8> = Vec::new();
    bump_seed.push(bump);
    with_bump.push(bump_seed);
    proof {
        let lhs = with_bump.deep_view();
        let rhs = seeds.deep_view().push(seq![bump]);
        assert(lhs.len() == rhs.len());
        assert forall|j: int| 0 <= j < lhs.len() implies lhs[j] =~= rhs[j] by {
            if j < seeds@.len() {
                assert(with_bump@[j]@ =~= seeds@[j]@);
            } else {
                assert(with_bump@[j]@ =~= seq![bump]);
            }
        }
        assert(with_bump.deep_view() =~~= seeds.deep_view().push(seq![bump]));
    }
    create_pda(&with_bump, program_id)
}

/// A found derivation replays: whenever the bump search settles on
/// `(address, bump)`, deriving again from the same seeds with that bump
/// byte appended gives the same address — the stored pair of any valid
/// record re-validates, and the bump byte is never zero.
pub proof fn lemma_found_derivation_replays(
    seeds: Seq<Seq<u8>>,
    program_id: Seq<u8>,
    a: Seq<u8>,
    b: u8,
)
    requires
        spec_try_find_pda(seeds, program_id) == Some((a, b)),
    ensures
        spec_create_pda(seeds.push(seq![b]), program_id) == Some(a),
        1 <= b <= 255,
{
    lemma_find_bump_replays(seeds, program_id, 255, a, b);
}

proof fn lemma_find_bump_replays(seeds: Seq<Seq<u8>>, program_id: Seq<u8>, bump: int, a: Seq<u8>, b: u8)
    requires
        spec_find_bump(seeds, program_id, bump) == Some((a, b)),
        bump <= 255,
    ensures
        spec_create_pda(seeds.push(seq![b]), program_id) == Some(a),
        1 <= b <= bump,
    decreases bump,
{
    if bump < 1 {
    } else {
        match spec_create_pda(seeds.push(seq![bump as u8]), program_id) {
            Option::Some(_) => {},
            Option::None => {
                lemma_find_bump_replays(seeds, program_id, bump - 1, a, b);
            },
        }
    }
}

} // verus!
