use vstd::prelude::*;

use crate::program::spec_program_id;
use crate::pubkey::Pubkey;

verus! {

/// The program-derived address that the Solana program library finds for
/// `seeds` under `program_id`, with its bump seed, or `None` when no bump seed
/// gives one.
pub uninterp spec fn program_address(seeds: Seq<Seq<u8>>, program_id: Seq<u8>) -> Option<
    (Seq<u8>, u8),
>;

/// Calls `Pubkey::try_find_program_address` of `anchor_lang::prelude` on the
/// seeds and program id, converting the addresses to and from the library's
/// own key type. The contract claims only that the result is the named
/// derivation of exactly these seeds and program id.
#[verifier::external_body]
pub(crate) fn try_find_program_address(seeds: &Vec<Vec<u8>>, program_id: &Pubkey) -> (r: Option<
    (Pubkey, u8),
>)
    ensures
        match r {
            Some((key, bump)) => program_address(seeds.deep_view(), program_id.bytes@) == Some(
                (key.bytes@, bump),
            ),
            None => program_address(seeds.deep_view(), program_id.bytes@) is None,
        },
{
    let refs: Vec<&[u8]> = seeds.iter().map(|s| s.as_slice()).collect();
    let id = anchor_lang::prelude::Pubkey::new_from_array(program_id.bytes);
    match anchor_lang::prelude::Pubkey::try_find_program_address(&refs, &id) {
        Some((key, bump)) => Some((Pubkey { bytes: key.to_bytes() }, bump)),
        None => None,
    }
}

/// `r` is what the derivation gives for `seeds` under this program.
pub open spec fn derived_from(r: Option<(Pubkey, u8)>, seeds: Seq<Seq<u8>>) -> bool {
    match r {
        Some((key, bump)) => program_address(seeds, spec_program_id().bytes@) == Some(
            (key.bytes@, bump),
        ),
        None => program_address(seeds, spec_program_id().bytes@) is None,
    }
}

/// Copies the bytes of an array into a vector.
pub(crate) fn bytes_to_vec<const N: usize>(a: &[u8; N]) -> (v: Vec<u8>)
    ensures
        v@ == a@,
{
    let mut v: Vec<u8> = Vec::new();
    let mut i: usize = 0;
    while i < N
        invariant
            i <= N,
            N == a@.len(),
            v@ == a@.subrange(0, i as int),
        decreases N - i,
    {
        v.push(a[i]);
        proof {
            assert(a@.subrange(0, i + 1) =~= a@.subrange(0, i as int).push(a@[i as int]));
        }
        i = i + 1;
    }
    assert(a@.subrange(0, N as int) =~= a@);
    v
}

/// Derives the address of this program for two seeds.
pub(crate) fn find_pda2(s0: Vec<u8>, s1: Vec<u8>) -> (r: Option<(Pubkey, u8)>)
    ensures
        derived_from(r, seq![s0@, s1@]),
{
    let mut seeds: Vec<Vec<u8>> = Vec::new();
    let ghost g0 = s0@;
    let ghost g1 = s1@;
    seeds.push(s0);
    seeds.push(s1);
    assert(seeds@[0].deep_view() =~= g0);
    assert(seeds@[1].deep_view() =~= g1);
    assert(seeds.deep_view() =~= seq![g0, g1]);
    let id = crate::program::id();
    try_find_program_address(&seeds, &id)
}

/// Derives the address of this program for three seeds.
pub(crate) fn find_pda3(s0: Vec<u8>, s1: Vec<u8>, s2: Vec<u8>) -> (r: Option<(Pubkey, u8)>)
    ensures
        derived_from(r, seq![s0@, s1@, s2@]),
{
    let mut seeds: Vec<Vec<u8>> = Vec::new();
    let ghost g0 = s0@;
    let ghost g1 = s1@;
    let ghost g2 = s2@;
    seeds.push(s0);
    seeds.push(s1);
    seeds.push(s2);
    assert(seeds@[0].deep_view() =~= g0);
    assert(seeds@[1].deep_view() =~= g1);
    assert(seeds@[2].deep_view() =~= g2);
    assert(seeds.deep_view() =~= seq![g0, g1, g2]);
    let id = crate::program::id();
    try_find_program_address(&seeds, &id)
}

} // verus!
