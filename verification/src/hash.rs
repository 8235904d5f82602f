use vstd::prelude::*;

verus! {

/// The Keccak-256 digest of `data`, as the keccak module of the Solana
/// program library computes it.
pub uninterp spec fn keccak256(data: Seq<u8>) -> Seq<u8>;

/// Calls `anchor_lang::solana_program::keccak::hash` and returns the digest's
/// bytes. The contract claims only that the bytes are the Keccak-256 digest of
/// the input (named, not restated); that they are 32 comes from the type.
#[verifier::external_body]
pub(crate) fn keccak_hash(data: &[u8]) -> (r: [u8; 32])
    ensures
        r@ == keccak256(data@),
{
    anchor_lang::solana_program::keccak::hash(data).to_bytes()
}

/// Appends every byte of `src` to `out`.
pub(crate) fn push_all(out: &mut Vec<u8>, src: &[u8; 32])
    ensures
        final(out)@ == old(out)@ + src@,
{
    let ghost start = out@;
    let mut i: usize = 0;
    while i < 32
        invariant
            i <= 32,
            out@ == start + src@.subrange(0, i as int),
        decreases 32 - i,
    {
        out.push(src[i]);
        proof {
            assert(src@.subrange(0, i + 1) =~= src@.subrange(0, i as int).push(src@[i as int]));
        }
        i = i + 1;
    }
    assert(src@.subrange(0, 32) =~= src@);
}

} // verus!
