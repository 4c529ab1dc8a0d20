//! Keccak-256 digests and the byte strings they are taken over.

use vstd::prelude::*;

verus! {

/// The Keccak-256 digest that `solana_program::keccak::hashv` returns for a
/// list of byte strings. The digest is a function of the list alone.
pub uninterp spec fn keccak_hashv(parts: Seq<Seq<u8>>) -> Seq<u8>;

/// Calls `solana_program::keccak::hashv` (reached through `anchor_lang`) on
/// the parts, in order, and returns the 32 bytes of the digest. Nothing is
/// claimed of the digest beyond its being the one named by `keccak_hashv`.
#[verifier::external_body]
pub(crate) fn hashv(parts: &Vec<Vec<u8>>) -> (digest: [u8; 32])
    ensures
        digest@ == keccak_hashv(parts.deep_view()),
{
    let slices: Vec<&[u8]> = parts.iter().map(|part| part.as_slice()).collect();
    anchor_lang::solana_program::keccak::hashv(&slices).to_bytes()
}

/// The view of a list of byte strings is the list of their views.
pub proof fn lemma_deep_view_bytes(parts: Vec<Vec<u8>>)
    ensures
        parts.deep_view() == parts@.map_values(|part: Vec<u8>| part@),
{
    let mapped = parts@.map_values(|part: Vec<u8>| part@);
    assert(parts.deep_view().len() == mapped.len());
    assert forall|i: int| 0 <= i < mapped.len() implies parts.deep_view()[i] == mapped[i] by {
        assert(parts@[i].deep_view() =~= parts@[i]@);
    }
    assert(parts.deep_view() =~= mapped);
}

/// The digest of one byte string.
pub fn hash_one(a: Vec<u8>) -> (digest: [u8; 32])
    ensures
        digest@ == keccak_hashv(seq![a@]),
{
    let mut parts: Vec<Vec<u8>> = Vec::new();
    parts.push(a);
    proof {
        lemma_deep_view_bytes(parts);
        assert(parts@.map_values(|part: Vec<u8>| part@) =~= seq![a@]);
    }
    hashv(&parts)
}

/// The digest of two byte strings, in order.
pub fn hash_two(a: Vec<u8>, b: Vec<u8>) -> (digest: [u8; 32])
    ensures
        digest@ == keccak_hashv(seq![a@, b@]),
{
    let mut parts: Vec<Vec<u8>> = Vec::new();
    parts.push(a);
    parts.push(b);
    proof {
        lemma_deep_view_bytes(parts);
        assert(parts@.map_values(|part: Vec<u8>| part@) =~= seq![a@, b@]);
    }
    hashv(&parts)
}

/// The digest of three byte strings, in order.
pub fn hash_three(a: Vec<u8>, b: Vec<u8>, c: Vec<u8>) -> (digest: [u8; 32])
    ensures
        digest@ == keccak_hashv(seq![a@, b@, c@]),
{
    let mut parts: Vec<Vec<u8>> = Vec::new();
    parts.push(a);
    parts.push(b);
    parts.push(c);
    proof {
        lemma_deep_view_bytes(parts);
        assert(parts@.map_values(|part: Vec<u8>| part@) =~= seq![a@, b@, c@]);
    }
    hashv(&parts)
}

} // verus!
