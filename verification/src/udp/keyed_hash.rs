//! BLAKE3 in keyed mode, as a message authentication code.

use vstd::prelude::*;

verus! {

/// `blake3::Hasher`, an incremental hash state.
#[verifier::external_type_specification]
#[verifier::external_body]
pub struct ExHasher(blake3::Hasher);

/// The key that `hasher` was made with.
pub uninterp spec fn hasher_key(hasher: blake3::Hasher) -> Seq<u8>;

/// The bytes that `hasher` holds: all that it was given since it was made or reset.
pub uninterp spec fn hasher_input(hasher: blake3::Hasher) -> Seq<u8>;

/// The first `len` bytes of the extended output of keyed BLAKE3.
pub uninterp spec fn keyed_hash_output(key: Seq<u8>, input: Seq<u8>, len: nat) -> Seq<u8>;

/// `blake3::Hasher::new_keyed`: a hasher with the key given, which holds no input.
#[verifier::external_body]
pub(crate) fn new_keyed(key: &[u8; 32]) -> (hasher: blake3::Hasher)
    ensures
        hasher_key(hasher) == key@,
        hasher_input(hasher) == Seq::<u8>::empty(),
{
    blake3::Hasher::new_keyed(key)
}

/// `blake3::Hasher::update`: the bytes given are added behind the input held. The key stays.
#[verifier::external_body]
pub(crate) fn update(hasher: &mut blake3::Hasher, bytes: &[u8])
    ensures
        hasher_key(*final(hasher)) == hasher_key(*old(hasher)),
        hasher_input(*final(hasher)) == hasher_input(*old(hasher)) + bytes@,
{
    hasher.update(bytes);
}

/// `blake3::Hasher::finalize_xof`, and `fill` on the reader that it returns: the first four
/// bytes of the extended output, which depend on the key and the input held alone.
#[verifier::external_body]
pub(crate) fn finalize_xof(hasher: &blake3::Hasher) -> (output: [u8; 4])
    ensures
        output@ == keyed_hash_output(hasher_key(*hasher), hasher_input(*hasher), 4),
{
    let mut output = [0u8; 4];
    hasher.finalize_xof().fill(&mut output);
    output
}

/// `blake3::Hasher::reset`: the input held is forgotten. The key stays.
#[verifier::external_body]
pub(crate) fn reset(hasher: &mut blake3::Hasher)
    ensures
        hasher_key(*final(hasher)) == hasher_key(*old(hasher)),
        hasher_input(*final(hasher)) == Seq::<u8>::empty(),
{
    hasher.reset();
}

/// `blake3::Hasher::clone`: a hasher with the same key, which holds the same input.
#[verifier::external_body]
pub(crate) fn clone_hasher(hasher: &blake3::Hasher) -> (copy: blake3::Hasher)
    ensures
        hasher_key(copy) == hasher_key(*hasher),
        hasher_input(copy) == hasher_input(*hasher),
{
    hasher.clone()
}

} // verus!
