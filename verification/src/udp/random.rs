//! Randomness of the operating system.

use vstd::prelude::*;

verus! {

/// `getrandom::Error`, why no random bytes could be had.
#[verifier::external_type_specification]
#[verifier::external_body]
pub struct ExRandomError(getrandom::Error);

/// `getrandom::getrandom`: an array filled with random bytes, or an error. Nothing is claimed
/// of either.
#[verifier::external_body]
pub(crate) fn random_key() -> (key: Result<[u8; 32], getrandom::Error>) {
    let mut key = [0; 32];
    getrandom::getrandom(&mut key)?;
    Ok(key)
}

} // verus!
