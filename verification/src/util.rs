//! Random numbers.

use vstd::prelude::*;

verus! {

/// A random `usize` from the thread-local generator of `rand`
/// (`rand::random::<usize>()`). Nothing is promised of the value.
#[verifier::external_body]
pub(crate) fn random_usize() -> usize {
    rand::random::<usize>()
}

/// A random byte from the thread-local generator of `rand`
/// (`rand::random::<u8>()`). Nothing is promised of the value.
#[verifier::external_body]
pub(crate) fn random_u8() -> u8 {
    rand::random::<u8>()
}

} // verus!
