//! The one source of chance.

use vstd::prelude::*;

verus! {

/// A number from the random generator of the running thread, by
/// `rand::random::<u32>()`. Nothing is claimed of the number: two calls may
/// give any two values.
#[verifier::external_body]
pub(crate) fn random_u32() -> (draw: u32) {
    rand::random::<u32>()
}

} // verus!
