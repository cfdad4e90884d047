//! The source of randomness: the thread-local generator of the `rand` crate.

use vstd::prelude::*;
use rand::Rng;
use rand::ThreadRng;

verus! {

/// `rand::ThreadRng`, a handle to the generator of the current thread. Its
/// state is not visible to proofs.
#[verifier::external_type_specification]
#[verifier::external_body]
pub struct ExThreadRng(rand::ThreadRng);

/// `rand::thread_rng` hands out the handle. Nothing is claimed of it. (It
/// stops the program when the system cannot seed the generator.)
pub assume_specification[ rand::thread_rng ]() -> (rng: rand::ThreadRng);

/// `Rng::gen_range` on `i32`: for `low < high` the value drawn lies in the
/// half-open range from `low` to `high`. Which value is drawn is left open.
#[verifier::external_body]
pub(crate) fn gen_range(rng: &mut ThreadRng, low: i32, high: i32) -> (value: i32)
    requires
        low < high,
    ensures
        low <= value < high,
{
    rng.gen_range(low, high)
}

} // verus!
