use rand::Rng;
use vstd::prelude::*;

verus! {

/// rand's `StdRng`, held opaque: the seedable random source that every random
/// draw of the library goes through.
#[verifier::external_type_specification]
#[verifier::external_body]
pub struct ExStdRng(rand::rngs::StdRng);

/// Relies on rand's `Rng::gen_range` over a half-open integer range: it panics
/// when `low >= high` and otherwise returns a value in `[low, high)`.
#[verifier::external_body]
pub(crate) fn gen_range_u64(rng: &mut rand::rngs::StdRng, low: u64, high: u64) -> (r: u64)
    requires
        low < high,
    ensures
        low <= r < high,
{
    rng.gen_range(low..high)
}

} // verus!
