use crate::grid_world::Direction;
use rand::seq::IteratorRandom;
use rand::Rng;
use vstd::prelude::*;

verus! {

/// Relies on rand's `Rng::gen_range` on the thread-local generator: a value of
/// the half-open range `low..high`, which must not be empty.
#[verifier::external_body]
pub(crate) fn random_in_range(low: i32, high: i32) -> (r: i32)
    requires
        low < high,
    ensures
        low <= r < high,
{
    rand::thread_rng().gen_range(low..high)
}

/// Relies on rand's `IteratorRandom::choose_multiple` on the thread-local
/// generator: asked for one item of a non-empty sequence, it hands back one of
/// its items.
#[verifier::external_body]
pub(crate) fn choose_one(options: &Vec<Direction>) -> (r: Direction)
    requires
        options@.len() > 0,
    ensures
        options@.contains(r),
{
    **options.iter().choose_multiple(&mut rand::thread_rng(), 1).first().unwrap()
}

} // verus!
