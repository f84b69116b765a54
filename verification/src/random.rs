//! The random source: `rand`'s thread-local generator and the two draws that the
//! library makes from it. Nothing in this file is proved; each contract states
//! what `rand` documents.

use rand::rngs::ThreadRng;
use rand::seq::SliceRandom;
use rand::Rng;
use vstd::prelude::*;

verus! {

/// `rand::rngs::ThreadRng`, a handle to the generator of the current thread.
/// Nothing is known of its state.
#[verifier::external_type_specification]
#[verifier::external_body]
pub struct ExThreadRng(ThreadRng);

/// `rand::thread_rng` hands out the generator of the current thread. Nothing is
/// claimed of it; it panics only where the operating system gives no seed.
pub assume_specification[ rand::thread_rng ]() -> (rng: ThreadRng);

/// `picked` lists the items that `pool` holds at `places`, and no place occurs
/// twice.
pub open spec fn selects(places: Seq<int>, picked: Seq<i64>, pool: Seq<i64>) -> bool {
    &&& places.len() == picked.len()
    &&& places.no_duplicates()
    &&& forall|i: int|
        0 <= i < places.len() ==> 0 <= #[trigger] places[i] < pool.len() && picked[i]
            == pool[places[i]]
}

/// `picked` lists items of `pool`, each taken from a place of its own.
pub open spec fn is_selection(picked: Seq<i64>, pool: Seq<i64>) -> bool {
    exists|places: Seq<int>| selects(places, picked, pool)
}

/// `SliceRandom::choose_multiple`, collected: `amount` items of the pool (all of
/// them where the pool has fewer), taken at random from distinct places, in
/// random order.
///
/// For a pool too long for 32-bit indices `rand` samples by rejection and
/// asserts that fewer items are drawn than the pool holds: that case is left
/// out.
#[verifier::external_body]
pub(crate) fn choose_multiple(rng: &mut ThreadRng, pool: &Vec<i64>, amount: usize) -> (picked: Vec<
    i64,
>)
    requires
        pool.len() <= u32::MAX || amount < pool.len(),
    ensures
        picked.len() == if amount <= pool.len() {
            amount
        } else {
            pool.len()
        },
        is_selection(picked@, pool@),
{
    pool.choose_multiple(rng, amount).cloned().collect()
}

/// `Rng::gen_range` on `0..bound`: some index below `bound`. An empty range
/// panics, so `bound` is positive.
#[verifier::external_body]
pub(crate) fn gen_index(rng: &mut ThreadRng, bound: usize) -> (index: usize)
    requires
        bound > 0,
    ensures
        index < bound,
{
    rng.gen_range(0..bound)
}

} // verus!
