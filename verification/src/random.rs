//! Chance: the only place where the library draws random numbers.

use rand::seq::SliceRandom;
use rand::Rng;
use vstd::prelude::*;

verus! {

/// Calls rand: `Rng::gen_range` with the inclusive range `low..=high`, on
/// the generator that `thread_rng` hands out. The contract claims that the
/// number drawn lies in that range, and nothing about which one it is.
#[verifier::external_body]
pub(crate) fn random_between(low: u64, high: u64) -> (drawn: u64)
    requires
        low <= high,
    ensures
        low <= drawn <= high,
{
    rand::thread_rng().gen_range(low..=high)
}

/// Calls rand: `SliceRandom::choose` on the pool, with the generator that
/// `thread_rng` hands out. The contract claims that an empty pool gives
/// `None` and any other pool one of its own items, and nothing about which.
#[verifier::external_body]
pub(crate) fn choose_from<'a>(pool: &'a Vec<String>) -> (drawn: Option<&'a String>)
    ensures
        pool.len() == 0 ==> drawn is None,
        pool.len() > 0 ==> drawn is Some,
        drawn matches Some(item) ==> exists|i: int| 0 <= i < pool.len() && pool@[i] == *item,
{
    pool.choose(&mut rand::thread_rng())
}

} // verus!
