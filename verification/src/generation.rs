//! Generation: draws three parts at random until they make a creature that
//! does not exist yet, and gives up after a fixed number of attempts.

use vstd::prelude::*;
use crate::dinos::{DinoTable, Herd, tuple_of};
use crate::parts::{DinoParts, Fragments, PartKind, choose_parts};
use crate::text::file_name_of;

verus! {

/// The number of draws after which generation gives up.
pub const MAX_GENERATION_ATTEMPTS: usize = 20;

/// No draw made a new creature.
#[derive(Debug, Clone, Copy, PartialEq, Eq, Structural)]
pub struct ExhaustedAttempts;

/// Whether no creature of `herd` is made of parts that `fragments` offer,
/// so that every draw makes a new one.
pub open spec fn every_draw_is_new(fragments: Fragments, herd: Herd) -> bool {
    forall|body: Seq<char>, mouth: Seq<char>, eyes: Seq<char>|
        #![trigger fragments.pool(PartKind::Body).contains(body), fragments.pool(PartKind::Mouth).contains(mouth), fragments.pool(PartKind::Eyes).contains(eyes)]
        fragments.pool(PartKind::Body).contains(body) && fragments.pool(PartKind::Mouth).contains(
            mouth,
        ) && fragments.pool(PartKind::Eyes).contains(eyes) ==> !herd.has_tuple(
            (file_name_of(body), file_name_of(mouth), file_name_of(eyes)),
        )
}

/// Whether the draw at `i` counts and makes a creature that `herd` does
/// not hold.
pub open spec fn new_at(herd: Herd, draws: Seq<DinoParts>, i: int) -> bool {
    0 <= i < draws.len() && i < MAX_GENERATION_ATTEMPTS && !herd.has_tuple(tuple_of(draws[i]))
}

/// Draws `count` times from the pools.
pub fn draw_parts(fragments: &Fragments, count: usize) -> (draws: Vec<DinoParts>)
    requires
        fragments.wf(),
    ensures
        draws.len() == count,
        forall|i: int|
            0 <= i < draws.len() ==> fragments.offers(#[trigger] draws[i]) && draws[i].named(),
{
    let mut draws: Vec<DinoParts> = Vec::new();
    while draws.len() < count
        invariant
            fragments.wf(),
            draws.len() <= count,
            forall|i: int|
                0 <= i < draws.len() ==> fragments.offers(#[trigger] draws[i]) && draws[i].named(),
        decreases count - draws.len(),
    {
        draws.push(choose_parts(fragments));
    }
    draws
}

/// Picks from `draws`, in their order, the first that makes a creature
/// which `table` does not hold. Only the first `MAX_GENERATION_ATTEMPTS`
/// draws count: where all of them are held, nothing is picked.
pub fn first_new(table: &DinoTable, draws: &Vec<DinoParts>) -> (found: Option<usize>)
    requires
        forall|i: int|
            0 <= i < draws.len() && i < MAX_GENERATION_ATTEMPTS ==> (#[trigger] draws[i]).has_paths(),
    ensures
        match found {
            Some(at) => new_at(table@, draws@, at as int) && forall|j: int|
                0 <= j < at ==> !new_at(table@, draws@, j),
            None => forall|j: int| !new_at(table@, draws@, j),
        },
{
    let mut tries: usize = 0;
    while tries < MAX_GENERATION_ATTEMPTS && tries < draws.len()
        invariant
            tries <= MAX_GENERATION_ATTEMPTS,
            tries <= draws.len(),
            forall|i: int|
                0 <= i < draws.len() && i < MAX_GENERATION_ATTEMPTS ==> (
                #[trigger] draws[i]).has_paths(),
            forall|j: int| 0 <= j < tries ==> !new_at(table@, draws@, j),
        decreases draws.len() - tries,
    {
        if !table.are_parts_duplicate(&draws[tries]) {
            return Some(tries);
        }
        tries += 1;
    }
    None
}

/// Draws `MAX_GENERATION_ATTEMPTS` times and gives the first draw that
/// makes a creature which `table` does not hold. What is drawn is left to
/// chance; what comes back is made of parts from the pools, carries the
/// name that they spell, and is new. Where every draw is new, one comes
/// back.
pub fn generate_dino(table: &DinoTable, fragments: &Fragments) -> (result: Result<
    DinoParts,
    ExhaustedAttempts,
>)
    requires
        fragments.wf(),
    ensures
        result matches Ok(parts) ==> fragments.offers(parts) && parts.named() && !table@.has_tuple(
            tuple_of(parts),
        ),
        every_draw_is_new(*fragments, table@) ==> result is Ok,
{
    let draws = draw_parts(fragments, MAX_GENERATION_ATTEMPTS);
    match first_new(table, &draws) {
        Some(at) => Ok(draws[at].duplicate()),
        None => {
            proof {
                let first = draws@[0];
                assert(fragments.offers(first) && first.named());
                assert(!new_at(table@, draws@, 0));
            }
            Err(ExhaustedAttempts)
        },
    }
}

} // verus!
