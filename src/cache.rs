//! Adopting a precomputed search tree fetched from the remote table store.
use vstd::prelude::*;

verus! {

/// What a fetch of a precomputed tree came back with.
pub enum Fetch<T> {
    Found(T),
    NotFound,
    TransportError,
}

/// The working tree after a fetch: a found tree replaces it wholesale, a miss
/// of either kind leaves it as it was.
pub open spec fn adopted<T>(working: T, fetched: Fetch<T>) -> T {
    match fetched {
        Fetch::Found(t) => t,
        _ => working,
    }
}

/// Replaces `working` with a found tree; returns whether that happened.
pub fn adopt_fetched<T>(working: &mut T, fetched: Fetch<T>) -> (hit: bool)
    ensures
        *final(working) == adopted(*old(working), fetched),
        hit == (fetched is Found),
{
    match fetched {
        Fetch::Found(t) => {
            *working = t;
            true
        },
        _ => false,
    }
}

/// A cache hit replaces rather than merges: adopting the same fetched tree
/// twice in a row leaves what adopting it once did, whatever was there before.
pub proof fn lemma_adopt_idempotent<T>(working: T, t: T)
    ensures
        adopted(adopted(working, Fetch::Found(t)), Fetch::Found(t)) == adopted(
            working,
            Fetch::Found(t),
        ),
        adopted(working, Fetch::Found(t)) == t,
{
}

} // verus!
