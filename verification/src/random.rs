//! The random draws that the library makes itself, from the thread-local
//! generator of the `rand` crate, which the system seeds. Nothing is proved
//! of these two functions: their contracts restate what `rand` documents.

use rand::seq::IteratorRandom;
use rand::Rng;
use vstd::prelude::*;

verus! {

/// Picks one index below `len` with `rand::seq::IteratorRandom::choose` on
/// the range `0..len`, drawing from `rand::thread_rng()`.
///
/// Assumed of `choose`: it returns `None` exactly for an empty iterator and
/// otherwise one of the iterator's items, here an index below `len`. Which
/// index comes back is not specified.
#[verifier::external_body]
pub(crate) fn choose_index(len: usize) -> (picked: Option<usize>)
    ensures
        len == 0 ==> picked is None,
        len > 0 ==> picked is Some && picked->0 < len,
{
    (0..len).choose(&mut rand::thread_rng())
}

/// Draws a number with `rand::Rng::gen_range` on the inclusive range from
/// `low` to `high`, drawing from `rand::thread_rng()`.
///
/// Assumed of `gen_range`: the value lies in the given range, both ends
/// included. Which value comes back is not specified. `gen_range` panics
/// on an empty range, which the precondition rules out.
#[verifier::external_body]
pub(crate) fn draw_in_range(low: u32, high: u32) -> (drawn: u32)
    requires
        low <= high,
    ensures
        low <= drawn <= high,
{
    rand::thread_rng().gen_range(low..=high)
}

} // verus!
