//! The one place where chance enters.

use vstd::prelude::*;

verus! {

/// `rand::seq::SliceRandom::choose` with the thread's generator: one of the
/// items, each with the same chance, or `None` where there is none to choose
/// from. Which item comes back is not promised.
#[verifier::external_body]
pub(crate) fn pick<T>(items: &Vec<T>) -> (r: Option<&T>)
    ensures
        items@.len() == 0 ==> r is None,
        items@.len() > 0 ==> r is Some && items@.contains(*r.unwrap()),
{
    rand::seq::SliceRandom::choose(items.as_slice(), &mut rand::thread_rng())
}

} // verus!
