//! Views of sequences, options and results, shared by the other modules.

use vstd::prelude::*;

verus! {

/// The views of the items of a sequence, one for one.
pub open spec fn each_view<T: View>(items: Seq<T>) -> Seq<T::V> {
    Seq::new(items.len(), |i: int| items[i]@)
}

/// The view of what an `Option` holds.
pub open spec fn option_view<T: View>(value: Option<T>) -> Option<T::V> {
    match value {
        Some(inner) => Some(inner@),
        None => None,
    }
}

/// The view of what a `Result` holds, on either side.
pub open spec fn result_view<T: View, E: View>(value: Result<T, E>) -> Result<T::V, E::V> {
    match value {
        Ok(inner) => Ok(inner@),
        Err(e) => Err(e@),
    }
}

/// Viewing one more item appends its view.
pub proof fn lemma_each_view_push<T: View>(items: Seq<T>, item: T)
    ensures
        each_view(items.push(item)) == each_view(items).push(item@),
{
    assert(each_view(items.push(item)) =~= each_view(items).push(item@));
}

} // verus!
