//! Tools of the specifications: the value of a result, the first item of a
//! kind in a sequence, and sequences put together in another order.

use vstd::prelude::*;

verus! {

/// The mathematical value of a `Result`: that of what it holds, on either side.
pub open spec fn result_view<T: DeepView, E: DeepView>(r: Result<T, E>) -> Result<T::V, E::V> {
    match r {
        Ok(t) => Ok(t.deep_view()),
        Err(e) => Err(e.deep_view()),
    }
}

/// The place of the first item of `items` that `wanted` holds of.
pub open spec fn first_where<T>(items: Seq<T>, wanted: spec_fn(T) -> bool) -> Option<int>
    decreases items.len(),
{
    if items.len() == 0 {
        None
    } else if wanted(items[0]) {
        Some(0)
    } else {
        match first_where(items.skip(1), wanted) {
            Some(i) => Some(i + 1),
            None => None,
        }
    }
}

/// What `first_where` finds is an item that `wanted` holds of, the first of
/// them; it finds none only where there is none.
pub proof fn lemma_first_where<T>(items: Seq<T>, wanted: spec_fn(T) -> bool)
    ensures
        match first_where(items, wanted) {
            Some(i) => 0 <= i < items.len() && wanted(items[i]) && forall|j: int|
                0 <= j < i ==> !wanted(#[trigger] items[j]),
            None => forall|j: int| 0 <= j < items.len() ==> !wanted(#[trigger] items[j]),
        },
    decreases items.len(),
{
    if items.len() > 0 && !wanted(items[0]) {
        let rest = items.skip(1);
        lemma_first_where(rest, wanted);
        assert forall|j: int| 0 < j < items.len() implies #[trigger] items[j] == rest[j - 1] by {}
    }
}

/// One item goes from the front of what is left to the end of what is done.
pub proof fn lemma_push_front<T>(done: Seq<T>, item: T, left: Seq<T>)
    ensures
        done + (seq![item] + left) == done.push(item) + left,
{
    assert(done + (seq![item] + left) =~= done.push(item) + left);
}

/// Some items go from the front of what is left to the end of what is done.
pub proof fn lemma_append_front<T>(done: Seq<T>, items: Seq<T>, left: Seq<T>)
    ensures
        done + (items + left) == (done + items) + left,
{
    assert(done + (items + left) =~= (done + items) + left);
}

} // verus!
