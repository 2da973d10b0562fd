//! Finding the first item of a sequence that has some property.

use vstd::prelude::*;

verus! {

/// Index of the first of `items` that is `wanted`; the length of `items` where
/// none is.
pub open spec fn first_where<T>(items: Seq<T>, wanted: spec_fn(T) -> bool) -> nat
    decreases items.len(),
{
    if items.len() == 0 {
        0
    } else if wanted(items[0]) {
        0
    } else {
        1 + first_where(items.drop_first(), wanted)
    }
}

/// `first_where` is in range, no earlier item is wanted, and the one it points
/// at is.
pub proof fn lemma_first_where<T>(items: Seq<T>, wanted: spec_fn(T) -> bool)
    ensures
        first_where(items, wanted) <= items.len(),
        forall|j: int| 0 <= j < first_where(items, wanted) ==> !wanted(#[trigger] items[j]),
        first_where(items, wanted) < items.len() ==> wanted(
            items[first_where(items, wanted) as int],
        ),
    decreases items.len(),
{
    if items.len() > 0 && !wanted(items[0]) {
        let rest = items.drop_first();
        lemma_first_where(rest, wanted);
        assert forall|j: int| 0 <= j < first_where(items, wanted) implies !wanted(
            #[trigger] items[j],
        ) by {
            if j > 0 {
                assert(items[j] == rest[j - 1]);
            }
        }
        if first_where(items, wanted) < items.len() {
            assert(rest[first_where(rest, wanted) as int] == items[first_where(items, wanted) as int]);
        }
    }
}

/// A position that holds a wanted item, with none before it that does, is the
/// one `first_where` gives; so is the length, where no item is wanted.
pub proof fn lemma_first_where_is<T>(items: Seq<T>, wanted: spec_fn(T) -> bool, at: int)
    requires
        0 <= at <= items.len(),
        forall|j: int| 0 <= j < at ==> !wanted(#[trigger] items[j]),
        at < items.len() ==> wanted(items[at]),
    ensures
        first_where(items, wanted) == at,
{
    lemma_first_where(items, wanted);
}

} // verus!
