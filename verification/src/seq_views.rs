//! Views of sequences of values, element by element.
use vstd::prelude::*;

verus! {

/// The view of each element, in order.
pub open spec fn views<A: View>(s: Seq<A>) -> Seq<A::V> {
    s.map_values(|a: A| a@)
}

/// Taking the first element off a sequence whose views are a suffix of `all`
/// (from index `i`): that element views as `all[i]`, and the rest are the suffix
/// from `i + 1`.
pub proof fn lemma_views_after_front_removal<A: View>(before: Seq<A>, all: Seq<A::V>, i: int)
    requires
        0 <= i < all.len(),
        views(before) == all.skip(i),
    ensures
        before[0]@ == all[i],
        views(before.remove(0)) == all.skip(i + 1),
{
    assert(views(before).len() == before.len());
    assert(views(before)[0] == before[0]@);
    assert(views(before)[0] == all.skip(i)[0]);
    let after = before.remove(0);
    assert(after =~= before.subrange(1, before.len() as int));
    assert forall|k: int| 0 <= k < after.len() implies views(after)[k] == all.skip(i + 1)[k] by {
        assert(after[k] == before[k + 1]);
        assert(views(after)[k] == after[k]@);
        assert(views(before)[k + 1] == before[k + 1]@);
        assert(views(before)[k + 1] == all.skip(i)[k + 1]);
    }
    assert(views(after) =~= all.skip(i + 1));
}

} // verus!
