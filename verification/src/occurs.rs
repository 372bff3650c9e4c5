//! Occurrence of the elements of one sequence in another, the relation in
//! which the laws of the scanners say that nothing inside a node is missed.
use vstd::prelude::*;

verus! {

/// Whether every element of `a` occurs somewhere in `b`.
pub open spec fn all_within<A>(a: Seq<A>, b: Seq<A>) -> bool {
    forall|k: int| 0 <= k < a.len() ==> b.contains(#[trigger] a[k])
}

/// A sequence lies within itself.
pub proof fn lemma_within_refl<A>(a: Seq<A>)
    ensures
        all_within(a, a),
{
    assert forall|k: int| 0 <= k < a.len() implies a.contains(#[trigger] a[k]) by {
        assert(a[k] == a[k]);
    }
}

/// What lies within `b` lies within `b + c`.
pub proof fn lemma_within_left<A>(a: Seq<A>, b: Seq<A>, c: Seq<A>)
    requires
        all_within(a, b),
    ensures
        all_within(a, b + c),
{
    assert forall|k: int| 0 <= k < a.len() implies (b + c).contains(#[trigger] a[k]) by {
        assert(b.contains(a[k]));
        let j = choose|j: int| 0 <= j < b.len() && b[j] == a[k];
        assert((b + c)[j] == a[k]);
    }
}

/// What lies within `c` lies within `b + c`.
pub proof fn lemma_within_right<A>(a: Seq<A>, b: Seq<A>, c: Seq<A>)
    requires
        all_within(a, c),
    ensures
        all_within(a, b + c),
{
    assert forall|k: int| 0 <= k < a.len() implies (b + c).contains(#[trigger] a[k]) by {
        assert(c.contains(a[k]));
        let j = choose|j: int| 0 <= j < c.len() && c[j] == a[k];
        assert((b + c)[b.len() + j] == a[k]);
    }
}

/// Lying within is transitive.
pub proof fn lemma_within_trans<A>(a: Seq<A>, b: Seq<A>, c: Seq<A>)
    requires
        all_within(a, b),
        all_within(b, c),
    ensures
        all_within(a, c),
{
    assert forall|k: int| 0 <= k < a.len() implies c.contains(#[trigger] a[k]) by {
        assert(b.contains(a[k]));
        let j = choose|j: int| 0 <= j < b.len() && b[j] == a[k];
        assert(c.contains(b[j]));
    }
}

} // verus!
