//! Facts about sequences that the loops of this crate rest on.

use vstd::prelude::*;

verus! {

/// Filtering one more element keeps it exactly when it satisfies `pred`.
pub proof fn lemma_filter_step<A>(s: Seq<A>, pred: spec_fn(A) -> bool, i: int)
    requires
        0 <= i < s.len(),
    ensures
        s.take(i + 1).filter(pred) == if pred(s[i]) {
            s.take(i).filter(pred).push(s[i])
        } else {
            s.take(i).filter(pred)
        },
        s.take(i + 1).filter(pred).len() <= i + 1,
{
    reveal(Seq::filter);
    assert(s.take(i + 1).drop_last() =~= s.take(i));
    assert(s.take(i + 1).last() == s[i]);
    lemma_filter_len(s.take(i + 1), pred);
}

/// A filter never yields more than it was given.
pub proof fn lemma_filter_len<A>(s: Seq<A>, pred: spec_fn(A) -> bool)
    ensures
        s.filter(pred).len() <= s.len(),
    decreases s.len(),
{
    reveal(Seq::filter);
    if s.len() > 0 {
        lemma_filter_len(s.drop_last(), pred);
    }
}

/// A filter yields nothing exactly when no element satisfies `pred`.
pub proof fn lemma_filter_empty<A>(s: Seq<A>, pred: spec_fn(A) -> bool)
    ensures
        s.filter(pred).len() == 0 <==> forall|i: int| 0 <= i < s.len() ==> !pred(#[trigger] s[i]),
    decreases s.len(),
{
    reveal(Seq::filter);
    if s.len() > 0 {
        let rest = s.drop_last();
        lemma_filter_empty(rest, pred);
        if s.filter(pred).len() == 0 {
            assert forall|i: int| 0 <= i < s.len() implies !pred(#[trigger] s[i]) by {
                if i < s.len() - 1 {
                    assert(rest[i] == s[i]);
                }
            }
        } else {
            if !pred(s.last()) {
                let j = choose|j: int| 0 <= j < rest.len() && pred(#[trigger] rest[j]);
                assert(s[j] == rest[j]);
            }
        }
    }
}

} // verus!
