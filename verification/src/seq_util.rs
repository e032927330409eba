//! Facts about `Seq::filter` and the loops that compute one.
use vstd::prelude::*;

verus! {

/// Filtering a sequence with one more element at the end.
pub proof fn lemma_filter_push<A>(s: Seq<A>, pred: spec_fn(A) -> bool, x: A)
    ensures
        s.push(x).filter(pred) == (if pred(x) {
            s.filter(pred).push(x)
        } else {
            s.filter(pred)
        }),
{
    reveal(Seq::filter);
    assert(s.push(x).drop_last() =~= s);
}

/// Filtering the empty sequence.
pub proof fn lemma_filter_empty<A>(s: Seq<A>, pred: spec_fn(A) -> bool)
    requires
        s.len() == 0,
    ensures
        s.filter(pred) == s,
{
    reveal(Seq::filter);
}

/// Taking one more element of `s` is pushing it.
pub proof fn lemma_take_push<A>(s: Seq<A>, i: int)
    requires
        0 <= i < s.len(),
    ensures
        s.take(i + 1) == s.take(i).push(s[i]),
{
    assert(s.take(i + 1) =~= s.take(i).push(s[i]));
}

} // verus!
