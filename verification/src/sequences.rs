//! Facts about sequences that the ledger's proofs rest on.

use vstd::prelude::*;

verus! {

/// A sequence extended by `last` holds what it held before, and `last`.
pub proof fn lemma_push_members<A>(s: Seq<A>, last: A)
    ensures
        forall|x: A| #[trigger] s.push(last).contains(x) <==> s.contains(x) || x == last,
{
    let longer = s.push(last);
    assert forall|x: A| #[trigger] longer.contains(x) <==> s.contains(x) || x == last by {
        if longer.contains(x) {
            let i = choose|i: int| 0 <= i < longer.len() && longer[i] == x;
            if i < s.len() {
                assert(s[i] == x);
            }
        }
        if s.contains(x) {
            let i = choose|i: int| 0 <= i < s.len() && s[i] == x;
            assert(longer[i] == x);
        }
        assert(longer[s.len() as int] == last);
    }
}

/// A sequence without duplicates, extended by a value that it does not
/// hold, is again without duplicates.
pub proof fn lemma_push_no_duplicates<A>(s: Seq<A>, last: A)
    requires
        s.no_duplicates(),
        !s.contains(last),
    ensures
        s.push(last).no_duplicates(),
{
    let longer = s.push(last);
    assert forall|i: int, j: int|
        0 <= i < longer.len() && 0 <= j < longer.len() && i != j implies longer[i]
        != longer[j] by {
        if i < s.len() {
            assert(s.contains(s[i]));
        }
        if j < s.len() {
            assert(s.contains(s[j]));
        }
    }
}

/// Filtering a sequence that ends in `last` either keeps `last` at the end
/// or drops it, and treats what stands before it as it would alone.
pub proof fn lemma_filter_push<A>(s: Seq<A>, last: A, pred: spec_fn(A) -> bool)
    ensures
        s.push(last).filter(pred) == if pred(last) {
            s.filter(pred).push(last)
        } else {
            s.filter(pred)
        },
{
    reveal(Seq::filter);
    assert(s.push(last).drop_last() =~= s);
}

/// A filter hands out exactly what the sequence held and the test passed.
pub proof fn lemma_filter_members<A>(s: Seq<A>, pred: spec_fn(A) -> bool)
    ensures
        forall|x: A| #[trigger] s.filter(pred).contains(x) <==> s.contains(x) && pred(x),
    decreases s.len(),
{
    if s.len() == 0 {
        reveal(Seq::filter);
    } else {
        let front = s.drop_last();
        assert(front.push(s.last()) =~= s);
        lemma_filter_members(front, pred);
        lemma_filter_push(front, s.last(), pred);
        lemma_push_members(front, s.last());
        lemma_push_members(front.filter(pred), s.last());
    }
}

/// Filtering a sequence without duplicates leaves one without duplicates.
pub proof fn lemma_filter_no_duplicates<A>(s: Seq<A>, pred: spec_fn(A) -> bool)
    requires
        s.no_duplicates(),
    ensures
        s.filter(pred).no_duplicates(),
    decreases s.len(),
{
    if s.len() == 0 {
        reveal(Seq::filter);
    } else {
        let front = s.drop_last();
        assert(front.push(s.last()) =~= s);
        lemma_filter_no_duplicates(front, pred);
        lemma_filter_members(front, pred);
        lemma_filter_push(front, s.last(), pred);
        if front.contains(s.last()) {
            let i = choose|i: int| 0 <= i < front.len() && front[i] == s.last();
            assert(s[i] == s[s.len() - 1]);
        }
        if pred(s.last()) {
            lemma_push_no_duplicates(front.filter(pred), s.last());
        }
    }
}

/// A filter whose test every element passes changes nothing.
pub proof fn lemma_filter_keeps_all<A>(s: Seq<A>, pred: spec_fn(A) -> bool)
    requires
        forall|x: A| s.contains(x) ==> pred(x),
    ensures
        s.filter(pred) == s,
    decreases s.len(),
{
    if s.len() == 0 {
        reveal(Seq::filter);
        assert(s.filter(pred) =~= s);
    } else {
        let front = s.drop_last();
        assert(front.push(s.last()) =~= s);
        lemma_push_members(front, s.last());
        assert(front.push(s.last()).contains(s.last()));
        assert forall|x: A| front.contains(x) implies pred(x) by {
            assert(front.push(s.last()).contains(x));
        }
        lemma_filter_keeps_all(front, pred);
        lemma_filter_push(front, s.last(), pred);
    }
}

} // verus!
