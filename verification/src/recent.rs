//! Newest-first selection from a sequence held oldest first: what the
//! history and session queries return, and the facts their scans rest on.

use vstd::prelude::*;

verus! {

/// The elements of `s` that satisfy `pred`, last first, cut to at most
/// `limit` of them.
pub open spec fn latest_matching<T>(s: Seq<T>, pred: spec_fn(T) -> bool, limit: nat) -> Seq<T> {
    let hits = s.filter(pred).reverse();
    if hits.len() <= limit {
        hits
    } else {
        hits.take(limit as int)
    }
}

/// The values behind a sequence of references.
pub open spec fn targets<T>(refs: Seq<&T>) -> Seq<T> {
    refs.map_values(|r: &T| *r)
}

/// Reversal turns a concatenation round.
pub proof fn lemma_reverse_add<T>(a: Seq<T>, b: Seq<T>)
    ensures
        (a + b).reverse() == b.reverse() + a.reverse(),
{
    assert((a + b).reverse() =~= b.reverse() + a.reverse());
}

/// Moving the start of a scan one element towards the front adds that
/// element, if it matches, at the end of what was selected.
pub proof fn lemma_scan_step<T>(s: Seq<T>, pred: spec_fn(T) -> bool, i: int)
    requires
        0 < i <= s.len(),
    ensures
        s.skip(i - 1).filter(pred).reverse() == if pred(s[i - 1]) {
            s.skip(i).filter(pred).reverse().push(s[i - 1])
        } else {
            s.skip(i).filter(pred).reverse()
        },
{
    let x = s[i - 1];
    let rest = s.skip(i);
    assert(s.skip(i - 1) =~= seq![x] + rest);
    rest.lemma_filter_prepend(x, pred);
    let head = if pred(x) {
        seq![x]
    } else {
        Seq::<T>::empty()
    };
    lemma_reverse_add(head, rest.filter(pred));
    assert(head.reverse() =~= head);
    if pred(x) {
        assert(rest.filter(pred).reverse() + head =~= rest.filter(pred).reverse().push(x));
    } else {
        assert(rest.filter(pred).reverse() + head =~= rest.filter(pred).reverse());
    }
}

/// A scan from the back may stop as soon as it has reached the front or has
/// selected `limit` elements: what it holds then is the answer.
pub proof fn lemma_scan_done<T>(s: Seq<T>, pred: spec_fn(T) -> bool, limit: nat, i: int)
    requires
        0 <= i <= s.len(),
        s.skip(i).filter(pred).len() <= limit,
        i == 0 || s.skip(i).filter(pred).len() == limit,
    ensures
        latest_matching(s, pred, limit) == s.skip(i).filter(pred).reverse(),
{
    let front = s.take(i);
    let back = s.skip(i);
    assert(s =~= front + back);
    Seq::filter_distributes_over_add(front, back, pred);
    lemma_reverse_add(front.filter(pred), back.filter(pred));
    let hits = s.filter(pred).reverse();
    let selected = back.filter(pred).reverse();
    assert(hits == selected + front.filter(pred).reverse());
    if i == 0 {
        assert(front =~= Seq::<T>::empty());
        reveal(Seq::filter);
        assert(front.filter(pred) =~= Seq::<T>::empty());
        assert(hits =~= selected);
    } else {
        if hits.len() > limit {
            assert(hits.take(limit as int) =~= selected);
        } else {
            assert(hits =~= selected);
        }
    }
}

} // verus!
