//! Small facts about sequences used by the cache and selection logic.
use vstd::prelude::*;

verus! {

/// Index of the first element of `s` that satisfies `p`.
pub open spec fn first_match<T>(s: Seq<T>, p: spec_fn(T) -> bool) -> Option<int>
    decreases s.len(),
{
    if s.len() == 0 {
        None
    } else if p(s[0]) {
        Some(0)
    } else {
        match first_match(s.skip(1), p) {
            Some(k) => Some(k + 1),
            None => None,
        }
    }
}

/// The first match is the earliest element that satisfies `p`.
pub proof fn lemma_first_match_at<T>(s: Seq<T>, p: spec_fn(T) -> bool, i: int)
    requires
        0 <= i < s.len(),
        p(s[i]),
        forall|j: int| 0 <= j < i ==> !p(#[trigger] s[j]),
    ensures
        first_match(s, p) == Some(i),
    decreases i,
{
    if i > 0 {
        assert(!p(s[0]));
        let t = s.skip(1);
        assert forall|j: int| 0 <= j < i - 1 implies !p(#[trigger] t[j]) by {
            assert(t[j] == s[j + 1]);
        }
        lemma_first_match_at(t, p, i - 1);
    }
}

/// No element satisfies `p`, so there is no first match.
pub proof fn lemma_first_match_none<T>(s: Seq<T>, p: spec_fn(T) -> bool)
    requires
        forall|j: int| 0 <= j < s.len() ==> !p(#[trigger] s[j]),
    ensures
        first_match(s, p) is None,
    decreases s.len(),
{
    if s.len() > 0 {
        assert(!p(s[0]));
        let t = s.skip(1);
        assert forall|j: int| 0 <= j < t.len() implies !p(#[trigger] t[j]) by {
            assert(t[j] == s[j + 1]);
        }
        lemma_first_match_none(t, p);
    }
}

/// A first match lies inside `s`, satisfies `p`, and nothing before it does.
pub proof fn lemma_first_match_props<T>(s: Seq<T>, p: spec_fn(T) -> bool)
    ensures
        match first_match(s, p) {
            Some(k) => 0 <= k < s.len() && p(s[k]) && forall|j: int| 0 <= j < k ==> !p(#[trigger] s[j]),
            None => forall|j: int| 0 <= j < s.len() ==> !p(#[trigger] s[j]),
        },
    decreases s.len(),
{
    if s.len() > 0 {
        let t = s.skip(1);
        lemma_first_match_props(t, p);
        if !p(s[0]) {
            match first_match(t, p) {
                Some(k) => {
                    assert forall|j: int| 0 <= j < k + 1 implies !p(#[trigger] s[j]) by {
                        if j > 0 {
                            assert(s[j] == t[j - 1]);
                        }
                    }
                    assert(s[k + 1] == t[k]);
                },
                None => {
                    assert forall|j: int| 0 <= j < s.len() implies !p(#[trigger] s[j]) by {
                        if j > 0 {
                            assert(s[j] == t[j - 1]);
                        }
                    }
                },
            }
        }
    }
}

/// Number of elements of `s` that satisfy `p`.
pub open spec fn count_matching<T>(s: Seq<T>, p: spec_fn(T) -> bool) -> nat
    decreases s.len(),
{
    if s.len() == 0 {
        0
    } else {
        count_matching(s.drop_last(), p) + if p(s.last()) { 1nat } else { 0nat }
    }
}

pub proof fn lemma_count_le_len<T>(s: Seq<T>, p: spec_fn(T) -> bool)
    ensures
        count_matching(s, p) <= s.len(),
    decreases s.len(),
{
    if s.len() > 0 {
        lemma_count_le_len(s.drop_last(), p);
    }
}

/// `filter` keeps exactly the satisfying elements, so it shrinks unless all satisfy.
pub proof fn lemma_filter_len<T>(s: Seq<T>, p: spec_fn(T) -> bool)
    ensures
        s.filter(p).len() <= s.len(),
        s.filter(p).len() == s.len() <==> forall|j: int| 0 <= j < s.len() ==> p(#[trigger] s[j]),
    decreases s.len(),
{
    reveal(Seq::filter);
    if s.len() > 0 {
        let d = s.drop_last();
        lemma_filter_len(d, p);
        assert(s.filter(p) == (if p(s.last()) { d.filter(p).push(s.last()) } else { d.filter(p) }));
        if forall|j: int| 0 <= j < s.len() ==> p(#[trigger] s[j]) {
            assert forall|j: int| 0 <= j < d.len() implies p(#[trigger] d[j]) by {
                assert(d[j] == s[j]);
            }
        }
        if !p(s.last()) {
            assert(!p(s[s.len() - 1]));
        } else if forall|j: int| 0 <= j < d.len() ==> p(#[trigger] d[j]) {
            assert forall|j: int| 0 <= j < s.len() implies p(#[trigger] s[j]) by {
                if j < d.len() {
                    assert(d[j] == s[j]);
                }
            }
        }
    }
}

/// Filtering the sequence extended by one element.
pub proof fn lemma_filter_push<T>(s: Seq<T>, p: spec_fn(T) -> bool, x: T)
    ensures
        s.push(x).filter(p) == (if p(x) { s.filter(p).push(x) } else { s.filter(p) }),
{
    reveal(Seq::filter);
    assert(s.push(x).drop_last() =~= s);
}

/// Counting over the sequence extended by one element.
pub proof fn lemma_count_push<T>(s: Seq<T>, p: spec_fn(T) -> bool, x: T)
    ensures
        count_matching(s.push(x), p) == count_matching(s, p) + if p(x) { 1nat } else { 0nat },
{
    assert(s.push(x).drop_last() =~= s);
}

} // verus!
