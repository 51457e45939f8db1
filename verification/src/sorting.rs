//! Stable in-place sorting of the run table.
use vstd::prelude::*;
use crate::model::RunScalars;
use crate::order::{
    goes_after, lemma_goes_after_asym, lemma_not_after_trans, orderable, runs_out_of_order, SortColumn, SortDirection,
    SortState,
};
use crate::text::{lemma_lex_less_rank, lemma_text_rank_flip, lex_less};

verus! {

/// No run is directly followed by one that the sort state puts before it.
pub open spec fn sorted_by(s: Seq<RunScalars>, sort: SortState) -> bool {
    forall|i: int, j: int|
        #![trigger s[i], s[j]]
        0 <= i && j == i + 1 && j < s.len() ==> !goes_after(s[i], s[j], sort)
}

/// `new` holds the entries of `old` rearranged: its entry `k` is the entry
/// `p[k]` of `old`, and no entry of `old` is used twice.
pub open spec fn rearranges(p: Seq<int>, old: Seq<RunScalars>, new: Seq<RunScalars>) -> bool {
    &&& p.len() == old.len()
    &&& new.len() == old.len()
    &&& forall|k: int| 0 <= k < p.len() ==> 0 <= #[trigger] p[k] < old.len() && new[k] == old[p[k]]
    &&& forall|k: int, l: int| 0 <= k < l < p.len() ==> #[trigger] p[k] != #[trigger] p[l]
}

/// Two entries of `new` are in the reverse of their order in the original
/// (`p` gives where each came from) only when the later one goes after the
/// earlier one: entries that compare equal keep their relative order.
pub open spec fn inversions_ordered(p: Seq<int>, new: Seq<RunScalars>, sort: SortState) -> bool {
    forall|k: int, l: int|
        0 <= k < l < p.len() && #[trigger] p[k] > #[trigger] p[l] ==> goes_after(new[l], new[k], sort)
}

/// `new` is a stable rearrangement of `old` under `sort`.
pub open spec fn stable_sort_of(old: Seq<RunScalars>, new: Seq<RunScalars>, sort: SortState) -> bool {
    exists|p: Seq<int>| #[trigger] rearranges(p, old, new) && inversions_ordered(p, new, sort)
}

/// `s` with the entries at `j - 1` and `j` exchanged.
pub open spec fn swapped<T>(s: Seq<T>, j: int) -> Seq<T> {
    s.update(j - 1, s[j]).update(j, s[j - 1])
}

/// Exchanging an adjacent pair that is out of order keeps both facts.
proof fn lemma_swap_stable(p: Seq<int>, old: Seq<RunScalars>, s: Seq<RunScalars>, j: int, sort: SortState)
    requires
        0 < j < s.len(),
        rearranges(p, old, s),
        inversions_ordered(p, s, sort),
        goes_after(s[j - 1], s[j], sort),
    ensures
        rearranges(swapped(p, j), old, swapped(s, j)),
        inversions_ordered(swapped(p, j), swapped(s, j), sort),
{
    let p2 = swapped(p, j);
    let t = swapped(s, j);
    assert forall|k: int| 0 <= k < p2.len() implies 0 <= #[trigger] p2[k] < old.len() && t[k] == old[p2[k]] by {
        if k == j - 1 {
            assert(p2[k] == p[j]);
        } else if k == j {
            assert(p2[k] == p[j - 1]);
        } else {
            assert(p2[k] == p[k]);
        }
    }
    assert forall|k: int, l: int| 0 <= k < l < p2.len() implies #[trigger] p2[k] != #[trigger] p2[l] by {
        let a = if k == j - 1 { j } else if k == j { j - 1 } else { k };
        let b = if l == j - 1 { j } else if l == j { j - 1 } else { l };
        assert(p2[k] == p[a]);
        assert(p2[l] == p[b]);
        if a < b {
            assert(p[a] != p[b]);
        } else {
            assert(p[b] != p[a]);
        }
    }
    assert forall|k: int, l: int|
        0 <= k < l < p2.len() && #[trigger] p2[k] > #[trigger] p2[l] implies goes_after(t[l], t[k], sort) by {
        if k == j - 1 && l == j {
            assert(t[l] == s[j - 1]);
            assert(t[k] == s[j]);
        } else {
            let a = if k == j - 1 { j } else if k == j { j - 1 } else { k };
            let b = if l == j - 1 { j } else if l == j { j - 1 } else { l };
            assert(a < b);
            assert(p2[k] == p[a] && t[k] == s[a]);
            assert(p2[l] == p[b] && t[l] == s[b]);
            assert(p[a] > p[b]);
        }
    }
}

/// Swapping two entries leaves the multiset of entries unchanged.
proof fn lemma_swap_multiset<T>(s: Seq<T>, i: int, j: int)
    requires
        0 <= i < s.len(),
        0 <= j < s.len(),
    ensures
        s.update(i, s[j]).update(j, s[i]).to_multiset() == s.to_multiset(),
{
    broadcast use vstd::seq_lib::to_multiset_update;
    broadcast use vstd::seq_lib::to_multiset_contains;
    broadcast use vstd::multiset::group_multiset_axioms;
    let m = s.to_multiset();
    let s1 = s.update(i, s[j]);
    if i == j {
        assert(s.update(i, s[j]).update(j, s[i]) =~= s);
    } else {
        assert(s1[j] == s[j]);
        assert(s.contains(s[i]));
        assert(m.count(s[i]) > 0);
        let m1 = m.insert(s[j]).remove(s[i]);
        assert(s1.to_multiset() == m1);
        let m2 = m1.insert(s[i]).remove(s[j]);
        assert(s1.update(j, s[i]).to_multiset() == m2);
        assert(m2 =~= m);
    }
}

/// Exchanges two entries. Calls `<[T]>::swap`, which the standard library
/// documents as swapping the two elements at the given indices (panicking
/// when either is out of bounds, which `requires` rules out).
#[verifier::external_body]
pub(crate) fn swap_entries<T>(v: &mut [T], i: usize, j: usize)
    requires
        i < old(v)@.len(),
        j < old(v)@.len(),
    ensures
        final(v)@ == old(v)@.update(i as int, old(v)@[j as int]).update(j as int, old(v)@[i as int]),
{
    v.swap(i, j)
}

/// Sorts the runs in place by the column and direction of `sort`; runs that
/// compare equal keep their relative order.
pub fn sort_runs(runs: &mut [RunScalars], sort: SortState)
    ensures
        final(runs)@.to_multiset() == old(runs)@.to_multiset(),
        final(runs)@.len() == old(runs)@.len(),
        sorted_by(final(runs)@, sort),
        stable_sort_of(old(runs)@, final(runs)@, sort),
{
    let n = runs.len();
    let ghost mut p: Seq<int> = Seq::new(n as nat, |k: int| k);
    if n == 0 {
        assert(rearranges(p, old(runs)@, runs@));
        return;
    }
    let mut i: usize = 1;
    while i < n
        invariant
            1 <= i <= n,
            n == runs@.len(),
            runs@.to_multiset() == old(runs)@.to_multiset(),
            runs@.len() == old(runs)@.len(),
            sorted_by(runs@.take(i as int), sort),
            rearranges(p, old(runs)@, runs@),
            inversions_ordered(p, runs@, sort),
        decreases n - i,
    {
        let mut j: usize = i;
        assert(sorted_by(runs@.subrange(j as int, i + 1), sort));
        while j > 0 && runs_out_of_order(&runs[j - 1], &runs[j], sort)
            invariant
                0 <= j <= i < n,
                n == runs@.len(),
                runs@.to_multiset() == old(runs)@.to_multiset(),
                runs@.len() == old(runs)@.len(),
                sorted_by(runs@.take(j as int), sort),
                sorted_by(runs@.subrange(j as int, i + 1), sort),
                0 < j < i ==> !goes_after(runs@[j - 1], runs@[j + 1], sort),
                rearranges(p, old(runs)@, runs@),
                inversions_ordered(p, runs@, sort),
            decreases j,
        {
            let ghost s = runs@;
            proof {
                lemma_goes_after_asym(s[j - 1], s[j as int], sort);
                lemma_swap_multiset(s, j - 1, j as int);
                lemma_swap_stable(p, old(runs)@, s, j as int, sort);
                p = swapped(p, j as int);
            }
            swap_entries(runs, j - 1, j);
            assert(runs@ == swapped(s, j as int));
            let ghost t = runs@;
            assert(t[j - 1] == s[j as int]);
            assert(t[j as int] == s[j - 1]);
            assert forall|a: int, b: int|
                #![trigger t.take(j - 1)[a], t.take(j - 1)[b]]
                0 <= a && b == a + 1 && b < j - 1 implies !goes_after(t.take(j - 1)[a], t.take(j - 1)[b], sort) by {
                assert(t.take(j - 1)[a] == s.take(j as int)[a]);
                assert(t.take(j - 1)[b] == s.take(j as int)[b]);
            }
            let ghost u = t.subrange(j - 1, i + 1);
            let ghost w = s.subrange(j as int, i + 1);
            assert forall|a: int, b: int|
                #![trigger u[a], u[b]]
                0 <= a && b == a + 1 && b < u.len() implies !goes_after(u[a], u[b], sort) by {
                if a == 0 {
                    assert(u[a] == s[j as int]);
                    assert(u[b] == s[j - 1]);
                } else if a == 1 {
                    assert(u[a] == s[j - 1]);
                    assert(u[b] == s[j + 1]);
                } else {
                    assert(u[a] == w[a - 1]);
                    assert(u[b] == w[b - 1]);
                }
            }
            if j >= 2 {
                assert(s.take(j as int)[j - 2] == s[j - 2]);
                assert(s.take(j as int)[j - 1] == s[j - 1]);
            }
            j = j - 1;
        }
        let ghost s = runs@;
        assert forall|a: int, b: int|
            #![trigger s.take(i + 1)[a], s.take(i + 1)[b]]
            0 <= a && b == a + 1 && b < i + 1 implies !goes_after(s.take(i + 1)[a], s.take(i + 1)[b], sort) by {
            if b < j {
                assert(s.take(i + 1)[a] == s.take(j as int)[a]);
                assert(s.take(i + 1)[b] == s.take(j as int)[b]);
            } else if a >= j {
                assert(s.take(i + 1)[a] == s.subrange(j as int, i + 1)[a - j]);
                assert(s.take(i + 1)[b] == s.subrange(j as int, i + 1)[b - j]);
            } else {
                assert(a == j - 1 && b == j);
                assert(s.take(i + 1)[a] == s[j - 1]);
                assert(s.take(i + 1)[b] == s[j as int]);
            }
        }
        i = i + 1;
    }
    assert(runs@.take(n as int) =~= runs@);
    assert(rearranges(p, old(runs)@, runs@) && inversions_ordered(p, runs@, sort));
}

/// Sorting is stable: of two runs where the later does not go after the
/// earlier (they compare equal, or are already in order), the earlier came
/// first in the table before sorting too.
pub proof fn lemma_ties_keep_order(
    p: Seq<int>,
    old: Seq<RunScalars>,
    new: Seq<RunScalars>,
    sort: SortState,
    k: int,
    l: int,
)
    requires
        rearranges(p, old, new),
        inversions_ordered(p, new, sort),
        0 <= k < l < new.len(),
        !goes_after(new[l], new[k], sort),
    ensures
        p[k] < p[l],
{
    assert(p[k] != p[l]);
    if p[k] > p[l] {
        assert(goes_after(new[l], new[k], sort));
    }
}

/// A table sorted run to run is sorted throughout when every sort value is
/// comparable: no run goes after any later run.
pub proof fn lemma_sorted_globally(s: Seq<RunScalars>, sort: SortState)
    requires
        sorted_by(s, sort),
        forall|i: int| 0 <= i < s.len() ==> orderable(#[trigger] s[i], sort.column),
    ensures
        forall|i: int, j: int| 0 <= i < j < s.len() ==> !goes_after(#[trigger] s[i], #[trigger] s[j], sort),
{
    assert forall|i: int, j: int| 0 <= i < j < s.len() implies !goes_after(#[trigger] s[i], #[trigger] s[j], sort) by {
        lemma_sorted_span(s, sort, i, j);
    }
}

proof fn lemma_sorted_span(s: Seq<RunScalars>, sort: SortState, i: int, j: int)
    requires
        sorted_by(s, sort),
        forall|k: int| 0 <= k < s.len() ==> orderable(#[trigger] s[k], sort.column),
        0 <= i < j < s.len(),
    ensures
        !goes_after(s[i], s[j], sort),
    decreases j - i,
{
    let k = j - 1;
    assert(!goes_after(s[k], s[j], sort));
    if k > i {
        lemma_sorted_span(s, sort, i, k);
        assert(orderable(s[i], sort.column));
        assert(orderable(s[k], sort.column));
        assert(orderable(s[j], sort.column));
        lemma_not_after_trans(s[i], s[k], s[j], sort);
    }
}

/// The status a run shows in the table: its status text, empty when missing.
pub open spec fn shown_status(r: RunScalars) -> Seq<char> {
    match r.status {
        Some(t) => t@,
        None => Seq::empty(),
    }
}

/// A table sorted by the status column follows dictionary order of the status
/// texts (empty when missing): ascending, no run is directly followed by one
/// whose status comes strictly before its own; descending, none by one whose
/// status comes strictly after.
pub proof fn lemma_status_sort_is_text_order(s: Seq<RunScalars>, direction: SortDirection, i: int)
    requires
        sorted_by(s, SortState { column: SortColumn::Status, direction }),
        0 <= i,
        i + 1 < s.len(),
    ensures
        direction == SortDirection::Asc ==> !lex_less(shown_status(s[i + 1]), shown_status(s[i])),
        direction == SortDirection::Desc ==> !lex_less(shown_status(s[i]), shown_status(s[i + 1])),
{
    let sort = SortState { column: SortColumn::Status, direction };
    let a = shown_status(s[i]);
    let b = shown_status(s[i + 1]);
    assert(!goes_after(s[i], s[i + 1], sort));
    lemma_text_rank_flip(a, b);
    if direction == SortDirection::Asc && lex_less(b, a) {
        lemma_lex_less_rank(b, a);
    }
    if direction == SortDirection::Desc && lex_less(a, b) {
        lemma_lex_less_rank(a, b);
    }
}

/// A table sorted by the name column follows dictionary order of the run
/// names: ascending, no run is directly followed by one whose name comes
/// strictly before its own; descending, none by one whose name comes after.
pub proof fn lemma_name_sort_is_text_order(s: Seq<RunScalars>, direction: SortDirection, i: int)
    requires
        sorted_by(s, SortState { column: SortColumn::Name, direction }),
        0 <= i,
        i + 1 < s.len(),
    ensures
        direction == SortDirection::Asc ==> !lex_less(s[i + 1].name@, s[i].name@),
        direction == SortDirection::Desc ==> !lex_less(s[i].name@, s[i + 1].name@),
{
    let sort = SortState { column: SortColumn::Name, direction };
    let a = s[i].name@;
    let b = s[i + 1].name@;
    assert(!goes_after(s[i], s[i + 1], sort));
    lemma_text_rank_flip(a, b);
    if direction == SortDirection::Asc && lex_less(b, a) {
        lemma_lex_less_rank(b, a);
    }
    if direction == SortDirection::Desc && lex_less(a, b) {
        lemma_lex_less_rank(a, b);
    }
}

/// Epoch `a` comes strictly before epoch `b`: a missing epoch before any
/// known one, known epochs by value.
pub open spec fn epoch_before(a: Option<i64>, b: Option<i64>) -> bool {
    (a is None && b is Some) || (a is Some && b is Some && a->0 < b->0)
}

/// A table sorted by the epoch column follows the epochs: ascending, no run is
/// directly followed by one with an earlier epoch (a missing epoch is earliest);
/// descending, none by one with a later epoch.
pub proof fn lemma_epoch_sort_order(s: Seq<RunScalars>, direction: SortDirection, i: int)
    requires
        sorted_by(s, SortState { column: SortColumn::Epoch, direction }),
        0 <= i,
        i + 1 < s.len(),
    ensures
        direction == SortDirection::Asc ==> !epoch_before(s[i + 1].last_epoch, s[i].last_epoch),
        direction == SortDirection::Desc ==> !epoch_before(s[i].last_epoch, s[i + 1].last_epoch),
{
    assert(!goes_after(s[i], s[i + 1], SortState { column: SortColumn::Epoch, direction }));
}

} // verus!
