//! The topology explorer's run picker: one row per viewable checkpoint file
//! (or, without any, one per summary run), sorted by label and filtered by the
//! search text.
use vstd::prelude::*;
use crate::eligible::{eligible_spec, viz_eligible_checkpoint};
use crate::explorer::matches_ckpt;
use crate::health::{lm_run, run_is_lm, Tone};
use crate::model::{FloatBits, RunScalars, RunsSummary};
use crate::seqs::{first_match, lemma_filter_push, lemma_first_match_at, lemma_first_match_none};
use crate::text::{
    ascii_lower_seq, chars_contains, chars_of, has_infix, lemma_text_rank_flip, lemma_text_rank_trans, lower_chars, opt_is, push_char,
    push_str, text_compare, text_rank,
};
use crate::topology::run_matches_checkpoint;
use crate::vizmodel::{CheckpointFile, CheckpointRun, CheckpointsResp};

verus! {

/// The substrate badge of a row.
#[derive(Debug, Clone, Copy, PartialEq, Eq, Structural)]
pub enum Badge {
    /// No summary run matches.
    Dash,
    /// A language-model run.
    Lm,
    /// A canvas-substrate run.
    Canvas,
    /// Any other run.
    Recon,
}

/// One row of the picker.
#[derive(Debug, Clone, PartialEq)]
pub struct PickerRow {
    pub fleet: String,
    pub pod: String,
    pub run: String,
    /// The checkpoint file (empty for a summary run).
    pub file: String,
    /// `pod:run`.
    pub label: String,
    /// The file's PSNR, else the run's best value.
    pub best: Option<FloatBits>,
    pub badge: Badge,
}

/// A row's contents: fleet, pod, run, file, label, best value and badge.
pub type RowView = (Seq<char>, Seq<char>, Seq<char>, Seq<char>, Seq<char>, Option<FloatBits>, Badge);

/// The contents of a row.
pub open spec fn row_view(r: PickerRow) -> RowView {
    (r.fleet@, r.pod@, r.run@, r.file@, r.label@, r.best, r.badge)
}

/// The contents of rows, in order.
pub open spec fn rows_view(s: Seq<PickerRow>) -> Seq<RowView> {
    s.map_values(|r: PickerRow| row_view(r))
}

/// Whether a run's substrate is a canvas.
pub open spec fn canvas_run(run: RunScalars) -> bool {
    run.runspec is Some && run.runspec->0.substrate_kind is Some && run.runspec->0.substrate_kind->0@
        == "canvas"@
}

/// The badge for the summary run a row matches, if any.
pub open spec fn badge_of(run: Option<RunScalars>) -> Badge {
    match run {
        None => Badge::Dash,
        Some(r) => if lm_run(r) {
            Badge::Lm
        } else if canvas_run(r) {
            Badge::Canvas
        } else {
            Badge::Recon
        },
    }
}

/// The badge for the summary run a row matches (see [`badge_of`]).
pub fn substrate_badge(run: Option<&RunScalars>) -> (r: Badge)
    ensures
        r == badge_of(
            match run {
                Some(x) => Some(*x),
                None => None,
            },
        ),
{
    match run {
        None => Badge::Dash,
        Some(r) => if run_is_lm(r) {
            Badge::Lm
        } else {
            let canvas = match &r.runspec {
                Some(rs) => opt_is(&rs.substrate_kind, "canvas"),
                None => false,
            };
            if canvas {
                Badge::Canvas
            } else {
                Badge::Recon
            }
        },
    }
}

impl Badge {
    /// The badge's tone: a warning for a language model, good for a canvas.
    pub fn tone(&self) -> (r: Tone)
        ensures
            r == match *self {
                Badge::Lm => Tone::Warn,
                Badge::Canvas => Tone::Good,
                _ => Tone::Neutral,
            },
    {
        match self {
            Badge::Lm => Tone::Warn,
            Badge::Canvas => Tone::Good,
            _ => Tone::Neutral,
        }
    }

    /// The badge's text.
    pub fn label(&self) -> (r: &'static str)
        ensures
            r@ == match *self {
                Badge::Dash => "\u{2014}"@,
                Badge::Lm => "LM"@,
                Badge::Canvas => "CVS"@,
                Badge::Recon => "REC"@,
            },
    {
        match self {
            Badge::Dash => "\u{2014}",
            Badge::Lm => "LM",
            Badge::Canvas => "CVS",
            Badge::Recon => "REC",
        }
    }
}

/// `pod:run`.
pub open spec fn label_text(pod: Seq<char>, run: Seq<char>) -> Seq<char> {
    pod + seq![':'] + run
}

/// The summary run a checkpoint's rows describe: the first one matching it.
pub open spec fn scalar_for(runs: Seq<RunScalars>, ck: CheckpointRun) -> Option<RunScalars> {
    match first_match(runs, matches_ckpt(ck.pod@, ck.run@)) {
        Some(i) => Some(runs[i]),
        None => None,
    }
}

/// The row of a checkpoint file.
pub open spec fn file_row(ck: CheckpointRun, f: CheckpointFile, scalar: Option<RunScalars>) -> RowView {
    (
        ck.fleet@,
        ck.pod@,
        ck.run@,
        f.filename@,
        label_text(ck.pod@, ck.run@),
        match f.psnr {
            Some(x) => Some(x),
            None => match scalar {
                Some(s) => s.best,
                None => None,
            },
        },
        badge_of(scalar),
    )
}

/// The rows of a checkpoint's viewable files, in file order.
pub open spec fn file_rows(ck: CheckpointRun, files: Seq<CheckpointFile>, scalar: Option<RunScalars>) -> Seq<RowView>
    decreases files.len(),
{
    if files.len() == 0 {
        Seq::empty()
    } else {
        let rest = file_rows(ck, files.drop_last(), scalar);
        if eligible_spec(ck, files.last(), scalar) {
            rest.push(file_row(ck, files.last(), scalar))
        } else {
            rest
        }
    }
}

/// The rows of all checkpoints, in order.
pub open spec fn ck_rows(cks: Seq<CheckpointRun>, runs: Seq<RunScalars>) -> Seq<RowView>
    decreases cks.len(),
{
    if cks.len() == 0 {
        Seq::empty()
    } else {
        let ck = cks.last();
        ck_rows(cks.drop_last(), runs) + file_rows(ck, ck.files@, scalar_for(runs, ck))
    }
}

/// The row of a summary run.
pub open spec fn summary_row(r: RunScalars) -> RowView {
    (r.fleet@, r.pod@, r.name@, Seq::empty(), label_text(r.pod@, r.name@), r.best, badge_of(Some(r)))
}

/// The rows before sorting: the checkpoints' rows, else one per summary run.
pub open spec fn built_rows(runs: Seq<RunScalars>, cks: Seq<CheckpointRun>) -> Seq<RowView> {
    if ck_rows(cks, runs).len() == 0 {
        runs.map_values(|r: RunScalars| summary_row(r))
    } else {
        ck_rows(cks, runs)
    }
}

/// A row matches the lower-cased search text `q`: `q` is empty, or its label,
/// pod, run, file or fleet contains it (ASCII case ignored).
pub open spec fn row_matches(q: Seq<char>) -> spec_fn(RowView) -> bool {
    |r: RowView|
        q.len() == 0 || has_infix(ascii_lower_seq(r.4), q) || has_infix(ascii_lower_seq(r.1), q) || has_infix(
            ascii_lower_seq(r.2),
            q,
        ) || has_infix(ascii_lower_seq(r.3), q) || has_infix(ascii_lower_seq(r.0), q)
}

/// `a`'s label sorts after `b`'s.
pub open spec fn label_after(a: RowView, b: RowView) -> bool {
    text_rank(a.4, b.4) > 0
}

/// No row is directly followed by one whose label sorts before its own.
pub open spec fn sorted_by_label(s: Seq<RowView>) -> bool {
    forall|i: int, j: int| #![trigger s[i], s[j]] 0 <= i && j == i + 1 && j < s.len() ==> !label_after(s[i], s[j])
}

/// `new` holds the rows of `old` rearranged: its row `k` is the row `p[k]`
/// of `old`, and no row of `old` is used twice.
pub open spec fn rows_rearranged(p: Seq<int>, old: Seq<RowView>, new: Seq<RowView>) -> bool {
    &&& p.len() == old.len()
    &&& new.len() == old.len()
    &&& forall|k: int| 0 <= k < p.len() ==> 0 <= #[trigger] p[k] < old.len() && new[k] == old[p[k]]
    &&& forall|k: int, l: int| 0 <= k < l < p.len() ==> #[trigger] p[k] != #[trigger] p[l]
}

/// Two rows are in the reverse of their original order only when the later
/// one's label sorts after the earlier one's: equal labels keep their order.
pub open spec fn label_inversions_ordered(p: Seq<int>, new: Seq<RowView>) -> bool {
    forall|k: int, l: int| 0 <= k < l < p.len() && #[trigger] p[k] > #[trigger] p[l] ==> label_after(new[l], new[k])
}

/// `new` is `old` sorted by label, rows with equal labels in their order.
pub open spec fn stable_label_sort(old: Seq<RowView>, new: Seq<RowView>) -> bool {
    sorted_by_label(new) && exists|p: Seq<int>| #[trigger] rows_rearranged(p, old, new) && label_inversions_ordered(p, new)
}


/// Every row's label sorts at or before every later row's.
pub open spec fn labels_ordered(s: Seq<RowView>) -> bool {
    forall|i: int, j: int| 0 <= i < j < s.len() ==> text_rank(#[trigger] s[i].4, #[trigger] s[j].4) <= 0
}

/// Rows sorted pair by pair are in label order throughout.
pub proof fn lemma_label_sorted_globally(s: Seq<RowView>)
    requires
        sorted_by_label(s),
    ensures
        labels_ordered(s),
{
    assert forall|i: int, j: int| 0 <= i < j < s.len() implies text_rank(#[trigger] s[i].4, #[trigger] s[j].4) <= 0 by {
        lemma_label_span(s, i, j);
    }
}

proof fn lemma_label_span(s: Seq<RowView>, i: int, j: int)
    requires
        sorted_by_label(s),
        0 <= i < j < s.len(),
    ensures
        text_rank(s[i].4, s[j].4) <= 0,
    decreases j - i,
{
    let k = j - 1;
    assert(!label_after(s[k], s[j]));
    if k > i {
        lemma_label_span(s, i, k);
        lemma_text_rank_trans(s[i].4, s[k].4, s[j].4);
    }
}

/// The picker's rows for the summary runs, the checkpoints and the search
/// text: the built rows sorted by label, then those matching the search.
pub open spec fn picker_rows_of(runs: Seq<RunScalars>, cks: Seq<CheckpointRun>, query: Seq<char>, out: Seq<RowView>) -> bool {
    exists|sorted: Seq<RowView>|
        #[trigger] stable_label_sort(built_rows(runs, cks), sorted) && out == sorted.filter(
            row_matches(ascii_lower_seq(query)),
        )
}

/// The runs of an optional summary.
pub open spec fn summary_runs(s: Option<RunsSummary>) -> Seq<RunScalars> {
    match s {
        Some(x) => x.runs@,
        None => Seq::empty(),
    }
}

/// The checkpoint runs of an optional listing.
pub open spec fn checkpoint_runs(c: Option<CheckpointsResp>) -> Seq<CheckpointRun> {
    match c {
        Some(x) => x.runs@,
        None => Seq::empty(),
    }
}

/// `s` with the entries at `j - 1` and `j` exchanged.
pub open spec fn swapped_at<T>(s: Seq<T>, j: int) -> Seq<T> {
    s.update(j - 1, s[j]).update(j, s[j - 1])
}

proof fn lemma_label_swap(p: Seq<int>, old: Seq<RowView>, s: Seq<RowView>, j: int)
    requires
        0 < j < s.len(),
        rows_rearranged(p, old, s),
        label_inversions_ordered(p, s),
        label_after(s[j - 1], s[j]),
    ensures
        rows_rearranged(swapped_at(p, j), old, swapped_at(s, j)),
        label_inversions_ordered(swapped_at(p, j), swapped_at(s, j)),
{
    let p2 = swapped_at(p, j);
    let t = swapped_at(s, j);
    assert forall|k: int| 0 <= k < p2.len() implies 0 <= #[trigger] p2[k] < old.len() && t[k] == old[p2[k]] by {
        if k == j - 1 {
            assert(p2[k] == p[j]);
        } else if k == j {
            assert(p2[k] == p[j - 1]);
        } else {
            assert(p2[k] == p[k]);
        }
    }
    assert forall|k: int, l: int| 0 <= k < l < p2.len() implies #[trigger] p2[k] != #[trigger] p2[l] by {
        let a = if k == j - 1 { j } else if k == j { j - 1 } else { k };
        let b = if l == j - 1 { j } else if l == j { j - 1 } else { l };
        assert(p2[k] == p[a]);
        assert(p2[l] == p[b]);
        if a < b {
            assert(p[a] != p[b]);
        } else {
            assert(p[b] != p[a]);
        }
    }
    assert forall|k: int, l: int| 0 <= k < l < p2.len() && #[trigger] p2[k] > #[trigger] p2[l] implies label_after(
        t[l],
        t[k],
    ) by {
        if k == j - 1 && l == j {
            assert(t[l] == s[j - 1]);
            assert(t[k] == s[j]);
        } else {
            let a = if k == j - 1 { j } else if k == j { j - 1 } else { k };
            let b = if l == j - 1 { j } else if l == j { j - 1 } else { l };
            assert(a < b);
            assert(p2[k] == p[a] && t[k] == s[a]);
            assert(p2[l] == p[b] && t[l] == s[b]);
            assert(p[a] > p[b]);
        }
    }
}

/// Sorts rows by label; rows with equal labels keep their order.
fn sort_by_label(rows: &mut Vec<PickerRow>)
    ensures
        stable_label_sort(rows_view(old(rows)@), rows_view(final(rows)@)),
{
    let n = rows.len();
    let ghost orig = rows_view(rows@);
    let ghost mut p: Seq<int> = Seq::new(n as nat, |k: int| k);
    if n == 0 {
        assert(rows_rearranged(p, orig, rows_view(rows@)));
        return;
    }
    let mut i: usize = 1;
    while i < n
        invariant
            1 <= i <= n,
            n == rows@.len(),
            orig == rows_view(old(rows)@),
            sorted_by_label(rows_view(rows@).take(i as int)),
            rows_rearranged(p, orig, rows_view(rows@)),
            label_inversions_ordered(p, rows_view(rows@)),
        decreases n - i,
    {
        let mut j: usize = i;
        assert(sorted_by_label(rows_view(rows@).subrange(j as int, i + 1)));
        while j > 0 && text_compare(rows[j - 1].label.as_str(), rows[j].label.as_str()) > 0
            invariant
                0 <= j <= i < n,
                n == rows@.len(),
                orig == rows_view(old(rows)@),
                sorted_by_label(rows_view(rows@).take(j as int)),
                sorted_by_label(rows_view(rows@).subrange(j as int, i + 1)),
                0 < j < i ==> !label_after(rows_view(rows@)[j - 1], rows_view(rows@)[j + 1]),
                rows_rearranged(p, orig, rows_view(rows@)),
                label_inversions_ordered(p, rows_view(rows@)),
            decreases j,
        {
            let ghost s = rows_view(rows@);
            assert(s[j - 1] == row_view(rows@[j - 1]));
            assert(s[j as int] == row_view(rows@[j as int]));
            proof {
                lemma_text_rank_flip(s[j - 1].4, s[j as int].4);
                lemma_label_swap(p, orig, s, j as int);
                p = swapped_at(p, j as int);
            }
            let ghost before = rows@;
            crate::sorting::swap_entries(rows.as_mut_slice(), j - 1, j);
            assert(rows_view(rows@) =~= swapped_at(s, j as int)) by {
                assert(rows@ == before.update(j - 1, before[j as int]).update(j as int, before[j - 1]));
            }
            let ghost t = rows_view(rows@);
            assert(t[j - 1] == s[j as int]);
            assert(t[j as int] == s[j - 1]);
            assert forall|a: int, b: int|
                #![trigger t.take(j - 1)[a], t.take(j - 1)[b]]
                0 <= a && b == a + 1 && b < j - 1 implies !label_after(t.take(j - 1)[a], t.take(j - 1)[b]) by {
                assert(t.take(j - 1)[a] == s.take(j as int)[a]);
                assert(t.take(j - 1)[b] == s.take(j as int)[b]);
            }
            let ghost u = t.subrange(j - 1, i + 1);
            let ghost w = s.subrange(j as int, i + 1);
            assert forall|a: int, b: int| #![trigger u[a], u[b]] 0 <= a && b == a + 1 && b < u.len() implies !label_after(
                u[a],
                u[b],
            ) by {
                if a == 0 {
                    assert(u[a] == s[j as int]);
                    assert(u[b] == s[j - 1]);
                } else if a == 1 {
                    assert(u[a] == s[j - 1]);
                    assert(u[b] == s[j + 1]);
                } else {
                    assert(u[a] == w[a - 1]);
                    assert(u[b] == w[b - 1]);
                }
            }
            if j >= 2 {
                assert(s.take(j as int)[j - 2] == s[j - 2]);
                assert(s.take(j as int)[j - 1] == s[j - 1]);
            }
            j = j - 1;
        }
        let ghost s = rows_view(rows@);
        if j > 0 {
            assert(s[j - 1] == row_view(rows@[j - 1]));
            assert(s[j as int] == row_view(rows@[j as int]));
        }
        assert forall|a: int, b: int|
            #![trigger s.take(i + 1)[a], s.take(i + 1)[b]]
            0 <= a && b == a + 1 && b < i + 1 implies !label_after(s.take(i + 1)[a], s.take(i + 1)[b]) by {
            if b < j {
                assert(s.take(i + 1)[a] == s.take(j as int)[a]);
                assert(s.take(i + 1)[b] == s.take(j as int)[b]);
            } else if a >= j {
                assert(s.take(i + 1)[a] == s.subrange(j as int, i + 1)[a - j]);
                assert(s.take(i + 1)[b] == s.subrange(j as int, i + 1)[b - j]);
            } else {
                assert(a == j - 1 && b == j);
                assert(s.take(i + 1)[a] == s[j - 1]);
                assert(s.take(i + 1)[b] == s[j as int]);
            }
        }
        i = i + 1;
    }
    assert(rows_view(rows@).take(n as int) =~= rows_view(rows@));
    assert(rows_rearranged(p, orig, rows_view(rows@)) && label_inversions_ordered(p, rows_view(rows@)));
}

/// The first summary run matching a checkpoint (see [`scalar_for`]).
fn first_scalar<'a>(runs: &'a [RunScalars], ck: &CheckpointRun) -> (r: Option<&'a RunScalars>)
    ensures
        match r {
            Some(x) => scalar_for(runs@, *ck) == Some(*x),
            None => scalar_for(runs@, *ck) is None,
        },
{
    let ghost p = matches_ckpt(ck.pod@, ck.run@);
    let mut i: usize = 0;
    while i < runs.len()
        invariant
            i <= runs.len(),
            p == matches_ckpt(ck.pod@, ck.run@),
            forall|j: int| 0 <= j < i ==> !p(#[trigger] runs@[j]),
        decreases runs.len() - i,
    {
        if run_matches_checkpoint(&runs[i], ck.pod.as_str(), ck.run.as_str()) {
            proof {
                lemma_first_match_at(runs@, p, i as int);
            }
            return Some(&runs[i]);
        }
        i = i + 1;
    }
    proof {
        lemma_first_match_none(runs@, p);
    }
    None
}

fn label_of(pod: &String, run: &String) -> (r: String)
    ensures
        r@ == label_text(pod@, run@),
{
    let mut s = pod.clone();
    push_char(&mut s, ':');
    push_str(&mut s, run.as_str());
    s
}

/// The rows of all checkpoints (see [`ck_rows`]).
fn checkpoint_rows(runs: &[RunScalars], cks: &[CheckpointRun]) -> (r: Vec<PickerRow>)
    ensures
        rows_view(r@) == ck_rows(cks@, runs@),
{
    let mut out: Vec<PickerRow> = Vec::new();
    let mut c: usize = 0;
    while c < cks.len()
        invariant
            c <= cks@.len(),
            rows_view(out@) == ck_rows(cks@.take(c as int), runs@),
        decreases cks.len() - c,
    {
        let ck = &cks[c];
        let scalar = first_scalar(runs, ck);
        let ghost sc = match scalar {
            Some(x) => Some(*x),
            None => None,
        };
        assert(sc == scalar_for(runs@, *ck));
        let ghost base = rows_view(out@);
        let mut k: usize = 0;
        assert(ck.files@.take(0) =~= Seq::<CheckpointFile>::empty());
        while k < ck.files.len()
            invariant
                k <= ck.files@.len(),
                c < cks@.len(),
                *ck == cks@[c as int],
                sc == scalar_for(runs@, *ck),
                sc == match scalar {
                    Some(x) => Some(*x),
                    None => None,
                },
                base == ck_rows(cks@.take(c as int), runs@),
                rows_view(out@) == base + file_rows(*ck, ck.files@.take(k as int), sc),
            decreases ck.files.len() - k,
        {
            let f = &ck.files[k];
            assert(ck.files@.take(k + 1).drop_last() =~= ck.files@.take(k as int));
            assert(ck.files@.take(k + 1).last() == *f);
            if viz_eligible_checkpoint(ck, f, scalar) {
                let best = match f.psnr {
                    Some(x) => Some(x),
                    None => match scalar {
                        Some(s) => s.best,
                        None => None,
                    },
                };
                let row = PickerRow {
                    fleet: ck.fleet.clone(),
                    pod: ck.pod.clone(),
                    run: ck.run.clone(),
                    file: f.filename.clone(),
                    label: label_of(&ck.pod, &ck.run),
                    best,
                    badge: substrate_badge(scalar),
                };
                let ghost prev = out@;
                out.push(row);
                assert(rows_view(out@) =~= rows_view(prev).push(row_view(row)));
                assert(row_view(row) == file_row(*ck, *f, sc));
                assert(base + file_rows(*ck, ck.files@.take(k + 1), sc) =~= (base + file_rows(
                    *ck,
                    ck.files@.take(k as int),
                    sc,
                )).push(file_row(*ck, *f, sc)));
            }
            k = k + 1;
        }
        assert(ck.files@.take(ck.files@.len() as int) =~= ck.files@);
        assert(cks@.take(c + 1).drop_last() =~= cks@.take(c as int));
        assert(cks@.take(c + 1).last() == *ck);
        c = c + 1;
    }
    assert(cks@.take(cks@.len() as int) =~= cks@);
    out
}

/// The rows before sorting (see [`built_rows`]).
fn build_rows(runs: &[RunScalars], cks: &[CheckpointRun]) -> (r: Vec<PickerRow>)
    ensures
        rows_view(r@) == built_rows(runs@, cks@),
{
    let rows = checkpoint_rows(runs, cks);
    if rows.len() > 0 {
        return rows;
    }
    let mut out: Vec<PickerRow> = Vec::new();
    let mut i: usize = 0;
    while i < runs.len()
        invariant
            i <= runs@.len(),
            rows_view(out@) == runs@.take(i as int).map_values(|r: RunScalars| summary_row(r)),
        decreases runs.len() - i,
    {
        let r = &runs[i];
        let row = PickerRow {
            fleet: r.fleet.clone(),
            pod: r.pod.clone(),
            run: r.name.clone(),
            file: String::new(),
            label: label_of(&r.pod, &r.name),
            best: r.best,
            badge: substrate_badge(Some(r)),
        };
        let ghost prev = out@;
        out.push(row);
        assert(rows_view(out@) =~= rows_view(prev).push(row_view(row)));
        assert(runs@.take(i + 1).map_values(|r: RunScalars| summary_row(r)) =~= runs@.take(i as int).map_values(
            |r: RunScalars| summary_row(r),
        ).push(summary_row(*r)));
        i = i + 1;
    }
    assert(runs@.take(runs@.len() as int) =~= runs@);
    out
}

fn copy_row(r: &PickerRow) -> (c: PickerRow)
    ensures
        c == *r,
{
    PickerRow {
        fleet: r.fleet.clone(),
        pod: r.pod.clone(),
        run: r.run.clone(),
        file: r.file.clone(),
        label: r.label.clone(),
        best: r.best,
        badge: r.badge,
    }
}

fn field_has(field: &String, q: &[char]) -> (r: bool)
    ensures
        r == has_infix(ascii_lower_seq(field@), q@),
{
    let cs = chars_of(field.as_str());
    let lower = lower_chars(cs.as_slice());
    chars_contains(lower.as_slice(), q)
}

/// The rows matching the search text (see [`row_matches`]), in order.
fn filter_rows(rows: &Vec<PickerRow>, query: &str) -> (r: Vec<PickerRow>)
    requires
        labels_ordered(rows_view(rows@)),
    ensures
        rows_view(r@) == rows_view(rows@).filter(row_matches(ascii_lower_seq(query@))),
        labels_ordered(rows_view(r@)),
{
    let qc = chars_of(query);
    let q = lower_chars(qc.as_slice());
    let ghost pred = row_matches(ascii_lower_seq(query@));
    let mut out: Vec<PickerRow> = Vec::new();
    let mut i: usize = 0;
    while i < rows.len()
        invariant
            i <= rows@.len(),
            q@ == ascii_lower_seq(query@),
            pred == row_matches(ascii_lower_seq(query@)),
            rows_view(out@) == rows_view(rows@).take(i as int).filter(pred),
            labels_ordered(rows_view(rows@)),
            labels_ordered(rows_view(out@)),
            forall|a: int, j: int|
                0 <= a < out@.len() && i <= j < rows@.len() ==> text_rank(
                    #[trigger] rows_view(out@)[a].4,
                    #[trigger] rows_view(rows@)[j].4,
                ) <= 0,
        decreases rows.len() - i,
    {
        let r = &rows[i];
        let keep = q.len() == 0 || field_has(&r.label, q.as_slice()) || field_has(&r.pod, q.as_slice())
            || field_has(&r.run, q.as_slice()) || field_has(&r.file, q.as_slice()) || field_has(
            &r.fleet,
            q.as_slice(),
        );
        proof {
            assert(rows_view(rows@).take(i + 1) =~= rows_view(rows@).take(i as int).push(row_view(*r)));
            lemma_filter_push(rows_view(rows@).take(i as int), pred, row_view(*r));
        }
        if keep {
            let ghost prev = out@;
            out.push(copy_row(r));
            assert(rows_view(out@) =~= rows_view(prev).push(row_view(*r)));
            assert(rows_view(rows@)[i as int] == row_view(*r));
            assert forall|a: int, b: int| 0 <= a < b < rows_view(out@).len() implies text_rank(
                #[trigger] rows_view(out@)[a].4,
                #[trigger] rows_view(out@)[b].4,
            ) <= 0 by {
                if b == rows_view(out@).len() - 1 {
                    assert(rows_view(out@)[a] == rows_view(prev)[a]);
                    assert(text_rank(rows_view(prev)[a].4, rows_view(rows@)[i as int].4) <= 0);
                } else {
                    assert(rows_view(out@)[a] == rows_view(prev)[a]);
                    assert(rows_view(out@)[b] == rows_view(prev)[b]);
                }
            }
            assert forall|a: int, j: int| 0 <= a < out@.len() && i + 1 <= j < rows@.len() implies text_rank(
                #[trigger] rows_view(out@)[a].4,
                #[trigger] rows_view(rows@)[j].4,
            ) <= 0 by {
                if a == out@.len() - 1 {
                    assert(rows_view(out@)[a] == rows_view(rows@)[i as int]);
                    assert(text_rank(rows_view(rows@)[i as int].4, rows_view(rows@)[j].4) <= 0);
                } else {
                    assert(rows_view(out@)[a] == rows_view(prev)[a]);
                    assert(text_rank(rows_view(prev)[a].4, rows_view(rows@)[j].4) <= 0);
                }
            }
        }
        i = i + 1;
    }
    assert(rows_view(rows@).take(rows@.len() as int) =~= rows_view(rows@));
    out
}

/// The picker's rows (see [`picker_rows_of`]).
pub fn build_picker_rows(summary: Option<&RunsSummary>, checkpoints: Option<&CheckpointsResp>, query: &str) -> (r: Vec<
    PickerRow,
>)
    ensures
        picker_rows_of(
            summary_runs(
                match summary {
                    Some(s) => Some(*s),
                    None => None,
                },
            ),
            checkpoint_runs(
                match checkpoints {
                    Some(c) => Some(*c),
                    None => None,
                },
            ),
            query@,
            rows_view(r@),
        ),
        labels_ordered(rows_view(r@)),
{
    let empty_runs: Vec<RunScalars> = Vec::new();
    let empty_cks: Vec<CheckpointRun> = Vec::new();
    let runs: &[RunScalars] = match summary {
        Some(s) => s.runs.as_slice(),
        None => empty_runs.as_slice(),
    };
    let cks: &[CheckpointRun] = match checkpoints {
        Some(c) => c.runs.as_slice(),
        None => empty_cks.as_slice(),
    };
    let mut rows = build_rows(runs, cks);
    let ghost built = rows_view(rows@);
    sort_by_label(&mut rows);
    proof {
        lemma_label_sorted_globally(rows_view(rows@));
    }
    let out = filter_rows(&rows, query);
    assert(stable_label_sort(built, rows_view(rows@)));
    out
}

} // verus!
