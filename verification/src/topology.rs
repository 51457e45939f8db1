//! Topology explorer decisions: the substrate a FAB header describes, which
//! checkpoint a run opens with, and the bounded step controls.
use vstd::prelude::*;
use crate::model::{RunScalars, RunsSummary};
use crate::vizmodel::{
    CheckpointFile, CheckpointRun, CheckpointsResp, FabHeader, RegionKind, TopoDataInMemory,
    TopoManifestResp,
};
use crate::geometry::{cell_col, regions_from_fab_spans, span_fits, span_region};
use crate::eligible::{eligible_spec, pod_tag, viz_eligible_checkpoint};
use crate::seqs::{first_match, lemma_first_match_at, lemma_first_match_none};
use crate::text::{after_last, has_infix, owned, push_char, push_str, str_contains, str_eq};

verus! {

/// `x.unwrap_or(1).max(1)`.
pub open spec fn dim_of(x: Option<i64>) -> i64 {
    let v = match x {
        Some(v) => v,
        None => 1,
    };
    if v < 1 {
        1
    } else {
        v
    }
}

fn dim_exec(x: Option<i64>) -> (r: i64)
    ensures
        r == dim_of(x),
{
    let v = match x {
        Some(v) => v,
        None => 1,
    };
    if v < 1 {
        1
    } else {
        v
    }
}

/// Cell count a FAB header states, else columns × band rows × planes; not negative.
pub open spec fn topo_cells(h: FabHeader) -> int {
    let cols = dim_of(h.c) as u32;
    let band = dim_of(h.band_rows) as u32;
    let planes = dim_of(h.n_planes) as u32;
    let n = match h.n {
        Some(n) => n as int,
        None => ((cols * band * planes) as i64) as int,
    };
    if n < 0 {
        0
    } else {
        n
    }
}

/// The header's dimensions multiply within `u32`, its cell count fits in
/// `usize`, and its column spans are in range.
pub open spec fn fab_fits(header: FabHeader) -> bool {
    &&& (dim_of(header.c) as u32) * (dim_of(header.band_rows) as u32) <= u32::MAX
    &&& (dim_of(header.c) as u32) * (dim_of(header.band_rows) as u32) * (dim_of(header.n_planes) as u32) <= u32::MAX
    &&& topo_cells(header) <= usize::MAX
    &&& header.regions matches Some(s) ==> span_fits(s.input) && span_fits(s.readout) && span_fits(s.recon)
}

/// `r` is the substrate the header describes: its dimensions (at least 1
/// each), its cell count, and per-cell regions from its column spans (all
/// compute without spans) for at least one cell.
pub open spec fn topo_of(header: FabHeader, r: TopoDataInMemory) -> bool {
    &&& r.cols == dim_of(header.c) as u32
    &&& r.band_rows == dim_of(header.band_rows) as u32
    &&& r.planes == dim_of(header.n_planes) as u32
    &&& r.n == topo_cells(header)
    &&& r.regions@.len() == (if topo_cells(header) < 1 { 1 } else { topo_cells(header) })
    &&& forall|i: int|
        0 <= i < r.regions@.len() ==> #[trigger] r.regions@[i] == match header.regions {
            Some(s) => span_region(cell_col(i, r.cols), s),
            None => RegionKind::Compute,
        }
}

/// Whether a FAB header's substrate can be built (see [`fab_fits`]).
pub fn fab_header_fits(header: &FabHeader) -> (r: bool)
    ensures
        r == fab_fits(*header),
{
    let cols = dim_exec(header.c) as u32;
    let band = dim_exec(header.band_rows) as u32;
    let planes = dim_exec(header.n_planes) as u32;
    let c64 = cols as u64;
    let b64 = band as u64;
    let p64 = planes as u64;
    assert(c64 * b64 <= 0xffff_ffffu64 * 0xffff_ffffu64) by (nonlinear_arith)
        requires
            c64 <= 0xffff_ffffu64,
            b64 <= 0xffff_ffffu64,
    ;
    let cb = c64 * b64;
    if cb > 0xffff_ffffu64 {
        return false;
    }
    assert(cb <= u32::MAX);
    assert(cb * p64 <= 0xffff_ffffu64 * 0xffff_ffffu64) by (nonlinear_arith)
        requires
            cb <= 0xffff_ffffu64,
            p64 <= 0xffff_ffffu64,
    ;
    let cbp = cb * p64;
    if cbp > 0xffff_ffffu64 {
        return false;
    }
    let cells_fit = match header.n {
        Some(n) => n < 0 || (n as u64) <= (usize::MAX as u64),
        None => true,
    };
    if !cells_fit {
        return false;
    }
    match &header.regions {
        Some(s) => {
            s.input[0].checked_add(s.input[1]).is_some() && s.readout[0].checked_add(s.readout[1]).is_some()
                && s.recon[0].checked_add(s.recon[1]).is_some()
        },
        None => true,
    }
}

/// The substrate a FAB header describes (see [`topo_of`]).
pub fn topo_from_fab(header: FabHeader) -> (r: TopoDataInMemory)
    requires
        fab_fits(header),
    ensures
        topo_of(header, r),
{
    let cols = dim_exec(header.c) as u32;
    let band_rows = dim_exec(header.band_rows) as u32;
    let planes = dim_exec(header.n_planes) as u32;
    let product = (cols * band_rows * planes) as i64;
    let n0 = match header.n {
        Some(n) => n,
        None => product,
    };
    let n: usize = if n0 < 0 {
        0
    } else {
        n0 as usize
    };
    let m: usize = if n < 1 {
        1
    } else {
        n
    };
    let regions = match &header.regions {
        Some(spans) => regions_from_fab_spans(m, cols, band_rows, spans),
        None => {
            let mut v: Vec<RegionKind> = Vec::new();
            let mut i: usize = 0;
            while i < m
                invariant
                    i <= m,
                    v@.len() == i,
                    forall|k: int| 0 <= k < i ==> #[trigger] v@[k] == RegionKind::Compute,
                decreases m - i,
            {
                v.push(RegionKind::Compute);
                i = i + 1;
            }
            v
        },
    };
    TopoDataInMemory { n, cols, band_rows, planes, regions }
}

/// Manifest entries for `run`.
pub open spec fn entry_for(run: Seq<char>) -> spec_fn(crate::vizmodel::TopoEntry) -> bool {
    |e: crate::vizmodel::TopoEntry| e.run@ == run
}

/// File of the first manifest entry for `run`: its file, else its archive
/// file; `None` when there is no entry or both are empty.
pub open spec fn entry_file_spec(manifest: TopoManifestResp, run: Seq<char>) -> Option<Seq<char>> {
    match first_match(manifest.topologies@, entry_for(run)) {
        Some(i) => {
            let e = manifest.topologies@[i];
            let f = if e.file@.len() > 0 {
                e.file@
            } else {
                match e.archive_file {
                    Some(a) => a@,
                    None => Seq::empty(),
                }
            };
            if f.len() == 0 {
                None
            } else {
                Some(f)
            }
        },
        None => None,
    }
}

/// File to fetch for a run's topology (see [`entry_file_spec`]).
pub fn topo_entry_file(manifest: &TopoManifestResp, run: &str) -> (r: Option<String>)
    ensures
        match r {
            Some(f) => entry_file_spec(*manifest, run@) == Some(f@),
            None => entry_file_spec(*manifest, run@) is None,
        },
{
    let ghost p = entry_for(run@);
    let ts = &manifest.topologies;
    let mut i: usize = 0;
    while i < ts.len()
        invariant
            i <= ts.len(),
            ts@ == manifest.topologies@,
            p == entry_for(run@),
            forall|j: int| 0 <= j < i ==> !p(#[trigger] ts@[j]),
        decreases ts.len() - i,
    {
        if str_eq(ts[i].run.as_str(), run) {
            proof {
                lemma_first_match_at(ts@, p, i as int);
            }
            let e = &ts[i];
            let file = if !e.file.as_str().is_empty() {
                e.file.clone()
            } else {
                match &e.archive_file {
                    Some(a) => a.clone(),
                    None => String::new(),
                }
            };
            if file.as_str().is_empty() {
                return None;
            }
            return Some(file);
        }
        i = i + 1;
    }
    proof {
        lemma_first_match_none(ts@, p);
    }
    None
}

/// Whether a summary run is the one a checkpoint `(pod, run)` belongs to: with
/// matching pods (exactly or by tag) the checkpoint run is the run's name, its
/// group, or its group, `_` and the pod tag; with other pods, its name or group.
pub open spec fn matches_checkpoint(run: RunScalars, ckpt_pod: Seq<char>, ckpt_run: Seq<char>) -> bool {
    let tag = after_last(ckpt_pod, ':');
    let pod_ok = run.pod@ == ckpt_pod || after_last(run.pod@, ':') == tag;
    if !pod_ok {
        run.name@ == ckpt_run || run.group@ == ckpt_run
    } else {
        run.name@ == ckpt_run || (run.group@.len() > 0 && run.group@ + seq!['_'] + tag == ckpt_run)
            || run.group@ == ckpt_run
    }
}

/// Whether a summary run is the one a checkpoint belongs to (see [`matches_checkpoint`]).
pub fn run_matches_checkpoint(run: &RunScalars, ckpt_pod: &str, ckpt_run: &str) -> (r: bool)
    ensures
        r == matches_checkpoint(*run, ckpt_pod@, ckpt_run@),
{
    let tag = pod_tag(ckpt_pod);
    let run_tag = pod_tag(run.pod.as_str());
    let pod_ok = str_eq(run.pod.as_str(), ckpt_pod) || str_eq(run_tag.as_str(), tag.as_str());
    if !pod_ok {
        return str_eq(run.name.as_str(), ckpt_run) || str_eq(run.group.as_str(), ckpt_run);
    }
    if str_eq(run.name.as_str(), ckpt_run) {
        return true;
    }
    if !run.group.as_str().is_empty() {
        let mut g = owned(run.group.as_str());
        push_char(&mut g, '_');
        push_str(&mut g, tag.as_str());
        assert(g@ =~= run.group@ + seq!['_'] + after_last(ckpt_pod@, ':'));
        if str_eq(g.as_str(), ckpt_run) {
            return true;
        }
    }
    str_eq(run.group.as_str(), ckpt_run)
}

/// Summary runs on `pod` named `name`.
pub open spec fn row_is(pod: Seq<char>, name: Seq<char>) -> spec_fn(RunScalars) -> bool {
    |r: RunScalars| r.pod@ == pod && r.name@ == name
}

/// The first summary run on `pod` named `name`.
pub open spec fn run_row_spec(summary: Option<RunsSummary>, pod: Seq<char>, name: Seq<char>) -> Option<RunScalars> {
    match summary {
        Some(s) => match first_match(s.runs@, row_is(pod, name)) {
            Some(i) => Some(s.runs@[i]),
            None => None,
        },
        None => None,
    }
}

fn find_run_row<'a>(summary: Option<&'a RunsSummary>, pod: &str, name: &str) -> (r: Option<&'a RunScalars>)
    ensures
        match r {
            Some(x) => run_row_spec(
                match summary {
                    Some(s) => Some(*s),
                    None => None,
                },
                pod@,
                name@,
            ) == Some(*x),
            None => run_row_spec(
                match summary {
                    Some(s) => Some(*s),
                    None => None,
                },
                pod@,
                name@,
            ) is None,
        },
{
    let s = match summary {
        Some(s) => s,
        None => return None,
    };
    let ghost p = row_is(pod@, name@);
    let mut i: usize = 0;
    while i < s.runs.len()
        invariant
            i <= s.runs.len(),
            summary == Some(s),
            p == row_is(pod@, name@),
            forall|j: int| 0 <= j < i ==> !p(#[trigger] s.runs@[j]),
        decreases s.runs.len() - i,
    {
        if str_eq(s.runs[i].pod.as_str(), pod) && str_eq(s.runs[i].name.as_str(), name) {
            proof {
                lemma_first_match_at(s.runs@, p, i as int);
            }
            return Some(&s.runs[i]);
        }
        i = i + 1;
    }
    proof {
        lemma_first_match_none(s.runs@, p);
    }
    None
}

/// Files whose name contains `.best`.
pub open spec fn best_named() -> spec_fn(CheckpointFile) -> bool {
    |f: CheckpointFile| has_infix(f.filename@, ".best"@)
}

/// The file a checkpoint run opens with by preference: the first whose name
/// contains `.best`, else the first.
pub open spec fn preferred_index(files: Seq<CheckpointFile>) -> Option<int> {
    match first_match(files, best_named()) {
        Some(i) => Some(i),
        None => if files.len() > 0 {
            Some(0)
        } else {
            None
        },
    }
}

fn preferred_file(files: &Vec<CheckpointFile>) -> (r: Option<usize>)
    ensures
        match r {
            Some(i) => preferred_index(files@) == Some(i as int) && i < files@.len(),
            None => preferred_index(files@) is None,
        },
{
    proof {
        crate::seqs::lemma_first_match_props(files@, best_named());
    }
    let ghost p = best_named();
    let mut i: usize = 0;
    while i < files.len()
        invariant
            i <= files.len(),
            p == best_named(),
            forall|j: int| 0 <= j < i ==> !p(#[trigger] files@[j]),
        decreases files.len() - i,
    {
        if str_contains(files[i].filename.as_str(), ".best") {
            proof {
                lemma_first_match_at(files@, p, i as int);
            }
            return Some(i);
        }
        i = i + 1;
    }
    proof {
        lemma_first_match_none(files@, p);
    }
    if files.len() > 0 {
        Some(0)
    } else {
        None
    }
}

/// The checkpoint file a run opens with: the run's checkpoint entry (same
/// pod and run, or one the summary row matches), its preferred file when the
/// visualizer list shows it, else its first file the list shows.
pub open spec fn default_file_spec(
    checkpoints: Option<CheckpointsResp>,
    pod: Seq<char>,
    run: Seq<char>,
    summary: Option<RunsSummary>,
) -> Option<Seq<char>> {
    let row = run_row_spec(summary, pod, run);
    match checkpoints {
        None => None,
        Some(c) => match first_match(
            c.runs@,
            checkpoint_for_fn(pod, run, row),
        ) {
            None => None,
            Some(k) => {
                let ck = c.runs@[k];
                match preferred_index(ck.files@) {
                    None => None,
                    Some(pi) => if eligible_spec(ck, ck.files@[pi], row) {
                        Some(ck.files@[pi].filename@)
                    } else {
                        match first_match(ck.files@, shown_in(ck, row)) {
                            Some(j) => Some(ck.files@[j].filename@),
                            None => None,
                        }
                    },
                }
            },
        },
    }
}

/// Checkpoint runs for `(pod, run)`.
pub open spec fn checkpoint_for_fn(pod: Seq<char>, run: Seq<char>, row: Option<RunScalars>) -> spec_fn(CheckpointRun) -> bool {
    |r: CheckpointRun| checkpoint_for(r, pod, run, row)
}

/// Files the visualizer list shows for a checkpoint run.
pub open spec fn shown_in(ck: CheckpointRun, row: Option<RunScalars>) -> spec_fn(CheckpointFile) -> bool {
    |f: CheckpointFile| eligible_spec(ck, f, row)
}

/// Whether a checkpoint run is the one for `(pod, run)`: the same pod and
/// run, or one the summary row matches.
pub open spec fn checkpoint_for(r: CheckpointRun, pod: Seq<char>, run: Seq<char>, row: Option<RunScalars>) -> bool {
    (r.pod@ == pod && r.run@ == run) || (row is Some && matches_checkpoint(row->0, r.pod@, r.run@))
}

fn checkpoint_hit(r: &CheckpointRun, pod: &str, run: &str, run_row: Option<&RunScalars>) -> (b: bool)
    ensures
        b == checkpoint_for(
            *r,
            pod@,
            run@,
            match run_row {
                Some(x) => Some(*x),
                None => None,
            },
        ),
{
    (str_eq(r.pod.as_str(), pod) && str_eq(r.run.as_str(), run)) || match run_row {
        Some(row_ref) => run_matches_checkpoint(row_ref, r.pod.as_str(), r.run.as_str()),
        None => false,
    }
}

/// The checkpoint file a run opens with (see [`default_file_spec`]).
pub fn default_checkpoint_file(
    checkpoints: Option<&CheckpointsResp>,
    pod: &str,
    run: &str,
    summary: Option<&RunsSummary>,
) -> (r: Option<String>)
    ensures
        ({
            let cks = match checkpoints {
                Some(c) => Some(*c),
                None => None,
            };
            let sum = match summary {
                Some(s) => Some(*s),
                None => None,
            };
            match r {
                Some(f) => default_file_spec(cks, pod@, run@, sum) == Some(f@),
                None => default_file_spec(cks, pod@, run@, sum) is None,
            }
        }),
{
    let run_row = find_run_row(summary, pod, run);
    let ghost row = match run_row {
        Some(x) => Some(*x),
        None => None,
    };
    let c = match checkpoints {
        Some(c) => c,
        None => return None,
    };
    let ghost p = checkpoint_for_fn(pod@, run@, row);
    let mut k: usize = 0;
    while k < c.runs.len() && !checkpoint_hit(&c.runs[k], pod, run, run_row)
        invariant
            k <= c.runs.len(),
            row == match run_row {
                Some(x) => Some(*x),
                None => None,
            },
            p == checkpoint_for_fn(pod@, run@, row),
            forall|j: int| 0 <= j < k ==> !p(#[trigger] c.runs@[j]),
        decreases c.runs.len() - k,
    {
        k = k + 1;
    }
    if k == c.runs.len() {
        proof {
            lemma_first_match_none(c.runs@, p);
        }
        return None;
    }
    proof {
        lemma_first_match_at(c.runs@, p, k as int);
    }
    let ck = &c.runs[k];
    let pi = match preferred_file(&ck.files) {
        Some(i) => i,
        None => return None,
    };
    if viz_eligible_checkpoint(ck, &ck.files[pi], run_row) {
        return Some(ck.files[pi].filename.clone());
    }
    let ghost q = shown_in(*ck, row);
    let mut j: usize = 0;
    while j < ck.files.len()
        invariant
            j <= ck.files.len(),
            checkpoints == Some(c),
            k < c.runs@.len(),
            *ck == c.runs@[k as int],
            row == run_row_spec(
                match summary {
                    Some(x) => Some(*x),
                    None => None,
                },
                pod@,
                run@,
            ),
            first_match(c.runs@, p) == Some(k as int),
            p == checkpoint_for_fn(pod@, run@, row),
            preferred_index(ck.files@) == Some(pi as int),
            pi < ck.files@.len(),
            !eligible_spec(*ck, ck.files@[pi as int], row),
            row == match run_row {
                Some(x) => Some(*x),
                None => None,
            },
            q == shown_in(*ck, row),
            forall|i: int| 0 <= i < j ==> !q(#[trigger] ck.files@[i]),
        decreases ck.files.len() - j,
    {
        if viz_eligible_checkpoint(ck, &ck.files[j], run_row) {
            proof {
                lemma_first_match_at(ck.files@, q, j as int);
            }
            return Some(ck.files[j].filename.clone());
        }
        j = j + 1;
    }
    proof {
        lemma_first_match_none(ck.files@, q);
    }
    None
}

/// Checkpoint runs a summary row matches.
pub open spec fn matched_by(row: RunScalars) -> spec_fn(CheckpointRun) -> bool {
    |c: CheckpointRun| matches_checkpoint(row, c.pod@, c.run@)
}

/// Where a war-room run's checkpoint lives: the summary row on `pod` named
/// `name`, the first checkpoint run it matches, and that run's preferred file
/// when the visualizer list shows it, as fleet, pod, run and file name.
pub open spec fn selection_spec(
    checkpoints: Option<CheckpointsResp>,
    summary: Option<RunsSummary>,
    pod: Seq<char>,
    name: Seq<char>,
) -> Option<(Seq<char>, Seq<char>, Seq<char>, Seq<char>)> {
    match run_row_spec(summary, pod, name) {
        None => None,
        Some(row) => match checkpoints {
            None => None,
            Some(c) => match first_match(c.runs@, matched_by(row)) {
                None => None,
                Some(k) => {
                    let ck = c.runs@[k];
                    match preferred_index(ck.files@) {
                        None => None,
                        Some(pi) => if eligible_spec(ck, ck.files@[pi], Some(row)) {
                            Some((ck.fleet@, ck.pod@, ck.run@, ck.files@[pi].filename@))
                        } else {
                            None
                        },
                    }
                },
            },
        },
    }
}

/// Where a war-room run's checkpoint lives (see [`selection_spec`]).
pub fn resolve_checkpoint_selection(
    checkpoints: Option<&CheckpointsResp>,
    summary: Option<&RunsSummary>,
    pod: &str,
    name: &str,
) -> (r: Option<(String, String, String, String)>)
    ensures
        ({
            let cks = match checkpoints {
                Some(c) => Some(*c),
                None => None,
            };
            let sum = match summary {
                Some(s) => Some(*s),
                None => None,
            };
            match r {
                Some((a, b, c, d)) => selection_spec(cks, sum, pod@, name@) == Some((a@, b@, c@, d@)),
                None => selection_spec(cks, sum, pod@, name@) is None,
            }
        }),
{
    let row = match find_run_row(summary, pod, name) {
        Some(r) => r,
        None => return None,
    };
    let c = match checkpoints {
        Some(c) => c,
        None => return None,
    };
    let ghost p = matched_by(*row);
    let mut k: usize = 0;
    while k < c.runs.len() && !run_matches_checkpoint(row, c.runs[k].pod.as_str(), c.runs[k].run.as_str())
        invariant
            k <= c.runs.len(),
            p == matched_by(*row),
            forall|j: int| 0 <= j < k ==> !p(#[trigger] c.runs@[j]),
        decreases c.runs.len() - k,
    {
        k = k + 1;
    }
    if k == c.runs.len() {
        proof {
            lemma_first_match_none(c.runs@, p);
        }
        return None;
    }
    proof {
        lemma_first_match_at(c.runs@, p, k as int);
    }
    let ck = &c.runs[k];
    let pi = match preferred_file(&ck.files) {
        Some(i) => i,
        None => return None,
    };
    if !viz_eligible_checkpoint(ck, &ck.files[pi], Some(row)) {
        return None;
    }
    Some((ck.fleet.clone(), ck.pod.clone(), ck.run.clone(), ck.files[pi].filename.clone()))
}

/// The scrub position moved by `delta` frames and kept among the frames
/// (positions and counts taken as `i32`); `None` when there are no frames.
pub fn bump_scrub_tick(scrub_tick: usize, delta: i32, frames: usize) -> (r: Option<usize>)
    requires
        frames > 0 ==> (frames as i32) >= 1,
        frames > 0 ==> i32::MIN <= (scrub_tick as i32) + delta <= i32::MAX,
    ensures
        frames == 0 <==> r is None,
        r matches Some(t) ==> t == ({
            let next = (scrub_tick as i32) + delta;
            let hi = (frames as i32) - 1;
            if next < 0 {
                0
            } else if next > hi {
                hi
            } else {
                next
            }
        }),
{
    if frames == 0 {
        return None;
    }
    let hi = (frames as i32) - 1;
    let next = (scrub_tick as i32) + delta;
    let clamped = if next < 0 {
        0
    } else if next > hi {
        hi
    } else {
        next
    };
    Some(clamped as usize)
}

/// Steps per request moved by `delta` (taken as `i32`), kept within 1 to 128.
pub fn bump_ticks(ticks: u32, delta: i32) -> (r: u32)
    requires
        i32::MIN <= (ticks as i32) + delta <= i32::MAX,
    ensures
        r == ({
            let next = (ticks as i32) + delta;
            if next < 1 {
                1
            } else if next > 128 {
                128
            } else {
                next
            }
        }),
{
    let next = (ticks as i32) + delta;
    let clamped = if next < 1 {
        1
    } else if next > 128 {
        128
    } else {
        next
    };
    clamped as u32
}

/// A count moved by `delta` (taken as `i32`) and kept at or above `floor`.
pub fn bump_at_least(value: u32, delta: i32, floor: i32) -> (r: u32)
    requires
        floor >= 0,
        i32::MIN <= (value as i32) + delta <= i32::MAX,
    ensures
        r == ({
            let next = (value as i32) + delta;
            if next < floor {
                floor as int
            } else {
                next
            }
        }),
{
    let next = (value as i32) + delta;
    let clamped = if next < floor {
        floor
    } else {
        next
    };
    clamped as u32
}

/// Input index moved by `delta` (taken as `i32`), not below 0.
pub fn bump_input_idx(idx: u32, delta: i32) -> (r: u32)
    requires
        i32::MIN <= (idx as i32) + delta <= i32::MAX,
    ensures
        r == ({
            let next = (idx as i32) + delta;
            if next < 0 {
                0
            } else {
                next
            }
        }),
{
    bump_at_least(idx, delta, 0)
}

} // verus!
