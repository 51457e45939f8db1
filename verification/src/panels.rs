//! Metric panels of the run view, chosen from a run's output contract.
use vstd::prelude::*;
use crate::model::{FloatBits, RunMetricDef, RunScalars};
use crate::health::{lm_run, run_is_lm};
use crate::series::{column, finite_bits, is_finite_bits, RunSeries};
use crate::text::{owned, str_eq};
use crate::seqs::first_match;

verus! {

/// One chart panel.
#[derive(Debug, Clone, PartialEq, Eq)]
pub struct MetricPanel {
    pub id: String,
    pub title: String,
    pub series_key: String,
    pub lm: bool,
    pub pct: bool,
    pub unit: Option<String>,
}

/// A built-in panel.
#[derive(Debug, Clone, Copy)]
pub struct StaticMetricPanel {
    pub id: &'static str,
    pub title: &'static str,
    pub series_key: &'static str,
    pub lm: bool,
    pub pct: bool,
    pub unit: Option<&'static str>,
}

/// What a panel shows, as plain text.
pub struct PanelDef {
    pub id: Seq<char>,
    pub title: Seq<char>,
    pub series_key: Seq<char>,
    pub lm: bool,
    pub pct: bool,
    pub unit: Option<Seq<char>>,
}

impl MetricPanel {
    /// What the panel shows.
    pub open spec fn def(self) -> PanelDef {
        PanelDef {
            id: self.id@,
            title: self.title@,
            series_key: self.series_key@,
            lm: self.lm,
            pct: self.pct,
            unit: match self.unit {
                Some(u) => Some(u@),
                None => None,
            },
        }
    }
}

impl StaticMetricPanel {
    /// What the panel shows.
    pub open spec fn def(self) -> PanelDef {
        PanelDef {
            id: self.id@,
            title: self.title@,
            series_key: self.series_key@,
            lm: self.lm,
            pct: self.pct,
            unit: match self.unit {
                Some(u) => Some(u@),
                None => None,
            },
        }
    }

    /// The panel with owned text.
    pub fn into_panel(self) -> (r: MetricPanel)
        ensures
            r.def() == self.def(),
    {
        MetricPanel {
            id: owned(self.id),
            title: owned(self.title),
            series_key: owned(self.series_key),
            lm: self.lm,
            pct: self.pct,
            unit: match self.unit {
                Some(u) => Some(owned(u)),
                None => None,
            },
        }
    }
}

/// What the panels show, in order.
pub open spec fn defs_of(v: Seq<MetricPanel>) -> Seq<PanelDef> {
    v.map_values(|p: MetricPanel| p.def())
}

/// What the built-in panels show, in order.
pub open spec fn static_defs(v: Seq<StaticMetricPanel>) -> Seq<PanelDef> {
    v.map_values(|p: StaticMetricPanel| p.def())
}

/// Panel ids, in order.
pub open spec fn ids_of(v: Seq<PanelDef>) -> Seq<Seq<char>> {
    v.map_values(|d: PanelDef| d.id)
}

pub open spec fn def(
    id: Seq<char>,
    title: Seq<char>,
    series_key: Seq<char>,
    lm: bool,
    pct: bool,
    unit: Option<Seq<char>>,
) -> PanelDef {
    PanelDef { id, title, series_key, lm, pct, unit }
}

/// The built-in panels, in catalog order.
pub open spec fn legacy_defs() -> Seq<PanelDef> {
    seq![
        def("ppl"@, "Perplexity"@, "ppl"@, true, false, None),
        def("ce"@, "Cross-entropy"@, "ce_val"@, true, false, None),
        def("lm_acc"@, "Next-token accuracy"@, "top1"@, true, true, None),
        def("score"@, "Validation score"@, "top1"@, false, false, None),
        def("loss"@, "Train loss"@, "loss"@, false, false, None),
        def("lr"@, "Learning rate"@, "lr"@, false, false, None),
        def("dream"@, "Dream rollout PSNR"@, "dream"@, false, false, None),
        def("gnorm"@, "Gradient norm"@, "gnorm"@, false, false, None),
        def("gpu_util"@, "GPU utilization"@, "gpu_util"@, false, false, Some("%"@)),
        def("gpu_mem"@, "GPU memory"@, "gpu_mem"@, false, true, None),
    ]
}

fn entry(
    id: &'static str,
    title: &'static str,
    series_key: &'static str,
    lm: bool,
    pct: bool,
    unit: Option<&'static str>,
) -> (r: StaticMetricPanel)
    ensures
        r == (StaticMetricPanel { id, title, series_key, lm, pct, unit }),
{
    StaticMetricPanel { id, title, series_key, lm, pct, unit }
}

/// The built-in panel catalog.
pub fn legacy_panel_catalog() -> (r: Vec<StaticMetricPanel>)
    ensures
        static_defs(r@) == legacy_defs(),
{
    let mut v: Vec<StaticMetricPanel> = Vec::new();
    v.push(entry("ppl", "Perplexity", "ppl", true, false, None));
    v.push(entry("ce", "Cross-entropy", "ce_val", true, false, None));
    v.push(entry("lm_acc", "Next-token accuracy", "top1", true, true, None));
    v.push(entry("score", "Validation score", "top1", false, false, None));
    v.push(entry("loss", "Train loss", "loss", false, false, None));
    v.push(entry("lr", "Learning rate", "lr", false, false, None));
    v.push(entry("dream", "Dream rollout PSNR", "dream", false, false, None));
    v.push(entry("gnorm", "Gradient norm", "gnorm", false, false, None));
    v.push(entry("gpu_util", "GPU utilization", "gpu_util", false, false, Some("%")));
    v.push(entry("gpu_mem", "GPU memory", "gpu_mem", false, true, None));
    assert(static_defs(v@) =~= legacy_defs());
    v
}

/// The built-in panels, owned.
pub fn legacy_panels() -> (r: Vec<MetricPanel>)
    ensures
        defs_of(r@) == legacy_defs(),
{
    let cat = legacy_panel_catalog();
    let mut out: Vec<MetricPanel> = Vec::new();
    let mut i: usize = 0;
    while i < cat.len()
        invariant
            i <= cat.len(),
            static_defs(cat@) == legacy_defs(),
            defs_of(out@) == legacy_defs().take(i as int),
        decreases cat.len() - i,
    {
        assert(static_defs(cat@)[i as int] == cat@[i as int].def());
        let p = cat[i].into_panel();
        let ghost before = out@;
        let ghost pd = p.def();
        out.push(p);
        assert(defs_of(out@) =~= defs_of(before).push(pd));
        i = i + 1;
        assert(defs_of(out@) =~= legacy_defs().take(i as int));
    }
    assert(legacy_defs().take(cat.len() as int) =~= legacy_defs());
    out
}

/// The built-in panels for one kind of run (language model or not), in order.
pub open spec fn defs_with_lm(s: Seq<PanelDef>, lm: bool) -> Seq<PanelDef>
    decreases s.len(),
{
    if s.len() == 0 {
        Seq::empty()
    } else {
        let prev = defs_with_lm(s.drop_last(), lm);
        if s.last().lm == lm {
            prev.push(s.last())
        } else {
            prev
        }
    }
}

/// Index of the built-in panel for a kind of run and a series key.
pub open spec fn legacy_index(lm: bool, key: Seq<char>) -> Option<int> {
    crate::seqs::first_match(legacy_defs(), |d: PanelDef| d.lm == lm && d.series_key == key)
}

/// The built-in panel for a kind of run and a series key.
pub fn legacy_by_series(lm: bool, series_key: &str) -> (r: Option<MetricPanel>)
    ensures
        match legacy_index(lm, series_key@) {
            Some(i) => r is Some && r->0.def() == legacy_defs()[i],
            None => r is None,
        },
{
    let cat = legacy_panel_catalog();
    let ghost p = |d: PanelDef| d.lm == lm && d.series_key == series_key@;
    let mut i: usize = 0;
    while i < cat.len()
        invariant
            i <= cat.len(),
            static_defs(cat@) == legacy_defs(),
            p == (|d: PanelDef| d.lm == lm && d.series_key == series_key@),
            forall|j: int| 0 <= j < i ==> !p(#[trigger] legacy_defs()[j]),
        decreases cat.len() - i,
    {
        assert(legacy_defs()[i as int] == cat@[i as int].def());
        if cat[i].lm == lm && str_eq(cat[i].series_key, series_key) {
            proof {
                crate::seqs::lemma_first_match_at(legacy_defs(), p, i as int);
            }
            return Some(cat[i].into_panel());
        }
        i = i + 1;
    }
    proof {
        crate::seqs::lemma_first_match_none(legacy_defs(), p);
    }
    None
}

/// The panel made for a metric the catalog does not know.
pub open spec fn synth_def(m: RunMetricDef, lm: bool) -> PanelDef {
    PanelDef {
        id: m.key@,
        title: match m.label {
            Some(l) => l@,
            None => m.key@,
        },
        series_key: m.key@,
        lm,
        pct: m.pct,
        unit: None,
    }
}

/// The panel made for a metric the catalog does not know.
pub fn synth_panel(m: &RunMetricDef, lm: bool) -> (r: MetricPanel)
    ensures
        r.def() == synth_def(*m, lm),
{
    MetricPanel {
        id: m.key.clone(),
        title: match &m.label {
            Some(l) => l.clone(),
            None => m.key.clone(),
        },
        series_key: m.key.clone(),
        lm,
        pct: m.pct,
        unit: None,
    }
}

/// The panel for one metric of an output contract: the built-in one for its
/// key when there is one, else a panel made from the metric.
pub open spec fn metric_def(m: RunMetricDef, lm: bool) -> PanelDef {
    match legacy_index(lm, m.key@) {
        Some(i) => legacy_defs()[i],
        None => synth_def(m, lm),
    }
}

/// Panels for the metrics of an output contract, in order, each id once.
pub open spec fn contract_defs(ms: Seq<RunMetricDef>, lm: bool) -> Seq<PanelDef>
    decreases ms.len(),
{
    if ms.len() == 0 {
        Seq::empty()
    } else {
        let prev = contract_defs(ms.drop_last(), lm);
        let d = metric_def(ms.last(), lm);
        if ids_of(prev).contains(d.id) {
            prev
        } else {
            prev.push(d)
        }
    }
}

/// The GPU panels the list lacks, in catalog order.
pub open spec fn missing_system(out: Seq<PanelDef>) -> Seq<PanelDef> {
    let ids = ids_of(out);
    (if ids.contains("gpu_util"@) {
        Seq::empty()
    } else {
        seq![legacy_defs()[8]]
    }) + (if ids.contains("gpu_mem"@) {
        Seq::empty()
    } else {
        seq![legacy_defs()[9]]
    })
}

/// The list with the missing GPU panels inserted after the gradient-norm panel
/// (at the end when there is none).
pub open spec fn with_system(out: Seq<PanelDef>) -> Seq<PanelDef> {
    let sys = missing_system(out);
    if sys.len() == 0 {
        out
    } else {
        let at = match crate::seqs::first_match(out, |d: PanelDef| d.id == "gnorm"@) {
            Some(i) => i + 1,
            None => out.len() as int,
        };
        out.take(at) + sys + out.skip(at)
    }
}

fn has_id(v: &Vec<MetricPanel>, id: &str) -> (r: bool)
    ensures
        r == ids_of(defs_of(v@)).contains(id@),
{
    let ghost ids = ids_of(defs_of(v@));
    let mut i: usize = 0;
    while i < v.len()
        invariant
            i <= v.len(),
            ids == ids_of(defs_of(v@)),
            forall|j: int| 0 <= j < i ==> ids[j] != id@,
        decreases v.len() - i,
    {
        assert(ids[i as int] == v@[i as int].id@);
        if str_eq(v[i].id.as_str(), id) {
            return true;
        }
        i = i + 1;
    }
    false
}

/// Inserts the GPU panels that `out` lacks (see [`with_system`]).
pub fn insert_system_panels(out: Vec<MetricPanel>) -> (r: Vec<MetricPanel>)
    ensures
        defs_of(r@) == with_system(defs_of(out@)),
{
    let ghost d = defs_of(out@);
    let mut sys: Vec<MetricPanel> = Vec::new();
    let cat = legacy_panel_catalog();
    assert(cat@.len() == static_defs(cat@).len());
    assert(static_defs(cat@)[8] == cat@[8].def());
    assert(static_defs(cat@)[9] == cat@[9].def());
    if !has_id(&out, "gpu_util") {
        sys.push(cat[8].into_panel());
    }
    if !has_id(&out, "gpu_mem") {
        sys.push(cat[9].into_panel());
    }
    assert(defs_of(sys@) =~= missing_system(d));
    if sys.len() == 0 {
        return out;
    }
    let ghost p = |q: PanelDef| q.id == "gnorm"@;
    let mut i: usize = 0;
    while i < out.len() && !str_eq(out[i].id.as_str(), "gnorm")
        invariant
            i <= out.len(),
            d == defs_of(out@),
            p == (|q: PanelDef| q.id == "gnorm"@),
            forall|j: int| 0 <= j < i ==> !p(#[trigger] d[j]),
        decreases out.len() - i,
    {
        assert(d[i as int] == out@[i as int].def());
        i = i + 1;
    }
    let at: usize;
    if i < out.len() {
        assert(d[i as int] == out@[i as int].def());
        proof {
            crate::seqs::lemma_first_match_at(d, p, i as int);
        }
        at = i + 1;
    } else {
        proof {
            crate::seqs::lemma_first_match_none(d, p);
        }
        at = out.len();
    }
    let mut r: Vec<MetricPanel> = Vec::new();
    let mut rest = out;
    let tail = rest.split_off(at);
    let ghost head = rest@;
    assert(head =~= out@.take(at as int));
    r.append(&mut rest);
    r.append(&mut sys);
    let mut tail = tail;
    r.append(&mut tail);
    assert(defs_of(r@) =~= with_system(d));
    r
}

/// After inserting the missing GPU panels, both GPU panels are present, and a
/// list without repeated ids still has none.
pub proof fn lemma_with_system(out: Seq<PanelDef>)
    ensures
        ids_of(with_system(out)).contains("gpu_util"@),
        ids_of(with_system(out)).contains("gpu_mem"@),
        ids_of(out).no_duplicates() ==> ids_of(with_system(out)).no_duplicates(),
{
    reveal_strlit("gpu_util");
    reveal_strlit("gpu_mem");
    let ids = ids_of(out);
    let sys = missing_system(out);
    let util = legacy_defs()[8];
    let mem = legacy_defs()[9];
    assert(util.id == "gpu_util"@);
    assert(mem.id == "gpu_mem"@);
    assert("gpu_util"@ != "gpu_mem"@) by {
        assert("gpu_util"@.len() != "gpu_mem"@.len());
    }
    if sys.len() == 0 {
        assert(ids.contains("gpu_util"@));
        assert(ids.contains("gpu_mem"@));
    } else {
        let at = match first_match(out, |d: PanelDef| d.id == "gnorm"@) {
            Some(i) => i + 1,
            None => out.len() as int,
        };
        crate::seqs::lemma_first_match_props(out, |d: PanelDef| d.id == "gnorm"@);
        assert(0 <= at <= out.len());
        let r = out.take(at) + sys + out.skip(at);
        let rid = ids_of(r);
        let sid = ids_of(sys);
        assert(rid =~= ids_of(out.take(at)) + sid + ids_of(out.skip(at)));
        assert(ids_of(out.take(at)) =~= ids.take(at));
        assert(ids_of(out.skip(at)) =~= ids.skip(at));
        // every id of the list is still there
        assert forall|k: int| 0 <= k < ids.len() implies rid.contains(#[trigger] ids[k]) by {
            if k < at {
                assert(rid[k] == ids[k]);
            } else {
                assert(rid[k + sid.len()] == ids[k]);
            }
        }
        // each GPU panel is either in the list or inserted
        if !ids.contains("gpu_util"@) {
            assert(sid[0] == "gpu_util"@);
            assert(rid[at] == sid[0]);
        } else {
            let k = choose|k: int| 0 <= k < ids.len() && ids[k] == "gpu_util"@;
            assert(rid.contains(ids[k]));
        }
        if !ids.contains("gpu_mem"@) {
            let m = sid.len() - 1;
            assert(sid[m] == "gpu_mem"@);
            assert(rid[at + m] == sid[m]);
        } else {
            let k = choose|k: int| 0 <= k < ids.len() && ids[k] == "gpu_mem"@;
            assert(rid.contains(ids[k]));
        }
        if ids.no_duplicates() {
            assert(sid.no_duplicates());
            assert forall|i: int, j: int| 0 <= i < rid.len() && 0 <= j < rid.len() && i != j implies rid[i] != rid[j] by {
                let n1 = at;
                let n2 = at + sid.len();
                let src_i = if i < n1 { i } else if i < n2 { -1 } else { i - sid.len() };
                let src_j = if j < n1 { j } else if j < n2 { -1 } else { j - sid.len() };
                if src_i >= 0 && src_j >= 0 {
                    assert(rid[i] == ids[src_i]);
                    assert(rid[j] == ids[src_j]);
                } else if src_i < 0 && src_j < 0 {
                    assert(rid[i] == sid[i - n1]);
                    assert(rid[j] == sid[j - n1]);
                } else if src_i < 0 {
                    assert(rid[i] == sid[i - n1]);
                    assert(rid[j] == ids[src_j]);
                    assert(ids.contains(ids[src_j]));
                } else {
                    assert(rid[j] == sid[j - n1]);
                    assert(rid[i] == ids[src_i]);
                    assert(ids.contains(ids[src_i]));
                }
            }
        }
    }
}

proof fn lemma_push_distinct(v: Seq<Seq<char>>, x: Seq<char>)
    requires
        v.no_duplicates(),
        !v.contains(x),
    ensures
        v.push(x).no_duplicates(),
{
    let n = v.push(x);
    assert forall|i: int, j: int| 0 <= i < n.len() && 0 <= j < n.len() && i != j implies n[i] != n[j] by {
        if i < v.len() && j < v.len() {
        } else if i == v.len() {
            assert(n[j] == v[j]);
        } else {
            assert(n[i] == v[i]);
        }
    }
}

proof fn lemma_contract_distinct(ms: Seq<RunMetricDef>, lm: bool)
    ensures
        ids_of(contract_defs(ms, lm)).no_duplicates(),
    decreases ms.len(),
{
    if ms.len() > 0 {
        lemma_contract_distinct(ms.drop_last(), lm);
        let prev = contract_defs(ms.drop_last(), lm);
        let d = metric_def(ms.last(), lm);
        if !ids_of(prev).contains(d.id) {
            lemma_push_distinct(ids_of(prev), d.id);
            assert(ids_of(prev.push(d)) =~= ids_of(prev).push(d.id));
        }
    }
}

proof fn lemma_with_lm_distinct(s: Seq<PanelDef>, lm: bool)
    requires
        ids_of(s).no_duplicates(),
    ensures
        ids_of(defs_with_lm(s, lm)).no_duplicates(),
        forall|x: Seq<char>| ids_of(defs_with_lm(s, lm)).contains(x) ==> ids_of(s).contains(x),
    decreases s.len(),
{
    if s.len() > 0 {
        let d = s.drop_last();
        assert(ids_of(d) =~= ids_of(s).drop_last());
        assert(ids_of(d).no_duplicates()) by {
            assert forall|i: int, j: int| 0 <= i < ids_of(d).len() && 0 <= j < ids_of(d).len() && i != j implies ids_of(d)[i] != ids_of(d)[j] by {
                assert(ids_of(d)[i] == ids_of(s)[i]);
                assert(ids_of(d)[j] == ids_of(s)[j]);
            }
        }
        lemma_with_lm_distinct(d, lm);
        let prev = defs_with_lm(d, lm);
        let last = s.last();
        assert(ids_of(s)[s.len() - 1] == last.id);
        assert forall|x: Seq<char>| ids_of(d).contains(x) implies ids_of(s).contains(x) by {
            let k = choose|k: int| 0 <= k < ids_of(d).len() && ids_of(d)[k] == x;
            assert(ids_of(s)[k] == x);
        }
        if last.lm == lm {
            assert(!ids_of(d).contains(last.id)) by {
                if ids_of(d).contains(last.id) {
                    let k = choose|k: int| 0 <= k < ids_of(d).len() && ids_of(d)[k] == last.id;
                    assert(ids_of(s)[k] == ids_of(s)[s.len() - 1]);
                }
            }
            assert(!ids_of(prev).contains(last.id));
            lemma_push_distinct(ids_of(prev), last.id);
            assert(ids_of(prev.push(last)) =~= ids_of(prev).push(last.id));
            assert forall|x: Seq<char>| ids_of(prev.push(last)).contains(x) implies ids_of(s).contains(x) by {
                let k = choose|k: int| 0 <= k < ids_of(prev.push(last)).len() && ids_of(prev.push(last))[k] == x;
                if k < prev.len() {
                    assert(ids_of(prev)[k] == x);
                    assert(ids_of(prev).contains(x));
                }
            }
        }
    }
}

proof fn lemma_legacy_distinct()
    ensures
        ids_of(legacy_defs()).no_duplicates(),
{
    reveal_strlit("ppl");
    reveal_strlit("ce");
    reveal_strlit("lm_acc");
    reveal_strlit("score");
    reveal_strlit("loss");
    reveal_strlit("lr");
    reveal_strlit("dream");
    reveal_strlit("gnorm");
    reveal_strlit("gpu_util");
    reveal_strlit("gpu_mem");
    let ids = ids_of(legacy_defs());
    let lens = seq![3int, 2, 6, 5, 4, 2, 5, 5, 8, 7];
    let firsts = seq!['p', 'c', 'l', 's', 'l', 'l', 'd', 'g', 'g', 'g'];
    let seconds = seq!['p', 'e', 'm', 'c', 'o', 'r', 'r', 'n', 'p', 'p'];
    assert forall|i: int| 0 <= i < 10 implies #[trigger] ids[i].len() == lens[i] && ids[i][0] == firsts[i]
        && ids[i][1] == seconds[i] by {
        assert(ids[i] == legacy_defs()[i].id);
    }
    assert forall|i: int, j: int| 0 <= i < ids.len() && 0 <= j < ids.len() && i != j implies ids[i] != ids[j] by {
        assert(ids[i].len() == lens[i] && ids[i][0] == firsts[i] && ids[i][1] == seconds[i]);
        assert(ids[j].len() == lens[j] && ids[j][0] == firsts[j] && ids[j][1] == seconds[j]);
    }
}

/// The panels of a run never repeat an id, and always include both GPU panels.
pub proof fn lemma_panels_distinct(run: RunScalars)
    ensures
        ids_of(panels_spec(run)).no_duplicates(),
        ids_of(panels_spec(run)).contains("gpu_util"@),
        ids_of(panels_spec(run)).contains("gpu_mem"@),
{
    let lm = lm_run(run);
    let ms: Seq<RunMetricDef> = match run.runspec {
        Some(rs) => match rs.output {
            Some(o) => o.metrics@,
            None => Seq::empty(),
        },
        None => Seq::empty(),
    };
    if ms.len() == 0 {
        lemma_legacy_distinct();
        lemma_with_lm_distinct(legacy_defs(), lm);
        lemma_with_system(defs_with_lm(legacy_defs(), lm));
    } else {
        lemma_contract_distinct(ms, lm);
        lemma_with_system(contract_defs(ms, lm));
    }
}

/// Panels for a run in output order: the contract's metrics when it lists
/// any, else the built-in panels for the run's kind; then the missing GPU panels.
pub open spec fn panels_spec(run: RunScalars) -> Seq<PanelDef> {
    let lm = lm_run(run);
    let ms: Seq<RunMetricDef> = match run.runspec {
        Some(rs) => match rs.output {
            Some(o) => o.metrics@,
            None => Seq::empty(),
        },
        None => Seq::empty(),
    };
    if ms.len() == 0 {
        with_system(defs_with_lm(legacy_defs(), lm))
    } else {
        with_system(contract_defs(ms, lm))
    }
}

fn contract_metrics(run: &RunScalars) -> (r: &[RunMetricDef])
    ensures
        r@ == (match run.runspec {
            Some(rs) => match rs.output {
                Some(o) => o.metrics@,
                None => Seq::empty(),
            },
            None => Seq::empty(),
        }),
{
    match &run.runspec {
        Some(rs) => match &rs.output {
            Some(o) => o.metrics.as_slice(),
            None => &[],
        },
        None => &[],
    }
}

/// Panels for one run in output order (see [`panels_spec`]).
pub fn panels_for(run: &RunScalars) -> (r: Vec<MetricPanel>)
    ensures
        defs_of(r@) == panels_spec(*run),
{
    let lm = run_is_lm(run);
    let metrics = contract_metrics(run);
    if metrics.len() == 0 {
        let cat = legacy_panel_catalog();
        let mut base: Vec<MetricPanel> = Vec::new();
        let mut i: usize = 0;
        while i < cat.len()
            invariant
                i <= cat.len(),
                static_defs(cat@) == legacy_defs(),
                defs_of(base@) == defs_with_lm(legacy_defs().take(i as int), lm),
            decreases cat.len() - i,
        {
            assert(legacy_defs().take(i + 1).drop_last() =~= legacy_defs().take(i as int));
            assert(legacy_defs()[i as int] == cat@[i as int].def());
            if cat[i].lm == lm {
                base.push(cat[i].into_panel());
            }
            i = i + 1;
            assert(defs_of(base@) =~= defs_with_lm(legacy_defs().take(i as int), lm));
        }
        assert(legacy_defs().take(cat.len() as int) =~= legacy_defs());
        return insert_system_panels(base);
    }
    let mut out: Vec<MetricPanel> = Vec::new();
    let mut i: usize = 0;
    while i < metrics.len()
        invariant
            i <= metrics.len(),
            defs_of(out@) == contract_defs(metrics@.take(i as int), lm),
        decreases metrics.len() - i,
    {
        let m = &metrics[i];
        assert(metrics@.take(i + 1).drop_last() =~= metrics@.take(i as int));
        assert(metrics@.take(i + 1).last() == *m);
        let panel = match legacy_by_series(lm, m.key.as_str()) {
            Some(p) => p,
            None => synth_panel(m, lm),
        };
        if !has_id(&out, panel.id.as_str()) {
            out.push(panel);
            assert(defs_of(out@) =~= contract_defs(metrics@.take(i + 1), lm));
        }
        i = i + 1;
    }
    assert(metrics@.take(metrics.len() as int) =~= metrics@);
    insert_system_panels(out)
}

/// Whether a column has a finite value.
pub open spec fn has_finite_in(s: Seq<FloatBits>) -> bool {
    exists|i: int| 0 <= i < s.len() && finite_bits(#[trigger] s[i])
}

fn has_finite(series: &RunSeries, key: &str) -> (r: bool)
    ensures
        r == has_finite_in(column(series.metrics@, key@)),
{
    let vals = series.nums(key);
    let mut i: usize = 0;
    while i < vals.len()
        invariant
            i <= vals.len(),
            vals@ == column(series.metrics@, key@),
            forall|j: int| 0 <= j < i ==> !finite_bits(#[trigger] vals@[j]),
        decreases vals.len() - i,
    {
        if is_finite_bits(vals[i]) {
            assert(finite_bits(vals@[i as int]));
            return true;
        }
        i = i + 1;
    }
    false
}

/// The panels whose series has a finite value, in order.
pub open spec fn with_data(ds: Seq<PanelDef>, metrics: Seq<(String, Vec<FloatBits>)>) -> Seq<PanelDef>
    decreases ds.len(),
{
    if ds.len() == 0 {
        Seq::empty()
    } else {
        let prev = with_data(ds.drop_last(), metrics);
        if has_finite_in(column(metrics, ds.last().series_key)) {
            prev.push(ds.last())
        } else {
            prev
        }
    }
}

/// Panels for a run's war-room view: its panels whose series has data; none
/// without a series.
pub fn metric_panels_for_run(run: &RunScalars, series: Option<&RunSeries>) -> (r: Vec<MetricPanel>)
    ensures
        match series {
            None => r@.len() == 0,
            Some(s) => defs_of(r@) == with_data(panels_spec(*run), s.metrics@),
        },
{
    let s = match series {
        Some(s) => s,
        None => return Vec::new(),
    };
    let all = panels_for(run);
    let n = all.len();
    let ghost d = defs_of(all@);
    let mut i: usize = 0;
    let mut rest = all;
    let mut kept: Vec<MetricPanel> = Vec::new();
    while rest.len() > 0
        invariant
            i <= d.len(),
            d.len() == n,
            i + rest@.len() == d.len(),
            defs_of(rest@) == d.skip(i as int),
            defs_of(kept@) == with_data(d.take(i as int), s.metrics@),
        decreases rest.len(),
    {
        let ghost r0 = rest@;
        assert(defs_of(r0)[0] == r0[0].def());
        assert(d.skip(i as int)[0] == d[i as int]);
        let p = rest.remove(0);
        assert(p.def() == d[i as int]);
        assert(d.take(i + 1).drop_last() =~= d.take(i as int));
        if has_finite(s, p.series_key.as_str()) {
            kept.push(p);
        }
        assert forall|k: int| 0 <= k < rest@.len() implies #[trigger] defs_of(rest@)[k] == d.skip(i + 1)[k] by {
            assert(rest@[k] == r0[k + 1]);
            assert(defs_of(r0)[k + 1] == r0[k + 1].def());
            assert(d.skip(i as int)[k + 1] == d[i + 1 + k]);
        }
        i = i + 1;
        assert(defs_of(rest@) =~= d.skip(i as int));
        assert(defs_of(kept@) =~= with_data(d.take(i as int), s.metrics@));
    }
    assert(d.take(i as int) =~= d);
    kept
}

} // verus!
