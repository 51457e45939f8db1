//! Run health, kind classification, search and grouping for the overview.
use vstd::prelude::*;
use vstd::string::StringSliceAdditionalSpecFns;
use crate::model::{Headline, RunScalars};
use crate::text::{
    has_infix, occurs_at, opt_is, owned, push_char, push_str, str_contains, to_lower, trim_ws, trimmed,
    unicode_lowercase,
};

verus! {

// ---------------------------------------------------------------------------
// Health tones
// ---------------------------------------------------------------------------

/// How healthy one aspect of a run looks.
#[derive(Debug, Clone, Copy, PartialEq, Eq, Structural)]
pub enum Tone {
    Good,
    Warn,
    Bad,
    Neutral,
}

/// One health observation about a run.
#[derive(Debug, Clone, PartialEq, Eq)]
pub struct HealthSignal {
    pub id: &'static str,
    pub label: &'static str,
    pub value: String,
    pub tone: Tone,
    pub hint: String,
}

/// Severity of a tone: `Bad` above `Warn` above `Good` above `Neutral`.
pub open spec fn severity(t: Tone) -> int {
    match t {
        Tone::Bad => 3,
        Tone::Warn => 2,
        Tone::Good => 1,
        Tone::Neutral => 0,
    }
}

/// Whether some signal has tone `t`.
pub open spec fn has_tone(s: Seq<HealthSignal>, t: Tone) -> bool {
    exists|i: int| 0 <= i < s.len() && (#[trigger] s[i]).tone == t
}

/// The most severe tone among the signals; `Neutral` when there are none.
pub open spec fn worst_of(s: Seq<HealthSignal>) -> Tone {
    if has_tone(s, Tone::Bad) {
        Tone::Bad
    } else if has_tone(s, Tone::Warn) {
        Tone::Warn
    } else if has_tone(s, Tone::Good) {
        Tone::Good
    } else {
        Tone::Neutral
    }
}

/// The more severe of two tones.
pub open spec fn more_severe(a: Tone, b: Tone) -> Tone {
    if severity(a) >= severity(b) {
        a
    } else {
        b
    }
}

fn any_tone(signals: &[HealthSignal], t: Tone) -> (r: bool)
    ensures
        r == has_tone(signals@, t),
{
    let mut i: usize = 0;
    while i < signals.len()
        invariant
            i <= signals.len(),
            forall|j: int| 0 <= j < i ==> (#[trigger] signals@[j]).tone != t,
        decreases signals.len() - i,
    {
        if signals[i].tone == t {
            return true;
        }
        i = i + 1;
    }
    false
}

/// The most severe tone among the signals (`Neutral` for none).
pub fn worst_tone(signals: &[HealthSignal]) -> (r: Tone)
    ensures
        r == worst_of(signals@),
{
    if any_tone(signals, Tone::Bad) {
        return Tone::Bad;
    }
    if any_tone(signals, Tone::Warn) {
        return Tone::Warn;
    }
    if any_tone(signals, Tone::Good) {
        return Tone::Good;
    }
    Tone::Neutral
}

/// Adding a signal to a set makes the overall tone the more severe of the two:
/// the overall tone is the maximum by severity, and never improves.
pub proof fn lemma_worst_tone_push(s: Seq<HealthSignal>, x: HealthSignal)
    ensures
        worst_of(s.push(x)) == more_severe(worst_of(s), x.tone),
        severity(worst_of(s.push(x))) >= severity(worst_of(s)),
{
    let t = s.push(x);
    assert(t[s.len() as int] == x);
    assert forall|tone: Tone| has_tone(t, tone) == (has_tone(s, tone) || x.tone == tone) by {
        if has_tone(s, tone) {
            let i = choose|i: int| 0 <= i < s.len() && (#[trigger] s[i]).tone == tone;
            assert(t[i] == s[i]);
        }
        if has_tone(t, tone) && x.tone != tone {
            let i = choose|i: int| 0 <= i < t.len() && (#[trigger] t[i]).tone == tone;
            assert(i < s.len());
            assert(s[i] == t[i]);
        }
    }
    assert(has_tone(t, Tone::Bad) == (has_tone(s, Tone::Bad) || x.tone == Tone::Bad));
    assert(has_tone(t, Tone::Warn) == (has_tone(s, Tone::Warn) || x.tone == Tone::Warn));
    assert(has_tone(t, Tone::Good) == (has_tone(s, Tone::Good) || x.tone == Tone::Good));
}

/// Text of a tone's label.
pub open spec fn tone_text(t: Tone) -> Seq<char> {
    match t {
        Tone::Good => "HEALTHY"@,
        Tone::Warn => "WATCH"@,
        Tone::Bad => "AT RISK"@,
        Tone::Neutral => "UNKNOWN"@,
    }
}

/// Label shown for a tone.
pub fn tone_label(tone: Tone) -> (r: &'static str)
    ensures
        r@ == tone_text(tone),
{
    match tone {
        Tone::Good => "HEALTHY",
        Tone::Warn => "WATCH",
        Tone::Bad => "AT RISK",
        Tone::Neutral => "UNKNOWN",
    }
}

// ---------------------------------------------------------------------------
// Run kind
// ---------------------------------------------------------------------------

/// The text of an optional string, empty when missing.
pub open spec fn or_empty(o: Option<String>) -> Seq<char> {
    match o {
        Some(s) => s@,
        None => Seq::empty(),
    }
}

/// The text of an optional string, empty when missing.
pub fn str_or_empty(o: &Option<String>) -> (r: &str)
    ensures
        r@ == or_empty(*o),
{
    match o {
        Some(s) => s.as_str(),
        None => {
            proof {
                reveal_strlit("");
            }
            ""
        },
    }
}

/// Descriptive fields of a run joined with single spaces: name, label, group,
/// fleet, grid, metric and dataset.
pub open spec fn run_meta(run: RunScalars) -> Seq<char> {
    run.name@ + " "@ + or_empty(run.label) + " "@ + run.group@ + " "@ + run.fleet@ + " "@
        + or_empty(run.grid) + " "@ + or_empty(run.metric) + " "@ + or_empty(run.dataset)
}

/// Whether the run's frozen spec names a language-model substrate.
pub open spec fn spec_says_lm(run: RunScalars) -> bool {
    run.runspec is Some && run.runspec->0.substrate_kind is Some
        && run.runspec->0.substrate_kind->0@ == "lm"@
}

/// Whether a run is a language-model run: its spec says so, its metric is
/// perplexity, or its descriptive fields name a known language-model setup.
pub open spec fn lm_run(run: RunScalars) -> bool {
    let meta = run_meta(run);
    spec_says_lm(run) || (run.metric is Some && run.metric->0@ == "ppl"@) || has_infix(
        meta,
        "fabric_lm"@,
    ) || has_infix(meta, "transformer_lm"@) || has_infix(meta, "lm_wikitext"@) || has_infix(
        meta,
        "wikitext"@,
    ) || has_infix(meta, "tinystories"@)
}

/// Builds [`run_meta`].
fn meta_text(run: &RunScalars) -> (r: String)
    ensures
        r@ == run_meta(*run),
{
    let mut m = owned(run.name.as_str());
    push_char(&mut m, ' ');
    push_str(&mut m, str_or_empty(&run.label));
    push_char(&mut m, ' ');
    push_str(&mut m, run.group.as_str());
    push_char(&mut m, ' ');
    push_str(&mut m, run.fleet.as_str());
    push_char(&mut m, ' ');
    push_str(&mut m, str_or_empty(&run.grid));
    push_char(&mut m, ' ');
    push_str(&mut m, str_or_empty(&run.metric));
    push_char(&mut m, ' ');
    push_str(&mut m, str_or_empty(&run.dataset));
    proof {
        reveal_strlit(" ");
    }
    assert(m@ =~= run_meta(*run));
    m
}

/// Whether the run's frozen spec names a language-model substrate.
fn runspec_is_lm(run: &RunScalars) -> (r: bool)
    ensures
        r == spec_says_lm(*run),
{
    match &run.runspec {
        Some(rs) => rs.substrate_is_lm(),
        None => false,
    }
}

/// Whether a run is a language-model run (see [`lm_run`]).
pub fn is_lm_run(run: &RunScalars) -> (r: bool)
    ensures
        r == lm_run(*run),
{
    if runspec_is_lm(run) {
        return true;
    }
    if opt_is(&run.metric, "ppl") {
        return true;
    }
    let meta = meta_text(run);
    let m = meta.as_str();
    str_contains(m, "fabric_lm") || str_contains(m, "transformer_lm") || str_contains(
        m,
        "lm_wikitext",
    ) || str_contains(m, "wikitext") || str_contains(m, "tinystories")
}

/// Whether a run is a language-model run, its frozen spec taking precedence.
pub fn run_is_lm(run: &RunScalars) -> (r: bool)
    ensures
        r == lm_run(*run),
{
    if runspec_is_lm(run) {
        return true;
    }
    is_lm_run(run)
}

// ---------------------------------------------------------------------------
// Headline metric
// ---------------------------------------------------------------------------

/// The run's headline from its output contract, when it names a key.
pub open spec fn headline_spec(run: RunScalars) -> Option<Headline> {
    match run.runspec {
        Some(rs) => match rs.output {
            Some(o) => match o.headline {
                Some(h) => if h.key@.len() > 0 {
                    Some(h)
                } else {
                    None
                },
                None => None,
            },
            None => None,
        },
        None => None,
    }
}

/// The run's headline from its output contract, when it names a key.
pub fn headline_of(run: &RunScalars) -> (r: Option<&Headline>)
    ensures
        match r {
            Some(h) => headline_spec(*run) == Some(*h),
            None => headline_spec(*run) is None,
        },
{
    match &run.runspec {
        Some(rs) => match &rs.output {
            Some(o) => match &o.headline {
                Some(h) => if !h.key.as_str().is_empty() {
                    Some(h)
                } else {
                    None
                },
                None => None,
            },
            None => None,
        },
        None => None,
    }
}

/// Series key of the headline metric: the output contract's, else `ppl` for a
/// language-model run and `top1` otherwise.
pub open spec fn headline_key(run: RunScalars) -> Seq<char> {
    match headline_spec(run) {
        Some(h) => h.key@,
        None => if lm_run(run) {
            "ppl"@
        } else {
            "top1"@
        },
    }
}

/// Series key of the headline metric (see [`headline_key`]).
pub fn headline_series_key(run: &RunScalars) -> (r: String)
    ensures
        r@ == headline_key(*run),
{
    match headline_of(run) {
        Some(h) => h.key.clone(),
        None => if run_is_lm(run) {
            owned("ppl")
        } else {
            owned("top1")
        },
    }
}

/// The key of the headline the run's output contract names, if any (empty
/// when the contract names none).
pub open spec fn contract_headline_key(run: RunScalars) -> Seq<char> {
    match run.runspec {
        Some(rs) => match rs.output {
            Some(o) => match o.headline {
                Some(h) => h.key@,
                None => Seq::empty(),
            },
            None => Seq::empty(),
        },
        None => Seq::empty(),
    }
}

/// The headline key: a contract's non-empty headline key wins; without one
/// the key is `ppl` exactly for a language-model run and `top1` for any other,
/// so a run whose metric is `ppl` headlines `ppl`.
pub proof fn lemma_headline_key_choice(run: RunScalars)
    ensures
        contract_headline_key(run).len() > 0 ==> headline_key(run) == contract_headline_key(run),
        contract_headline_key(run).len() == 0 ==> (headline_key(run) == "ppl"@ <==> lm_run(run)),
        contract_headline_key(run).len() == 0 ==> (headline_key(run) == "top1"@ <==> !lm_run(run)),
        contract_headline_key(run).len() == 0 && run.metric is Some && run.metric->0@ == "ppl"@ ==> headline_key(
            run,
        ) == "ppl"@,
{
    reveal_strlit("ppl");
    reveal_strlit("top1");
    assert("ppl"@[0] != "top1"@[0]);
}

/// Series key for a run's sparkline: its headline metric.
pub fn pick_sparkline_key(run: &RunScalars) -> (r: String)
    ensures
        r@ == headline_key(*run),
{
    headline_series_key(run)
}

// ---------------------------------------------------------------------------
// Kind filter, search, grouping
// ---------------------------------------------------------------------------

/// Which runs the overview shows by kind.
#[derive(Debug, Clone, Copy, PartialEq, Eq, Structural)]
pub enum KindFilter {
    All,
    Recon,
    Lm,
}

impl Default for KindFilter {
    /// All runs.
    fn default() -> (r: Self)
        ensures
            r == KindFilter::All,
    {
        KindFilter::All
    }
}

/// Text of a kind filter's label.
pub open spec fn kind_text(k: KindFilter) -> Seq<char> {
    match k {
        KindFilter::All => "ALL"@,
        KindFilter::Recon => "RECON"@,
        KindFilter::Lm => "LM"@,
    }
}

impl KindFilter {
    /// Label shown for the filter.
    pub fn label(self) -> (r: &'static str)
        ensures
            r@ == kind_text(self),
    {
        match self {
            KindFilter::All => "ALL",
            KindFilter::Recon => "RECON",
            KindFilter::Lm => "LM",
        }
    }
}

/// Whether a run passes the kind filter.
pub open spec fn kind_matches(run: RunScalars, kind: KindFilter) -> bool {
    match kind {
        KindFilter::All => true,
        KindFilter::Lm => lm_run(run),
        KindFilter::Recon => !lm_run(run),
    }
}

/// Whether a run passes the kind filter.
pub fn matches_kind(run: &RunScalars, kind: KindFilter) -> (r: bool)
    ensures
        r == kind_matches(*run, kind),
{
    match kind {
        KindFilter::All => true,
        KindFilter::Lm => run_is_lm(run),
        KindFilter::Recon => !run_is_lm(run),
    }
}

/// A search with a lower-cased query over lower-cased fields: an empty query
/// matches, otherwise some field must contain it.
pub open spec fn search_lowered(query: Seq<char>, fields: Seq<Seq<char>>) -> bool {
    query.len() == 0 || exists|i: int| 0 <= i < fields.len() && has_infix(#[trigger] fields[i], query)
}

/// Whether a run matches a search: the trimmed query is empty, or its
/// lower-cased form is empty or occurs in the lower-cased name, pod, group or fleet.
pub open spec fn search_matches(run: RunScalars, query: Seq<char>) -> bool {
    trimmed(query).len() == 0 || search_lowered(
        unicode_lowercase(trimmed(query)),
        seq![
            unicode_lowercase(run.name@),
            unicode_lowercase(run.pod@),
            unicode_lowercase(run.group@),
            unicode_lowercase(run.fleet@),
        ],
    )
}

/// Whether a lower-cased query is empty or occurs in one of the lower-cased fields.
pub fn search_hit(query_lower: &str, fields_lower: &[String]) -> (r: bool)
    ensures
        r == search_lowered(query_lower@, fields_lower@.map_values(|f: String| f@)),
{
    let ghost fs = fields_lower@.map_values(|f: String| f@);
    if query_lower.is_empty() {
        return true;
    }
    let mut i: usize = 0;
    while i < fields_lower.len()
        invariant
            i <= fields_lower.len(),
            fs == fields_lower@.map_values(|f: String| f@),
            query_lower@.len() > 0,
            forall|j: int| 0 <= j < i ==> !has_infix(#[trigger] fs[j], query_lower@),
        decreases fields_lower.len() - i,
    {
        if str_contains(fields_lower[i].as_str(), query_lower) {
            assert(fs[i as int] == fields_lower@[i as int]@);
            return true;
        }
        i = i + 1;
    }
    false
}

/// Whether a run matches a search query (see [`search_matches`]).
pub fn matches_search(run: &RunScalars, query: &str) -> (r: bool)
    ensures
        r == search_matches(*run, query@),
{
    let t = trim_ws(query);
    if t.as_str().is_empty() {
        return true;
    }
    let q = to_lower(t.as_str());
    let mut fields: Vec<String> = Vec::new();
    fields.push(to_lower(run.name.as_str()));
    fields.push(to_lower(run.pod.as_str()));
    fields.push(to_lower(run.group.as_str()));
    fields.push(to_lower(run.fleet.as_str()));
    let r = search_hit(q.as_str(), fields.as_slice());
    assert(fields@.map_values(|f: String| f@) =~= seq![
        unicode_lowercase(run.name@),
        unicode_lowercase(run.pod@),
        unicode_lowercase(run.group@),
        unicode_lowercase(run.fleet@),
    ]);
    r
}

/// Runs that pass both filters, in order.
pub open spec fn kept_runs(runs: Seq<RunScalars>, kind: KindFilter, query: Seq<char>) -> Seq<
    RunScalars,
>
    decreases runs.len(),
{
    if runs.len() == 0 {
        Seq::empty()
    } else {
        let prev = kept_runs(runs.drop_last(), kind, query);
        if kind_matches(runs.last(), kind) && search_matches(runs.last(), query) {
            prev.push(runs.last())
        } else {
            prev
        }
    }
}

/// The runs that pass the kind filter and the search, in order.
pub fn filter_runs<'a>(runs: &'a [RunScalars], kind: KindFilter, query: &str) -> (r: Vec<
    &'a RunScalars,
>)
    ensures
        r@.len() == kept_runs(runs@, kind, query@).len(),
        forall|i: int| 0 <= i < r@.len() ==> *(#[trigger] r@[i]) == kept_runs(runs@, kind, query@)[i],
{
    let mut out: Vec<&'a RunScalars> = Vec::new();
    let mut i: usize = 0;
    while i < runs.len()
        invariant
            i <= runs.len(),
            out@.len() == kept_runs(runs@.take(i as int), kind, query@).len(),
            forall|k: int|
                0 <= k < out@.len() ==> *(#[trigger] out@[k]) == kept_runs(
                    runs@.take(i as int),
                    kind,
                    query@,
                )[k],
        decreases runs.len() - i,
    {
        let ghost before = out@;
        assert(runs@.take(i + 1).drop_last() =~= runs@.take(i as int));
        assert(runs@.take(i + 1).last() == runs@[i as int]);
        let run = &runs[i];
        if matches_kind(run, kind) && matches_search(run, query) {
            out.push(run);
        }
        i = i + 1;
    }
    assert(runs@.take(runs.len() as int) =~= runs@);
    out
}

/// A blank query with the `All` filter keeps every run, in order.
pub proof fn lemma_blank_search_keeps_all(runs: Seq<RunScalars>, query: Seq<char>)
    requires
        trimmed(query).len() == 0,
    ensures
        kept_runs(runs, KindFilter::All, query) == runs,
    decreases runs.len(),
{
    if runs.len() > 0 {
        lemma_blank_search_keeps_all(runs.drop_last(), query);
        assert(runs.drop_last().push(runs.last()) =~= runs);
    }
}

/// A search looks in each of the run's name, pod, group and fleet: a run
/// matches exactly when the trimmed query is blank or its lower-cased form
/// occurs in the lower-cased form of one of those four fields.
pub proof fn lemma_search_looks_in_every_field(run: RunScalars, query: Seq<char>)
    ensures
        search_matches(run, query) <==> (trimmed(query).len() == 0 || has_infix(
            unicode_lowercase(run.name@),
            unicode_lowercase(trimmed(query)),
        ) || has_infix(unicode_lowercase(run.pod@), unicode_lowercase(trimmed(query))) || has_infix(
            unicode_lowercase(run.group@),
            unicode_lowercase(trimmed(query)),
        ) || has_infix(unicode_lowercase(run.fleet@), unicode_lowercase(trimmed(query)))),
{
    let q = unicode_lowercase(trimmed(query));
    let fs = seq![
        unicode_lowercase(run.name@),
        unicode_lowercase(run.pod@),
        unicode_lowercase(run.group@),
        unicode_lowercase(run.fleet@),
    ];
    if q.len() == 0 {
        assert(fs[0].subrange(0, 0) =~= q);
        assert(occurs_at(fs[0], q, 0));
    }
    if has_infix(fs[0], q) {
        assert(has_infix(fs[0], q));
    }
    if has_infix(fs[1], q) {
        assert(has_infix(fs[1], q));
    }
    if has_infix(fs[2], q) {
        assert(has_infix(fs[2], q));
    }
    if has_infix(fs[3], q) {
        assert(has_infix(fs[3], q));
    }
    if search_lowered(q, fs) && q.len() > 0 {
        let i = choose|i: int| 0 <= i < fs.len() && has_infix(#[trigger] fs[i], q);
        assert(i == 0 || i == 1 || i == 2 || i == 3);
    }
}

/// The kind filter: `All` keeps every run, `Lm` exactly the language-model
/// runs and `Recon` exactly the others.
pub proof fn lemma_kind_filter(run: RunScalars)
    ensures
        kind_matches(run, KindFilter::All),
        kind_matches(run, KindFilter::Lm) <==> lm_run(run),
        kind_matches(run, KindFilter::Recon) <==> !lm_run(run),
{
}

/// Filtering keeps a run exactly when it is one of the runs and passes both
/// the kind filter and the search.
pub proof fn lemma_filter_keeps_exactly(runs: Seq<RunScalars>, kind: KindFilter, query: Seq<char>, r: RunScalars)
    ensures
        kept_runs(runs, kind, query).contains(r) <==> (runs.contains(r) && kind_matches(r, kind)
            && search_matches(r, query)),
    decreases runs.len(),
{
    if runs.len() > 0 {
        let pre = runs.drop_last();
        lemma_filter_keeps_exactly(pre, kind, query, r);
        let prev = kept_runs(pre, kind, query);
        assert(runs =~= pre.push(runs.last()));
        if runs.contains(r) {
            let i = choose|i: int| 0 <= i < runs.len() && runs[i] == r;
            if i < runs.len() - 1 {
                assert(pre[i] == r);
            }
        }
        if pre.contains(r) {
            let i = choose|i: int| 0 <= i < pre.len() && pre[i] == r;
            assert(runs[i] == r);
        }
        if kind_matches(runs.last(), kind) && search_matches(runs.last(), query) {
            let now = prev.push(runs.last());
            assert(now[now.len() - 1] == runs.last());
            if prev.contains(r) {
                let i = choose|i: int| 0 <= i < prev.len() && prev[i] == r;
                assert(now[i] == r);
            }
            if now.contains(r) {
                let i = choose|i: int| 0 <= i < now.len() && now[i] == r;
                if i < prev.len() {
                    assert(prev[i] == r);
                }
            }
        }
    }
}

/// Separator between the parts of a grouping key.
pub open spec fn key_sep() -> Seq<char> {
    seq!['\u{0001}']
}

/// Key of a run's group: its fleet and its group (its name when the group is empty).
pub open spec fn group_text(run: RunScalars) -> Seq<char> {
    run.fleet@ + key_sep() + if run.group@.len() == 0 {
        run.name@
    } else {
        run.group@
    }
}

/// Key of a run's group (see [`group_text`]).
pub fn group_key(run: &RunScalars) -> (r: String)
    ensures
        r@ == group_text(*run),
{
    let mut k = owned(run.fleet.as_str());
    push_char(&mut k, '\u{0001}');
    if run.group.as_str().is_empty() {
        push_str(&mut k, run.name.as_str());
    } else {
        push_str(&mut k, run.group.as_str());
    }
    k
}

/// Key of a run within its group: its pod and its name.
pub fn member_key(run: &RunScalars) -> (r: String)
    ensures
        r@ == run.pod@ + key_sep() + run.name@,
{
    let mut k = owned(run.pod.as_str());
    push_char(&mut k, '\u{0001}');
    push_str(&mut k, run.name.as_str());
    k
}

// ---------------------------------------------------------------------------
// Group colours and sparklines
// ---------------------------------------------------------------------------

/// 31-multiplier rolling hash of the bytes, wrapping in `i32`.
pub open spec fn key_hash(b: Seq<u8>) -> i32
    decreases b.len(),
{
    if b.len() == 0 {
        0
    } else {
        vstd::wrapping::i32_specs::wrapping_add(
            vstd::wrapping::i32_specs::wrapping_mul(key_hash(b.drop_last()), 31),
            b.last() as i32,
        )
    }
}

/// Absolute value of a hash.
pub open spec fn hash_magnitude(h: i32) -> nat {
    if h < 0 {
        (-h) as nat
    } else {
        h as nat
    }
}

/// The accent palette.
pub open spec fn palette(i: int) -> u32 {
    if i == 0 { 0x4f8cff }
    else if i == 1 { 0xff7a45 }
    else if i == 2 { 0x36c98d }
    else if i == 3 { 0xc879ff }
    else if i == 4 { 0xffd23f }
    else if i == 5 { 0xff5c8a }
    else if i == 6 { 0x28c0c8 }
    else if i == 7 { 0x9ae24b }
    else if i == 8 { 0xff6b6b }
    else if i == 9 { 0x845ef7 }
    else if i == 10 { 0x20c997 }
    else if i == 11 { 0xff922b }
    else if i == 12 { 0x51cf66 }
    else if i == 13 { 0x339af0 }
    else if i == 14 { 0xf06595 }
    else { 0x12b886 }
}

fn palette_at(i: u32) -> (r: u32)
    requires
        i < 16,
    ensures
        r == palette(i as int),
{
    if i == 0 { 0x4f8cff }
    else if i == 1 { 0xff7a45 }
    else if i == 2 { 0x36c98d }
    else if i == 3 { 0xc879ff }
    else if i == 4 { 0xffd23f }
    else if i == 5 { 0xff5c8a }
    else if i == 6 { 0x28c0c8 }
    else if i == 7 { 0x9ae24b }
    else if i == 8 { 0xff6b6b }
    else if i == 9 { 0x845ef7 }
    else if i == 10 { 0x20c997 }
    else if i == 11 { 0xff922b }
    else if i == 12 { 0x51cf66 }
    else if i == 13 { 0x339af0 }
    else if i == 14 { 0xf06595 }
    else { 0x12b886 }
}

/// Accent colour of a group key: the palette entry at the key's hash
/// magnitude modulo the palette size.
pub fn color_for_key(key: &str) -> (r: u32)
    ensures
        r == palette((hash_magnitude(key_hash(key.spec_bytes())) % 16) as int),
{
    let bytes = key.as_bytes();
    let mut h: i32 = 0;
    let mut i: usize = 0;
    while i < bytes.len()
        invariant
            i <= bytes.len(),
            bytes@ == key.spec_bytes(),
            h == key_hash(bytes@.take(i as int)),
        decreases bytes.len() - i,
    {
        assert(bytes@.take(i + 1).drop_last() =~= bytes@.take(i as int));
        assert(bytes@.take(i + 1).last() == bytes@[i as int]);
        h = h.wrapping_mul(31).wrapping_add(bytes[i] as i32);
        i = i + 1;
    }
    assert(bytes@.take(bytes.len() as int) =~= bytes@);
    let m: u32 = if h < 0 {
        (-(h as i64)) as u32
    } else {
        h as u32
    };
    palette_at(m % 16)
}

/// The finite values of a column, in order.
pub open spec fn finite_values(s: Seq<crate::model::FloatBits>) -> Seq<crate::model::FloatBits>
    decreases s.len(),
{
    if s.len() == 0 {
        Seq::empty()
    } else {
        let prev = finite_values(s.drop_last());
        if crate::series::finite_bits(s.last()) {
            prev.push(s.last())
        } else {
            prev
        }
    }
}

/// The last `window` finite values of a column (all of them when fewer), in order.
pub open spec fn last_finite_window(s: Seq<crate::model::FloatBits>, window: nat) -> Seq<
    crate::model::FloatBits,
> {
    let f = finite_values(s);
    if f.len() <= window {
        f
    } else {
        f.skip(f.len() - window)
    }
}

/// The last `window` finite values of the column `key`, oldest first.
pub fn sparkline_values(series: &crate::series::RunSeries, key: &str, window: usize) -> (r: Vec<
    crate::model::FloatBits,
>)
    ensures
        r@ == last_finite_window(crate::series::column(series.metrics@, key@), window as nat),
{
    let vals = series.nums(key);
    let mut f: Vec<crate::model::FloatBits> = Vec::new();
    let mut i: usize = 0;
    while i < vals.len()
        invariant
            i <= vals.len(),
            f@ == finite_values(vals@.take(i as int)),
        decreases vals.len() - i,
    {
        assert(vals@.take(i + 1).drop_last() =~= vals@.take(i as int));
        assert(vals@.take(i + 1).last() == vals@[i as int]);
        if crate::series::is_finite_bits(vals[i]) {
            f.push(vals[i]);
        }
        i = i + 1;
    }
    assert(vals@.take(vals.len() as int) =~= vals@);
    if f.len() <= window {
        return f;
    }
    let start = f.len() - window;
    let mut out: Vec<crate::model::FloatBits> = Vec::new();
    let mut k: usize = start;
    while k < f.len()
        invariant
            start <= k <= f.len(),
            out@ == f@.subrange(start as int, k as int),
        decreases f.len() - k,
    {
        out.push(f[k]);
        k = k + 1;
        assert(out@ =~= f@.subrange(start as int, k as int));
    }
    assert(f@.subrange(start as int, f.len() as int) =~= f@.skip(start as int));
    out
}

} // verus!
