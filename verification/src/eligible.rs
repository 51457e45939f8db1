//! Which checkpoints the visualizer can load.
use vstd::prelude::*;
use crate::model::RunScalars;
use crate::vizmodel::{CheckpointFile, CheckpointRun};
use crate::health::{run_meta, spec_says_lm, str_or_empty};
use crate::text::{
    after_last, ascii_lower_seq, chars_ends_with, chars_has, chars_of,
    chars_starts_with, has_infix, has_prefix, has_suffix, lemma_last_index_none,
    lemma_last_index_unique, lower_chars, opt_is, push_char, push_str, str_contains,
    str_ends_with, str_eq, str_starts_with, string_of,
};

verus! {

/// The part of a pod name after its last `:` (all of it when there is none).
pub fn pod_tag(pod: &str) -> (r: String)
    ensures
        r@ == after_last(pod@, ':'),
{
    let cs = chars_of(pod);
    let mut k: usize = cs.len();
    while k > 0
        invariant
            k <= cs.len(),
            cs@ == pod@,
            forall|j: int| k <= j < cs.len() ==> cs@[j] != ':',
        decreases k,
    {
        if cs[k - 1] == ':' {
            proof {
                lemma_last_index_unique(pod@, ':', k - 1);
            }
            return string_of(vstd::slice::slice_subrange(cs.as_slice(), k, cs.len()));
        }
        k = k - 1;
    }
    proof {
        lemma_last_index_none(pod@, ':');
    }
    string_of(cs.as_slice())
}

/// `s` without the last `n` characters.
pub open spec fn drop_end(s: Seq<char>, n: nat) -> Seq<char> {
    s.subrange(0, s.len() - n)
}

/// Whether a stem names a plain save: empty, a `.best`/`.last` save, or free of dots.
pub open spec fn plain_stem(stem: Seq<char>) -> bool {
    stem.len() == 0 || has_suffix(stem, ".best"@) || has_suffix(stem, ".last"@) || !stem.contains(
        '.',
    )
}

/// The decision for one checkpoint extension, `None` when the name does not
/// end in it (bare or followed by `.best`/`.last`).
pub open spec fn ext_decision(l: Seq<char>, ext: Seq<char>) -> Option<bool> {
    if has_suffix(l, ext) {
        Some(plain_stem(drop_end(l, ext.len())))
    } else if has_suffix(l, ext + ".best"@) {
        Some(drop_end(l, ext.len() + 5).len() > 0)
    } else if has_suffix(l, ext + ".last"@) {
        Some(drop_end(l, ext.len() + 5).len() > 0)
    } else {
        None
    }
}

/// Whether a lower-cased file name is a flat checkpoint save: the first of
/// `.pt`, `.pth`, `.ckpt` that it ends in (bare or followed by `.best`/`.last`)
/// decides.
pub open spec fn flat_match(l: Seq<char>) -> bool {
    match ext_decision(l, ".pt"@) {
        Some(b) => b,
        None => match ext_decision(l, ".pth"@) {
            Some(b) => b,
            None => match ext_decision(l, ".ckpt"@) {
                Some(b) => b,
                None => false,
            },
        },
    }
}

fn ext_decision_exec(l: &[char], ext: &str) -> (r: Option<bool>)
    ensures
        r == ext_decision(l@, ext@),
{
    proof {
        reveal_strlit(".best");
        reveal_strlit(".last");
    }
    let e = chars_of(ext);
    if chars_ends_with(l, e.as_slice()) {
        let stem = vstd::slice::slice_subrange(l, 0, l.len() - e.len());
        let best = chars_of(".best");
        let last = chars_of(".last");
        return Some(stem.len() == 0 || chars_ends_with(stem, best.as_slice()) || chars_ends_with(
            stem,
            last.as_slice(),
        ) || !chars_has(stem, '.'));
    }
    let mut eb = e.clone();
    let mut el = e.clone();
    let b = chars_of(".best");
    let la = chars_of(".last");
    let mut k: usize = 0;
    while k < b.len()
        invariant
            k <= b.len(),
            b@ == ".best"@,
            la@ == ".last"@,
            b@.len() == la@.len(),
            eb@ == e@ + b@.take(k as int),
            el@ == e@ + la@.take(k as int),
        decreases b.len() - k,
    {
        eb.push(b[k]);
        el.push(la[k]);
        k = k + 1;
        assert(eb@ =~= e@ + b@.take(k as int));
        assert(el@ =~= e@ + la@.take(k as int));
    }
    assert(b@.take(5) =~= b@);
    assert(la@.take(5) =~= la@);
    if chars_ends_with(l, eb.as_slice()) {
        return Some(l.len() - eb.len() > 0);
    }
    if chars_ends_with(l, el.as_slice()) {
        return Some(l.len() - el.len() > 0);
    }
    None
}

fn flat_match_exec(l: &[char]) -> (r: bool)
    ensures
        r == flat_match(l@),
{
    match ext_decision_exec(l, ".pt") {
        Some(b) => b,
        None => match ext_decision_exec(l, ".pth") {
            Some(b) => b,
            None => match ext_decision_exec(l, ".ckpt") {
                Some(b) => b,
                None => false,
            },
        },
    }
}

/// Whether a file name is a flat checkpoint save (see [`flat_match`]), ignoring ASCII case.
pub fn flat_ckpt_match(filename: &str) -> (r: bool)
    ensures
        r == flat_match(ascii_lower_seq(filename@)),
{
    let cs = chars_of(filename);
    let lower = lower_chars(cs.as_slice());
    flat_match_exec(lower.as_slice())
}

/// Whether a file name is a gossip or consensus save (`w_`, `t_`, `s_` prefixes).
pub open spec fn gossip_name(f: Seq<char>) -> bool {
    has_prefix(f, "w_"@) || has_prefix(f, "t_"@) || has_prefix(f, "s_"@)
}

/// Whether a file name is a gossip or consensus save.
pub fn gossip_checkpoint(filename: &str) -> (r: bool)
    ensures
        r == gossip_name(filename@),
{
    proof {
        reveal_strlit("w_");
        reveal_strlit("t_");
        reveal_strlit("w_consensus");
        reveal_strlit("t_consensus");
        let f = filename@;
        if has_prefix(f, "w_consensus"@) {
            assert(f.subrange(0, 2) =~= f.subrange(0, 11).subrange(0, 2));
            assert("w_consensus"@.subrange(0, 2) =~= "w_"@);
        }
        if has_prefix(f, "t_consensus"@) {
            assert(f.subrange(0, 2) =~= f.subrange(0, 11).subrange(0, 2));
            assert("t_consensus"@.subrange(0, 2) =~= "t_"@);
        }
    }
    str_starts_with(filename, "w_") || str_starts_with(filename, "t_") || str_starts_with(
        filename,
        "s_",
    ) || str_starts_with(filename, "w_consensus") || str_starts_with(filename, "t_consensus")
}

/// Whether a run looks like a language-model run by its spec, its metric, or
/// an `lm` token in its descriptive fields.
pub open spec fn lm_by_meta(run: RunScalars) -> bool {
    let meta = run_meta(run);
    spec_says_lm(run) || (run.metric is Some && run.metric->0@ == "ppl"@) || has_infix(
        meta,
        "fabric_lm"@,
    ) || has_infix(meta, "_lm_"@) || has_infix(meta, "_lm."@) || has_suffix(meta, "_lm"@)
}

fn is_lm_run(run: &RunScalars) -> (r: bool)
    ensures
        r == lm_by_meta(*run),
{
    let spec_lm = match &run.runspec {
        Some(rs) => opt_is(&rs.substrate_kind, "lm"),
        None => false,
    };
    if spec_lm {
        return true;
    }
    if opt_is(&run.metric, "ppl") {
        return true;
    }
    let mut m = crate::text::owned(run.name.as_str());
    push_char(&mut m, ' ');
    push_str(&mut m, str_or_empty(&run.label));
    push_char(&mut m, ' ');
    push_str(&mut m, run.group.as_str());
    push_char(&mut m, ' ');
    push_str(&mut m, run.fleet.as_str());
    push_char(&mut m, ' ');
    push_str(&mut m, str_or_empty(&run.grid));
    push_char(&mut m, ' ');
    push_str(&mut m, str_or_empty(&run.metric));
    push_char(&mut m, ' ');
    push_str(&mut m, str_or_empty(&run.dataset));
    proof {
        reveal_strlit(" ");
    }
    assert(m@ =~= run_meta(*run));
    let s = m.as_str();
    str_contains(s, "fabric_lm") || str_contains(s, "_lm_") || str_contains(s, "_lm.")
        || str_ends_with(s, "_lm")
}

/// Whether a run's contract lets the visualizer open its checkpoints: a
/// declared checkpoint kind must be `canvas`; otherwise a `canvas` substrate
/// qualifies, `lm` and `polar` do not, any other spec does not, and a run
/// without a spec qualifies unless it looks like a language-model run.
pub open spec fn eligible_by_output(run: RunScalars) -> bool {
    let ck: Option<String> = match run.runspec {
        Some(rs) => match rs.output {
            Some(o) => o.checkpoint_kind,
            None => None,
        },
        None => None,
    };
    let sk: Option<String> = match run.runspec {
        Some(rs) => rs.substrate_kind,
        None => None,
    };
    if ck is Some {
        ck->0@ == "canvas"@
    } else if sk is Some && (sk->0@ == "lm"@ || sk->0@ == "polar"@) {
        false
    } else if sk is Some && sk->0@ == "canvas"@ {
        true
    } else if run.runspec is Some {
        false
    } else {
        !lm_by_meta(run)
    }
}

/// Whether a run's contract lets the visualizer open its checkpoints (see [`eligible_by_output`]).
pub fn viz_eligible_by_output(run: &RunScalars) -> (r: bool)
    ensures
        r == eligible_by_output(*run),
{
    let ck: Option<&String> = match &run.runspec {
        Some(rs) => match &rs.output {
            Some(o) => match &o.checkpoint_kind {
                Some(c) => Some(c),
                None => None,
            },
            None => None,
        },
        None => None,
    };
    if let Some(c) = ck {
        return str_eq(c.as_str(), "canvas");
    }
    let sk: Option<&String> = match &run.runspec {
        Some(rs) => match &rs.substrate_kind {
            Some(s) => Some(s),
            None => None,
        },
        None => None,
    };
    if let Some(s) = sk {
        if str_eq(s.as_str(), "lm") || str_eq(s.as_str(), "polar") {
            return false;
        }
        if str_eq(s.as_str(), "canvas") {
            return true;
        }
    }
    if run.runspec.is_some() {
        return false;
    }
    !is_lm_run(run)
}

/// A lower-cased file name without its checkpoint extension: the first of
/// `.pt.best`, `.pth.best`, `.ckpt.best`, `.pt.last`, `.pth.last`, `.ckpt.last`,
/// then of `.pt`, `.pth`, `.ckpt`, that it ends in.
pub open spec fn stripped(l: Seq<char>) -> Seq<char> {
    if has_suffix(l, ".pt.best"@) {
        drop_end(l, 8)
    } else if has_suffix(l, ".pth.best"@) {
        drop_end(l, 9)
    } else if has_suffix(l, ".ckpt.best"@) {
        drop_end(l, 10)
    } else if has_suffix(l, ".pt.last"@) {
        drop_end(l, 8)
    } else if has_suffix(l, ".pth.last"@) {
        drop_end(l, 9)
    } else if has_suffix(l, ".ckpt.last"@) {
        drop_end(l, 10)
    } else if has_suffix(l, ".pt"@) {
        drop_end(l, 3)
    } else if has_suffix(l, ".pth"@) {
        drop_end(l, 4)
    } else if has_suffix(l, ".ckpt"@) {
        drop_end(l, 5)
    } else {
        l
    }
}

fn strip_one(l: &[char], ext: &str) -> (r: Option<String>)
    ensures
        match r {
            Some(s) => has_suffix(l@, ext@) && s@ == drop_end(l@, ext@.len()),
            None => !has_suffix(l@, ext@),
        },
{
    let e = chars_of(ext);
    if chars_ends_with(l, e.as_slice()) {
        Some(string_of(vstd::slice::slice_subrange(l, 0, l.len() - e.len())))
    } else {
        None
    }
}

/// The lower-cased file name without its checkpoint extension (see [`stripped`]).
pub fn strip_ckpt_ext(filename: &str) -> (r: String)
    ensures
        r@ == stripped(ascii_lower_seq(filename@)),
{
    let cs = chars_of(filename);
    let lower = lower_chars(cs.as_slice());
    let l = lower.as_slice();
    proof {
        reveal_strlit(".pt.best");
        reveal_strlit(".pth.best");
        reveal_strlit(".ckpt.best");
        reveal_strlit(".pt.last");
        reveal_strlit(".pth.last");
        reveal_strlit(".ckpt.last");
        reveal_strlit(".pt");
        reveal_strlit(".pth");
        reveal_strlit(".ckpt");
    }
    if let Some(s) = strip_one(l, ".pt.best") {
        return s;
    }
    if let Some(s) = strip_one(l, ".pth.best") {
        return s;
    }
    if let Some(s) = strip_one(l, ".ckpt.best") {
        return s;
    }
    if let Some(s) = strip_one(l, ".pt.last") {
        return s;
    }
    if let Some(s) = strip_one(l, ".pth.last") {
        return s;
    }
    if let Some(s) = strip_one(l, ".ckpt.last") {
        return s;
    }
    if let Some(s) = strip_one(l, ".pt") {
        return s;
    }
    if let Some(s) = strip_one(l, ".pth") {
        return s;
    }
    if let Some(s) = strip_one(l, ".ckpt") {
        return s;
    }
    string_of(l)
}

/// Whether a file name is an `epoch_` flat save, ignoring ASCII case.
pub open spec fn epoch_match(f: Seq<char>) -> bool {
    has_prefix(ascii_lower_seq(f), "epoch_"@) && flat_match(ascii_lower_seq(f))
}

/// Whether a file name is an `epoch_` flat save, ignoring ASCII case.
pub fn epoch_ckpt_match(filename: &str) -> (r: bool)
    ensures
        r == epoch_match(filename@),
{
    let cs = chars_of(filename);
    let lower = lower_chars(cs.as_slice());
    let p = chars_of("epoch_");
    if !chars_starts_with(lower.as_slice(), p.as_slice()) {
        return false;
    }
    flat_ckpt_match(filename)
}

/// Whether a checkpoint whose run has no metrics yet belongs to the
/// visualizer: its stem or its run ends in `_` and the pod tag, its stem is the
/// run, `_` and the pod tag, or it is `best.pt` or an `epoch_` save.
pub open spec fn orphan_spec(run: Seq<char>, filename: Seq<char>, pod: Seq<char>) -> bool {
    let tag = after_last(pod, ':');
    let stem = stripped(ascii_lower_seq(filename));
    has_suffix(stem, seq!['_'] + tag) || has_suffix(run, seq!['_'] + tag) || stem == run + seq!['_']
        + tag || filename == "best.pt"@ || epoch_match(filename)
}

/// Whether a checkpoint without a run row belongs to the visualizer (see [`orphan_spec`]).
pub fn is_orphan_visualizer_checkpoint(run: &str, filename: &str, pod: &str) -> (r: bool)
    ensures
        r == orphan_spec(run@, filename@, pod@),
{
    let tag = pod_tag(pod);
    let stem = strip_ckpt_ext(filename);
    let mut us_tag = String::new();
    push_char(&mut us_tag, '_');
    push_str(&mut us_tag, tag.as_str());
    assert(us_tag@ =~= seq!['_'] + tag@);
    if str_ends_with(stem.as_str(), us_tag.as_str()) {
        return true;
    }
    if str_ends_with(run, us_tag.as_str()) {
        return true;
    }
    let mut full = crate::text::owned(run);
    push_str(&mut full, us_tag.as_str());
    assert(full@ =~= run@ + seq!['_'] + tag@);
    if str_eq(stem.as_str(), full.as_str()) {
        return true;
    }
    str_eq(filename, "best.pt") || epoch_ckpt_match(filename)
}

/// Whether the viewer can load a file by its name and kind: not a topology or
/// meta file, not `topology.pt` or JSON, not a gossip or consensus save; and
/// `best.pt`, an `epoch_` save, or a flat save.
pub open spec fn viewer_file(f: Seq<char>, kind: Option<Seq<char>>) -> bool {
    if kind == Some("topology"@) || kind == Some("meta"@) {
        false
    } else if f == "topology.pt"@ || has_suffix(f, ".json"@) {
        false
    } else if gossip_name(f) || has_infix(f, "consensus"@) {
        false
    } else if f == "best.pt"@ {
        true
    } else if epoch_match(f) {
        true
    } else {
        flat_match(ascii_lower_seq(f))
    }
}

/// Whether the viewer can load a file by its name and kind (see [`viewer_file`]).
pub fn is_visualizer_checkpoint_file(filename: &str, kind: Option<&str>) -> (r: bool)
    ensures
        r == viewer_file(
            filename@,
            match kind {
                Some(k) => Some(k@),
                None => None,
            },
        ),
{
    if let Some(k) = kind {
        if str_eq(k, "topology") || str_eq(k, "meta") {
            return false;
        }
    }
    if str_eq(filename, "topology.pt") || str_ends_with(filename, ".json") {
        return false;
    }
    if gossip_checkpoint(filename) || str_contains(filename, "consensus") {
        return false;
    }
    if str_eq(filename, "best.pt") {
        return true;
    }
    if epoch_ckpt_match(filename) {
        return true;
    }
    flat_ckpt_match(filename)
}

/// Whether a checkpoint appears in the visualizer list: the file must be
/// loadable; then the run's contract decides when there is a run row, and
/// the orphan rule otherwise.
pub open spec fn eligible_spec(ck: CheckpointRun, file: CheckpointFile, run_row: Option<RunScalars>) -> bool {
    let kind = match file.kind {
        Some(k) => Some(k@),
        None => None,
    };
    if !viewer_file(file.filename@, kind) {
        false
    } else {
        match run_row {
            Some(run) => eligible_by_output(run),
            None => orphan_spec(ck.run@, file.filename@, ck.pod@),
        }
    }
}

/// Whether a checkpoint appears in the visualizer list (see [`eligible_spec`]).
pub fn viz_eligible_checkpoint(ck: &CheckpointRun, file: &CheckpointFile, run_row: Option<&RunScalars>) -> (r: bool)
    ensures
        r == eligible_spec(
            *ck,
            *file,
            match run_row {
                Some(x) => Some(*x),
                None => None,
            },
        ),
{
    let kind: Option<&str> = match &file.kind {
        Some(k) => Some(k.as_str()),
        None => None,
    };
    if !is_visualizer_checkpoint_file(file.filename.as_str(), kind) {
        return false;
    }
    match run_row {
        Some(run) => viz_eligible_by_output(run),
        None => is_orphan_visualizer_checkpoint(ck.run.as_str(), file.filename.as_str(), ck.pod.as_str()),
    }
}

} // verus!
