//! Input drive of a visualizer step, and the selectable input sources.
use vstd::prelude::*;
use crate::vizmodel::{DriveSpec, VizLoadMeta};
use crate::geometry::run_dataset;
use crate::text::{owned, str_eq, string_eq};

verus! {

/// What the input picker has selected.
pub struct BuildDriveOpts<'a> {
    pub source: &'a str,
    pub idx: i64,
    pub run_dataset: Option<&'a str>,
    pub has_dataset: bool,
    pub pixel_b64: Option<&'a str>,
}

/// The drive for a selection: uploaded pixels when there are any; the run's
/// own dataset (by index) when it is present and selected; else the selected
/// built-in dataset at the index.
pub open spec fn drive_spec(
    source: Seq<char>,
    idx: i64,
    run_ds: Option<Seq<char>>,
    has_dataset: bool,
    pixels: Option<Seq<char>>,
) -> (Seq<char>, int, i64) {
    if pixels is Some && pixels->0.len() > 0 {
        (pixels->0, 2, 0)
    } else {
        let ds = match run_ds {
            Some(d) => d,
            None => Seq::empty(),
        };
        if has_dataset && ds.len() > 0 && source == ds {
            (Seq::empty(), 0, idx)
        } else {
            (source, 1, idx)
        }
    }
}

/// The text, variant number (image 0, built-in 1, pixels 2, zero 3) and index of a drive.
pub open spec fn drive_parts(d: DriveSpec) -> (Seq<char>, int, i64) {
    match d {
        DriveSpec::Image { idx } => (Seq::empty(), 0, idx),
        DriveSpec::Builtin { dataset, idx } => (dataset@, 1, idx),
        DriveSpec::Pixels { data } => (data@, 2, 0),
        DriveSpec::Zero => (Seq::empty(), 3, 0),
    }
}

/// The drive for the picker's selection (see [`drive_spec`]).
pub fn build_drive(opts: BuildDriveOpts<'_>) -> (r: DriveSpec)
    ensures
        drive_parts(r) == drive_spec(
            opts.source@,
            opts.idx,
            match opts.run_dataset {
                Some(d) => Some(d@),
                None => None,
            },
            opts.has_dataset,
            match opts.pixel_b64 {
                Some(p) => Some(p@),
                None => None,
            },
        ),
{
    if let Some(data) = opts.pixel_b64 {
        if !data.is_empty() {
            return DriveSpec::Pixels { data: owned(data) };
        }
    }
    let ds = match opts.run_dataset {
        Some(d) => d,
        None => {
            proof {
                reveal_strlit("");
            }
            ""
        },
    };
    if opts.has_dataset && !ds.is_empty() && str_eq(opts.source, ds) {
        return DriveSpec::Image { idx: opts.idx };
    }
    DriveSpec::Builtin { dataset: owned(opts.source), idx: opts.idx }
}

/// Source selected after a load: the run's own dataset when present, else the
/// first built-in, else `mnist`.
pub open spec fn default_source(meta: VizLoadMeta) -> Seq<char> {
    match run_dataset(meta) {
        Some(d) => d,
        None => if meta.builtins@.len() > 0 {
            meta.builtins@[0]@
        } else {
            "mnist"@
        },
    }
}

/// Source selected after a load (see [`default_source`]).
pub fn default_viz_source(meta: &VizLoadMeta) -> (r: String)
    ensures
        r@ == default_source(*meta),
{
    let present = match meta.has_dataset {
        Some(b) => b,
        None => false,
    };
    if present {
        if let Some(ds) = &meta.dataset {
            if !ds.as_str().is_empty() {
                return ds.clone();
            }
        }
    }
    if meta.builtins.len() > 0 {
        meta.builtins[0].clone()
    } else {
        owned("mnist")
    }
}

/// `s` with `x` appended unless it is already there.
pub open spec fn push_new(s: Seq<Seq<char>>, x: Seq<char>) -> Seq<Seq<char>> {
    if s.contains(x) {
        s
    } else {
        s.push(x)
    }
}

/// The built-ins appended one by one, each unless already present.
pub open spec fn add_builtins(start: Seq<Seq<char>>, bs: Seq<String>) -> Seq<Seq<char>>
    decreases bs.len(),
{
    if bs.len() == 0 {
        start
    } else {
        push_new(add_builtins(start, bs.drop_last()), bs.last()@)
    }
}

/// Selectable sources: the run's own dataset when present, then the built-ins,
/// each once.
pub open spec fn sources_spec(meta: VizLoadMeta) -> Seq<Seq<char>> {
    let start = match run_dataset(meta) {
        Some(d) => seq![d],
        None => Seq::empty(),
    };
    add_builtins(start, meta.builtins@)
}

fn contains_text(v: &Vec<String>, x: &String) -> (r: bool)
    ensures
        r == v@.map_values(|s: String| s@).contains(x@),
{
    let ghost vs = v@.map_values(|s: String| s@);
    let mut i: usize = 0;
    while i < v.len()
        invariant
            i <= v.len(),
            vs == v@.map_values(|s: String| s@),
            forall|j: int| 0 <= j < i ==> vs[j] != x@,
        decreases v.len() - i,
    {
        assert(vs[i as int] == v@[i as int]@);
        if string_eq(&v[i], x) {
            return true;
        }
        i = i + 1;
    }
    false
}

/// Selectable sources for the picker (see [`sources_spec`]).
pub fn viz_sources(meta: &VizLoadMeta) -> (r: Vec<String>)
    ensures
        r@.map_values(|s: String| s@) == sources_spec(*meta),
{
    let mut out: Vec<String> = Vec::new();
    let present = match meta.has_dataset {
        Some(b) => b,
        None => false,
    };
    if present {
        if let Some(ds) = &meta.dataset {
            if !ds.as_str().is_empty() {
                out.push(ds.clone());
            }
        }
    }
    let ghost start = out@.map_values(|s: String| s@);
    assert(start =~= match run_dataset(*meta) {
        Some(d) => seq![d],
        None => Seq::<Seq<char>>::empty(),
    });
    let mut i: usize = 0;
    while i < meta.builtins.len()
        invariant
            i <= meta.builtins.len(),
            out@.map_values(|s: String| s@) == add_builtins(start, meta.builtins@.take(i as int)),
        decreases meta.builtins.len() - i,
    {
        let b = &meta.builtins[i];
        assert(meta.builtins@.take(i + 1).drop_last() =~= meta.builtins@.take(i as int));
        assert(meta.builtins@.take(i + 1).last() == *b);
        if !contains_text(&out, b) {
            out.push(b.clone());
            assert(out@.map_values(|s: String| s@) =~= add_builtins(start, meta.builtins@.take(i as int)).push(b@));
        }
        i = i + 1;
    }
    assert(meta.builtins@.take(meta.builtins.len() as int) =~= meta.builtins@);
    out
}

/// Appending built-ins one by one keeps a list free of repeats.
proof fn lemma_add_builtins_distinct(start: Seq<Seq<char>>, bs: Seq<String>)
    requires
        start.no_duplicates(),
    ensures
        add_builtins(start, bs).no_duplicates(),
    decreases bs.len(),
{
    if bs.len() > 0 {
        lemma_add_builtins_distinct(start, bs.drop_last());
        let prev = add_builtins(start, bs.drop_last());
        let x = bs.last()@;
        if !prev.contains(x) {
            let n = prev.push(x);
            assert forall|i: int, j: int| 0 <= i < n.len() && 0 <= j < n.len() && i != j implies n[i] != n[j] by {
                if i < prev.len() && j < prev.len() {
                } else if i == prev.len() {
                    assert(n[j] == prev[j]);
                } else {
                    assert(n[i] == prev[i]);
                }
            }
        }
    }
}

/// The selectable sources never repeat, and the run's own dataset (when the
/// visualizer has it) comes first.
pub proof fn lemma_sources_distinct(meta: VizLoadMeta)
    ensures
        sources_spec(meta).no_duplicates(),
        run_dataset(meta) matches Some(d) ==> sources_spec(meta).len() > 0 && sources_spec(meta)[0] == d,
{
    let start: Seq<Seq<char>> = match run_dataset(meta) {
        Some(d) => seq![d],
        None => Seq::empty(),
    };
    lemma_add_builtins_distinct(start, meta.builtins@);
    lemma_add_builtins_prefix(start, meta.builtins@);
}

proof fn lemma_add_builtins_prefix(start: Seq<Seq<char>>, bs: Seq<String>)
    ensures
        add_builtins(start, bs).len() >= start.len(),
        forall|i: int| 0 <= i < start.len() ==> #[trigger] add_builtins(start, bs)[i] == start[i],
    decreases bs.len(),
{
    if bs.len() > 0 {
        lemma_add_builtins_prefix(start, bs.drop_last());
    }
}

} // verus!
