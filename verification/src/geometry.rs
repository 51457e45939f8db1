//! Substrate layout: grid dimensions, labelled regions and per-cell tags.
use vstd::prelude::*;
use crate::vizmodel::{
    FabRegionSpan, RegionKind, VizGeometry, VizGeometryRegions, VizKind, VizLoadMeta, VizRegion,
};
use crate::text::{str_eq, owned};

verus! {

/// The run's own dataset, when the visualizer has it and it is named.
pub open spec fn run_dataset(meta: VizLoadMeta) -> Option<Seq<char>> {
    if meta.has_dataset == Some(true) && meta.dataset is Some && meta.dataset->0@.len() > 0 {
        Some(meta.dataset->0@)
    } else {
        None
    }
}

fn run_dataset_of(meta: &VizLoadMeta) -> (r: Option<&String>)
    ensures
        match r {
            Some(d) => run_dataset(*meta) == Some(d@),
            None => run_dataset(*meta) is None,
        },
{
    let present = match meta.has_dataset {
        Some(b) => b,
        None => false,
    };
    if !present {
        return None;
    }
    match &meta.dataset {
        Some(d) => if d.as_str().is_empty() {
            None
        } else {
            Some(d)
        },
        None => None,
    }
}

/// Dataset to page thumbnails from for the selected source: the source itself
/// (which is the run's dataset when that one is selected).
pub fn gallery_dataset(meta: &VizLoadMeta, source: &str) -> (r: String)
    ensures
        r@ == source@,
{
    match run_dataset_of(meta) {
        Some(ds) => if str_eq(source, ds.as_str()) {
            ds.clone()
        } else {
            owned(source)
        },
        None => owned(source),
    }
}

/// `x.max(1)`.
pub open spec fn at_least_one(x: i64) -> i64 {
    if x < 1 {
        1
    } else {
        x
    }
}

/// Rows of one band: `band_rows`, else `R`, at least 1, as `u32`.
pub open spec fn band_of(geo: VizGeometry) -> u32 {
    (at_least_one(
        match geo.band_rows {
            Some(b) => b,
            None => geo.r,
        },
    )) as u32
}

fn band_exec(geo: &VizGeometry) -> (r: u32)
    ensures
        r == band_of(*geo),
{
    let b = match geo.band_rows {
        Some(b) => b,
        None => geo.r,
    };
    let b = if b < 1 {
        1
    } else {
        b
    };
    b as u32
}

/// Rows of the flat activation grid: `R` when positive, else band rows × planes.
pub open spec fn rows_of(geo: VizGeometry) -> int {
    if geo.r > 0 {
        (geo.r as u32) as int
    } else {
        band_of(geo) * ((at_least_one(geo.planes)) as u32)
    }
}

/// Rows of the flat activation grid (see [`rows_of`]).
pub fn substrate_rows(geo: &VizGeometry) -> (r: u32)
    requires
        rows_of(*geo) <= u32::MAX,
    ensures
        r == rows_of(*geo),
{
    let band = band_exec(geo);
    let p = if geo.planes < 1 {
        1
    } else {
        geo.planes
    };
    let planes = p as u32;
    if geo.r > 0 {
        geo.r as u32
    } else {
        band * planes
    }
}

/// Columns of the grid: `C`, at least 1.
pub fn substrate_cols(geo: &VizGeometry) -> (r: u32)
    ensures
        r == (at_least_one(geo.c)) as u32,
{
    let c = if geo.c < 1 {
        1
    } else {
        geo.c
    };
    c as u32
}

/// Planes of the grid: `R` (at least 1) over band rows, at least 1, when `R`
/// is positive and the band is not empty; else `planes`, at least 1.
pub open spec fn planes_of(geo: VizGeometry) -> u32 {
    let band = band_of(geo);
    if geo.r > 0 && band > 0 {
        let rows: u32 = if (geo.r as u32) < 1 {
            1
        } else {
            geo.r as u32
        };
        let q = (rows / band) as u32;
        if q < 1 {
            1
        } else {
            q
        }
    } else {
        (at_least_one(geo.planes)) as u32
    }
}

/// Planes of the grid (see [`planes_of`]).
pub fn substrate_planes(geo: &VizGeometry) -> (r: u32)
    ensures
        r == planes_of(*geo),
{
    let band = band_exec(geo);
    if geo.r > 0 && band > 0 {
        let rows = geo.r as u32;
        let rows = if rows < 1 {
            1
        } else {
            rows
        };
        let q = rows / band;
        if q < 1 {
            1
        } else {
            q
        }
    } else {
        let p = if geo.planes < 1 {
            1
        } else {
            geo.planes
        };
        p as u32
    }
}

/// Rows of one band (see [`band_of`]).
pub fn substrate_band_rows(geo: &VizGeometry) -> (r: u32)
    ensures
        r == band_of(*geo),
{
    band_exec(geo)
}

/// Regions to draw: the geometry's, keeping only the one of readout and recon
/// that fits the loaded kind when both are present (readout for a classifier,
/// recon otherwise; without a kind, readout when the geometry says `classify`).
pub open spec fn display_spec(geo: VizGeometry, viz_kind: Option<VizKind>) -> VizGeometryRegions {
    let out = geo.regions;
    if out.readout is Some && out.recon is Some {
        match viz_kind {
            Some(VizKind::ClassifyLogits) => VizGeometryRegions { recon: None, ..out },
            Some(VizKind::ReconRollout) => VizGeometryRegions { readout: None, ..out },
            None => if geo.kind@ == "classify"@ {
                VizGeometryRegions { recon: None, ..out }
            } else {
                VizGeometryRegions { readout: None, ..out }
            },
        }
    } else {
        out
    }
}

/// Regions to draw (see [`display_spec`]).
pub fn display_regions(geo: &VizGeometry, viz_kind: Option<&VizKind>) -> (r: VizGeometryRegions)
    ensures
        r == display_spec(
            *geo,
            match viz_kind {
                Some(k) => Some(*k),
                None => None,
            },
        ),
{
    let mut out = geo.regions;
    if out.readout.is_some() && out.recon.is_some() {
        match viz_kind {
            Some(VizKind::ClassifyLogits) => out.recon = None,
            Some(VizKind::ReconRollout) => out.readout = None,
            None => if str_eq(geo.kind.as_str(), "classify") {
                out.recon = None
            } else {
                out.readout = None
            },
        }
    }
    out
}

/// The regions to draw never hold both a readout and a recon rectangle, and
/// every other rectangle is the geometry's own.
pub proof fn lemma_display_exclusive(geo: VizGeometry, viz_kind: Option<VizKind>)
    ensures
        !(display_spec(geo, viz_kind).readout is Some && display_spec(geo, viz_kind).recon is Some),
        display_spec(geo, viz_kind).input == geo.regions.input,
        display_spec(geo, viz_kind).compute == geo.regions.compute,
        display_spec(geo, viz_kind).readout is Some ==> display_spec(geo, viz_kind).readout == geo.regions.readout,
        display_spec(geo, viz_kind).recon is Some ==> display_spec(geo, viz_kind).recon == geo.regions.recon,
{
}

/// Kinds that have a rectangle, in the order input, compute, readout, recon.
pub open spec fn present_spec(r: VizGeometryRegions) -> Seq<RegionKind> {
    (if r.input is Some { seq![RegionKind::Input] } else { Seq::empty() }) + (if r.compute is Some {
        seq![RegionKind::Compute]
    } else {
        Seq::empty()
    }) + (if r.readout is Some { seq![RegionKind::Readout] } else { Seq::empty() }) + (
    if r.recon is Some {
        seq![RegionKind::Recon]
    } else {
        Seq::empty()
    })
}

/// Kinds that have a rectangle (see [`present_spec`]).
pub fn present_region_kinds(regions: &VizGeometryRegions) -> (r: Vec<RegionKind>)
    ensures
        r@ == present_spec(*regions),
{
    let mut v: Vec<RegionKind> = Vec::new();
    if regions.input.is_some() {
        v.push(RegionKind::Input);
    }
    if regions.compute.is_some() {
        v.push(RegionKind::Compute);
    }
    if regions.readout.is_some() {
        v.push(RegionKind::Readout);
    }
    if regions.recon.is_some() {
        v.push(RegionKind::Recon);
    }
    assert(v@ =~= present_spec(*regions));
    v
}

/// Whether a cell lies in a rectangle.
pub open spec fn in_rect(row: u32, col: u32, r: VizRegion) -> bool {
    r.r0 <= row < r.r1 && r.c0 <= col < r.c1
}

/// Whether a cell lies in an optional rectangle.
pub open spec fn in_opt(row: u32, col: u32, r: Option<VizRegion>) -> bool {
    match r {
        Some(x) => in_rect(row, col, x),
        None => false,
    }
}

/// Region of a cell: input, readout, recon in that order of precedence, else compute.
pub open spec fn region_at_spec(row: u32, col: u32, regions: VizGeometryRegions) -> RegionKind {
    if in_opt(row, col, regions.input) {
        RegionKind::Input
    } else if in_opt(row, col, regions.readout) {
        RegionKind::Readout
    } else if in_opt(row, col, regions.recon) {
        RegionKind::Recon
    } else {
        RegionKind::Compute
    }
}

fn in_region(row: u32, col: u32, r: &Option<VizRegion>) -> (b: bool)
    ensures
        b == in_opt(row, col, *r),
{
    match r {
        Some(x) => (row as i64) >= x.r0 && (row as i64) < x.r1 && (col as i64) >= x.c0 && (col
            as i64) < x.c1,
        None => false,
    }
}

/// Region of a cell (see [`region_at_spec`]).
pub fn region_at(row: u32, col: u32, regions: &VizGeometryRegions) -> (r: RegionKind)
    ensures
        r == region_at_spec(row, col, *regions),
{
    if in_region(row, col, &regions.input) {
        RegionKind::Input
    } else if in_region(row, col, &regions.readout) {
        RegionKind::Readout
    } else if in_region(row, col, &regions.recon) {
        RegionKind::Recon
    } else {
        RegionKind::Compute
    }
}

/// Whether a column lies in a span `[first, width]`.
pub open spec fn in_span(col: u32, span: [i64; 2]) -> bool {
    span[0] <= col < span[0] + span[1]
}

/// The end of a span is an `i64`.
pub open spec fn span_fits(span: [i64; 2]) -> bool {
    i64::MIN <= span[0] + span[1] <= i64::MAX
}

/// Whether a column lies in a span `[first, width]`.
pub fn col_in_span(col: u32, span: [i64; 2]) -> (r: bool)
    requires
        span_fits(span),
    ensures
        r == in_span(col, span),
{
    (col as i64) >= span[0] && (col as i64) < span[0] + span[1]
}

/// Region of a cell's column under FAB spans: input, readout, recon in that
/// order of precedence, else compute.
pub open spec fn span_region(col: u32, spans: FabRegionSpan) -> RegionKind {
    if in_span(col, spans.input) {
        RegionKind::Input
    } else if in_span(col, spans.readout) {
        RegionKind::Readout
    } else if in_span(col, spans.recon) {
        RegionKind::Recon
    } else {
        RegionKind::Compute
    }
}

/// Column of flat cell `idx` in a grid of `cols` columns (at least 1).
pub open spec fn cell_col(idx: int, cols: u32) -> u32 {
    let c: u32 = if cols < 1 {
        1
    } else {
        cols
    };
    ((idx as u32) % c) as u32
}

/// Per-cell region tags of `n` cells from FAB column spans.
pub fn regions_from_fab_spans(n: usize, cols: u32, band_rows: u32, spans: &FabRegionSpan) -> (r: Vec<
    RegionKind,
>)
    requires
        span_fits(spans.input),
        span_fits(spans.readout),
        span_fits(spans.recon),
    ensures
        r@.len() == n,
        forall|i: int| 0 <= i < n ==> #[trigger] r@[i] == span_region(cell_col(i, cols), *spans),
{
    let cols = if cols < 1 {
        1
    } else {
        cols
    };
    let _ = band_rows;
    let mut v: Vec<RegionKind> = Vec::new();
    let mut idx: usize = 0;
    while idx < n
        invariant
            idx <= n,
            cols >= 1,
            span_fits(spans.input),
            span_fits(spans.readout),
            span_fits(spans.recon),
            v@.len() == idx,
            forall|i: int| 0 <= i < idx ==> #[trigger] v@[i] == span_region(cell_col(i, cols), *spans),
        decreases n - idx,
    {
        let col = (idx as u32) % cols;
        let k = if col_in_span(col, spans.input) {
            RegionKind::Input
        } else if col_in_span(col, spans.readout) {
            RegionKind::Readout
        } else if col_in_span(col, spans.recon) {
            RegionKind::Recon
        } else {
            RegionKind::Compute
        };
        v.push(k);
        idx = idx + 1;
    }
    v
}

/// The region kinds that occur among the cells, each once, in the order
/// input, compute, readout, recon.
pub open spec fn kinds_in_spec(cells: Seq<RegionKind>) -> Seq<RegionKind> {
    (if cells.contains(RegionKind::Input) { seq![RegionKind::Input] } else { Seq::empty() })
        + (if cells.contains(RegionKind::Compute) { seq![RegionKind::Compute] } else { Seq::empty() })
        + (if cells.contains(RegionKind::Readout) { seq![RegionKind::Readout] } else { Seq::empty() })
        + (if cells.contains(RegionKind::Recon) { seq![RegionKind::Recon] } else { Seq::empty() })
}

fn cells_have(cells: &[RegionKind], kind: RegionKind) -> (r: bool)
    ensures
        r == cells@.contains(kind),
{
    let mut i: usize = 0;
    while i < cells.len()
        invariant
            i <= cells.len(),
            forall|j: int| 0 <= j < i ==> cells@[j] != kind,
        decreases cells.len() - i,
    {
        if cells[i] == kind {
            assert(cells@[i as int] == kind);
            return true;
        }
        i = i + 1;
    }
    false
}


proof fn lemma_concat_contains(x: Seq<RegionKind>, y: Seq<RegionKind>, k: RegionKind)
    ensures
        (x + y).contains(k) <==> (x.contains(k) || y.contains(k)),
{
    if x.contains(k) {
        let i = choose|i: int| 0 <= i < x.len() && x[i] == k;
        assert((x + y)[i] == k);
    }
    if y.contains(k) {
        let i = choose|i: int| 0 <= i < y.len() && y[i] == k;
        assert((x + y)[x.len() + i] == k);
    }
    if (x + y).contains(k) {
        let i = choose|i: int| 0 <= i < (x + y).len() && (x + y)[i] == k;
        if i < x.len() {
            assert(x[i] == k);
        } else {
            assert(y[i - x.len()] == k);
        }
    }
}

/// A kind is listed exactly when some cell has it, and none twice.
proof fn lemma_kinds_in_spec(cells: Seq<RegionKind>)
    ensures
        forall|k: RegionKind| kinds_in_spec(cells).contains(k) <==> cells.contains(k),
        kinds_in_spec(cells).no_duplicates(),
{
    let one = |b: bool, k: RegionKind| if b { seq![k] } else { Seq::<RegionKind>::empty() };
    let a = one(cells.contains(RegionKind::Input), RegionKind::Input);
    let b = one(cells.contains(RegionKind::Compute), RegionKind::Compute);
    let c = one(cells.contains(RegionKind::Readout), RegionKind::Readout);
    let d = one(cells.contains(RegionKind::Recon), RegionKind::Recon);
    let s = kinds_in_spec(cells);
    assert(s =~= a + b + c + d);
    assert forall|k: RegionKind| s.contains(k) <==> cells.contains(k) by {
        lemma_concat_contains(a + b + c, d, k);
        lemma_concat_contains(a + b, c, k);
        lemma_concat_contains(a, b, k);
        if a.contains(k) { assert(a[0] == k); }
        if b.contains(k) { assert(b[0] == k); }
        if c.contains(k) { assert(c[0] == k); }
        if d.contains(k) { assert(d[0] == k); }
        if cells.contains(k) {
            match k {
                RegionKind::Input => assert(a[0] == k),
                RegionKind::Compute => assert(b[0] == k),
                RegionKind::Readout => assert(c[0] == k),
                RegionKind::Recon => assert(d[0] == k),
            }
        }
    }
    assert forall|i: int, j: int| 0 <= i < s.len() && 0 <= j < s.len() && i != j implies s[i] != s[j] by {
        let rank = |k: RegionKind| match k {
            RegionKind::Input => 0int,
            RegionKind::Compute => 1int,
            RegionKind::Readout => 2int,
            RegionKind::Recon => 3int,
        };
        assert forall|p: int, q: int| 0 <= p < q < s.len() implies rank(s[p]) < rank(s[q]) by {
            assert(s.len() <= 4);
        }
        if i < j {
            assert(rank(s[i]) < rank(s[j]));
        } else {
            assert(rank(s[j]) < rank(s[i]));
        }
    }
}

/// The region kinds that occur among the cells (see [`kinds_in_spec`]): a
/// kind is listed exactly when some cell has it, and none twice.
pub fn region_kinds_in_cells(cells: &[RegionKind]) -> (r: Vec<RegionKind>)
    ensures
        r@ == kinds_in_spec(cells@),
        forall|k: RegionKind| r@.contains(k) <==> cells@.contains(k),
        r@.no_duplicates(),
{
    let mut v: Vec<RegionKind> = Vec::new();
    if cells_have(cells, RegionKind::Input) {
        v.push(RegionKind::Input);
    }
    if cells_have(cells, RegionKind::Compute) {
        v.push(RegionKind::Compute);
    }
    if cells_have(cells, RegionKind::Readout) {
        v.push(RegionKind::Readout);
    }
    if cells_have(cells, RegionKind::Recon) {
        v.push(RegionKind::Recon);
    }
    assert(v@ =~= kinds_in_spec(cells@));
    proof {
        lemma_kinds_in_spec(cells@);
    }
    v
}

} // verus!
