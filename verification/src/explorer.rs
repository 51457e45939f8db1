//! The topology explorer: which run and checkpoint are selected, the
//! visualizer's load and step cycle, the input picker and the timeline, and
//! how each operator action and each network result changes them.
//!
//! Each step changes an [`TopologyView`] and appends [`ExplorerEffect`]s:
//! commands for the network task and work on the decoded images and the
//! rasterized substrate, which belong to the caller.
use vstd::prelude::*;
use crate::client::{error_text, ClientError};
use crate::deck::failure_text;
use crate::deck::{error_ok, result_ok};
use crate::desktop::{viz_ready, viz_status_error, viz_status_ready};
use crate::drive::{build_drive, default_source, default_viz_source, drive_parts, drive_spec, sources_spec, viz_sources, BuildDriveOpts};
use crate::geometry::{
    at_least_one, band_of, display_regions, display_spec, gallery_dataset, planes_of, region_at, region_at_spec, rows_of,
    substrate_band_rows, substrate_cols, substrate_planes, substrate_rows,
};
use crate::vizmodel::RegionKind;
use crate::picker::{build_picker_rows, checkpoint_runs, labels_ordered, picker_rows_of, rows_view, summary_runs, PickerRow};
use crate::model::{RunScalars, RunsSummary};
use crate::network::NetworkCommand;
use crate::seqs::{first_match, lemma_first_match_at, lemma_first_match_none};
use crate::text::{owned, push_str, str_eq, u64_text, decimal};
use crate::topology::{
    bump_input_idx, bump_scrub_tick, bump_ticks, default_checkpoint_file, default_file_spec, entry_file_spec,
    fab_fits, matches_checkpoint, resolve_checkpoint_selection, run_matches_checkpoint, selection_spec,
    topo_entry_file, topo_from_fab, topo_of,
};
use crate::vizmodel::{
    CheckpointsResp, FabHeader, TopoDataInMemory, TopoManifestResp, VizGalleryResp, VizLoadMeta, VizOpenResp,
    VizStatusResp, VizStepRequest,
};

verus! {

/// Dataset thumbnails asked for per gallery batch.
pub const GALLERY_COUNT: u32 = 256;

/// Edge of a gallery thumbnail, in pixels.
pub const GALLERY_THUMB_PX: u32 = 48;

/// Edge of the input preview, in pixels.
pub const INPUT_PREVIEW_PX: u32 = 96;

/// Steps per rollout when the checkpoint names none.
pub const DEFAULT_TICKS: u32 = 16;

/// What the substrate shows.
#[derive(Debug, Clone, Copy, PartialEq, Eq, Structural)]
pub enum DisplayMode {
    /// The regions of the loaded topology.
    Structure,
    /// The activations of the current rollout frame.
    LiveFlow,
}

/// What an explorer step asks of its caller.
#[derive(Debug, PartialEq)]
pub enum ExplorerEffect {
    /// Send this command to the network task.
    Send(NetworkCommand),
    /// Wait out the search debounce for this generation, then report it.
    DebounceSearch(u64),
    /// Draw the substrate again from the current frame and mode.
    RepaintGrid,
    /// Forget every decoded image.
    ClearImages,
    /// Forget the decoded reconstruction frames.
    DropReconImages,
    /// Decode and keep the step answer's frames and reconstructions.
    KeepStepImages,
    /// Decode and keep the gallery thumbnails.
    KeepGallery,
    /// Decode and keep these fetched bytes as the input image at `idx`.
    KeepInputImage { idx: u32, bytes: Vec<u8> },
    /// Fetch the input image at `idx` of `dataset` unless one is decoded
    /// already (as an input image or a gallery thumbnail).
    PreviewInput { dataset: String, idx: u32, size: u32 },
    /// Advance the timeline on a timer while this playback generation lasts.
    StartPlayback(u64),
}

/// What the topology explorer holds.
#[derive(Debug)]
pub struct TopologyView {
    pub summary: Option<RunsSummary>,
    pub checkpoints: Option<CheckpointsResp>,
    pub manifest: Option<TopoManifestResp>,
    /// The selected run, as pod and run name.
    pub selected: Option<(String, String)>,
    pub selected_file: Option<String>,
    pub selected_fleet: Option<String>,
    pub viz_meta: Option<VizLoadMeta>,
    /// Whether a step answer is shown.
    pub has_step: bool,
    /// Frames of the shown rollout.
    pub frames: usize,
    pub scrub_tick: usize,
    pub display_mode: DisplayMode,
    pub topo_data: Option<TopoDataInMemory>,
    pub selected_cell: Option<usize>,
    pub input_source: String,
    pub input_idx: u32,
    pub ticks: u32,
    pub gallery: Option<VizGalleryResp>,
    pub gallery_loading: bool,
    pub loading: bool,
    pub stepping: bool,
    pub error: Option<String>,
    pub refreshing: bool,
    pub playing: bool,
    /// Generation of the timeline playback; a timer of an older one stops.
    pub play_gen: u64,
    /// The checkpoint the visualizer is loading.
    pub pending_ckpt: Option<String>,
    /// Whether loading was already retried with `force`.
    pub viz_force_retry: bool,
    /// The run picker's search text.
    pub search_query: String,
    /// Generation of the search debounce; an older one is ignored.
    pub search_gen: u64,
    /// The run picker's rows (see [`picker_rows_of`]).
    pub picker_rows: Vec<PickerRow>,
}


/// What the controls rail offers.
#[derive(Debug, Clone, Copy, PartialEq, Eq)]
pub struct Controls {
    pub load_label: &'static str,
    /// A run and a file are selected and nothing is loading.
    pub can_load: bool,
    pub run_label: &'static str,
    /// A checkpoint is loaded and no step is running.
    pub can_run: bool,
}

/// The sources the input picker offers: the loaded checkpoint's (see
/// [`sources_spec`]), else `mnist` alone.
pub open spec fn offered_sources(s: TopologyView) -> Seq<Seq<char>> {
    match s.viz_meta {
        Some(m) => if sources_spec(m).len() > 0 {
            sources_spec(m)
        } else {
            seq!["mnist"@]
        },
        None => seq!["mnist"@],
    }
}

/// The timeline's caption for `n` frames with frame `scrub_tick` shown:
/// the shown pass (kept within the frames), 1-based, of `n`.
pub open spec fn timeline_text(scrub_tick: usize, n: usize) -> Seq<char> {
    let scrub: int = if scrub_tick < n { scrub_tick as int } else { n - 1 };
    "pass "@ + decimal((scrub + 1) as nat) + "/"@ + decimal(n as nat) + " \u{b7} forward steps"@
}

/// Most frames shown as one pill each; more are shown as a progress bar.
pub const MAX_TICK_PILLS: usize = 24;

/// `e` asks for the gallery of the state's input source.
pub open spec fn sends_gallery(e: ExplorerEffect, s: TopologyView) -> bool {
    &&& e matches ExplorerEffect::Send(NetworkCommand::TopologyFetchGallery { dataset, start, count, size })
    &&& dataset@ == s.input_source@ && start == 0 && count == GALLERY_COUNT && size == GALLERY_THUMB_PX
}

/// `e` asks for a preview of the state's input.
pub open spec fn previews_input(e: ExplorerEffect, s: TopologyView) -> bool {
    &&& e matches ExplorerEffect::PreviewInput { dataset, idx, size }
    &&& dataset@ == s.input_source@ && idx == s.input_idx && size == INPUT_PREVIEW_PX
}

/// The gallery and the input preview asked for (a loaded checkpoint is
/// needed: without one nothing is asked).
pub open spec fn media_fetched(o: TopologyView, n: TopologyView, fx: Seq<ExplorerEffect>) -> bool {
    if o.viz_meta is Some {
        &&& n == TopologyView { gallery: None, gallery_loading: true, ..o }
        &&& fx.len() == 2
        &&& sends_gallery(fx[0], n)
        &&& previews_input(fx[1], n)
    } else {
        n == o && fx.len() == 0
    }
}

/// The picker rows are those of the summary, the checkpoints and the search
/// text (see [`picker_rows_of`]), in label order.
pub open spec fn picker_current(s: TopologyView) -> bool {
    &&& picker_rows_of(summary_runs(s.summary), checkpoint_runs(s.checkpoints), s.search_query@, rows_view(s.picker_rows@))
    &&& labels_ordered(rows_view(s.picker_rows@))
}

/// `r` is `Some` of a text with view `m`.
pub open spec fn shows(r: Option<String>, m: Seq<char>) -> bool {
    r matches Some(x) && x@ == m
}

/// The fleet the visualizer loads a checkpoint for: the selected one, else
/// that of the first summary row matching the checkpoint (none when it has
/// no fleet).
pub open spec fn load_fleet(s: TopologyView, pod: Seq<char>, run: Seq<char>) -> Seq<char> {
    match s.selected_fleet {
        Some(f) => f@,
        None => match s.summary {
            Some(sm) => match first_match(sm.runs@, matches_ckpt(pod, run)) {
                Some(i) => sm.runs@[i].fleet@,
                None => Seq::empty(),
            },
            None => Seq::empty(),
        },
    }
}

/// Summary rows matching a checkpoint.
pub open spec fn matches_ckpt(pod: Seq<char>, run: Seq<char>) -> spec_fn(RunScalars) -> bool {
    |r: RunScalars| matches_checkpoint(r, pod, run)
}

/// The state after the rollout is cleared: playback stopped, no rollout, the
/// structure shown.
pub open spec fn reset_state(o: TopologyView) -> TopologyView {
    TopologyView {
        playing: false,
        play_gen: o.play_gen.wrapping_add(1),
        frames: 0,
        has_step: false,
        scrub_tick: 0,
        display_mode: DisplayMode::Structure,
        selected_cell: None,
        ..o
    }
}

/// What clearing the rollout asks for: the reconstructions dropped, the
/// substrate drawn again, and the visualizer reset when a checkpoint is loaded.
pub open spec fn reset_effects(o: TopologyView) -> Seq<ExplorerEffect> {
    if o.viz_meta is Some {
        seq![
            ExplorerEffect::DropReconImages,
            ExplorerEffect::RepaintGrid,
            ExplorerEffect::Send(NetworkCommand::TopologyVizReset),
        ]
    } else {
        seq![ExplorerEffect::DropReconImages, ExplorerEffect::RepaintGrid]
    }
}

/// `n` and `fx` are the state and the effects of clearing the rollout of `o`.
pub open spec fn rollout_reset(o: TopologyView, n: TopologyView, fx: Seq<ExplorerEffect>) -> bool {
    n == reset_state(o) && fx == reset_effects(o)
}

/// Steps per rollout a loaded checkpoint asks for: its positive default
/// (as `u32`, kept within 1 to 128), else the built-in default.
pub open spec fn adopted_ticks(def_ticks: Option<i64>) -> u32 {
    match def_ticks {
        Some(t) => if t > 0 {
            let v = t as u32;
            if v < 1 {
                1
            } else if v > 128 {
                128
            } else {
                v
            }
        } else {
            DEFAULT_TICKS
        },
        None => DEFAULT_TICKS,
    }
}

/// `m` is the status-bar text for `runs` runs shown in `mode`.
pub open spec fn status_text(runs: nat, mode: DisplayMode) -> Seq<char> {
    decimal(runs) + " runs \u{b7} "@ + match mode {
        DisplayMode::Structure => "STRUCT"@,
        DisplayMode::LiveFlow => "LIVE"@,
    }
}

fn opt_str(o: &Option<String>) -> (r: Option<&str>)
    ensures
        match *o {
            Some(s) => r matches Some(t) && t@ == s@,
            None => r is None,
        },
{
    match o {
        Some(s) => Some(s.as_str()),
        None => None,
    }
}



/// `x.max(1)`.
pub open spec fn max1(x: u32) -> u32 {
    if x < 1 {
        1
    } else {
        x
    }
}

/// Columns, band rows and planes of the substrate drawn: the loaded
/// topology's (at least 1 each); else the visualizer's geometry; else its
/// `R` by `C` grid as one plane; else 16 by 4 by 1.
pub open spec fn grid_dims_of(s: TopologyView) -> (u32, u32, u32) {
    match s.topo_data {
        Some(t) => (max1(t.cols), max1(t.band_rows), max1(t.planes)),
        None => match s.viz_meta {
            Some(m) => match m.geometry {
                Some(g) => ((at_least_one(g.c)) as u32, band_of(g), planes_of(g)),
                None => match (m.r, m.c) {
                    (Some(r), Some(c)) => ((at_least_one(c)) as u32, (at_least_one(r)) as u32, 1),
                    _ => (16, 4, 1),
                },
            },
            None => (16, 4, 1),
        },
    }
}

/// Rows of the substrate drawn: the geometry's rows, else planes × band rows
/// (at least 1).
pub open spec fn total_rows_of(s: TopologyView, band_rows: u32, planes: u32) -> int {
    match s.viz_meta {
        Some(m) => match m.geometry {
            Some(g) => rows_of(g),
            None => if planes * band_rows < 1 { 1 } else { planes * band_rows },
        },
        None => if planes * band_rows < 1 { 1 } else { planes * band_rows },
    }
}

/// Row and column of cell `cell` (its index taken as `u32`) in a grid of
/// `cols` columns (at least 1); `None` past the last row.
pub open spec fn cell_rowcol_spec(cell: usize, cols: u32, total_rows: u32) -> Option<(u32, u32)> {
    let c = max1(cols);
    let row = ((cell as u32) / c) as u32;
    let col = ((cell as u32) % c) as u32;
    if row < total_rows {
        Some((row, col))
    } else {
        None
    }
}


/// Structure and activations share cell indexing: the flat index
/// `row * cols + col` of a cell in the grid gives back its row and column.
pub proof fn lemma_cell_index_round_trip(row: u32, col: u32, cols: u32, total_rows: u32)
    requires
        cols >= 1,
        col < cols,
        row < total_rows,
        row * cols + col <= u32::MAX,
    ensures
        cell_rowcol_spec((row * cols + col) as usize, cols, total_rows) == Some((row, col)),
{
    let idx: int = row * cols + col;
    assert((idx as usize) as u32 == idx);
    vstd::arithmetic::div_mod::lemma_fundamental_div_mod_converse(idx, cols as int, row as int, col as int);
}

/// Row and column of a cell (see [`cell_rowcol_spec`]).
pub fn cell_rowcol(cell: usize, cols: u32, total_rows: u32) -> (r: Option<(u32, u32)>)
    ensures
        r == cell_rowcol_spec(cell, cols, total_rows),
{
    let c = if cols < 1 {
        1
    } else {
        cols
    };
    let idx = cell as u32;
    let row = idx / c;
    let col = idx % c;
    if row < total_rows {
        Some((row, col))
    } else {
        None
    }
}


/// The chip text of a labelled region (compute has none).
pub open spec fn region_chip(k: RegionKind) -> Option<Seq<char>> {
    match k {
        RegionKind::Input => Some("INPUT"@),
        RegionKind::Readout => Some("READOUT"@),
        RegionKind::Recon => Some("RECON"@),
        RegionKind::Compute => None,
    }
}

/// The chip text of a labelled region (see [`region_chip`]).
pub fn region_label(k: RegionKind) -> (r: Option<&'static str>)
    ensures
        match r {
            Some(t) => region_chip(k) == Some(t@),
            None => region_chip(k) is None,
        },
{
    match k {
        RegionKind::Input => Some("INPUT"),
        RegionKind::Readout => Some("READOUT"),
        RegionKind::Recon => Some("RECON"),
        RegionKind::Compute => None,
    }
}

/// Row (within its plane) of flat cell `idx` (taken as `u32`).
pub open spec fn plane_row(idx: int, cols: u32, band_rows: u32) -> int {
    ((((idx as u32) / cols) as u32) % band_rows) as int
}

/// Column of flat cell `idx` (taken as `u32`).
pub open spec fn plane_col(idx: int, cols: u32) -> int {
    (((idx as u32) % cols) as u32) as int
}

/// Bounding box `(r0, r1, c0, c1)` (ends exclusive) of the first `n` cells of
/// kind `kind`, rows taken within a plane; `None` when there is none.
pub open spec fn kind_bbox(cells: Seq<RegionKind>, n: int, cols: u32, band_rows: u32, kind: RegionKind) -> Option<
    (int, int, int, int),
>
    decreases n,
{
    if n <= 0 {
        None
    } else {
        let prev = kind_bbox(cells, n - 1, cols, band_rows, kind);
        if cells[n - 1] != kind {
            prev
        } else {
            let row = plane_row(n - 1, cols, band_rows);
            let col = plane_col(n - 1, cols);
            match prev {
                None => Some((row, row + 1, col, col + 1)),
                Some(b) => Some(
                    (
                        if row < b.0 { row } else { b.0 },
                        if row + 1 > b.1 { row + 1 } else { b.1 },
                        if col < b.2 { col } else { b.2 },
                        if col + 1 > b.3 { col + 1 } else { b.3 },
                    ),
                ),
            }
        }
    }
}

/// Bounding box of the cells of `kind` (see [`kind_bbox`]).
pub fn region_bbox(cells: &[RegionKind], cols: u32, band_rows: u32, kind: RegionKind) -> (r: Option<(u32, u32, u32, u32)>)
    requires
        cols >= 1,
        band_rows >= 1,
    ensures
        match r {
            Some(b) => kind_bbox(cells@, cells@.len() as int, cols, band_rows, kind) == Some(
                (b.0 as int, b.1 as int, b.2 as int, b.3 as int),
            ),
            None => kind_bbox(cells@, cells@.len() as int, cols, band_rows, kind) is None,
        },
{
    let mut r0: u32 = u32::MAX;
    let mut r1: u32 = 0;
    let mut c0: u32 = u32::MAX;
    let mut c1: u32 = 0;
    let mut any = false;
    let mut idx: usize = 0;
    while idx < cells.len()
        invariant
            idx <= cells@.len(),
            cols >= 1,
            band_rows >= 1,
            any ==> kind_bbox(cells@, idx as int, cols, band_rows, kind) == Some(
                (r0 as int, r1 as int, c0 as int, c1 as int),
            ),
            !any ==> kind_bbox(cells@, idx as int, cols, band_rows, kind) is None,
        decreases cells.len() - idx,
    {
        if cells[idx] == kind {
            let i = idx as u32;
            let row = (i / cols) % band_rows;
            let col = i % cols;
            assert(row as int == plane_row(idx as int, cols, band_rows));
            assert(col as int == plane_col(idx as int, cols));
            if !any {
                r0 = row;
                r1 = row + 1;
                c0 = col;
                c1 = col + 1;
            } else {
                if row < r0 {
                    r0 = row;
                }
                if row + 1 > r1 {
                    r1 = row + 1;
                }
                if col < c0 {
                    c0 = col;
                }
                if col + 1 > c1 {
                    c1 = col + 1;
                }
            }
            any = true;
        }
        idx = idx + 1;
    }
    if any {
        Some((r0, r1, c0, c1))
    } else {
        None
    }
}

/// The name a region is shown by.
pub open spec fn region_name(k: RegionKind) -> Seq<char> {
    match k {
        RegionKind::Input => "Input"@,
        RegionKind::Compute => "Compute"@,
        RegionKind::Readout => "Readout"@,
        RegionKind::Recon => "Recon"@,
    }
}

fn region_text(k: RegionKind) -> (r: String)
    ensures
        r@ == region_name(k),
{
    match k {
        RegionKind::Input => owned("Input"),
        RegionKind::Compute => owned("Compute"),
        RegionKind::Readout => owned("Readout"),
        RegionKind::Recon => owned("Recon"),
    }
}

/// The region label of a cell: from the loaded topology; else from the
/// visualizer's geometry at the cell's row and column; else a dash.
pub open spec fn cell_region_text(s: TopologyView, cell: usize) -> Seq<char> {
    match s.topo_data {
        Some(t) => region_name(if cell < t.regions@.len() { t.regions@[cell as int] } else { RegionKind::Compute }),
        None => match s.viz_meta {
            Some(m) => match m.geometry {
                Some(g) => {
                    let cols = max1((at_least_one(g.c)) as u32);
                    region_name(
                        region_at_spec(
                            ((cell as u32) / cols) as u32,
                            ((cell as u32) % cols) as u32,
                            display_spec(g, m.viz_kind),
                        ),
                    )
                },
                None => "\u{2014}"@,
            },
            None => "\u{2014}"@,
        },
    }
}

/// A network result for the explorer, its JSON answers already read into
/// the library's types (`None` where an answer did not have the expected
/// shape).
#[derive(Debug)]
pub enum ExplorerEvent {
    /// A deck refresh began.
    RefreshStarted,
    /// The explorer deck: the run summary, the checkpoint index and the
    /// topology manifest.
    Deck {
        summary: Result<RunsSummary, ClientError>,
        checkpoints: Result<CheckpointsResp, ClientError>,
        manifest: Result<TopoManifestResp, ClientError>,
    },
    /// The visualizer's answer to an open.
    VizOpen(Result<Option<VizOpenResp>, ClientError>),
    /// The visualizer's readiness after polling.
    VizReady(Result<VizStatusResp, ClientError>),
    /// The loaded checkpoint's description.
    VizState(Result<Option<VizLoadMeta>, ClientError>),
    /// A step answer: how many state frames it holds.
    VizStep(Result<Option<usize>, ClientError>),
    /// A topology file of `run`: its header, when the file could be read.
    TopoFab { run: String, file: String, result: Result<Option<FabHeader>, ClientError> },
    /// A gallery page.
    Gallery(Result<VizGalleryResp, ClientError>),
    /// The bytes of the input image at `idx`.
    InputImage { idx: u32, result: Result<Vec<u8>, ClientError> },
}

/// Every failure in the event carries a status an HTTP answer can carry, and
/// a topology header read describes a substrate that can be built.
pub open spec fn event_ok(ev: ExplorerEvent) -> bool {
    match ev {
        ExplorerEvent::Deck { summary, checkpoints, manifest } => result_ok(summary) && result_ok(checkpoints)
            && result_ok(manifest),
        ExplorerEvent::VizOpen(r) => result_ok(r),
        ExplorerEvent::VizReady(r) => result_ok(r),
        ExplorerEvent::VizState(r) => result_ok(r),
        ExplorerEvent::VizStep(r) => result_ok(r),
        ExplorerEvent::TopoFab { result, .. } => result_ok(result) && (result matches Ok(Some(h)) ==> fab_fits(h)),
        ExplorerEvent::Gallery(r) => result_ok(r),
        ExplorerEvent::InputImage { result, .. } => result_ok(result),
        ExplorerEvent::RefreshStarted => true,
    }
}

/// `n` is `o` with the error set to a text with view `m`.
pub open spec fn with_error(o: TopologyView, n: TopologyView, m: Seq<char>) -> bool {
    n == TopologyView { error: n.error, ..o } && shows(n.error, m)
}

/// The deck arrived: no longer refreshing; the summary kept and the error
/// cleared, or on its failure the error set; the index and the manifest kept
/// when they arrived; the picker rows rebuilt.
pub open spec fn on_deck(
    o: TopologyView,
    n: TopologyView,
    fx: Seq<ExplorerEffect>,
    summary: Result<RunsSummary, ClientError>,
    checkpoints: Result<CheckpointsResp, ClientError>,
    manifest: Result<TopoManifestResp, ClientError>,
) -> bool {
    &&& n == TopologyView {
        refreshing: false,
        picker_rows: n.picker_rows,
        summary: match summary {
            Ok(s) => Some(s),
            Err(_) => o.summary,
        },
        error: n.error,
        checkpoints: match checkpoints {
            Ok(c) => Some(c),
            Err(_) => o.checkpoints,
        },
        manifest: match manifest {
            Ok(m) => Some(m),
            Err(_) => o.manifest,
        },
        ..o
    }
    &&& match summary {
        Ok(_) => n.error is None,
        Err(e) => shows(n.error, failure_text("API ERR"@, e)),
    }
    &&& picker_current(n)
    &&& fx.len() == 0
}

/// The visualizer answered an open: with a checkpoint id, it is pending and
/// its readiness polled; else loading ends with an error.
pub open spec fn on_viz_open(
    o: TopologyView,
    n: TopologyView,
    fx: Seq<ExplorerEffect>,
    r: Result<Option<VizOpenResp>, ClientError>,
) -> bool {
    match r {
        Ok(Some(resp)) => match resp.ckpt {
            Some(c) if c@.len() > 0 => n == TopologyView { pending_ckpt: Some(c), ..o } && fx == seq![
                ExplorerEffect::Send(NetworkCommand::TopologyPollVizReady { ckpt: c }),
            ],
            _ => with_error(TopologyView { loading: false, ..o }, n, "Viz open \u{2014} no checkpoint id"@)
                && fx.len() == 0,
        },
        Ok(None) => with_error(TopologyView { loading: false, ..o }, n, "Viz open \u{2014} bad response"@)
            && fx.len() == 0,
        Err(e) => with_error(TopologyView { loading: false, ..o }, n, failure_text("Viz open"@, e)) && fx.len()
            == 0,
    }
}

/// The visualizer's readiness: when ready its state is asked for; else
/// loading ends with its error, or with a load failure.
pub open spec fn on_viz_ready(
    o: TopologyView,
    n: TopologyView,
    fx: Seq<ExplorerEffect>,
    r: Result<VizStatusResp, ClientError>,
) -> bool {
    match r {
        Ok(status) => if viz_ready(status) {
            n == o && fx == seq![ExplorerEffect::Send(NetworkCommand::TopologyFetchVizState)]
        } else {
            fx.len() == 0 && match status.error {
                Some(err) => with_error(TopologyView { loading: false, ..o }, n, "Viz ready \u{2014} "@ + err@),
                None => with_error(TopologyView { loading: false, ..o }, n, "Viz load failed"@),
            }
        },
        Err(e) => with_error(TopologyView { loading: false, ..o }, n, failure_text("Viz ready"@, e)) && fx.len()
            == 0,
    }
}

/// The text shown when the checkpoint did not load.
pub open spec fn not_loaded_text() -> Seq<char> {
    "Model did not load on the inference box \u{2014} try again"@
}

/// The loaded checkpoint's description: loading ends. When it did not load,
/// the first time the open is retried with `force` (for the selected run and
/// file, else an error), after that an error. Else its default source and
/// steps are adopted, it is kept, the error cleared, and the gallery and the
/// preview asked for.
pub open spec fn on_viz_state(
    o: TopologyView,
    n: TopologyView,
    fx: Seq<ExplorerEffect>,
    r: Result<Option<VizLoadMeta>, ClientError>,
) -> bool {
    let o1 = TopologyView { loading: false, ..o };
    match r {
        Ok(Some(meta)) => if meta.loaded == Some(false) {
            if !o.viz_force_retry {
                let o2 = TopologyView { viz_force_retry: true, loading: true, ..o };
                match (o.selected, o.selected_file) {
                    (Some((pod, run)), Some(file)) => n == o2 && fx.len() == 1 && (fx[0] matches ExplorerEffect::Send(
                        NetworkCommand::TopologyVizOpen { fleet: f, pod: p, run: r2, file: x, force },
                    ) && f@ == (match o.selected_fleet {
                        Some(sf) => sf@,
                        None => Seq::empty(),
                    }) && p == pod && r2 == run && x == file && force),
                    _ => with_error(o2, n, not_loaded_text()) && fx.len() == 0,
                }
            } else {
                with_error(o1, n, not_loaded_text()) && fx.len() == 0
            }
        } else {
            n.input_source@ == default_source(meta) && media_fetched(
                TopologyView {
                    input_source: n.input_source,
                    ticks: adopted_ticks(meta.def_ticks),
                    viz_meta: Some(meta),
                    error: None,
                    ..o1
                },
                n,
                fx,
            )
        },
        Ok(None) => with_error(o1, n, "Viz state \u{2014} bad response"@) && fx.len() == 0,
        Err(e) => with_error(o1, n, failure_text("Viz state"@, e)) && fx.len() == 0,
    }
}

/// A step answer: stepping ends; with `frames` frames the rollout is shown
/// live from its first frame and the error cleared; else an error.
pub open spec fn on_viz_step(
    o: TopologyView,
    n: TopologyView,
    fx: Seq<ExplorerEffect>,
    r: Result<Option<usize>, ClientError>,
) -> bool {
    let o1 = TopologyView { stepping: false, ..o };
    match r {
        Ok(Some(frames)) => n == TopologyView {
            frames: frames,
            scrub_tick: 0,
            display_mode: DisplayMode::LiveFlow,
            has_step: true,
            error: None,
            ..o1
        } && fx == seq![ExplorerEffect::KeepStepImages, ExplorerEffect::RepaintGrid],
        Ok(None) => with_error(o1, n, "Viz step \u{2014} bad response"@) && fx.len() == 0,
        Err(e) => with_error(o1, n, failure_text("Viz step"@, e)) && fx.len() == 0,
    }
}

/// A topology file: its substrate kept (see [`topo_of`]) and drawn; nothing
/// when it could not be read; an error naming the run and file on failure.
pub open spec fn on_topo_fab(
    o: TopologyView,
    n: TopologyView,
    fx: Seq<ExplorerEffect>,
    run: Seq<char>,
    file: Seq<char>,
    r: Result<Option<FabHeader>, ClientError>,
) -> bool {
    match r {
        Ok(Some(h)) => (n.topo_data matches Some(t) && topo_of(h, t)) && n == TopologyView {
            topo_data: n.topo_data,
            ..o
        } && fx == seq![ExplorerEffect::RepaintGrid],
        Ok(None) => n == o && fx.len() == 0,
        Err(e) => with_error(o, n, "Topo FAB "@ + run + "/"@ + file + " \u{2014} "@ + error_text(e)) && fx.len()
            == 0,
    }
}

/// A gallery page: no longer loading; kept, decoded and the preview asked
/// for; on failure none.
pub open spec fn on_gallery(
    o: TopologyView,
    n: TopologyView,
    fx: Seq<ExplorerEffect>,
    r: Result<VizGalleryResp, ClientError>,
) -> bool {
    match r {
        Ok(resp) => {
            &&& n == TopologyView { gallery_loading: false, gallery: Some(resp), ..o }
            &&& fx[0] == ExplorerEffect::KeepGallery
            &&& if o.viz_meta is Some {
                fx.len() == 2 && previews_input(fx[1], n)
            } else {
                fx.len() == 1
            }
        },
        Err(_) => n == TopologyView { gallery_loading: false, gallery: None, ..o } && fx.len() == 0,
    }
}

/// How the explorer takes a network result: `fx` are the effects it appends.
pub open spec fn explored(o: TopologyView, n: TopologyView, fx: Seq<ExplorerEffect>, ev: ExplorerEvent) -> bool {
    match ev {
        ExplorerEvent::RefreshStarted => n == TopologyView { refreshing: true, ..o } && fx.len() == 0,
        ExplorerEvent::Deck { summary, checkpoints, manifest } => on_deck(o, n, fx, summary, checkpoints, manifest),
        ExplorerEvent::VizOpen(r) => on_viz_open(o, n, fx, r),
        ExplorerEvent::VizReady(r) => on_viz_ready(o, n, fx, r),
        ExplorerEvent::VizState(r) => on_viz_state(o, n, fx, r),
        ExplorerEvent::VizStep(r) => on_viz_step(o, n, fx, r),
        ExplorerEvent::TopoFab { run, file, result } => on_topo_fab(o, n, fx, run@, file@, result),
        ExplorerEvent::Gallery(r) => on_gallery(o, n, fx, r),
        ExplorerEvent::InputImage { idx, result } => n == o && match result {
            Ok(bytes) => fx == seq![ExplorerEffect::KeepInputImage { idx, bytes }],
            Err(_) => fx.len() == 0,
        },
    }
}

/// What was appended to `before`, for up to two appended effects.
proof fn lemma_appended(before: Seq<ExplorerEffect>, after: Seq<ExplorerEffect>)
    requires
        after.len() <= before.len() + 2,
        after.len() >= before.len(),
        forall|i: int| 0 <= i < before.len() ==> after[i] == before[i],
    ensures
        after.take(before.len() as int) == before,
        after.len() == before.len() ==> after.skip(before.len() as int) == Seq::<ExplorerEffect>::empty(),
        after.len() == before.len() + 1 ==> after.skip(before.len() as int) == seq![after.last()],
        after.len() == before.len() + 2 ==> after.skip(before.len() as int) == seq![
            after[before.len() as int],
            after.last(),
        ],
{
    assert(after.take(before.len() as int) =~= before);
    if after.len() == before.len() {
        assert(after.skip(before.len() as int) =~= Seq::<ExplorerEffect>::empty());
    } else if after.len() == before.len() + 1 {
        assert(after.skip(before.len() as int) =~= seq![after.last()]);
    } else {
        assert(after.skip(before.len() as int) =~= seq![after[before.len() as int], after.last()]);
    }
}

fn error_banner(label: &str, e: &ClientError) -> (r: Option<String>)
    requires
        error_ok(*e),
    ensures
        shows(r, failure_text(label@, *e)),
{
    let mut m = owned(label);
    push_str(&mut m, " \u{2014} ");
    push_str(&mut m, e.message().as_str());
    Some(m)
}

/// Steps per rollout a loaded checkpoint asks for (see [`adopted_ticks`]).
fn adopt_ticks(def_ticks: Option<i64>) -> (r: u32)
    ensures
        r == adopted_ticks(def_ticks),
{
    match def_ticks {
        Some(t) => if t > 0 {
            let v = t as u32;
            if v < 1 {
                1
            } else if v > 128 {
                128
            } else {
                v
            }
        } else {
            DEFAULT_TICKS
        },
        None => DEFAULT_TICKS,
    }
}

impl TopologyView {
    /// An explorer with nothing loaded, the `mnist` input at index 0, 16
    /// steps per rollout, and the structure shown.
    pub fn new() -> (r: Self)
        ensures
            r.summary is None && r.checkpoints is None && r.manifest is None,
            r.selected is None && r.selected_file is None && r.selected_fleet is None,
            r.viz_meta is None && !r.has_step && r.frames == 0 && r.scrub_tick == 0,
            r.display_mode == DisplayMode::Structure,
            r.topo_data is None && r.selected_cell is None,
            r.input_source@ == "mnist"@ && r.input_idx == 0 && r.ticks == DEFAULT_TICKS,
            r.gallery is None && !r.gallery_loading && !r.loading && !r.stepping,
            r.error is None && !r.refreshing && !r.playing && r.play_gen == 0,
            r.pending_ckpt is None && !r.viz_force_retry,
            r.search_query@.len() == 0 && r.search_gen == 0 && r.picker_rows@.len() == 0,
    {
        TopologyView {
            summary: None,
            checkpoints: None,
            manifest: None,
            selected: None,
            selected_file: None,
            selected_fleet: None,
            viz_meta: None,
            has_step: false,
            frames: 0,
            scrub_tick: 0,
            display_mode: DisplayMode::Structure,
            topo_data: None,
            selected_cell: None,
            input_source: owned("mnist"),
            input_idx: 0,
            ticks: DEFAULT_TICKS,
            gallery: None,
            gallery_loading: false,
            loading: false,
            stepping: false,
            error: None,
            refreshing: false,
            playing: false,
            play_gen: 0,
            pending_ckpt: None,
            viz_force_retry: false,
            search_query: String::new(),
            search_gen: 0,
            picker_rows: Vec::new(),
        }
    }

    /// On connecting to the network: ask for the explorer deck.
    pub fn attach(&self, out: &mut Vec<ExplorerEffect>)
        ensures
            final(out)@ == old(out)@.push(ExplorerEffect::Send(NetworkCommand::TopologyRefreshDeck)),
    {
        out.push(ExplorerEffect::Send(NetworkCommand::TopologyRefreshDeck));
    }

    /// On leaving the network: nothing refreshing, loading or stepping.
    pub fn detach(&mut self)
        ensures
            *final(self) == (TopologyView { refreshing: false, loading: false, stepping: false, ..*old(self) }),
    {
        self.refreshing = false;
        self.loading = false;
        self.stepping = false;
    }

    /// Refreshes: marked refreshing, no error, and the deck asked for.
    pub fn refresh(&mut self, out: &mut Vec<ExplorerEffect>)
        ensures
            *final(self) == (TopologyView { refreshing: true, error: None, ..*old(self) }),
            final(out)@ == old(out)@.push(ExplorerEffect::Send(NetworkCommand::TopologyRefreshDeck)),
    {
        self.refreshing = true;
        self.error = None;
        out.push(ExplorerEffect::Send(NetworkCommand::TopologyRefreshDeck));
    }

    /// On showing the explorer: refresh when no summary is loaded.
    pub fn on_visible(&mut self, out: &mut Vec<ExplorerEffect>)
        ensures
            old(self).summary is Some ==> *final(self) == *old(self) && final(out)@ == old(out)@,
            old(self).summary is None ==> *final(self) == (TopologyView { refreshing: true, error: None, ..*old(self) })
                && final(out)@ == old(out)@.push(ExplorerEffect::Send(NetworkCommand::TopologyRefreshDeck)),
    {
        if self.summary.is_none() {
            self.refresh(out);
        }
    }

    /// Selects run `run` of pod `pod` in fleet `fleet` (none when empty),
    /// with checkpoint file `file`, or when empty the run's default file (see
    /// [`default_file_spec`]); the error is cleared.
    pub fn select_run(&mut self, fleet: String, pod: String, run: String, file: String)
        ensures
            *final(self) == (TopologyView {
                selected: Some((pod, run)),
                selected_fleet: if fleet@.len() == 0 { None } else { Some(fleet) },
                selected_file: final(self).selected_file,
                error: None,
                ..*old(self)
            }),
            file@.len() > 0 ==> final(self).selected_file == Some(file),
            file@.len() == 0 ==> match final(self).selected_file {
                Some(f) => default_file_spec(old(self).checkpoints, pod@, run@, old(self).summary) == Some(f@),
                None => default_file_spec(old(self).checkpoints, pod@, run@, old(self).summary) is None,
            },
    {
        let chosen = if file.as_str().is_empty() {
            default_checkpoint_file(self.checkpoints.as_ref(), pod.as_str(), run.as_str(), self.summary.as_ref())
        } else {
            Some(file)
        };
        self.selected_file = chosen;
        self.selected_fleet = if fleet.as_str().is_empty() { None } else { Some(fleet) };
        self.selected = Some((pod, run));
        self.error = None;
    }

    /// Selects a run picked in the war room: where the checkpoint index has
    /// it (see [`selection_spec`]), its fleet, pod, run and file; else the
    /// given fleet, pod and name with the run's default file.
    pub fn select_from_war_room(&mut self, fleet: String, pod: String, name: String)
        ensures
            match selection_spec(old(self).checkpoints, old(self).summary, pod@, name@) {
                Some(t) => (final(self).selected matches Some((p, r)) && p@ == t.1 && r@ == t.2)
                    && (if t.0.len() == 0 { final(self).selected_fleet is None } else { shows(final(self).selected_fleet, t.0) })
                    && (if t.3.len() > 0 {
                        shows(final(self).selected_file, t.3)
                    } else {
                        match final(self).selected_file {
                            Some(f) => default_file_spec(old(self).checkpoints, t.1, t.2, old(self).summary) == Some(f@),
                            None => default_file_spec(old(self).checkpoints, t.1, t.2, old(self).summary) is None,
                        }
                    }),
                None => final(self).selected == Some((pod, name))
                    && final(self).selected_fleet == (if fleet@.len() == 0 { None } else { Some(fleet) })
                    && match final(self).selected_file {
                        Some(f) => default_file_spec(old(self).checkpoints, pod@, name@, old(self).summary) == Some(f@),
                        None => default_file_spec(old(self).checkpoints, pod@, name@, old(self).summary) is None,
                    },
            },
            *final(self) == (TopologyView {
                selected: final(self).selected,
                selected_fleet: final(self).selected_fleet,
                selected_file: final(self).selected_file,
                error: None,
                ..*old(self)
            }),
    {
        match resolve_checkpoint_selection(self.checkpoints.as_ref(), self.summary.as_ref(), pod.as_str(), name.as_str()) {
            Some((f, p, r, file)) => self.select_run(f, p, r, file),
            None => self.select_run(fleet, pod, name, String::new()),
        }
    }

    /// The fleet to load the selected checkpoint for (see [`load_fleet`]).
    fn fleet_for_load(&self, pod: &str, run: &str) -> (r: String)
        ensures
            r@ == load_fleet(*self, pod@, run@),
    {
        match &self.selected_fleet {
            Some(f) => f.clone(),
            None => match &self.summary {
                Some(sm) => {
                    let ghost p = matches_ckpt(pod@, run@);
                    let mut i: usize = 0;
                    while i < sm.runs.len()
                        invariant
                            i <= sm.runs.len(),
                            p == matches_ckpt(pod@, run@),
                            self.selected_fleet is None,
                            self.summary == Some(*sm),
                            forall|j: int| 0 <= j < i ==> !p(#[trigger] sm.runs@[j]),
                        decreases sm.runs.len() - i,
                    {
                        if run_matches_checkpoint(&sm.runs[i], pod, run) {
                            proof {
                                lemma_first_match_at(sm.runs@, p, i as int);
                            }
                            return sm.runs[i].fleet.clone();
                        }
                        i = i + 1;
                    }
                    proof {
                        lemma_first_match_none(sm.runs@, p);
                    }
                    String::new()
                },
                None => String::new(),
            },
        }
    }

    /// Loads the selected checkpoint into the visualizer: nothing without a
    /// selected run and file; an error without a fleet for it (see
    /// [`load_fleet`]); else everything of the previous checkpoint is
    /// forgotten, the visualizer asked to open it, and its topology file
    /// fetched when the manifest lists one.
    pub fn load_checkpoint(&mut self, out: &mut Vec<ExplorerEffect>)
        ensures
            match (old(self).selected, old(self).selected_file) {
                (Some((pod, run)), Some(file)) => {
                let fleet = load_fleet(*old(self), pod@, run@);
                if fleet.len() == 0 {
                    &&& *final(self) == (TopologyView { error: final(self).error, ..*old(self) })
                    &&& shows(final(self).error, "Missing fleet for checkpoint \u{2014} pick a run from the list (needs GCS path fleet/pod/run/file)"@)
                    &&& final(out)@ == old(out)@
                } else {
                    &&& *final(self) == (TopologyView {
                        loading: true,
                        error: None,
                        topo_data: None,
                        viz_meta: None,
                        has_step: false,
                        gallery: None,
                        gallery_loading: false,
                        frames: 0,
                        scrub_tick: 0,
                        selected_cell: None,
                        display_mode: DisplayMode::Structure,
                        viz_force_retry: false,
                        playing: false,
                        play_gen: old(self).play_gen.wrapping_add(1),
                        ..*old(self)
                    })
                    &&& final(out)@.take(old(out)@.len() + 3int) == old(out)@ + seq![ExplorerEffect::ClearImages, ExplorerEffect::RepaintGrid, final(out)@[old(out)@.len() + 2int]]
                    &&& (final(out)@[old(out)@.len() + 2int] matches ExplorerEffect::Send(NetworkCommand::TopologyVizOpen { fleet: f, pod: p, run: r, file: x, force })
                        && f@ == fleet && p == pod && r == run && x == file && !force)
                    &&& match old(self).manifest {
                        Some(m) => match entry_file_spec(m, run@) {
                            Some(tf) => final(out)@.len() == old(out)@.len() + 4 && (final(out)@.last() matches ExplorerEffect::Send(NetworkCommand::TopologyFetchTopoFab { run: r2, file: f2 }) && r2 == run && f2@ == tf),
                            None => final(out)@.len() == old(out)@.len() + 3,
                        },
                        None => final(out)@.len() == old(out)@.len() + 3,
                    }
                }
                },
                _ => *final(self) == *old(self) && final(out)@ == old(out)@,
            },
    {
        let (pod, run) = match &self.selected {
            Some((p, r)) => (p.clone(), r.clone()),
            None => return,
        };
        let file = match &self.selected_file {
            Some(f) => f.clone(),
            None => return,
        };
        let fleet = self.fleet_for_load(pod.as_str(), run.as_str());
        if fleet.as_str().is_empty() {
            self.error = Some(owned("Missing fleet for checkpoint \u{2014} pick a run from the list (needs GCS path fleet/pod/run/file)"));
            return;
        }
        self.loading = true;
        self.error = None;
        self.topo_data = None;
        self.viz_meta = None;
        self.has_step = false;
        self.gallery = None;
        self.gallery_loading = false;
        let ghost before = out@;
        out.push(ExplorerEffect::ClearImages);
        self.frames = 0;
        self.scrub_tick = 0;
        self.selected_cell = None;
        self.display_mode = DisplayMode::Structure;
        out.push(ExplorerEffect::RepaintGrid);
        self.viz_force_retry = false;
        self.playing = false;
        self.play_gen = self.play_gen.wrapping_add(1);
        let topo_file = match &self.manifest {
            Some(m) => topo_entry_file(m, run.as_str()),
            None => None,
        };
        out.push(
            ExplorerEffect::Send(
                NetworkCommand::TopologyVizOpen { fleet, pod, run: run.clone(), file, force: false },
            ),
        );
        assert(out@.take(before.len() + 3int) =~= out@);
        match topo_file {
            Some(tf) => {
                let ghost three = out@;
                out.push(ExplorerEffect::Send(NetworkCommand::TopologyFetchTopoFab { run, file: tf }));
                assert(out@.take(before.len() + 3int) =~= three);
            },
            None => {},
        }
    }

    /// Runs the loaded checkpoint for the chosen steps on the chosen input
    /// (see [`drive_spec`]), asking for quantised state frames; playback
    /// stops. Nothing without a loaded checkpoint.
    pub fn step(&mut self, out: &mut Vec<ExplorerEffect>)
        ensures
            old(self).viz_meta is None ==> *final(self) == *old(self) && final(out)@ == old(out)@,
            old(self).viz_meta matches Some(meta) ==> {
                &&& *final(self) == (TopologyView {
                    stepping: true,
                    playing: false,
                    play_gen: old(self).play_gen.wrapping_add(1),
                    ..*old(self)
                })
                &&& final(out)@.len() == old(out)@.len() + 1
                &&& final(out)@.drop_last() == old(out)@
                &&& final(out)@.last() matches ExplorerEffect::Send(NetworkCommand::TopologyVizStep { body })
                &&& body.ticks == old(self).ticks as i64
                &&& drive_parts(body.drive) == drive_spec(
                    old(self).input_source@,
                    old(self).input_idx as i64,
                    match meta.dataset {
                        Some(d) => Some(d@),
                        None => None,
                    },
                    meta.has_dataset == Some(true),
                    None,
                )
                &&& body.want_state
                &&& shows(body.state_fmt, "quant8"@)
            },
    {
        let body = match &self.viz_meta {
            None => return,
            Some(meta) => {
                let has_dataset = match meta.has_dataset {
                    Some(b) => b,
                    None => false,
                };
                let drive = build_drive(
                    BuildDriveOpts {
                        source: self.input_source.as_str(),
                        idx: self.input_idx as i64,
                        run_dataset: opt_str(&meta.dataset),
                        has_dataset,
                        pixel_b64: None,
                    },
                );
                VizStepRequest { ticks: self.ticks as i64, drive, want_state: true, state_fmt: Some(owned("quant8")) }
            },
        };
        self.stepping = true;
        self.playing = false;
        self.play_gen = self.play_gen.wrapping_add(1);
        let ghost before = out@;
        out.push(ExplorerEffect::Send(NetworkCommand::TopologyVizStep { body }));
        assert(out@.drop_last() =~= before);
    }

    /// Shows rollout frame `tick` when there is one.
    pub fn set_scrub_tick(&mut self, tick: usize, out: &mut Vec<ExplorerEffect>)
        ensures
            tick < old(self).frames ==> *final(self) == (TopologyView { scrub_tick: tick, ..*old(self) })
                && final(out)@ == old(out)@.push(ExplorerEffect::RepaintGrid),
            tick >= old(self).frames ==> *final(self) == *old(self) && final(out)@ == old(out)@,
    {
        if tick < self.frames {
            self.scrub_tick = tick;
            out.push(ExplorerEffect::RepaintGrid);
        }
    }

    /// Moves the shown frame by `delta`, kept among the frames (see
    /// [`bump_scrub_tick`]); nothing without frames.
    pub fn bump_scrub_tick(&mut self, delta: i32, out: &mut Vec<ExplorerEffect>)
        requires
            old(self).frames > 0 ==> (old(self).frames as i32) >= 1,
            old(self).frames > 0 ==> i32::MIN <= (old(self).scrub_tick as i32) + delta <= i32::MAX,
        ensures
            old(self).frames == 0 ==> *final(self) == *old(self) && final(out)@ == old(out)@,
            old(self).frames > 0 ==> ({
                let next = (old(self).scrub_tick as i32) + delta;
                let hi = (old(self).frames as i32) - 1;
                let t = if next < 0 { 0 } else if next > hi { hi } else { next };
                (t as usize) < old(self).frames ==> *final(self) == (TopologyView { scrub_tick: t as usize, ..*old(self) })
                    && final(out)@ == old(out)@.push(ExplorerEffect::RepaintGrid)
            }),
    {
        match bump_scrub_tick(self.scrub_tick, delta, self.frames) {
            Some(t) => self.set_scrub_tick(t, out),
            None => {},
        }
    }

    /// Starts or stops timeline playback: nothing without frames; a running
    /// playback stops; else playback starts from the first frame in the live
    /// view with a new generation.
    pub fn toggle_playback(&mut self, out: &mut Vec<ExplorerEffect>)
        ensures
            old(self).frames == 0 ==> *final(self) == *old(self) && final(out)@ == old(out)@,
            old(self).frames > 0 && old(self).playing ==> *final(self) == (TopologyView {
                playing: false,
                play_gen: old(self).play_gen.wrapping_add(1),
                ..*old(self)
            }) && final(out)@ == old(out)@,
            old(self).frames > 0 && !old(self).playing ==> *final(self) == (TopologyView {
                playing: true,
                play_gen: old(self).play_gen.wrapping_add(1),
                scrub_tick: 0,
                display_mode: DisplayMode::LiveFlow,
                ..*old(self)
            }) && final(out)@ == old(out)@ + seq![
                ExplorerEffect::RepaintGrid,
                ExplorerEffect::StartPlayback(old(self).play_gen.wrapping_add(1)),
            ],
    {
        if self.frames == 0 {
            return;
        }
        if self.playing {
            self.stop_playback();
            return;
        }
        self.playing = true;
        self.play_gen = self.play_gen.wrapping_add(1);
        self.scrub_tick = 0;
        self.set_display_mode(DisplayMode::LiveFlow, out);
        out.push(ExplorerEffect::StartPlayback(self.play_gen));
    }

    /// One timer tick of playback generation `gen`: `true` (stop) when that
    /// playback is over or superseded, or after the last frame (playback then
    /// ends); else the next frame is shown.
    pub fn playback_tick(&mut self, gen: u64, out: &mut Vec<ExplorerEffect>) -> (stop: bool)
        ensures
            (!old(self).playing || old(self).play_gen != gen) ==> stop && *final(self) == *old(self)
                && final(out)@ == old(out)@,
            (old(self).playing && old(self).play_gen == gen && old(self).scrub_tick + 1 >= old(self).frames) ==> stop
                && *final(self) == (TopologyView { playing: false, ..*old(self) }) && final(out)@ == old(out)@,
            (old(self).playing && old(self).play_gen == gen && old(self).scrub_tick + 1 < old(self).frames) ==> !stop
                && *final(self) == (TopologyView { scrub_tick: (old(self).scrub_tick + 1) as usize, ..*old(self) })
                && final(out)@ == old(out)@.push(ExplorerEffect::RepaintGrid),
    {
        if !self.playing || self.play_gen != gen {
            return true;
        }
        if self.scrub_tick >= self.frames || self.frames - self.scrub_tick <= 1 {
            self.playing = false;
            return true;
        }
        self.set_scrub_tick(self.scrub_tick + 1, out);
        false
    }

    /// Playback's timer ended.
    pub fn playback_finished(&mut self)
        ensures
            *final(self) == (TopologyView { playing: false, ..*old(self) }),
    {
        self.playing = false;
    }

    /// Stops playback (its timer stops at its next tick).
    pub fn stop_playback(&mut self)
        ensures
            *final(self) == (TopologyView { playing: false, play_gen: old(self).play_gen.wrapping_add(1), ..*old(self) }),
    {
        self.playing = false;
        self.play_gen = self.play_gen.wrapping_add(1);
    }

    /// Clears the rollout when the input changes (see [`rollout_reset`]).
    pub fn reset_rollout(&mut self, out: &mut Vec<ExplorerEffect>)
        ensures
            *final(self) == reset_state(*old(self)),
            final(out)@ == old(out)@ + reset_effects(*old(self)),
    {
        let ghost before = out@;
        self.stop_playback();
        self.frames = 0;
        self.has_step = false;
        self.scrub_tick = 0;
        self.display_mode = DisplayMode::Structure;
        self.selected_cell = None;
        out.push(ExplorerEffect::DropReconImages);
        out.push(ExplorerEffect::RepaintGrid);
        if self.viz_meta.is_some() {
            out.push(ExplorerEffect::Send(NetworkCommand::TopologyVizReset));
        }
        assert(out@ =~= before + reset_effects(*old(self)));
    }

    /// Shows the substrate in `mode`.
    pub fn set_display_mode(&mut self, mode: DisplayMode, out: &mut Vec<ExplorerEffect>)
        ensures
            *final(self) == (TopologyView { display_mode: mode, ..*old(self) }),
            final(out)@ == old(out)@.push(ExplorerEffect::RepaintGrid),
    {
        self.display_mode = mode;
        out.push(ExplorerEffect::RepaintGrid);
    }

    /// Selects substrate cell `cell`.
    pub fn select_cell(&mut self, cell: usize)
        ensures
            *final(self) == (TopologyView { selected_cell: Some(cell), ..*old(self) }),
    {
        self.selected_cell = Some(cell);
    }

    /// Asks for the gallery of the input source (see [`media_fetched`]'s first half).
    fn fetch_gallery(&mut self, out: &mut Vec<ExplorerEffect>)
        ensures
            old(self).viz_meta is None ==> *final(self) == *old(self) && final(out)@ == old(out)@,
            old(self).viz_meta is Some ==> *final(self) == (TopologyView { gallery: None, gallery_loading: true, ..*old(self) })
                && final(out)@.len() == old(out)@.len() + 1 && final(out)@.drop_last() == old(out)@
                && sends_gallery(final(out)@.last(), *final(self)),
    {
        let dataset = match &self.viz_meta {
            None => return,
            Some(meta) => gallery_dataset(meta, self.input_source.as_str()),
        };
        self.gallery = None;
        self.gallery_loading = true;
        let ghost before = out@;
        out.push(
            ExplorerEffect::Send(
                NetworkCommand::TopologyFetchGallery { dataset, start: 0, count: GALLERY_COUNT, size: GALLERY_THUMB_PX },
            ),
        );
        assert(out@.drop_last() =~= before);
    }

    /// Asks for a preview of the input unless it is decoded already.
    fn fetch_input_preview(&self, out: &mut Vec<ExplorerEffect>)
        ensures
            self.viz_meta is None ==> final(out)@ == old(out)@,
            self.viz_meta is Some ==> final(out)@.len() == old(out)@.len() + 1 && final(out)@.drop_last()
                == old(out)@ && previews_input(final(out)@.last(), *self),
    {
        let dataset = match &self.viz_meta {
            None => return,
            Some(meta) => gallery_dataset(meta, self.input_source.as_str()),
        };
        let ghost before = out@;
        out.push(ExplorerEffect::PreviewInput { dataset, idx: self.input_idx, size: INPUT_PREVIEW_PX });
        assert(out@.drop_last() =~= before);
    }

    /// Chooses input source `source`: nothing when it is the current one;
    /// else from index 0, the rollout cleared, and the gallery and the
    /// preview asked for.
    pub fn set_input_source(&mut self, source: String, out: &mut Vec<ExplorerEffect>)
        ensures
            old(self).input_source@ == source@ ==> *final(self) == *old(self) && final(out)@ == old(out)@,
            old(self).input_source@ != source@ ==> {
                let o2 = TopologyView { input_source: source, input_idx: 0, ..*old(self) };
                let fx = final(out)@.skip(old(out)@.len() as int);
                let k = reset_effects(o2).len() as int;
                &&& fx.take(k) == reset_effects(o2)
                &&& media_fetched(reset_state(o2), *final(self), fx.skip(k))
            },
            final(out)@.take(old(out)@.len() as int) == old(out)@,
    {
        if str_eq(self.input_source.as_str(), source.as_str()) {
            return;
        }
        self.input_source = source;
        self.input_idx = 0;
        self.reset_and_fetch(true, out);
    }

    /// Chooses input index `idx`: nothing when it is the current one; else
    /// the rollout cleared and the preview asked for.
    pub fn set_input_idx(&mut self, idx: u32, out: &mut Vec<ExplorerEffect>)
        ensures
            old(self).input_idx == idx ==> *final(self) == *old(self) && final(out)@ == old(out)@,
            old(self).input_idx != idx ==> {
                let k = if old(self).viz_meta is Some { 3int } else { 2int };
                let fx = final(out)@.skip(old(out)@.len() as int);
                &&& rollout_reset(TopologyView { input_idx: idx, ..*old(self) }, *final(self), fx.take(k))
                &&& if old(self).viz_meta is Some {
                    fx.len() == k + 1 && previews_input(fx[k], *final(self))
                } else {
                    fx.len() == k
                }
            },
            final(out)@.take(old(out)@.len() as int) == old(out)@,
    {
        if self.input_idx == idx {
            return;
        }
        self.input_idx = idx;
        self.reset_and_fetch(false, out);
    }

    fn reset_and_fetch(&mut self, gallery: bool, out: &mut Vec<ExplorerEffect>)
        ensures
            ({
                let k = if old(self).viz_meta is Some { 3int } else { 2int };
                let fx = final(out)@.skip(old(out)@.len() as int);
                if gallery {
                    &&& fx.take(k) == reset_effects(*old(self))
                    &&& media_fetched(reset_state(*old(self)), *final(self), fx.skip(k))
                } else {
                    &&& rollout_reset(*old(self), *final(self), fx.take(k))
                    &&& if old(self).viz_meta is Some {
                        fx.len() == k + 1 && previews_input(fx[k], *final(self))
                    } else {
                        fx.len() == k
                    }
                }
            }),
            final(out)@.take(old(out)@.len() as int) == old(out)@,
    {
        let ghost before = out@;
        self.reset_rollout(out);
        let ghost mid = *self;
        let ghost after_reset = out@;
        if gallery {
            self.fetch_gallery(out);
        }
        let ghost after_gallery = out@;
        self.fetch_input_preview(out);
        proof {
            let k = if mid.viz_meta is Some { 3int } else { 2int };
            let fx = out@.skip(before.len() as int);
            assert(after_gallery.take(after_reset.len() as int) =~= after_reset);
            assert(out@.take(after_gallery.len() as int) =~= after_gallery);
            assert(out@.take(after_reset.len() as int) =~= after_reset);
            assert(after_reset.take(before.len() as int) =~= before);
            assert(after_reset.skip(before.len() as int).len() == k);
            assert(fx.take(k) =~= after_reset.skip(before.len() as int));
            assert(out@.take(before.len() as int) =~= before);
            assert(fx.skip(k) =~= out@.skip(after_reset.len() as int));
            if gallery && mid.viz_meta is Some {
                assert(fx.skip(k) =~= seq![after_gallery.last(), out@.last()]);
                assert(media_fetched(mid, *self, fx.skip(k)));
            } else if gallery {
                assert(fx.skip(k) =~= Seq::<ExplorerEffect>::empty());
                assert(media_fetched(mid, *self, fx.skip(k)));
            } else if mid.viz_meta is Some {
                assert(fx.len() == k + 1);
                assert(fx[k] == out@.last());
            } else {
                assert(fx.len() == k);
            }
            if gallery {
                assert(fx.take(k) == reset_effects(*old(self)));
                assert(media_fetched(reset_state(*old(self)), *self, fx.skip(k)));
            } else {
                assert(*self == mid);
                assert(mid == reset_state(*old(self)));
                assert(fx.take(k) == reset_effects(*old(self)));
                assert(rollout_reset(*old(self), *self, fx.take(k)));
            }
        }
    }

    /// Moves the input index by `delta`, not below 0 (see [`bump_input_idx`]).
    pub fn bump_input_idx(&mut self, delta: i32, out: &mut Vec<ExplorerEffect>)
        requires
            i32::MIN <= (old(self).input_idx as i32) + delta <= i32::MAX,
        ensures
            ({
                let next = (old(self).input_idx as i32) + delta;
                let idx = (if next < 0 { 0 } else { next }) as u32;
                &&& final(self).input_idx == idx
                &&& old(self).input_idx == idx ==> *final(self) == *old(self) && final(out)@ == old(out)@
            }),
            final(out)@.take(old(out)@.len() as int) == old(out)@,
    {
        let next = bump_input_idx(self.input_idx, delta);
        self.set_input_idx(next, out);
    }

    /// Moves the steps per rollout by `delta`, kept within 1 to 128 (see [`bump_ticks`]).
    pub fn bump_ticks(&mut self, delta: i32)
        requires
            i32::MIN <= (old(self).ticks as i32) + delta <= i32::MAX,
        ensures
            *final(self) == (TopologyView {
                ticks: ({
                    let next = (old(self).ticks as i32) + delta;
                    if next < 1 {
                        1
                    } else if next > 128 {
                        128
                    } else {
                        next
                    }
                }) as u32,
                ..*old(self)
            }),
    {
        self.ticks = bump_ticks(self.ticks, delta);
    }

    /// The status-bar text: how many runs the summary lists and the view.
    pub fn status_left(&self) -> (r: String)
        ensures
            r@ == status_text(
                match self.summary {
                    Some(s) => s.runs@.len(),
                    None => 0,
                },
                self.display_mode,
            ),
    {
        let runs: usize = match &self.summary {
            Some(s) => s.runs.len(),
            None => 0,
        };
        let mut m = u64_text(runs as u64);
        push_str(&mut m, " runs \u{b7} ");
        match self.display_mode {
            DisplayMode::Structure => push_str(&mut m, "STRUCT"),
            DisplayMode::LiveFlow => push_str(&mut m, "LIVE"),
        }
        m
    }

    /// Handles a network result (see [`explored`]).
    pub fn handle_msg(&mut self, ev: ExplorerEvent, out: &mut Vec<ExplorerEffect>)
        requires
            event_ok(ev),
        ensures
            final(out)@.take(old(out)@.len() as int) == old(out)@,
            explored(*old(self), *final(self), final(out)@.skip(old(out)@.len() as int), ev),
    {
        let ghost before = out@;
        match ev {
            ExplorerEvent::RefreshStarted => {
                self.refreshing = true;
                proof {
                    lemma_appended(before, out@);
                }
            },
            ExplorerEvent::Deck { summary, checkpoints, manifest } => {
                self.refreshing = false;
                match summary {
                    Ok(s) => {
                        self.error = None;
                        self.summary = Some(s);
                    },
                    Err(e) => {
                        self.error = error_banner("API ERR", &e);
                    },
                }
                match checkpoints {
                    Ok(c) => {
                        self.checkpoints = Some(c);
                    },
                    Err(_) => {},
                }
                match manifest {
                    Ok(m) => {
                        self.manifest = Some(m);
                    },
                    Err(_) => {},
                }
                self.rebuild_picker_rows();
                proof {
                    lemma_appended(before, out@);
                }
            },
            ExplorerEvent::VizOpen(r) => self.on_viz_open(r, out),
            ExplorerEvent::VizReady(r) => self.on_viz_ready(r, out),
            ExplorerEvent::VizState(r) => self.on_viz_state(r, out),
            ExplorerEvent::VizStep(r) => {
                self.stepping = false;
                match r {
                    Ok(Some(frames)) => {
                        self.frames = frames;
                        self.scrub_tick = 0;
                        self.display_mode = DisplayMode::LiveFlow;
                        self.has_step = true;
                        out.push(ExplorerEffect::KeepStepImages);
                        out.push(ExplorerEffect::RepaintGrid);
                        self.error = None;
                    },
                    Ok(None) => {
                        self.error = Some(owned("Viz step \u{2014} bad response"));
                    },
                    Err(e) => {
                        self.error = error_banner("Viz step", &e);
                    },
                }
                proof {
                    lemma_appended(before, out@);
                }
            },
            ExplorerEvent::TopoFab { run, file, result } => {
                match result {
                Ok(Some(header)) => {
                    self.topo_data = Some(topo_from_fab(header));
                    out.push(ExplorerEffect::RepaintGrid);
                },
                Ok(None) => {},
                Err(e) => {
                    let mut m = owned("Topo FAB ");
                    push_str(&mut m, run.as_str());
                    push_str(&mut m, "/");
                    push_str(&mut m, file.as_str());
                    push_str(&mut m, " \u{2014} ");
                    push_str(&mut m, e.message().as_str());
                    self.error = Some(m);
                },
                }
                proof {
                    lemma_appended(before, out@);
                }
            },
            ExplorerEvent::Gallery(r) => {
                self.gallery_loading = false;
                match r {
                    Ok(resp) => {
                        out.push(ExplorerEffect::KeepGallery);
                        self.gallery = Some(resp);
                        let ghost kept = out@;
                        self.fetch_input_preview(out);
                        proof {
                            assert(out@.take(kept.len() as int) =~= kept);
                            assert forall|i: int| 0 <= i < before.len() implies #[trigger] out@[i] == before[i] by {
                                assert(out@[i] == kept[i]);
                                assert(kept[i] == before[i]);
                            }
                            assert(out@[before.len() as int] == kept[before.len() as int]);
                        }
                    },
                    Err(_) => {
                        self.gallery = None;
                    },
                }
                proof {
                    lemma_appended(before, out@);
                }
            },
            ExplorerEvent::InputImage { idx, result } => {
                match result {
                    Ok(bytes) => out.push(ExplorerEffect::KeepInputImage { idx, bytes }),
                    Err(_) => {},
                }
                proof {
                    lemma_appended(before, out@);
                }
            },
        }
    }

    fn on_viz_open(&mut self, r: Result<Option<VizOpenResp>, ClientError>, out: &mut Vec<ExplorerEffect>)
        requires
            result_ok(r),
        ensures
            final(out)@.take(old(out)@.len() as int) == old(out)@,
            on_viz_open(*old(self), *final(self), final(out)@.skip(old(out)@.len() as int), r),
    {
        let ghost before = out@;
        match r {
            Ok(Some(resp)) => {
                let ckpt = match resp.ckpt {
                    Some(c) => if c.as_str().is_empty() {
                        None
                    } else {
                        Some(c)
                    },
                    None => None,
                };
                match ckpt {
                    Some(c) => {
                        self.pending_ckpt = Some(c.clone());
                        out.push(ExplorerEffect::Send(NetworkCommand::TopologyPollVizReady { ckpt: c }));
                    },
                    None => {
                        self.loading = false;
                        self.error = Some(owned("Viz open \u{2014} no checkpoint id"));
                    },
                }
            },
            Ok(None) => {
                self.loading = false;
                self.error = Some(owned("Viz open \u{2014} bad response"));
            },
            Err(e) => {
                self.loading = false;
                self.error = error_banner("Viz open", &e);
            },
        }
        proof {
            lemma_appended(before, out@);
        }
    }

    fn on_viz_ready(&mut self, r: Result<VizStatusResp, ClientError>, out: &mut Vec<ExplorerEffect>)
        requires
            result_ok(r),
        ensures
            final(out)@.take(old(out)@.len() as int) == old(out)@,
            on_viz_ready(*old(self), *final(self), final(out)@.skip(old(out)@.len() as int), r),
    {
        let ghost before = out@;
        match r {
            Ok(status) => {
                if viz_status_ready(&status) {
                    out.push(ExplorerEffect::Send(NetworkCommand::TopologyFetchVizState));
                } else {
                    match viz_status_error(&status) {
                        Some(err) => {
                            self.loading = false;
                            let mut m = owned("Viz ready \u{2014} ");
                            push_str(&mut m, err.as_str());
                            self.error = Some(m);
                        },
                        None => {
                            self.loading = false;
                            self.error = Some(owned("Viz load failed"));
                        },
                    }
                }
            },
            Err(e) => {
                self.loading = false;
                self.error = error_banner("Viz ready", &e);
            },
        }
        proof {
            lemma_appended(before, out@);
        }
    }

    fn on_viz_state(&mut self, r: Result<Option<VizLoadMeta>, ClientError>, out: &mut Vec<ExplorerEffect>)
        requires
            result_ok(r),
        ensures
            final(out)@.take(old(out)@.len() as int) == old(out)@,
            on_viz_state(*old(self), *final(self), final(out)@.skip(old(out)@.len() as int), r),
    {
        let ghost before = out@;
        self.loading = false;
        match r {
            Ok(Some(meta)) => {
                if meta.loaded == Some(false) {
                    if !self.viz_force_retry {
                        self.viz_force_retry = true;
                        self.loading = true;
                        let target = match (&self.selected, &self.selected_file) {
                            (Some((pod, run)), Some(file)) => Some((pod.clone(), run.clone(), file.clone())),
                            _ => None,
                        };
                        match target {
                            Some((pod, run, file)) => {
                                let fleet = match &self.selected_fleet {
                                    Some(f) => f.clone(),
                                    None => String::new(),
                                };
                                out.push(
                                    ExplorerEffect::Send(
                                        NetworkCommand::TopologyVizOpen { fleet, pod, run, file, force: true },
                                    ),
                                );
                            },
                            None => {
                                self.error = Some(owned("Model did not load on the inference box \u{2014} try again"));
                            },
                        }
                    } else {
                        self.error = Some(owned("Model did not load on the inference box \u{2014} try again"));
                    }
                } else {
                    self.input_source = default_viz_source(&meta);
                    self.ticks = adopt_ticks(meta.def_ticks);
                    self.viz_meta = Some(meta);
                    self.error = None;
                    let ghost mid = *self;
                    let ghost at_mid = out@;
                    self.fetch_gallery(out);
                    let ghost after_gallery = out@;
                    self.fetch_input_preview(out);
                    proof {
                        assert(out@.take(after_gallery.len() as int) =~= after_gallery);
                        assert(after_gallery.take(at_mid.len() as int) =~= at_mid);
                        assert(out@.skip(before.len() as int) =~= seq![after_gallery.last(), out@.last()]);
                        assert(media_fetched(mid, *self, out@.skip(before.len() as int)));
                    }
                }
            },
            Ok(None) => {
                self.error = Some(owned("Viz state \u{2014} bad response"));
            },
            Err(e) => {
                self.error = error_banner("Viz state", &e);
            },
        }
        proof {
            lemma_appended(before, out@);
        }
    }

    /// Columns, band rows and planes of the substrate drawn (see [`grid_dims_of`]).
    pub fn grid_dims(&self) -> (r: (u32, u32, u32))
        ensures
            r == grid_dims_of(*self),
    {
        match &self.topo_data {
            Some(t) => {
                let c = if t.cols < 1 { 1 } else { t.cols };
                let b = if t.band_rows < 1 { 1 } else { t.band_rows };
                let p = if t.planes < 1 { 1 } else { t.planes };
                (c, b, p)
            },
            None => match &self.viz_meta {
                Some(m) => match &m.geometry {
                    Some(g) => (substrate_cols(g), substrate_band_rows(g), substrate_planes(g)),
                    None => match (m.r, m.c) {
                        (Some(r), Some(c)) => {
                            let c1 = if c < 1 { 1 } else { c };
                            let r1 = if r < 1 { 1 } else { r };
                            (c1 as u32, r1 as u32, 1)
                        },
                        _ => (16, 4, 1),
                    },
                },
                None => (16, 4, 1),
            },
        }
    }

    /// Rows of the substrate drawn (see [`total_rows_of`]).
    pub fn substrate_total_rows(&self, cols: u32, band_rows: u32, planes: u32) -> (r: u32)
        requires
            total_rows_of(*self, band_rows, planes) <= u32::MAX,
            planes * band_rows <= u32::MAX,
        ensures
            r == total_rows_of(*self, band_rows, planes),
    {
        match &self.viz_meta {
            Some(m) => match &m.geometry {
                Some(g) => {
                    return substrate_rows(g);
                },
                None => {},
            },
            None => {},
        }
        let n = planes * band_rows;
        if n < 1 {
            1
        } else {
            n
        }
    }

    /// The region label of a cell (see [`cell_region_text`]).
    pub fn cell_region_label(&self, cell: usize) -> (r: String)
        ensures
            r@ == cell_region_text(*self, cell),
    {
        match &self.topo_data {
            Some(t) => region_text(t.region_of(cell)),
            None => match &self.viz_meta {
                Some(m) => match &m.geometry {
                    Some(g) => {
                        let c = substrate_cols(g);
                        let cols = if c < 1 { 1 } else { c };
                        let idx = cell as u32;
                        let regions = display_regions(g, m.viz_kind.as_ref());
                        region_text(region_at(idx / cols, idx % cols, &regions))
                    },
                    None => owned("\u{2014}"),
                },
                None => owned("\u{2014}"),
            },
        }
    }

    /// Whether the deck is being refreshed.
    pub fn refreshing(&self) -> (r: bool)
        ensures
            r == self.refreshing,
    {
        self.refreshing
    }

    /// The run picker's search text.
    pub fn picker_query(&self) -> (r: &str)
        ensures
            r@ == self.search_query@,
    {
        self.search_query.as_str()
    }

    /// Rebuilds the run picker's rows (see [`picker_current`]).
    pub fn rebuild_picker_rows(&mut self)
        ensures
            *final(self) == (TopologyView { picker_rows: final(self).picker_rows, ..*old(self) }),
            picker_current(*final(self)),
    {
        let rows = build_picker_rows(self.summary.as_ref(), self.checkpoints.as_ref(), self.search_query.as_str());
        self.picker_rows = rows;
    }

    /// The search field now reads `query`: nothing when unchanged; else it
    /// is kept and a new debounce generation started.
    pub fn on_search_query(&mut self, query: String, out: &mut Vec<ExplorerEffect>)
        ensures
            old(self).search_query@ == query@ ==> *final(self) == *old(self) && final(out)@ == old(out)@,
            old(self).search_query@ != query@ ==> *final(self) == (TopologyView {
                search_query: query,
                search_gen: old(self).search_gen.wrapping_add(1),
                ..*old(self)
            }) && final(out)@ == old(out)@.push(ExplorerEffect::DebounceSearch(old(self).search_gen.wrapping_add(1))),
    {
        if str_eq(self.search_query.as_str(), query.as_str()) {
            return;
        }
        self.search_query = query;
        self.search_gen = self.search_gen.wrapping_add(1);
        out.push(ExplorerEffect::DebounceSearch(self.search_gen));
    }

    /// The debounce of generation `gen` ran out: the rows rebuilt unless a
    /// newer search superseded it.
    pub fn on_search_debounced(&mut self, gen: u64)
        ensures
            gen != old(self).search_gen ==> *final(self) == *old(self),
            gen == old(self).search_gen ==> *final(self) == (TopologyView {
                picker_rows: final(self).picker_rows,
                ..*old(self)
            }) && picker_current(*final(self)),
    {
        if gen == self.search_gen {
            self.rebuild_picker_rows();
        }
    }

    /// What the controls rail offers (see [`Controls`]).
    pub fn controls(&self) -> (r: Controls)
        ensures
            r.load_label@ == (if self.loading { "LOADING\u{2026}"@ } else { "LOAD"@ }),
            r.can_load == (self.selected is Some && self.selected_file is Some && !self.loading),
            r.run_label@ == (if self.stepping { "RUNNING\u{2026}"@ } else { "\u{25b6} RUN"@ }),
            r.can_run == (self.viz_meta is Some && !self.stepping),
    {
        Controls {
            load_label: if self.loading { "LOADING\u{2026}" } else { "LOAD" },
            can_load: self.selected.is_some() && self.selected_file.is_some() && !self.loading,
            run_label: if self.stepping { "RUNNING\u{2026}" } else { "\u{25b6} RUN" },
            can_run: self.viz_meta.is_some() && !self.stepping,
        }
    }

    /// The sources the input picker offers (see [`offered_sources`]).
    pub fn input_sources(&self) -> (r: Vec<String>)
        ensures
            r@.map_values(|s: String| s@) == offered_sources(*self),
    {
        match &self.viz_meta {
            Some(m) => {
                let v = viz_sources(m);
                if v.len() > 0 {
                    return v;
                }
            },
            None => {},
        }
        let mut v: Vec<String> = Vec::new();
        v.push(owned("mnist"));
        assert(v@.map_values(|s: String| s@) =~= seq!["mnist"@]);
        v
    }

    /// The timeline's caption (see [`timeline_text`]); `None` without frames.
    pub fn timeline_caption(&self) -> (r: Option<String>)
        ensures
            self.frames == 0 ==> r is None,
            self.frames > 0 ==> (r matches Some(t) && t@ == timeline_text(self.scrub_tick, self.frames)),
    {
        if self.frames == 0 {
            return None;
        }
        let scrub = if self.scrub_tick < self.frames { self.scrub_tick } else { self.frames - 1 };
        let mut m = owned("pass ");
        push_str(&mut m, u64_text((scrub as u64) + 1).as_str());
        push_str(&mut m, "/");
        push_str(&mut m, u64_text(self.frames as u64).as_str());
        push_str(&mut m, " \u{b7} forward steps");
        Some(m)
    }

    /// The playback button's label.
    pub fn play_label(&self) -> (r: &'static str)
        ensures
            r@ == (if self.playing { "\u{23f8} STOP"@ } else { "\u{25b6} PLAY"@ }),
    {
        if self.playing {
            "\u{23f8} STOP"
        } else {
            "\u{25b6} PLAY"
        }
    }
}

} // verus!
