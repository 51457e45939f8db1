//! Visualizer and topology wire types, holding plain values.
//!
//! Floating-point fields hold the bit pattern of an IEEE-754 binary64 value.
use vstd::prelude::*;
use crate::model::FloatBits;

verus! {

/// Role of a substrate cell.
#[derive(Debug, Clone, Copy, PartialEq, Eq, Hash, Structural)]
pub enum RegionKind {
    Input,
    Compute,
    Readout,
    Recon,
}

/// A rectangle of cells: rows `r0..r1`, columns `c0..c1`.
#[derive(Debug, Clone, Copy, PartialEq, Eq, Default, Structural)]
pub struct VizRegion {
    pub r0: i64,
    pub r1: i64,
    pub c0: i64,
    pub c1: i64,
}

/// The labelled regions of a substrate.
#[derive(Debug, Clone, Copy, PartialEq, Eq, Default, Structural)]
pub struct VizGeometryRegions {
    pub input: Option<VizRegion>,
    pub compute: Option<VizRegion>,
    pub readout: Option<VizRegion>,
    pub recon: Option<VizRegion>,
}

/// Layout of a loaded substrate.
#[derive(Debug, Clone, PartialEq, Default)]
pub struct VizGeometry {
    pub kind: String,
    pub r: i64,
    pub c: i64,
    pub planes: i64,
    pub band_rows: Option<i64>,
    pub regions: VizGeometryRegions,
    pub img_size: Option<i64>,
}

/// Quantisation of a state frame.
#[derive(Debug, Clone, PartialEq)]
pub struct VizStateMeta {
    pub r: i64,
    pub c: i64,
    pub scale: FloatBits,
    pub zero: i64,
    pub signed: bool,
}

/// What a loaded checkpoint visualises.
#[derive(Debug, Clone, Copy, PartialEq, Eq, Structural)]
pub enum VizKind {
    ReconRollout,
    ClassifyLogits,
}

/// Kinds of input drive a loaded checkpoint accepts.
#[derive(Debug, Clone, Copy, PartialEq, Eq, Structural)]
pub enum DriveType {
    Image,
    Builtin,
    Pixels,
    Zero,
}

/// Input that drives one step of the visualizer.
#[derive(Debug, Clone, PartialEq, Eq)]
pub enum DriveSpec {
    Image { idx: i64 },
    Builtin { dataset: String, idx: i64 },
    Pixels { data: String },
    Zero,
}

/// What the visualizer reports after loading a checkpoint.
#[derive(Debug, Clone, PartialEq, Default)]
pub struct VizLoadMeta {
    pub loaded: Option<bool>,
    pub run: Option<String>,
    pub ckpt: Option<String>,
    pub kind: Option<String>,
    pub viz_kind: Option<VizKind>,
    pub dataset: Option<String>,
    pub has_dataset: Option<bool>,
    pub builtins: Vec<String>,
    pub def_ticks: Option<i64>,
    pub total: Option<i64>,
    pub val_start: Option<i64>,
    pub img: Option<i64>,
    pub resid: Option<bool>,
    pub drive_types: Vec<DriveType>,
    pub n_classes: Option<i64>,
    pub class_names: Vec<String>,
    pub r: Option<i64>,
    pub c: Option<i64>,
    pub step: Option<i64>,
    pub psnr: Option<FloatBits>,
    pub geometry: Option<VizGeometry>,
}

/// One dataset thumbnail.
#[derive(Debug, Clone, PartialEq, Default)]
pub struct VizGalleryItem {
    pub idx: i64,
    pub png: Option<String>,
    pub label: Option<String>,
}

/// A page of dataset thumbnails.
#[derive(Debug, Clone, PartialEq, Default)]
pub struct VizGalleryResp {
    pub dataset: Option<String>,
    pub start: Option<i64>,
    pub count: Option<i64>,
    pub total: Option<i64>,
    pub size: Option<i64>,
    pub val_start: Option<i64>,
    pub items: Vec<VizGalleryItem>,
}

/// One saved checkpoint file.
#[derive(Debug, Clone, PartialEq, Default)]
pub struct CheckpointFile {
    pub filename: String,
    pub kind: Option<String>,
    pub epoch: Option<i64>,
    pub bytes: Option<i64>,
    pub psnr: Option<FloatBits>,
    pub created: Option<String>,
}

/// The checkpoints of one run.
#[derive(Debug, Clone, PartialEq, Default)]
pub struct CheckpointRun {
    pub fleet: String,
    pub pod: String,
    pub run: String,
    pub n_files: i64,
    pub bytes: i64,
    pub last_epoch: Option<i64>,
    pub updated: Option<String>,
    pub files: Vec<CheckpointFile>,
}

/// The checkpoint listing.
#[derive(Debug, Clone, PartialEq, Default)]
pub struct CheckpointsResp {
    pub enabled: bool,
    pub bucket: Option<String>,
    pub runs: Vec<CheckpointRun>,
}

/// State of the visualizer box.
#[derive(Debug, Clone, PartialEq, Default)]
pub struct VizStatusResp {
    pub configured: bool,
    pub box_: Option<String>,
    pub host: Option<String>,
    pub tunnel: Option<bool>,
    pub state: Option<String>,
    pub ckpt: Option<String>,
    pub run: Option<String>,
    pub note: Option<String>,
    pub error: Option<String>,
    pub ready: Option<bool>,
}

/// Reply to opening a checkpoint in the visualizer.
#[derive(Debug, Clone, PartialEq, Default)]
pub struct VizOpenResp {
    pub ok: Option<bool>,
    pub url: Option<String>,
    pub ckpt: Option<String>,
    pub run: Option<String>,
    pub box_: Option<String>,
    pub state: Option<String>,
    pub note: Option<String>,
    pub error: Option<String>,
}

/// Request to open a checkpoint in the visualizer.
#[derive(Debug, Clone, PartialEq, Default)]
pub struct VizOpenRequest {
    pub fleet: String,
    pub pod: String,
    pub run: String,
    pub file: String,
    pub background: bool,
    pub force: bool,
}

/// Request to advance the visualizer.
#[derive(Debug, Clone, PartialEq, Eq)]
pub struct VizStepRequest {
    pub ticks: i64,
    pub drive: DriveSpec,
    pub want_state: bool,
    pub state_fmt: Option<String>,
}

/// Whether a step request wants the state back when it does not say.
pub fn default_want_state() -> (r: bool)
    ensures
        r,
{
    true
}

/// One topology in the manifest.
#[derive(Debug, Clone, PartialEq, Default)]
pub struct TopoEntry {
    pub file: String,
    pub archive_file: Option<String>,
    pub run: String,
    pub status: Option<String>,
    pub viewable: Option<bool>,
    pub r: Option<i64>,
    pub c: Option<i64>,
    pub n_planes: Option<i64>,
    pub e: Option<i64>,
    pub e_view: Option<i64>,
}

/// One weight file in the manifest.
#[derive(Debug, Clone, PartialEq, Default)]
pub struct TopoWeight {
    pub file: String,
    pub archive_file: Option<String>,
    pub run: String,
    pub ckpt: Option<String>,
    pub epoch: Option<i64>,
    pub psnr: Option<FloatBits>,
}

/// The topology manifest.
#[derive(Debug, Clone, PartialEq, Default)]
pub struct TopoManifestResp {
    pub topologies: Vec<TopoEntry>,
    pub weights: Vec<TopoWeight>,
}

/// Column spans `[first column, width]` of the labelled regions.
#[derive(Debug, Clone, Copy, PartialEq, Eq, Default)]
pub struct FabRegionSpan {
    pub input: [i64; 2],
    pub readout: [i64; 2],
    pub recon: [i64; 2],
}

/// One array stored in a FAB file.
#[derive(Debug, Clone, PartialEq, Default)]
pub struct FabArrayDesc {
    pub name: String,
    pub dtype: String,
    pub len: i64,
}

/// Header of a FAB file.
#[derive(Debug, Clone, PartialEq, Default)]
pub struct FabHeader {
    pub type_: String,
    pub run: Option<String>,
    pub r: Option<i64>,
    pub c: Option<i64>,
    pub band_rows: Option<i64>,
    pub n_planes: Option<i64>,
    pub img_rows: Option<i64>,
    pub img_row0: Option<i64>,
    pub regions: Option<FabRegionSpan>,
    pub n: Option<i64>,
    pub e: Option<i64>,
    pub absmax: Option<FloatBits>,
    pub ckpt: Option<String>,
    pub replay_psnr: Option<FloatBits>,
    pub arrays: Vec<FabArrayDesc>,
}

/// A loaded substrate in flat cell order (`i = r * cols + c`).
#[derive(Debug, Clone, PartialEq, Default)]
pub struct TopoDataInMemory {
    pub n: usize,
    pub cols: u32,
    pub band_rows: u32,
    pub planes: u32,
    pub regions: Vec<RegionKind>,
}

impl TopoDataInMemory {
    /// Number of cells: planes × band rows × columns.
    pub fn cell_count(&self) -> (r: usize)
        requires
            self.planes * self.band_rows <= u32::MAX,
            self.planes * self.band_rows * self.cols <= u32::MAX,
        ensures
            r == self.planes * self.band_rows * self.cols,
    {
        let pb = self.planes * self.band_rows;
        (pb * self.cols) as usize
    }

    /// Region of a cell; `Compute` for a cell past the tagged ones.
    pub fn region_of(&self, cell: usize) -> (r: RegionKind)
        ensures
            r == (if cell < self.regions@.len() {
                self.regions@[cell as int]
            } else {
                RegionKind::Compute
            }),
    {
        if cell < self.regions.len() {
            self.regions[cell]
        } else {
            RegionKind::Compute
        }
    }
}

} // verus!
