use fabric::client::ClientError;
use fabric::explorer::{cell_rowcol, region_bbox, region_label, DisplayMode, ExplorerEffect, ExplorerEvent, TopologyView};
use fabric::model::{RunScalars, RunsSummary};
use fabric::network::NetworkCommand;
use fabric::picker::{build_picker_rows, Badge};
use fabric::health::Tone;
use fabric::topology::fab_header_fits;
use fabric::vizmodel::{RegionKind, 
    CheckpointFile, CheckpointRun, CheckpointsResp, DriveSpec, FabHeader, VizGeometry, FabRegionSpan, VizGalleryResp, VizLoadMeta, VizOpenResp, VizStatusResp, VizStepRequest,
};

fn loaded_meta() -> VizLoadMeta {
    VizLoadMeta {
        loaded: Some(true),
        dataset: Some("cifar".into()),
        has_dataset: Some(true),
        def_ticks: Some(300),
        ..Default::default()
    }
}

fn selected(view: &mut TopologyView) {
    view.selected = Some(("blackstar:gpu0".into(), "count20_gpu0".into()));
    view.selected_file = Some("ckpt_10.pt".into());
    view.selected_fleet = Some("blackstar".into());
}

#[test]
fn default_input_is_mnist() {
    let view = TopologyView::new();
    assert_eq!(view.input_source, "mnist");
    assert_eq!(view.ticks, 16);
}

#[test]
fn viz_step_starts_at_first_tick() {
    let mut view = TopologyView::new();
    let mut out = Vec::new();
    view.scrub_tick = 42;
    view.handle_msg(ExplorerEvent::VizStep(Ok(Some(3))), &mut out);
    assert_eq!(view.frames, 3);
    assert_eq!(view.scrub_tick, 0);
    assert_eq!(view.display_mode, DisplayMode::LiveFlow);
    assert!(view.has_step);
    assert_eq!(out, vec![ExplorerEffect::KeepStepImages, ExplorerEffect::RepaintGrid]);
}

#[test]
fn viz_step_failures_set_the_error() {
    let mut view = TopologyView::new();
    let mut out = Vec::new();
    view.stepping = true;
    view.handle_msg(ExplorerEvent::VizStep(Ok(None)), &mut out);
    assert!(!view.stepping);
    assert_eq!(view.error.as_deref(), Some("Viz step \u{2014} bad response"));
    view.handle_msg(ExplorerEvent::VizStep(Err(ClientError::Http("down".into()))), &mut out);
    assert_eq!(view.error.as_deref(), Some("Viz step \u{2014} http error: down"));
    assert!(out.is_empty());
}

#[test]
fn viz_state_adopts_defaults_and_fetches_media() {
    let mut view = TopologyView::new();
    let mut out = Vec::new();
    view.loading = true;
    view.error = Some("old".into());
    view.handle_msg(ExplorerEvent::VizState(Ok(Some(loaded_meta()))), &mut out);
    assert!(!view.loading);
    assert_eq!(view.error, None);
    assert_eq!(view.input_source, "cifar");
    assert_eq!(view.ticks, 128);
    assert!(view.gallery_loading);
    assert_eq!(
        out,
        vec![
            ExplorerEffect::Send(NetworkCommand::TopologyFetchGallery {
                dataset: "cifar".into(),
                start: 0,
                count: 256,
                size: 48
            }),
            ExplorerEffect::PreviewInput { dataset: "cifar".into(), idx: 0, size: 96 },
        ]
    );
}

#[test]
fn viz_state_ticks_fall_back_to_default() {
    let mut view = TopologyView::new();
    let mut out = Vec::new();
    let meta = VizLoadMeta { loaded: Some(true), def_ticks: Some(0), ..Default::default() };
    view.ticks = 40;
    view.handle_msg(ExplorerEvent::VizState(Ok(Some(meta))), &mut out);
    assert_eq!(view.ticks, 16);
    assert_eq!(view.input_source, "mnist");
    let meta = VizLoadMeta { loaded: None, def_ticks: Some(24), builtins: vec!["fashion".into()], ..Default::default() };
    view.handle_msg(ExplorerEvent::VizState(Ok(Some(meta))), &mut out);
    assert_eq!(view.ticks, 24);
    assert_eq!(view.input_source, "fashion");
}

#[test]
fn viz_state_not_loaded_retries_once_with_force() {
    let mut view = TopologyView::new();
    selected(&mut view);
    let mut out = Vec::new();
    let meta = VizLoadMeta { loaded: Some(false), ..Default::default() };
    view.handle_msg(ExplorerEvent::VizState(Ok(Some(meta.clone()))), &mut out);
    assert!(view.loading);
    assert!(view.viz_force_retry);
    assert_eq!(
        out,
        vec![ExplorerEffect::Send(NetworkCommand::TopologyVizOpen {
            fleet: "blackstar".into(),
            pod: "blackstar:gpu0".into(),
            run: "count20_gpu0".into(),
            file: "ckpt_10.pt".into(),
            force: true,
        })]
    );
    out.clear();
    view.handle_msg(ExplorerEvent::VizState(Ok(Some(meta))), &mut out);
    assert!(!view.loading);
    assert_eq!(view.error.as_deref(), Some("Model did not load on the inference box \u{2014} try again"));
    assert!(out.is_empty());
}

#[test]
fn viz_state_not_loaded_without_selection_is_an_error() {
    let mut view = TopologyView::new();
    let mut out = Vec::new();
    let meta = VizLoadMeta { loaded: Some(false), ..Default::default() };
    view.handle_msg(ExplorerEvent::VizState(Ok(Some(meta))), &mut out);
    assert!(view.viz_force_retry);
    assert!(view.loading);
    assert_eq!(view.error.as_deref(), Some("Model did not load on the inference box \u{2014} try again"));
    assert!(out.is_empty());
    view.handle_msg(ExplorerEvent::VizState(Ok(None)), &mut out);
    assert!(!view.loading);
    assert_eq!(view.error.as_deref(), Some("Viz state \u{2014} bad response"));
}

#[test]
fn viz_open_polls_the_pending_checkpoint() {
    let mut view = TopologyView::new();
    let mut out = Vec::new();
    view.loading = true;
    let resp = VizOpenResp { ckpt: Some("ck-7".into()), ..Default::default() };
    view.handle_msg(ExplorerEvent::VizOpen(Ok(Some(resp))), &mut out);
    assert_eq!(view.pending_ckpt.as_deref(), Some("ck-7"));
    assert!(view.loading);
    assert_eq!(out, vec![ExplorerEffect::Send(NetworkCommand::TopologyPollVizReady { ckpt: "ck-7".into() })]);
}

#[test]
fn viz_open_failures_end_loading() {
    let mut view = TopologyView::new();
    let mut out = Vec::new();
    view.loading = true;
    let resp = VizOpenResp { ckpt: Some(String::new()), ..Default::default() };
    view.handle_msg(ExplorerEvent::VizOpen(Ok(Some(resp))), &mut out);
    assert!(!view.loading);
    assert_eq!(view.error.as_deref(), Some("Viz open \u{2014} no checkpoint id"));
    view.handle_msg(ExplorerEvent::VizOpen(Ok(None)), &mut out);
    assert_eq!(view.error.as_deref(), Some("Viz open \u{2014} bad response"));
    view.handle_msg(ExplorerEvent::VizOpen(Err(ClientError::Json("eof".into()))), &mut out);
    assert_eq!(view.error.as_deref(), Some("Viz open \u{2014} invalid json: eof"));
    assert!(out.is_empty());
    assert_eq!(view.pending_ckpt, None);
}

#[test]
fn viz_ready_fetches_state_or_reports() {
    let mut view = TopologyView::new();
    let mut out = Vec::new();
    view.loading = true;
    let ready = VizStatusResp { state: Some("ready".into()), ..Default::default() };
    view.handle_msg(ExplorerEvent::VizReady(Ok(ready)), &mut out);
    assert!(view.loading);
    assert_eq!(out, vec![ExplorerEffect::Send(NetworkCommand::TopologyFetchVizState)]);
    out.clear();
    let failed = VizStatusResp { error: Some("oom".into()), ..Default::default() };
    view.handle_msg(ExplorerEvent::VizReady(Ok(failed)), &mut out);
    assert!(!view.loading);
    assert_eq!(view.error.as_deref(), Some("Viz ready \u{2014} oom"));
    view.handle_msg(ExplorerEvent::VizReady(Ok(VizStatusResp::default())), &mut out);
    assert_eq!(view.error.as_deref(), Some("Viz load failed"));
    view.handle_msg(ExplorerEvent::VizReady(Err(ClientError::Unauthorized)), &mut out);
    assert_eq!(view.error.as_deref(), Some("Viz ready \u{2014} session expired"));
    assert!(out.is_empty());
}

#[test]
fn deck_keeps_what_arrived() {
    let mut view = TopologyView::new();
    let mut out = Vec::new();
    view.refreshing = true;
    let summary = RunsSummary { runs: vec![RunScalars::default(), RunScalars::default()], ..Default::default() };
    view.handle_msg(
        ExplorerEvent::Deck {
            summary: Ok(summary),
            checkpoints: Err(ClientError::Http("x".into())),
            manifest: Err(ClientError::Http("y".into())),
        },
        &mut out,
    );
    assert!(!view.refreshing);
    assert_eq!(view.summary.as_ref().map(|s| s.runs.len()), Some(2));
    assert_eq!(view.checkpoints, None);
    assert_eq!(view.manifest, None);
    assert_eq!(view.error, None);
    assert!(out.is_empty());
    assert_eq!(view.picker_rows.len(), 2);
    assert_eq!(view.status_left(), "2 runs \u{b7} STRUCT");
}

#[test]
fn deck_failure_keeps_the_old_summary() {
    let mut view = TopologyView::new();
    let mut out = Vec::new();
    view.summary = Some(RunsSummary::default());
    view.handle_msg(
        ExplorerEvent::Deck {
            summary: Err(ClientError::Http("down".into())),
            checkpoints: Ok(Default::default()),
            manifest: Ok(Default::default()),
        },
        &mut out,
    );
    assert_eq!(view.error.as_deref(), Some("API ERR \u{2014} http error: down"));
    assert!(view.summary.is_some());
    assert!(view.checkpoints.is_some());
    assert!(view.manifest.is_some());
}

#[test]
fn topo_fab_builds_the_substrate() {
    let mut view = TopologyView::new();
    let mut out = Vec::new();
    let header = FabHeader { c: Some(4), band_rows: Some(2), n_planes: None, ..Default::default() };
    assert!(fab_header_fits(&header));
    view.handle_msg(
        ExplorerEvent::TopoFab { run: "r".into(), file: "f".into(), result: Ok(Some(header)) },
        &mut out,
    );
    let topo = view.topo_data.as_ref().unwrap();
    assert_eq!((topo.cols, topo.band_rows, topo.planes, topo.n), (4, 2, 1, 8));
    assert_eq!(topo.regions.len(), 8);
    assert_eq!(out, vec![ExplorerEffect::RepaintGrid]);
    out.clear();
    view.handle_msg(
        ExplorerEvent::TopoFab { run: "r".into(), file: "f".into(), result: Err(ClientError::Json("bad".into())) },
        &mut out,
    );
    assert_eq!(view.error.as_deref(), Some("Topo FAB r/f \u{2014} invalid json: bad"));
    assert!(out.is_empty());
}

#[test]
fn fab_header_fits_rejects_overflow() {
    let big = FabHeader { c: Some(1 << 20), band_rows: Some(1 << 20), ..Default::default() };
    assert!(!fab_header_fits(&big));
    let spans = FabRegionSpan { input: [i64::MAX, 1], readout: [0, 1], recon: [0, 1] };
    let bad_span = FabHeader { regions: Some(spans), ..Default::default() };
    assert!(!fab_header_fits(&bad_span));
    assert!(fab_header_fits(&FabHeader::default()));
}

#[test]
fn gallery_is_kept_and_preview_asked() {
    let mut view = TopologyView::new();
    let mut out = Vec::new();
    view.viz_meta = Some(loaded_meta());
    view.gallery_loading = true;
    view.handle_msg(ExplorerEvent::Gallery(Ok(VizGalleryResp::default())), &mut out);
    assert!(!view.gallery_loading);
    assert!(view.gallery.is_some());
    assert_eq!(
        out,
        vec![
            ExplorerEffect::KeepGallery,
            ExplorerEffect::PreviewInput { dataset: "mnist".into(), idx: 0, size: 96 },
        ]
    );
    out.clear();
    view.handle_msg(ExplorerEvent::Gallery(Err(ClientError::Http("x".into()))), &mut out);
    assert!(view.gallery.is_none());
    assert!(out.is_empty());
}

#[test]
fn input_image_bytes_are_handed_on() {
    let mut view = TopologyView::new();
    let mut out = Vec::new();
    view.handle_msg(ExplorerEvent::InputImage { idx: 5, result: Ok(vec![1, 2, 3]) }, &mut out);
    assert_eq!(out, vec![ExplorerEffect::KeepInputImage { idx: 5, bytes: vec![1, 2, 3] }]);
    out.clear();
    view.handle_msg(ExplorerEvent::InputImage { idx: 5, result: Err(ClientError::Unauthorized) }, &mut out);
    assert!(out.is_empty());
    view.handle_msg(ExplorerEvent::RefreshStarted, &mut out);
    assert!(view.refreshing);
}

#[test]
fn load_checkpoint_needs_a_fleet() {
    let mut view = TopologyView::new();
    let mut out = Vec::new();
    view.load_checkpoint(&mut out);
    assert!(out.is_empty());
    view.selected = Some(("gpu0".into(), "count20".into()));
    view.selected_file = Some("ckpt.pt".into());
    view.load_checkpoint(&mut out);
    assert!(out.is_empty());
    assert_eq!(
        view.error.as_deref(),
        Some("Missing fleet for checkpoint \u{2014} pick a run from the list (needs GCS path fleet/pod/run/file)")
    );
}

#[test]
fn load_checkpoint_takes_the_fleet_of_a_matching_row() {
    let mut view = TopologyView::new();
    let mut out = Vec::new();
    let row = RunScalars {
        pod: "blackstar:gpu0".into(),
        name: "count20_gpu0".into(),
        group: "count20".into(),
        fleet: "blackstar".into(),
        ..Default::default()
    };
    view.summary = Some(RunsSummary { runs: vec![row], ..Default::default() });
    view.selected = Some(("gpu0".into(), "count20".into()));
    view.selected_file = Some("ckpt.pt".into());
    view.frames = 3;
    view.playing = true;
    view.load_checkpoint(&mut out);
    assert!(view.loading);
    assert!(!view.playing);
    assert_eq!(view.play_gen, 1);
    assert_eq!(view.frames, 0);
    assert_eq!(
        out,
        vec![
            ExplorerEffect::ClearImages,
            ExplorerEffect::RepaintGrid,
            ExplorerEffect::Send(NetworkCommand::TopologyVizOpen {
                fleet: "blackstar".into(),
                pod: "gpu0".into(),
                run: "count20".into(),
                file: "ckpt.pt".into(),
                force: false,
            }),
        ]
    );
}

#[test]
fn step_drives_the_loaded_checkpoint() {
    let mut view = TopologyView::new();
    let mut out = Vec::new();
    view.step(&mut out);
    assert!(out.is_empty());
    view.viz_meta = Some(loaded_meta());
    view.input_source = "cifar".into();
    view.input_idx = 7;
    view.step(&mut out);
    assert!(view.stepping);
    assert_eq!(
        out,
        vec![ExplorerEffect::Send(NetworkCommand::TopologyVizStep {
            body: VizStepRequest {
                ticks: 16,
                drive: DriveSpec::Image { idx: 7 },
                want_state: true,
                state_fmt: Some("quant8".into()),
            }
        })]
    );
}

#[test]
fn playback_runs_to_the_last_frame() {
    let mut view = TopologyView::new();
    let mut out = Vec::new();
    view.toggle_playback(&mut out);
    assert!(!view.playing);
    view.frames = 3;
    view.scrub_tick = 2;
    view.toggle_playback(&mut out);
    assert!(view.playing);
    assert_eq!(view.scrub_tick, 0);
    assert_eq!(view.display_mode, DisplayMode::LiveFlow);
    assert_eq!(out, vec![ExplorerEffect::RepaintGrid, ExplorerEffect::StartPlayback(1)]);
    assert!(view.playback_tick(0, &mut out));
    assert!(!view.playback_tick(1, &mut out));
    assert_eq!(view.scrub_tick, 1);
    assert!(!view.playback_tick(1, &mut out));
    assert_eq!(view.scrub_tick, 2);
    assert!(view.playback_tick(1, &mut out));
    assert!(!view.playing);
}

#[test]
fn input_changes_clear_the_rollout() {
    let mut view = TopologyView::new();
    let mut out = Vec::new();
    view.set_input_source("mnist".into(), &mut out);
    assert!(out.is_empty());
    view.viz_meta = Some(loaded_meta());
    view.frames = 4;
    view.has_step = true;
    view.set_input_idx(3, &mut out);
    assert_eq!(view.frames, 0);
    assert!(!view.has_step);
    assert_eq!(
        out,
        vec![
            ExplorerEffect::DropReconImages,
            ExplorerEffect::RepaintGrid,
            ExplorerEffect::Send(NetworkCommand::TopologyVizReset),
            ExplorerEffect::PreviewInput { dataset: "mnist".into(), idx: 3, size: 96 },
        ]
    );
    out.clear();
    view.set_input_source("cifar".into(), &mut out);
    assert_eq!(view.input_idx, 0);
    assert_eq!(out.len(), 5);
    assert_eq!(
        out[3],
        ExplorerEffect::Send(NetworkCommand::TopologyFetchGallery {
            dataset: "cifar".into(),
            start: 0,
            count: 256,
            size: 48
        })
    );
}

#[test]
fn ticks_and_input_index_stay_in_range() {
    let mut view = TopologyView::new();
    let mut out = Vec::new();
    view.bump_ticks(200);
    assert_eq!(view.ticks, 128);
    view.bump_ticks(-500);
    assert_eq!(view.ticks, 1);
    view.bump_input_idx(-4, &mut out);
    assert_eq!(view.input_idx, 0);
    assert!(out.is_empty());
    view.bump_input_idx(2, &mut out);
    assert_eq!(view.input_idx, 2);
    assert_eq!(view.status_left(), "0 runs \u{b7} STRUCT");
}

fn ckpt(pod: &str, run: &str, files: &[&str]) -> CheckpointRun {
    CheckpointRun {
        fleet: "blackstar".into(),
        pod: pod.into(),
        run: run.into(),
        files: files
            .iter()
            .map(|f| CheckpointFile { filename: (*f).into(), ..Default::default() })
            .collect(),
        ..Default::default()
    }
}

#[test]
fn picker_lists_viewable_files_sorted_by_label() {
    let cks = CheckpointsResp {
        runs: vec![ckpt("zeta:gpu1", "r2", &["best.pt", "meta.json"]), ckpt("alpha:gpu0", "r1", &["best.pt"])],
        ..Default::default()
    };
    let rows = build_picker_rows(None, Some(&cks), "");
    let labels: Vec<&str> = rows.iter().map(|r| r.label.as_str()).collect();
    assert_eq!(labels, vec!["alpha:gpu0:r1", "zeta:gpu1:r2"]);
    assert_eq!(rows[0].file, "best.pt");
    assert_eq!(rows[0].badge, Badge::Dash);
    assert_eq!(rows[0].badge.label(), "\u{2014}");
    let rows = build_picker_rows(None, Some(&cks), "ZETA");
    assert_eq!(rows.len(), 1);
    assert_eq!(rows[0].run, "r2");
    assert!(build_picker_rows(None, Some(&cks), "nomatch").is_empty());
}

#[test]
fn picker_falls_back_to_summary_runs() {
    let summary = RunsSummary {
        runs: vec![
            RunScalars { pod: "p2".into(), name: "b".into(), fleet: "f".into(), ..Default::default() },
            RunScalars { pod: "p1".into(), name: "a".into(), fleet: "f".into(), ..Default::default() },
        ],
        ..Default::default()
    };
    let rows = build_picker_rows(Some(&summary), None, "");
    let labels: Vec<&str> = rows.iter().map(|r| r.label.as_str()).collect();
    assert_eq!(labels, vec!["p1:a", "p2:b"]);
    assert_eq!(rows[0].file, "");
    assert_eq!(rows[0].badge, Badge::Recon);
    assert_eq!(rows[0].badge.tone(), Tone::Neutral);
}

#[test]
fn search_rebuilds_after_the_debounce() {
    let mut view = TopologyView::new();
    let mut out = Vec::new();
    view.summary = Some(RunsSummary {
        runs: vec![
            RunScalars { pod: "p1".into(), name: "alpha".into(), ..Default::default() },
            RunScalars { pod: "p2".into(), name: "beta".into(), ..Default::default() },
        ],
        ..Default::default()
    });
    view.on_search_query("BETA".into(), &mut out);
    assert_eq!(view.picker_query(), "BETA");
    assert_eq!(out, vec![ExplorerEffect::DebounceSearch(1)]);
    view.on_search_query("BETA".into(), &mut out);
    assert_eq!(out.len(), 1);
    view.on_search_debounced(0);
    assert!(view.picker_rows.is_empty());
    view.on_search_debounced(1);
    assert_eq!(view.picker_rows.len(), 1);
    assert_eq!(view.picker_rows[0].run, "beta");
    assert!(!view.refreshing());
}

#[test]
fn grid_dims_follow_topology_then_geometry() {
    let mut view = TopologyView::new();
    assert_eq!(view.grid_dims(), (16, 4, 1));
    view.viz_meta = Some(VizLoadMeta { r: Some(3), c: Some(0), ..Default::default() });
    assert_eq!(view.grid_dims(), (1, 3, 1));
    assert_eq!(view.substrate_total_rows(1, 3, 1), 3);
    assert_eq!(view.cell_region_label(0), "\u{2014}");
    let geo = VizGeometry { c: 8, r: 4, planes: 1, ..Default::default() };
    view.viz_meta = Some(VizLoadMeta { geometry: Some(geo), ..Default::default() });
    assert_eq!(view.grid_dims().0, 8);
    assert_eq!(view.cell_region_label(9), "Compute");
    let mut out = Vec::new();
    let header = FabHeader { c: Some(5), band_rows: Some(2), ..Default::default() };
    view.handle_msg(ExplorerEvent::TopoFab { run: "r".into(), file: "f".into(), result: Ok(Some(header)) }, &mut out);
    assert_eq!(view.grid_dims(), (5, 2, 1));
    assert_eq!(view.cell_region_label(3), "Compute");
}

#[test]
fn cell_rowcol_splits_the_index() {
    assert_eq!(cell_rowcol(11, 4, 3), Some((2, 3)));
    assert_eq!(cell_rowcol(12, 4, 3), None);
    assert_eq!(cell_rowcol(5, 0, 10), Some((5, 0)));
}

#[test]
fn region_boxes_cover_their_cells() {
    let c = RegionKind::Compute;
    let i = RegionKind::Input;
    // 4 columns, 2 band rows, 2 planes: cells 0..16.
    let mut cells = vec![c; 16];
    cells[1] = i;
    cells[6] = i;
    cells[9] = i;
    assert_eq!(region_bbox(&cells, 4, 2, RegionKind::Input), Some((0, 2, 1, 3)));
    assert_eq!(region_bbox(&cells, 4, 2, RegionKind::Readout), None);
    assert_eq!(region_bbox(&cells, 4, 2, RegionKind::Compute), Some((0, 2, 0, 4)));
    assert_eq!(region_label(RegionKind::Input), Some("INPUT"));
    assert_eq!(region_label(RegionKind::Compute), None);
}

#[test]
fn controls_and_timeline_texts() {
    let mut view = TopologyView::new();
    let c = view.controls();
    assert_eq!((c.load_label, c.can_load, c.run_label, c.can_run), ("LOAD", false, "\u{25b6} RUN", false));
    selected(&mut view);
    view.viz_meta = Some(loaded_meta());
    let c = view.controls();
    assert!(c.can_load && c.can_run);
    view.loading = true;
    view.stepping = true;
    let c = view.controls();
    assert_eq!((c.load_label, c.can_load, c.run_label, c.can_run), ("LOADING\u{2026}", false, "RUNNING\u{2026}", false));
    assert_eq!(view.input_sources(), vec!["cifar".to_string()]);
    view.viz_meta = None;
    assert_eq!(view.input_sources(), vec!["mnist".to_string()]);
    assert_eq!(view.timeline_caption(), None);
    view.frames = 3;
    view.scrub_tick = 7;
    assert_eq!(view.timeline_caption().as_deref(), Some("pass 3/3 \u{b7} forward steps"));
    assert_eq!(view.play_label(), "\u{25b6} PLAY");
    view.playing = true;
    assert_eq!(view.play_label(), "\u{23f8} STOP");
}
