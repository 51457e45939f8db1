use base64::Engine;
use fabric::drive::{build_drive, default_viz_source, viz_sources, BuildDriveOpts};
use fabric::eligible::{
    epoch_ckpt_match, flat_ckpt_match, gossip_checkpoint, is_orphan_visualizer_checkpoint,
    is_visualizer_checkpoint_file, pod_tag, strip_ckpt_ext, viz_eligible_by_output,
    viz_eligible_checkpoint,
};
use fabric::fab::{array_byte_len, fab1_arrays, fab1_header_span};
use fabric::geometry::{
    col_in_span, display_regions, gallery_dataset, present_region_kinds, region_at,
    region_kinds_in_cells, regions_from_fab_spans, substrate_band_rows, substrate_cols,
    substrate_planes, substrate_rows,
};
use fabric::model::{RunOutput, RunScalars, RunSpecEnvelope};
use fabric::quant8::{quant8_frame_bytes, quant8_take};
use fabric::vizmodel::{
    default_want_state, CheckpointFile, CheckpointRun, DriveSpec, FabArrayDesc, FabRegionSpan,
    RegionKind, TopoDataInMemory, VizGeometry, VizGeometryRegions, VizKind, VizLoadMeta, VizRegion,
};

#[test]
fn uses_image_for_run_dataset() {
    let drive = build_drive(BuildDriveOpts {
        source: "clip.npy",
        idx: 3,
        run_dataset: Some("clip.npy"),
        has_dataset: true,
        pixel_b64: None,
    });
    assert!(matches!(drive, DriveSpec::Image { idx: 3 }));
}

#[test]
fn uses_builtin_for_mnist() {
    let drive = build_drive(BuildDriveOpts {
        source: "mnist",
        idx: 7,
        run_dataset: Some("clip.npy"),
        has_dataset: true,
        pixel_b64: None,
    });
    assert!(matches!(drive, DriveSpec::Builtin { ref dataset, idx: 7 } if dataset == "mnist"));
}

#[test]
fn default_source_prefers_run_dataset() {
    let meta = VizLoadMeta {
        has_dataset: Some(true),
        dataset: Some("clip.npy".into()),
        builtins: vec!["mnist".into(), "cifar".into()],
        ..Default::default()
    };
    assert_eq!(default_viz_source(&meta), "clip.npy");
    assert_eq!(viz_sources(&meta), vec!["clip.npy", "mnist", "cifar"]);
}

#[test]
fn default_source_falls_back_to_first_builtin() {
    let meta = VizLoadMeta {
        has_dataset: Some(false),
        dataset: Some("clip.npy".into()),
        builtins: vec!["fashion".into()],
        ..Default::default()
    };
    assert_eq!(default_viz_source(&meta), "fashion");
    assert_eq!(viz_sources(&meta), vec!["fashion"]);
}

#[test]
fn default_source_empty_meta_is_mnist() {
    let meta = VizLoadMeta::default();
    assert_eq!(default_viz_source(&meta), "mnist");
    assert!(viz_sources(&meta).is_empty());
}

#[test]
fn viz_sources_drop_repeats() {
    let meta = VizLoadMeta {
        has_dataset: Some(true),
        dataset: Some("mnist".into()),
        builtins: vec!["mnist".into(), "cifar".into(), "cifar".into()],
        ..Default::default()
    };
    assert_eq!(viz_sources(&meta), vec!["mnist", "cifar"]);
}

#[test]
fn prefers_pixels_when_upload_present() {
    let drive = build_drive(BuildDriveOpts {
        source: "mnist",
        idx: 0,
        run_dataset: None,
        has_dataset: false,
        pixel_b64: Some("abc123"),
    });
    assert!(matches!(drive, DriveSpec::Pixels { ref data } if data == "abc123"));
    assert!(default_want_state());
}

#[test]
fn accepts_agent_flat_saves() {
    assert!(is_visualizer_checkpoint_file("mnist_recon_n1.pt", None));
    assert!(is_visualizer_checkpoint_file("mnist_recon_n1.pt.best", None));
    assert!(is_visualizer_checkpoint_file("best.pt", None));
    assert!(is_visualizer_checkpoint_file("epoch_3.pt", None));
}

#[test]
fn rejects_gossip_and_topology() {
    assert!(!is_visualizer_checkpoint_file("w_n1.pt", None));
    assert!(!is_visualizer_checkpoint_file("topology.pt", Some("topology")));
    assert!(!is_visualizer_checkpoint_file("meta.json", Some("meta")));
}

#[test]
fn checkpoint_name_helpers() {
    assert_eq!(pod_tag("fleet:n7"), "n7");
    assert_eq!(pod_tag("n7"), "n7");
    assert!(flat_ckpt_match("Run.PT"));
    assert!(!flat_ckpt_match("a.b.pt"));
    assert!(flat_ckpt_match("a.b.pt.last"));
    assert!(!flat_ckpt_match(".pt.best"));
    assert!(!flat_ckpt_match("notes.txt"));
    assert!(gossip_checkpoint("s_n1.pt"));
    assert!(!gossip_checkpoint("run_n1.pt"));
    assert_eq!(strip_ckpt_ext("Run_N1.PTH.best"), "run_n1");
    assert_eq!(strip_ckpt_ext("x.ckpt"), "x");
    assert_eq!(strip_ckpt_ext("x.bin"), "x.bin");
    assert!(epoch_ckpt_match("EPOCH_12.pt"));
    assert!(!epoch_ckpt_match("epoch_12.json"));
    assert!(is_orphan_visualizer_checkpoint("mnist_recon_n1", "other.pt", "f:n1"));
    assert!(is_orphan_visualizer_checkpoint("mnist", "mnist_n1.pt", "n1"));
    assert!(!is_orphan_visualizer_checkpoint("mnist", "other.pt", "n2"));
}

fn mk_ck() -> CheckpointRun {
    CheckpointRun {
        fleet: "f".into(),
        pod: "n1".into(),
        run: "mnist_recon_n1".into(),
        n_files: 1,
        bytes: 1,
        files: vec![],
        ..Default::default()
    }
}

fn canvas_run() -> RunScalars {
    RunScalars {
        pod: "f:n1".into(),
        name: "mnist_recon_n1".into(),
        group: "mnist_recon".into(),
        fleet: "f".into(),
        runspec: Some(RunSpecEnvelope {
            substrate_kind: Some("canvas".into()),
            output: Some(RunOutput {
                checkpoint_kind: Some("canvas".into()),
                kind: Some("canvas.recon".into()),
                ..Default::default()
            }),
            ..Default::default()
        }),
        ..Default::default()
    }
}

#[test]
fn orphan_ckpt_before_metrics_ingest() {
    let ck = mk_ck();
    assert!(viz_eligible_checkpoint(
        &ck,
        &CheckpointFile { filename: "mnist_recon_n1.pt".into(), ..Default::default() },
        None,
    ));
    assert!(!viz_eligible_checkpoint(
        &ck,
        &CheckpointFile { filename: "w_n1.pt".into(), ..Default::default() },
        None,
    ));
}

#[test]
fn requires_canvas_runspec_when_run_present() {
    let ck = mk_ck();
    let file = CheckpointFile { filename: "mnist_recon_n1.pt".into(), ..Default::default() };
    assert!(viz_eligible_checkpoint(&ck, &file, Some(&canvas_run())));
    let polar = RunScalars {
        runspec: Some(RunSpecEnvelope {
            substrate_kind: Some("polar".into()),
            output: Some(RunOutput { checkpoint_kind: Some("polar".into()), ..Default::default() }),
            ..Default::default()
        }),
        ..Default::default()
    };
    assert!(!viz_eligible_checkpoint(&ck, &file, Some(&polar)));
    assert!(!viz_eligible_by_output(&RunScalars { name: "x_lm_y".into(), ..Default::default() }));
    assert!(viz_eligible_by_output(&RunScalars { name: "recon".into(), ..Default::default() }));
}

fn fab_blob(header_json: &str, payloads: &[&[u8]]) -> Vec<u8> {
    let mut hb = header_json.as_bytes().to_vec();
    while hb.len() % 4 != 0 {
        hb.push(b' ');
    }
    let mut out = b"FAB1".to_vec();
    out.extend_from_slice(&(hb.len() as u32).to_le_bytes());
    out.extend_from_slice(&hb);
    for p in payloads {
        out.extend_from_slice(p);
    }
    out
}

fn i32_bytes(values: &[i32]) -> Vec<u8> {
    values.iter().flat_map(|v| v.to_le_bytes()).collect()
}

#[test]
fn parses_minimal_fab1() {
    let json = r#"{"type":"topo","run":"test_run","N":2,"E":3,"arrays":[{"name":"row_ptr","dtype":"int32","len":3},{"name":"col","dtype":"int32","len":3}]}"#;
    let buf = fab_blob(json, &[&i32_bytes(&[0, 1, 3]), &i32_bytes(&[1, 0, 2])]);
    let (start, end) = fab1_header_span(&buf).expect("header");
    assert_eq!(start, 8);
    let header_text = std::str::from_utf8(&buf[start..end]).unwrap();
    assert!(header_text.contains("\"type\":\"topo\""));
    let descs = vec![
        FabArrayDesc { name: "row_ptr".into(), dtype: "int32".into(), len: 3 },
        FabArrayDesc { name: "col".into(), dtype: "int32".into(), len: 3 },
    ];
    let arrays = fab1_arrays(&buf, end, &descs).expect("arrays");
    assert_eq!(arrays.len(), 2);
    assert_eq!(arrays[0].0, "row_ptr");
    assert_eq!(arrays[0].1.len(), 12);
    assert_eq!(arrays[1].1.len(), 12);
    assert_eq!(arrays[1].1, i32_bytes(&[1, 0, 2]));
}

#[test]
fn rejects_bad_magic() {
    let err = fab1_header_span(b"NOPE____").unwrap_err();
    assert!(err.contains("not a FAB file"));
    assert_eq!(err, "not a FAB file (magic=NOPE)");
}

#[test]
fn fab_refusals() {
    assert_eq!(fab1_header_span(b"FAB1").unwrap_err(), "FAB file too short");
    let mut short = b"FAB1".to_vec();
    short.extend_from_slice(&100u32.to_le_bytes());
    assert_eq!(fab1_header_span(&short).unwrap_err(), "truncated FAB header");
    assert_eq!(array_byte_len("int32", -1).unwrap_err(), "negative array length for dtype int32");
    assert_eq!(array_byte_len("f16", 1).unwrap_err(), "unknown dtype f16");
    assert_eq!(array_byte_len("float32", 5).unwrap(), 20);
    let buf = fab_blob("{}", &[&[1, 2, 3]]);
    let (_, end) = fab1_header_span(&buf).unwrap();
    let d = vec![FabArrayDesc { name: "a".into(), dtype: "int32".into(), len: 1 }];
    assert_eq!(fab1_arrays(&buf, end, &d).unwrap_err(), "truncated array a");
    let twice = vec![
        FabArrayDesc { name: "a".into(), dtype: "int32".into(), len: 0 },
        FabArrayDesc { name: "a".into(), dtype: "int32".into(), len: 0 },
    ];
    assert_eq!(fab1_arrays(&buf, end, &twice).unwrap().len(), 1);
}

#[test]
fn gallery_dataset_prefers_run_npy_when_selected() {
    let meta = VizLoadMeta { has_dataset: Some(true), dataset: Some("clip.npy".into()), ..Default::default() };
    assert_eq!(gallery_dataset(&meta, "clip.npy"), "clip.npy");
    assert_eq!(gallery_dataset(&meta, "mnist"), "mnist");
}

#[test]
fn display_regions_passes_through_viewer_geometry() {
    let geo = VizGeometry {
        kind: "canvas".into(),
        r: 64,
        c: 64,
        planes: 1,
        band_rows: Some(64),
        img_size: Some(28),
        regions: VizGeometryRegions {
            recon: Some(VizRegion { r0: 10, r1: 38, c0: 20, c1: 48 }),
            ..Default::default()
        },
    };
    let disp = display_regions(&geo, Some(&VizKind::ReconRollout));
    assert!(disp.input.is_none());
    assert!(disp.recon.is_some());
    assert!(disp.readout.is_none());
}

#[test]
fn display_regions_prefers_readout_for_classify() {
    let geo = VizGeometry {
        kind: "classify".into(),
        r: 32,
        c: 32,
        planes: 1,
        regions: VizGeometryRegions {
            input: Some(VizRegion { r0: 0, r1: 28, c0: 0, c1: 28 }),
            readout: Some(VizRegion { r0: 0, r1: 32, c0: 24, c1: 32 }),
            recon: Some(VizRegion { r0: 0, r1: 28, c0: 10, c1: 20 }),
            ..Default::default()
        },
        ..Default::default()
    };
    let disp = display_regions(&geo, Some(&VizKind::ClassifyLogits));
    assert!(disp.readout.is_some());
    assert!(disp.recon.is_none());
    let by_kind = display_regions(&geo, None);
    assert!(by_kind.readout.is_some() && by_kind.recon.is_none());
}

#[test]
fn substrate_dimensions() {
    let geo = VizGeometry { r: 0, c: 0, planes: 3, band_rows: Some(4), ..Default::default() };
    assert_eq!(substrate_rows(&geo), 12);
    assert_eq!(substrate_cols(&geo), 1);
    assert_eq!(substrate_planes(&geo), 3);
    assert_eq!(substrate_band_rows(&geo), 4);
    let tall = VizGeometry { r: 10, c: 5, planes: 9, band_rows: Some(4), ..Default::default() };
    assert_eq!(substrate_rows(&tall), 10);
    assert_eq!(substrate_planes(&tall), 2);
}

#[test]
fn region_helpers() {
    let regions = VizGeometryRegions {
        input: Some(VizRegion { r0: 0, r1: 2, c0: 0, c1: 2 }),
        recon: Some(VizRegion { r0: 0, r1: 4, c0: 0, c1: 4 }),
        ..Default::default()
    };
    assert_eq!(region_at(1, 1, &regions), RegionKind::Input);
    assert_eq!(region_at(3, 3, &regions), RegionKind::Recon);
    assert_eq!(region_at(9, 9, &regions), RegionKind::Compute);
    assert_eq!(present_region_kinds(&regions), vec![RegionKind::Input, RegionKind::Recon]);
    let spans = FabRegionSpan { input: [0, 1], readout: [3, 1], recon: [0, 0] };
    let cells = regions_from_fab_spans(8, 4, 1, &spans);
    assert_eq!(
        cells,
        vec![
            RegionKind::Input, RegionKind::Compute, RegionKind::Compute, RegionKind::Readout,
            RegionKind::Input, RegionKind::Compute, RegionKind::Compute, RegionKind::Readout,
        ]
    );
    assert_eq!(region_kinds_in_cells(&cells), vec![RegionKind::Input, RegionKind::Compute, RegionKind::Readout]);
    assert_eq!(region_kinds_in_cells(&[RegionKind::Recon, RegionKind::Compute]), vec![RegionKind::Compute, RegionKind::Recon]);
    assert!(region_kinds_in_cells(&[]).is_empty());
    assert!(col_in_span(2, [1, 2]));
    assert!(!col_in_span(3, [1, 2]));
    let topo = TopoDataInMemory { n: 8, cols: 4, band_rows: 2, planes: 1, regions: cells };
    assert_eq!(topo.cell_count(), 8);
    assert_eq!(topo.region_of(3), RegionKind::Readout);
    assert_eq!(topo.region_of(100), RegionKind::Compute);
}

#[test]
fn decodes_quant8_frame() {
    let raw = [128u8, 138, 118, 148];
    let b64 = base64::engine::general_purpose::STANDARD.encode(raw);
    let bytes = quant8_frame_bytes(&b64, 2, 2).expect("decode");
    let (zero, scale) = (128.0f32, 0.1f32);
    let out: Vec<f32> = bytes.iter().map(|&u| (u as f32 - zero) * scale).collect();
    assert_eq!(out.len(), 4);
    assert!((out[0] - 0.0).abs() < 1e-6);
    assert!((out[1] - 1.0).abs() < 1e-6);
    assert!((out[2] - (-1.0)).abs() < 1e-6);
    assert!((out[3] - 2.0).abs() < 1e-6);
}

#[test]
fn truncates_when_buffer_shorter_than_grid() {
    let b64 = base64::engine::general_purpose::STANDARD.encode([100u8]);
    let bytes = quant8_frame_bytes(&b64, 2, 2).expect("decode");
    let out: Vec<f32> = bytes.iter().map(|&u| (u as f32 - 0.0) * 1.0).collect();
    assert_eq!(out.len(), 1);
    assert!((out[0] - 100.0).abs() < 1e-6);
}

#[test]
fn quant8_trims_cuts_and_refuses() {
    let b64 = format!("  {}\n", base64::engine::general_purpose::STANDARD.encode([1u8, 2, 3, 4, 5]));
    assert_eq!(quant8_frame_bytes(&b64, 1, 3).unwrap(), vec![1, 2, 3]);
    assert_eq!(quant8_frame_bytes(&b64, -1, 3).unwrap(), Vec::<u8>::new());
    assert!(quant8_frame_bytes("!!!", 1, 1).unwrap_err().starts_with("base64 decode: "));
    assert_eq!(quant8_take(vec![9, 8, 7], 1, 2), vec![9, 8]);
}

#[test]
fn refused_frame_text_names_base64() {
    let err = quant8_frame_bytes("not base64!", 2, 2).unwrap_err();
    let why = base64::engine::general_purpose::STANDARD.decode("not base64!").unwrap_err();
    assert_eq!(err, format!("base64 decode: {}", why));
    let err = quant8_frame_bytes("  not base64!\n", 2, 2).unwrap_err();
    assert_eq!(err, format!("base64 decode: {}", why));
}
