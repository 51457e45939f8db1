use fabric::desktop::{
    fmt_epoch, fmt_eta_secs, hidden_file_list, kind_file_text, kind_from_saved,
    progress_poll_next, reconcile_poll_next, status_label, viz_poll_next, viz_status_error,
    viz_status_ready, viz_timeout_error, PollNext, VizPollNext,
};
use fabric::client::ClientError;
use fabric::health::KindFilter;
use fabric::live::{
    after_session, live_kind, session_rejected, stream_connect_result, LiveKind, SseFramer,
    SseLoopAction, SseLoopExit,
};
use fabric::model::{Fleet, FleetsResp, Instance, InstancesResp, JsonValue, RunScalars, RunsSummary, SseBoxEvent};
use fabric::roster::{
    assigned_boxes, insert_pending_box, insert_pending_box_id, instances_in_flight,
    instances_summary, is_in_flight_box, is_terminal_box, on_box_lifecycle, optimistic_assign,
    refresh_after_action, unassigned_boxes, RefreshPlan,
};
use fabric::topology::{
    bump_at_least, bump_input_idx, bump_scrub_tick, bump_ticks, default_checkpoint_file,
    resolve_checkpoint_selection, run_matches_checkpoint, topo_entry_file, topo_from_fab,
};
use fabric::vizmodel::{
    CheckpointFile, CheckpointRun, CheckpointsResp, FabHeader, FabRegionSpan, RegionKind, TopoEntry,
    TopoManifestResp, VizStatusResp,
};

#[test]
fn matches_checkpoint_across_pod_and_group_forms() {
    let run = RunScalars {
        pod: "blackstar:gpu0".into(),
        name: "count20_gpu0".into(),
        group: "count20".into(),
        fleet: "blackstar".into(),
        ..Default::default()
    };
    assert!(run_matches_checkpoint(&run, "blackstar:gpu0", "count20_gpu0"));
    assert!(run_matches_checkpoint(&run, "gpu0", "count20_gpu0"));
    assert!(run_matches_checkpoint(&run, "gpu0", "count20"));
    assert!(run_matches_checkpoint(&run, "gpu0", "count20_gpu0"));
    assert!(!run_matches_checkpoint(&run, "gpu0", "other_run"));
}

#[test]
fn table_cells() {
    assert_eq!(fmt_epoch(Some(3), Some(10)), "3/10");
    assert_eq!(fmt_epoch(Some(3), Some(0)), "3");
    assert_eq!(fmt_epoch(Some(-2), None), "-2");
    assert_eq!(fmt_epoch(None, Some(5)), "\u{2014}");
    assert_eq!(status_label(Some("running")), "running");
    assert_eq!(status_label(Some("idle")), "idle");
    assert_eq!(status_label(Some("crashed")), "unknown");
    assert_eq!(status_label(None), "unknown");
    assert_eq!(fmt_eta_secs(None), "\u{2014}");
    assert_eq!(fmt_eta_secs(Some(59)), "59s");
    assert_eq!(fmt_eta_secs(Some(-5)), "-5s");
    assert_eq!(fmt_eta_secs(Some(3599)), "59m");
    assert_eq!(fmt_eta_secs(Some(7300)), "2h");
}

#[test]
fn kind_preference_round_trip() {
    for k in [KindFilter::All, KindFilter::Recon, KindFilter::Lm] {
        assert_eq!(kind_from_saved(&kind_file_text(k)), k);
    }
    assert_eq!(kind_file_text(KindFilter::Recon), "\"video\"");
    assert_eq!(kind_from_saved("  \"recon\"\n"), KindFilter::Recon);
    assert_eq!(kind_from_saved("lm"), KindFilter::Lm);
    assert_eq!(kind_from_saved("garbage"), KindFilter::All);
}

#[test]
fn hidden_list_sorted_once() {
    let v = vec!["b".to_string(), "a".to_string(), "b".to_string(), "ab".to_string()];
    assert_eq!(hidden_file_list(&v), vec!["a", "ab", "b"]);
    assert!(hidden_file_list(&[]).is_empty());
}

#[test]
fn viz_status_and_polls() {
    let ready = VizStatusResp { state: Some("ready".into()), ..Default::default() };
    let flag = VizStatusResp { ready: Some(true), ..Default::default() };
    let failed = VizStatusResp { error: Some("oom".into()), ..Default::default() };
    let pending = VizStatusResp { state: Some("loading".into()), ..Default::default() };
    assert!(viz_status_ready(&ready) && viz_status_ready(&flag) && !viz_status_ready(&pending));
    assert_eq!(viz_status_error(&failed).as_deref(), Some("oom"));
    assert_eq!(viz_poll_next(0, Some(&ready)), VizPollNext::Deliver);
    assert_eq!(viz_poll_next(0, Some(&failed)), VizPollNext::Deliver);
    assert_eq!(viz_poll_next(0, Some(&pending)), VizPollNext::Wait);
    assert_eq!(viz_poll_next(239, Some(&pending)), VizPollNext::TimedOut);
    assert_eq!(viz_poll_next(5, None), VizPollNext::Wait);
    assert!(matches!(viz_timeout_error(), ClientError::Api { status: 400, ref message } if message == "viz load timed out after ~6 minutes"));
    assert_eq!(progress_poll_next(0, true), PollNext::Stop);
    assert_eq!(progress_poll_next(0, false), PollNext::Wait);
    assert_eq!(progress_poll_next(119, false), PollNext::Stop);
    assert_eq!(reconcile_poll_next(false, 0, true), (true, PollNext::Wait));
    assert_eq!(reconcile_poll_next(true, 3, false), (true, PollNext::Stop));
    assert_eq!(reconcile_poll_next(false, 3, false), (false, PollNext::Wait));
    assert_eq!(reconcile_poll_next(false, 59, false), (false, PollNext::Stop));
}

fn s(v: &str) -> JsonValue {
    JsonValue::Str(v.into())
}

fn boxes() -> InstancesResp {
    InstancesResp {
        instances: vec![
            Instance { id: s("a"), assignable: Some(true), ..Default::default() },
            Instance { id: s("b"), status: Some("booting".into()), ..Default::default() },
            Instance { id: s("c"), provision_state: Some("destroyed".into()), assignable: Some(true), ..Default::default() },
            Instance { id: s("d"), fleet_id: Some("f1".into()), ..Default::default() },
            Instance { id: s("e"), ..Default::default() },
        ],
        total: 5,
        unassigned: 4,
        ..Default::default()
    }
}

#[test]
fn roster_views() {
    let r = boxes();
    let free: Vec<_> = unassigned_boxes(Some(&r)).into_iter().map(|b| b.id_str()).collect();
    assert_eq!(free, vec!["a", "b"]);
    let mine: Vec<_> = assigned_boxes(Some(&r), "f1").into_iter().map(|b| b.id_str()).collect();
    assert_eq!(mine, vec!["d"]);
    assert!(unassigned_boxes(None).is_empty());
    assert!(is_in_flight_box(&r.instances[1]));
    assert!(is_terminal_box(&r.instances[2]));
    assert_eq!(instances_summary(Some(&r)).as_deref(), Some("5 boxes \u{b7} 4 unassigned"));
    assert!(instances_in_flight(&r));
    let pending = InstancesResp {
        instances: vec![Instance { id: s("p"), provision_state: Some("pending".into()), ..Default::default() }],
        ..Default::default()
    };
    assert!(instances_in_flight(&pending));
    assert!(!instances_in_flight(&InstancesResp::default()));
}

#[test]
fn pending_placeholders() {
    let mut r = boxes();
    insert_pending_box_id(&mut r, "a", "H100", 8);
    assert_eq!(r.instances.len(), 5);
    insert_pending_box_id(&mut r, "rent-1", "H100", 8);
    assert_eq!(r.instances.len(), 6);
    let row = &r.instances[5];
    assert_eq!(row.label.as_deref(), Some("GPU (provisioning)"));
    assert_eq!(row.provider, "nebius");
    assert_eq!(row.provision_state.as_deref(), Some("provisioning"));
    assert_eq!(r.total, 6);
    assert_eq!(r.unassigned, 5);
    let entry = vec![
        ("contract".to_string(), JsonValue::Num { text: "77".into(), integer: Some(77), bits: 77.0f64.to_bits() }),
        ("gpus".to_string(), JsonValue::Num { text: "2".into(), integer: Some(2), bits: 2.0f64.to_bits() }),
        ("fleet_id".to_string(), s("f9")),
    ];
    insert_pending_box(&mut r, &entry, "A100", 1);
    let row = r.instances.last().unwrap();
    assert_eq!(row.id_str(), "77");
    assert_eq!(row.num_gpus, Some(2));
    assert_eq!(row.gpu_name.as_deref(), Some("A100"));
    assert_eq!(row.fleet_id.as_deref(), Some("f9"));
    assert_eq!(r.unassigned, 5);
    let before = r.clone();
    insert_pending_box(&mut r, &[("id".to_string(), JsonValue::Null)], "A100", 1);
    insert_pending_box(&mut r, &[("id".to_string(), s("77"))], "A100", 1);
    assert_eq!(r, before);
}

#[test]
fn optimistic_assign_marks_last_row() {
    let mut r = boxes();
    r.instances.push(Instance { id: s("a"), ..Default::default() });
    let fleets = FleetsResp {
        fleets: vec![Fleet { id: "f1".into(), name: "Fleet one".into(), ..Default::default() }],
        ..Default::default()
    };
    optimistic_assign(&mut r, "a", Some(&fleets), "f1");
    let row = r.instances.last().unwrap();
    assert_eq!(row.fleet_id.as_deref(), Some("f1"));
    assert_eq!(row.fleet_name.as_deref(), Some("Fleet one"));
    assert_eq!(row.status.as_deref(), Some("booting"));
    assert_eq!(row.assignable, Some(false));
    assert!(r.instances[0].fleet_id.is_none());
    let before = r.clone();
    optimistic_assign(&mut r, "zzz", Some(&fleets), "f1");
    assert_eq!(r, before);
}

#[test]
fn lifecycle_and_refresh_plans() {
    let ev = SseBoxEvent {
        kind: "box".into(),
        id: s("a"),
        provision_state: Some("assigned".into()),
        fleet_id: Some(Some("f1".into())),
        ..Default::default()
    };
    let e = on_box_lifecycle(&ev, Some("a"), "f1");
    assert!(e.clear_progress && e.refresh_tree);
    let e2 = on_box_lifecycle(&ev, Some("b"), "");
    assert!(!e2.clear_progress && !e2.refresh_tree);
    assert_eq!(refresh_after_action("rentgpus", "f1"), RefreshPlan::Nothing);
    assert_eq!(refresh_after_action("unassign", ""), RefreshPlan::Roster { tree: false });
    assert_eq!(refresh_after_action("destroybox", "f1"), RefreshPlan::Roster { tree: true });
    assert_eq!(refresh_after_action("newfleet", "f1"), RefreshPlan::Deck);
}

#[test]
fn topology_decisions() {
    let header = FabHeader {
        c: Some(4),
        band_rows: Some(2),
        n_planes: None,
        regions: Some(FabRegionSpan { input: [0, 1], readout: [3, 1], recon: [0, 0] }),
        ..Default::default()
    };
    let topo = topo_from_fab(header);
    assert_eq!((topo.n, topo.cols, topo.band_rows, topo.planes), (8, 4, 2, 1));
    assert_eq!(topo.regions.len(), 8);
    assert_eq!(topo.regions[3], RegionKind::Readout);
    let empty = topo_from_fab(FabHeader { n: Some(-3), ..Default::default() });
    assert_eq!(empty.n, 0);
    assert_eq!(empty.regions, vec![RegionKind::Compute]);

    let manifest = TopoManifestResp {
        topologies: vec![
            TopoEntry { run: "r1".into(), file: String::new(), archive_file: Some("r1.tar".into()), ..Default::default() },
            TopoEntry { run: "r2".into(), file: String::new(), ..Default::default() },
        ],
        ..Default::default()
    };
    assert_eq!(topo_entry_file(&manifest, "r1").as_deref(), Some("r1.tar"));
    assert_eq!(topo_entry_file(&manifest, "r2"), None);
    assert_eq!(topo_entry_file(&manifest, "r3"), None);

    assert_eq!(bump_scrub_tick(2, 5, 4), Some(3));
    assert_eq!(bump_scrub_tick(2, -5, 4), Some(0));
    assert_eq!(bump_scrub_tick(0, 1, 0), None);
    assert_eq!(bump_ticks(4, 200), 128);
    assert_eq!(bump_ticks(4, -10), 1);
    assert_eq!(bump_input_idx(3, -5), 0);
    assert_eq!(bump_at_least(30, -20, 20), 20);
}

#[test]
fn checkpoint_selection() {
    let run = RunScalars { pod: "f:n1".into(), name: "mnist_n1".into(), group: "mnist".into(), ..Default::default() };
    let summary = RunsSummary { runs: vec![run], ..Default::default() };
    let ck = CheckpointRun {
        fleet: "f".into(),
        pod: "n1".into(),
        run: "mnist".into(),
        files: vec![
            CheckpointFile { filename: "w_n1.pt.best".into(), ..Default::default() },
            CheckpointFile { filename: "mnist_n1.pt".into(), ..Default::default() },
        ],
        ..Default::default()
    };
    let cks = CheckpointsResp { enabled: true, runs: vec![ck], ..Default::default() };
    assert_eq!(
        default_checkpoint_file(Some(&cks), "f:n1", "mnist_n1", Some(&summary)).as_deref(),
        Some("mnist_n1.pt")
    );
    assert_eq!(default_checkpoint_file(None, "f:n1", "mnist_n1", Some(&summary)), None);
    assert_eq!(resolve_checkpoint_selection(Some(&cks), Some(&summary), "f:n1", "mnist_n1"), None);
    let good = CheckpointsResp {
        enabled: true,
        runs: vec![CheckpointRun {
            fleet: "f".into(),
            pod: "n1".into(),
            run: "mnist".into(),
            files: vec![CheckpointFile { filename: "mnist_n1.pt.best".into(), ..Default::default() }],
            ..Default::default()
        }],
        ..Default::default()
    };
    assert_eq!(
        resolve_checkpoint_selection(Some(&good), Some(&summary), "f:n1", "mnist_n1"),
        Some(("f".into(), "n1".into(), "mnist".into(), "mnist_n1.pt.best".into()))
    );
}

#[test]
fn sse_framing_across_chunks() {
    let mut f = SseFramer::new();
    let a = f.feed(b"data: {\"type\":\"run\"}\r\n: keepalive\ndata:   \nda");
    assert_eq!(a, vec!["{\"type\":\"run\"}".to_string()]);
    assert_eq!(f.buffer, "da");
    let b = f.feed(b"ta: x\n\ndata: y");
    assert_eq!(b, vec!["x".to_string()]);
    assert_eq!(f.buffer, "data: y");
    let mut g = SseFramer::new();
    let all = g.feed(b"data: {\"type\":\"run\"}\r\n: keepalive\ndata:   \ndata: x\n\ndata: y");
    assert_eq!(all, vec!["{\"type\":\"run\"}".to_string(), "x".to_string()]);
    assert_eq!(g.buffer, f.buffer);
}

#[test]
fn sse_dispatch_and_loop() {
    assert_eq!(live_kind("job"), Some(LiveKind::Job));
    assert_eq!(live_kind("box"), Some(LiveKind::Box));
    assert_eq!(live_kind("instance"), Some(LiveKind::Box));
    assert_eq!(live_kind("tree"), Some(LiveKind::Node));
    assert_eq!(live_kind("future_thing"), None);
    assert!(stream_connect_result(200).is_ok());
    assert_eq!(stream_connect_result(401), Err(ClientError::Unauthorized));
    assert_eq!(
        stream_connect_result(503),
        Err(ClientError::Api { status: 503, message: "sse connect failed".into() })
    );
    assert!(session_rejected(&Err(ClientError::Unauthorized)));
    assert!(!session_rejected(&Ok(())));
    assert_eq!(after_session(true, true), SseLoopAction::Stop { exit: SseLoopExit::Unauthorized, disconnected: true });
    assert_eq!(after_session(false, false), SseLoopAction::Stop { exit: SseLoopExit::Shutdown, disconnected: false });
    assert_eq!(after_session(false, true), SseLoopAction::Reconnect);
}
