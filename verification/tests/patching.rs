use fabric::model::{
    BoxProgressResp, Fleet, FleetsResp, GpuSummary, Instance, InstancesResp, Job, JobPod, JsonValue,
    RunScalars, RunsSummary, SseBoxEvent, SseFleetEvent, SseHeadline, SseJobEvent, SseNodeEvent,
    SseRunEvent, TreeNode, TreeResp,
};
use fabric::patch::{
    append_point, default_max_points, insert_box, is_instance_in_flight, merge_instances_reconcile,
    patch_box, patch_fleet, patch_job, patch_summary, patch_tree_node, trim_vec, PatchOutcome,
    TreePatchOutcome,
};

fn num_i(n: i64) -> JsonValue {
    JsonValue::Num { text: n.to_string(), integer: Some(n), bits: (n as f64).to_bits() }
}

fn num_f(x: f64, text: &str) -> JsonValue {
    JsonValue::Num { text: text.into(), integer: None, bits: x.to_bits() }
}

fn s(v: &str) -> JsonValue {
    JsonValue::Str(v.into())
}

fn mk_run(best: f64, epoch: i64) -> RunScalars {
    RunScalars {
        pod: "f:n1".into(),
        name: "r_n1".into(),
        group: "r".into(),
        fleet: "f".into(),
        best: Some(best.to_bits()),
        last_epoch: Some(epoch),
        status: Some("running".into()),
        ..Default::default()
    }
}

fn mk_summary(runs: Vec<RunScalars>) -> RunsSummary {
    RunsSummary { runs, gpus: GpuSummary::default(), ..Default::default() }
}

fn run_event(scalars: Vec<(String, JsonValue)>, headline: Option<SseHeadline>) -> SseRunEvent {
    SseRunEvent {
        kind: "run".into(),
        pod: "f:n1".into(),
        run: "r_n1".into(),
        v: Some(2),
        ts: None,
        headline,
        scalars,
        point: Vec::new(),
    }
}

#[test]
fn patch_updates_best_and_scalars() {
    let mut summary = mk_summary(vec![mk_run(60.0, 10)]);
    let scalars = vec![
        ("last_epoch".to_string(), num_i(12)),
        ("eta_sec".to_string(), num_i(3600)),
        ("status".to_string(), s("running")),
    ];
    let headline = SseHeadline { key: "top1".into(), value: 64.47f64.to_bits(), best: true };
    assert!(patch_summary(&mut summary, &run_event(scalars, Some(headline))));
    let row = &summary.runs[0];
    assert_eq!(row.best, Some(64.47f64.to_bits()));
    assert_eq!(row.last_epoch, Some(12));
    assert_eq!(row.eta_sec, Some(3600.0f64.to_bits()));
}

#[test]
fn patch_updates_total_epochs_and_created() {
    let mut summary = mk_summary(vec![mk_run(60.0, 10)]);
    let scalars = vec![
        ("total_epochs".to_string(), num_i(500)),
        ("created".to_string(), num_i(1718880000)),
        ("sweep".to_string(), s("lr_sweep")),
    ];
    assert!(patch_summary(&mut summary, &run_event(scalars, None)));
    let row = &summary.runs[0];
    assert_eq!(row.total_epochs, Some(500));
    assert_eq!(row.created, Some(1718880000.0f64.to_bits()));
    assert_eq!(row.sweep.as_deref(), Some("lr_sweep"));
}

#[test]
fn patch_keeps_unknown_scalar_in_extra() {
    let mut summary = mk_summary(vec![mk_run(1.0, 1)]);
    let scalars = vec![("gnorm".to_string(), num_f(0.25, "0.25"))];
    assert!(patch_summary(&mut summary, &run_event(scalars, None)));
    assert!(summary.runs[0].extra.iter().any(|(k, v)| k == "gnorm" && *v == num_f(0.25, "0.25")));
}

#[test]
fn patch_returns_false_for_unknown_run() {
    let mut summary = mk_summary(vec![mk_run(1.0, 1)]);
    let ev = SseRunEvent {
        kind: "run".into(),
        pod: "f:n2".into(),
        run: "other".into(),
        v: Some(2),
        ts: None,
        headline: None,
        scalars: Vec::new(),
        point: Vec::new(),
    };
    assert!(!patch_summary(&mut summary, &ev));
}

fn mk_instance(id: &str) -> Instance {
    Instance {
        id: s(id),
        status: Some("provisioning".into()),
        provision_state: Some("pending".into()),
        assignable: Some(false),
        ..Default::default()
    }
}

#[test]
fn patch_box_updates_matching_instance() {
    let mut resp = InstancesResp { instances: vec![mk_instance("box-1")], ..Default::default() };
    let ev = SseBoxEvent {
        kind: "box".into(),
        id: s("box-1"),
        status: Some("ready".into()),
        provision_state: Some("done".into()),
        assignable: Some(true),
        fleet_id: Some(Some("f1".into())),
        ..Default::default()
    };
    assert_eq!(patch_box(&mut resp, &ev), PatchOutcome::Updated);
    let row = &resp.instances[0];
    assert_eq!(row.status.as_deref(), Some("ready"));
    assert_eq!(row.provision_state.as_deref(), Some("done"));
    assert_eq!(row.assignable, Some(true));
    assert_eq!(row.fleet_id.as_deref(), Some("f1"));
}

#[test]
fn patch_box_twice_is_patch_box_once() {
    let mut once = InstancesResp { instances: vec![mk_instance("box-1")], ..Default::default() };
    let ev = SseBoxEvent {
        kind: "box".into(),
        id: s("box-1"),
        provision_state: Some("untracked".into()),
        fleet_id: Some(None),
        ..Default::default()
    };
    patch_box(&mut once, &ev);
    let mut twice = once.clone();
    patch_box(&mut twice, &ev);
    assert_eq!(once, twice);
}

#[test]
fn patch_box_clears_fleet_id_on_unassign() {
    let mut resp = InstancesResp {
        instances: vec![Instance { id: s("box-1"), fleet_id: Some("f1".into()), ..Default::default() }],
        ..Default::default()
    };
    let ev = SseBoxEvent { kind: "box".into(), id: s("box-1"), fleet_id: Some(None), ..Default::default() };
    assert_eq!(patch_box(&mut resp, &ev), PatchOutcome::Updated);
    assert!(resp.instances[0].fleet_id.is_none());
}

#[test]
fn patch_box_matches_numeric_id() {
    let mut resp = InstancesResp {
        instances: vec![Instance { id: num_i(42), ..Default::default() }],
        ..Default::default()
    };
    let ev = SseBoxEvent {
        kind: "box".into(),
        id: num_i(42),
        status: Some("error".into()),
        error: Some("boom".into()),
        ..Default::default()
    };
    assert_eq!(patch_box(&mut resp, &ev), PatchOutcome::Updated);
    assert_eq!(resp.instances[0].status.as_deref(), Some("error"));
    assert_eq!(resp.instances[0].error.as_deref(), Some("boom"));
}

#[test]
fn insert_box_adds_pending_rent_row() {
    let mut resp = InstancesResp::default();
    let ev = SseBoxEvent {
        kind: "box".into(),
        id: s("pending-1"),
        provision_state: Some("provisioning".into()),
        gpu_name: Some("H100".into()),
        num_gpus: Some(8),
        ..Default::default()
    };
    insert_box(&mut resp, &ev);
    assert_eq!(resp.instances.len(), 1);
    assert_eq!(resp.instances[0].provision_state.as_deref(), Some("provisioning"));
    assert_eq!(resp.instances[0].provider, "nebius");
    assert_eq!(resp.total, 1);
    assert_eq!(resp.unassigned, 1);
}

#[test]
fn patch_box_removes_destroyed() {
    let mut resp = InstancesResp { instances: vec![mk_instance("box-1")], total: 1, ..Default::default() };
    let ev = SseBoxEvent {
        kind: "box".into(),
        id: s("box-1"),
        provision_state: Some("destroyed".into()),
        ..Default::default()
    };
    assert_eq!(patch_box(&mut resp, &ev), PatchOutcome::Updated);
    assert!(resp.instances.is_empty());
}

#[test]
fn patch_box_untracked_sets_assignable() {
    let mut resp = InstancesResp {
        instances: vec![Instance {
            id: s("box-1"),
            fleet_id: Some("f1".into()),
            assignable: Some(false),
            provision_state: Some("assigned".into()),
            ..Default::default()
        }],
        ..Default::default()
    };
    let ev = SseBoxEvent {
        kind: "box".into(),
        id: s("box-1"),
        fleet_id: Some(None),
        provision_state: Some("untracked".into()),
        ..Default::default()
    };
    assert_eq!(patch_box(&mut resp, &ev), PatchOutcome::Updated);
    let row = &resp.instances[0];
    assert_eq!(row.provision_state.as_deref(), Some("untracked"));
    assert_eq!(row.assignable, Some(true));
    assert!(row.fleet_id.is_none());
}

#[test]
fn insert_box_untracked_is_assignable() {
    let mut resp = InstancesResp::default();
    let ev = SseBoxEvent {
        kind: "box".into(),
        id: s("box-9"),
        provision_state: Some("untracked".into()),
        ..Default::default()
    };
    insert_box(&mut resp, &ev);
    assert_eq!(resp.instances[0].assignable, Some(true));
}

#[test]
fn merge_instances_reconcile_keeps_local_in_flight() {
    let cached = InstancesResp {
        instances: vec![
            Instance { id: s("pending-1"), provision_state: Some("provisioning".into()), ..Default::default() },
            Instance { id: s("vm-42"), provision_state: Some("booting".into()), ..Default::default() },
        ],
        ..Default::default()
    };
    let fetched = InstancesResp {
        instances: vec![Instance {
            id: s("vm-other"),
            provision_state: Some("untracked".into()),
            assignable: Some(true),
            ..Default::default()
        }],
        total: 1,
        unassigned: 1,
        ..Default::default()
    };
    let merged = merge_instances_reconcile(&cached, fetched);
    assert_eq!(merged.instances.len(), 3);
    assert!(merged.instances.iter().any(|i| i.id_str() == "pending-1"));
    assert!(merged.instances.iter().any(|i| i.id_str() == "vm-42"));
}

#[test]
fn in_flight_detection() {
    assert!(is_instance_in_flight(&Instance { id: s("pending-7"), ..Default::default() }));
    assert!(is_instance_in_flight(&Instance { id: s("x"), status: Some("booting".into()), ..Default::default() }));
    assert!(!is_instance_in_flight(&Instance { id: s("x"), status: Some("ready".into()), ..Default::default() }));
}

#[test]
fn patch_box_returns_not_found() {
    let mut resp = InstancesResp { instances: vec![mk_instance("box-1")], ..Default::default() };
    let ev = SseBoxEvent { kind: "box".into(), id: s("box-2"), status: Some("ready".into()), ..Default::default() };
    assert_eq!(patch_box(&mut resp, &ev), PatchOutcome::NotFound);
    assert_eq!(resp.instances[0].status.as_deref(), Some("provisioning"));
}

#[test]
fn patch_fleet_updates_matching_fleet() {
    let mut resp = FleetsResp {
        fleets: vec![Fleet { id: "f1".into(), status: "idle".into(), n_pods: 2, active: false, ..Default::default() }],
        ..Default::default()
    };
    let ev = SseFleetEvent {
        kind: "fleet".into(),
        id: "f1".into(),
        status: Some("running".into()),
        n_pods: Some(5),
        active: Some(true),
        ..Default::default()
    };
    assert_eq!(patch_fleet(&mut resp, &ev), PatchOutcome::Updated);
    let row = &resp.fleets[0];
    assert_eq!(row.status, "running");
    assert_eq!(row.n_pods, 5);
    assert!(row.active);
}

#[test]
fn patch_fleet_returns_not_found() {
    let mut resp = FleetsResp::default();
    let ev = SseFleetEvent { kind: "fleet".into(), id: "missing".into(), status: Some("running".into()), ..Default::default() };
    assert_eq!(patch_fleet(&mut resp, &ev), PatchOutcome::NotFound);
}

fn mk_job(job_id: &str, state: &str, pods: Vec<JobPod>) -> Job {
    Job { job_id: job_id.into(), fleet: "f1".into(), state: state.into(), pods, ..Default::default() }
}

fn job_event(job_id: &str, state: &str, pod: Option<&str>) -> SseJobEvent {
    SseJobEvent {
        kind: "job".into(),
        v: Some(1),
        job_id: job_id.into(),
        fleet: "f1".into(),
        state: state.into(),
        pod: pod.map(str::to_string),
        ts: None,
    }
}

#[test]
fn patch_job_updates_state() {
    let mut jobs = vec![mk_job("j1", "running", Vec::new())];
    assert_eq!(patch_job(&mut jobs, &job_event("j1", "done", None)), PatchOutcome::Updated);
    assert_eq!(jobs[0].state, "done");
}

#[test]
fn patch_job_updates_pod_state() {
    let mut jobs = vec![mk_job(
        "j1",
        "running",
        vec![
            JobPod { pod: "f:n1".into(), state: "running".into(), ..Default::default() },
            JobPod { pod: "f:n2".into(), state: "running".into(), ..Default::default() },
        ],
    )];
    assert_eq!(patch_job(&mut jobs, &job_event("j1", "error", Some("f:n2"))), PatchOutcome::Updated);
    assert_eq!(jobs[0].state, "error");
    assert_eq!(jobs[0].pods[0].state, "running");
    assert_eq!(jobs[0].pods[1].state, "error");
}

#[test]
fn patch_job_returns_not_found() {
    let mut jobs = vec![mk_job("j1", "running", Vec::new())];
    assert_eq!(patch_job(&mut jobs, &job_event("missing", "done", None)), PatchOutcome::NotFound);
    assert_eq!(jobs[0].state, "running");
}

#[test]
fn patch_tree_node_updates_existing() {
    let mut resp = TreeResp {
        nodes: vec![TreeNode { tag: "n1".into(), up: false, state: Some("down".into()), ..Default::default() }],
        ..Default::default()
    };
    let ev = SseNodeEvent {
        kind: "node".into(),
        fleet: "f1".into(),
        tag: "n1".into(),
        state: Some("up".into()),
        up: Some(true),
        gpus_free: Some(4),
        children: Some(vec!["n2".into()]),
        ..Default::default()
    };
    assert_eq!(patch_tree_node(&mut resp, &ev), TreePatchOutcome::Updated);
    let node = &resp.nodes[0];
    assert_eq!(node.state.as_deref(), Some("up"));
    assert!(node.up);
    assert_eq!(node.gpus_free, Some(4));
    assert_eq!(node.children, vec!["n2".to_string()]);
    assert_eq!(resp.nodes.len(), 1);
}

#[test]
fn patch_tree_node_inserts_unknown() {
    let mut resp = TreeResp::default();
    let ev = SseNodeEvent {
        kind: "node".into(),
        fleet: "f1".into(),
        tag: "new-node".into(),
        up: Some(true),
        parent: Some("root".into()),
        ..Default::default()
    };
    assert_eq!(patch_tree_node(&mut resp, &ev), TreePatchOutcome::Inserted);
    assert_eq!(resp.nodes.len(), 1);
    assert_eq!(resp.nodes[0].tag, "new-node");
    assert!(resp.nodes[0].up);
    assert_eq!(resp.nodes[0].parent.as_deref(), Some("root"));
}

fn progress_with_state(state: &str) -> BoxProgressResp {
    BoxProgressResp { state: Some(state.into()), ..Default::default() }
}

#[test]
fn is_terminal_for_assigned_and_untracked() {
    assert!(progress_with_state("assigned").is_terminal());
    assert!(progress_with_state("untracked").is_terminal());
    assert!(progress_with_state("ready").is_terminal());
    assert!(progress_with_state("error").is_terminal());
    assert!(progress_with_state("failed").is_terminal());
    assert!(progress_with_state("done").is_terminal());
}

#[test]
fn is_terminal_false_for_in_flight() {
    assert!(!progress_with_state("provisioning").is_terminal());
    assert!(!progress_with_state("booting").is_terminal());
    assert!(!BoxProgressResp::default().is_terminal());
}

#[test]
fn is_terminal_honors_done_flag() {
    let resp = BoxProgressResp { done: Some(true), ..Default::default() };
    assert!(resp.is_terminal());
}

#[test]
fn trim_vec_keeps_tail() {
    let mut v = vec![1, 2, 3, 4, 5];
    trim_vec(&mut v, 3);
    assert_eq!(v, vec![3, 4, 5]);
    let mut w = vec![1, 2];
    trim_vec(&mut w, 0);
    assert_eq!(w, vec![1, 2]);
    assert_eq!(default_max_points(), 600);
}

#[test]
fn append_point_grows_known_columns() {
    let mut epochs = vec![1, 2];
    let mut metrics = vec![
        ("loss".to_string(), vec![0.5f64.to_bits(), 0.4f64.to_bits()]),
        ("top1".to_string(), vec![10.0f64.to_bits()]),
    ];
    let point = vec![
        ("epoch".to_string(), num_i(3)),
        ("loss".to_string(), num_f(0.3, "0.3")),
        ("new_col".to_string(), num_i(7)),
    ];
    append_point(&mut epochs, &mut metrics, &point, 2);
    assert_eq!(epochs, vec![2, 3]);
    assert_eq!(metrics[0].1, vec![0.4f64.to_bits(), 0.3f64.to_bits()]);
    assert_eq!(metrics[1].1, vec![10.0f64.to_bits()]);
    assert_eq!(metrics.len(), 2);
    let mut e2 = epochs.clone();
    let mut m2 = metrics.clone();
    append_point(&mut e2, &mut m2, &[("loss".to_string(), num_i(1))], 2);
    assert_eq!(e2, epochs);
    assert_eq!(m2, metrics);
}
