use fabric::cards::{board_note, free_boxes_note, free_boxes_title, jobs_title, box_chip_texts, command_kpis, config_lines, roster_title, status_dot_tone, node_detail_rows, node_epoch_text, node_gpu_text, node_state_text, node_tone, NodeTone};
use fabric::model::{Instance, JsonValue, RunScalars, TreeNode};
use fabric::series::RunSeries;

fn node() -> TreeNode {
    TreeNode { tag: "n1".into(), up: true, ..Default::default() }
}

#[test]
fn node_card_lines() {
    let mut n = node();
    assert_eq!(node_epoch_text(&n), "epoch \u{2014}");
    assert_eq!(node_gpu_text(&n), "gpu \u{2014}");
    assert_eq!(node_state_text(&n), "up");
    n.epoch = Some(12);
    n.gpus_total = Some(8);
    assert_eq!(node_epoch_text(&n), "epoch 12");
    assert_eq!(node_gpu_text(&n), "gpu \u{d7}8");
    n.gpus_free = Some(3);
    assert_eq!(node_gpu_text(&n), "gpu 3/8");
    n.up = false;
    assert_eq!(node_state_text(&n), "down");
    n.state = Some("running".into());
    assert_eq!(node_state_text(&n), "running");
}

#[test]
fn node_tones_follow_link_then_state() {
    let mut n = node();
    assert_eq!(node_tone(&n), NodeTone::Idle);
    n.state = Some("ready".into());
    assert_eq!(node_tone(&n), NodeTone::Live);
    n.state = Some("starting".into());
    assert_eq!(node_tone(&n), NodeTone::Pending);
    n.state = Some("error".into());
    assert_eq!(node_tone(&n), NodeTone::Error);
    n.up = false;
    n.state = Some("running".into());
    assert_eq!(node_tone(&n), NodeTone::Down);
}

#[test]
fn node_detail_rows_list_known_fields() {
    let n = TreeNode {
        tag: "relay".into(),
        parent: Some("root".into()),
        up: true,
        epoch: Some(4),
        gpus_free: Some(1),
        gpus_total: Some(2),
        host: Some("10.0.0.1".into()),
        ..Default::default()
    };
    let rows = node_detail_rows(&n);
    let flat: Vec<(&str, &str)> = rows.iter().map(|(a, b)| (a.as_str(), b.as_str())).collect();
    assert_eq!(
        flat,
        vec![
            ("tag", "relay"),
            ("parent", "root"),
            ("state", "\u{2014}"),
            ("link", "up"),
            ("epoch", "4"),
            ("gpus", "1 free / 2"),
            ("host", "10.0.0.1"),
        ]
    );
}

#[test]
fn box_chip_texts_fall_back() {
    let b = Instance { id: JsonValue::Str("c-1".into()), ..Default::default() };
    let (label, gpus, provision) = box_chip_texts(&b);
    assert_eq!(label, "c-1");
    assert_eq!(gpus, "GPU \u{d7}0");
    assert_eq!(provision, None);
    let b = Instance {
        id: JsonValue::Str("c-2".into()),
        label: Some("box two".into()),
        gpu_name: Some("H100".into()),
        num_gpus: Some(8),
        status: Some("booting".into()),
        ..Default::default()
    };
    let (label, gpus, provision) = box_chip_texts(&b);
    assert_eq!(label, "box two");
    assert_eq!(gpus, "H100 \u{d7}8");
    assert_eq!(provision.as_deref(), Some("booting"));
    let ready = Instance { provision_state: Some("ready".into()), pod_name: Some("pod".into()), ..b };
    let (label, _, provision) = box_chip_texts(&ready);
    assert_eq!(label, "pod");
    assert_eq!(provision, None);
}

#[test]
fn status_dots_and_roster_title() {
    assert_eq!(status_dot_tone("assigned"), NodeTone::Live);
    assert_eq!(status_dot_tone("provisioning"), NodeTone::Pending);
    assert_eq!(status_dot_tone("error"), NodeTone::Error);
    assert_eq!(status_dot_tone("gone"), NodeTone::Idle);
    assert_eq!(roster_title(3, false), "FLEETS (3)");
    assert_eq!(roster_title(0, true), "FLEETS (0) \u{2026}");
}

#[test]
fn command_bar_readings_prefer_the_series() {
    let run = RunScalars { last_top1: Some(1.5f64.to_bits()), last_lr: Some(0.1f64.to_bits()), ..Default::default() };
    let k = command_kpis(&run, None);
    assert!(!k.lm);
    assert_eq!(k.loss, Some(1.5f64.to_bits()));
    assert_eq!(k.lr, Some(0.1f64.to_bits()));
    assert_eq!(k.gnorm, None);
    let series = RunSeries {
        pod: "p".into(),
        name: "r".into(),
        epochs: vec![0, 1],
        metrics: vec![
            ("loss".into(), vec![0.9f64.to_bits(), 0.7f64.to_bits()]),
            ("gnorm".into(), vec![2.0f64.to_bits(), f64::NAN.to_bits()]),
        ],
    };
    let k = command_kpis(&run, Some(&series));
    assert_eq!(k.loss, Some(0.7f64.to_bits()));
    assert_eq!(k.gnorm, Some(2.0f64.to_bits()));
    assert_eq!(k.util, None);
    assert_eq!(k.lr, Some(0.1f64.to_bits()));
}

#[test]
fn config_lines_dash_missing_values() {
    let run = RunScalars { dataset: Some("mnist".into()), sweep: Some("s1".into()), ..Default::default() };
    let rows = config_lines(&run);
    let flat: Vec<(&str, &str)> = rows.iter().map(|(a, b)| (a.as_str(), b.as_str())).collect();
    assert_eq!(
        flat,
        vec![("DATASET", "mnist"), ("GRID", "\u{2014}"), ("METRIC", "\u{2014}"), ("SWEEP", "s1")]
    );
}

#[test]
fn ops_rail_headers_count() {
    assert_eq!(jobs_title(3), "JOBS (3)");
    assert_eq!(jobs_title(0), "JOBS (0)");
    assert_eq!(free_boxes_title(0), "UNASSIGNED GPU (0)");
    assert_eq!(free_boxes_title(12), "UNASSIGNED GPU (12)");
    assert_eq!(free_boxes_note(0), Some("no free boxes"));
    assert_eq!(free_boxes_note(2), None);
}

#[test]
fn empty_board_notes() {
    assert_eq!(board_note(0, true), Some("PROBING RELAY TREE \u{2026}"));
    assert_eq!(board_note(0, false), Some("NO RELAY TREE \u{2014} drag a GPU box here to seed this fleet"));
    assert_eq!(board_note(2, true), None);
    assert_eq!(board_note(2, false), None);
}
