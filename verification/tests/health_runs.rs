use fabric::health::{
    color_for_key, filter_runs, group_key, headline_series_key, is_lm_run, matches_kind,
    matches_search, member_key, pick_sparkline_key, run_is_lm, sparkline_values, tone_label,
    worst_tone, HealthSignal, KindFilter, Tone,
};
use fabric::model::{Headline, RunMetricDef, RunOutput, RunScalars, RunSpecEnvelope};
use fabric::order::{cmp_opt_i64, SortColumn, SortDirection, SortState};
use fabric::panels::{legacy_by_series, legacy_panel_catalog, legacy_panels, metric_panels_for_run, panels_for, synth_panel};
use fabric::series::{nearest_epoch_index, series_from_fields, series_latest, RunSeries, SeriesField, SeriesNumber};
use fabric::sorting::sort_runs;
use std::cmp::Ordering;

#[test]
fn lm_detects_ppl_metric() {
    let run = RunScalars { metric: Some("ppl".into()), ..Default::default() };
    assert!(is_lm_run(&run));
    assert!(run_is_lm(&run));
    let wiki = RunScalars { dataset: Some("lm_wikitext103".into()), ..Default::default() };
    assert!(is_lm_run(&wiki));
    assert!(!is_lm_run(&RunScalars { name: "mnist_recon".into(), ..Default::default() }));
}

fn signal(tone: Tone) -> HealthSignal {
    HealthSignal { id: "x", label: "X", value: String::new(), tone, hint: String::new() }
}

#[test]
fn worst_tone_orders_by_severity() {
    assert_eq!(worst_tone(&[]), Tone::Neutral);
    assert_eq!(worst_tone(&[signal(Tone::Good), signal(Tone::Neutral)]), Tone::Good);
    assert_eq!(worst_tone(&[signal(Tone::Good), signal(Tone::Warn)]), Tone::Warn);
    assert_eq!(worst_tone(&[signal(Tone::Warn), signal(Tone::Bad), signal(Tone::Good)]), Tone::Bad);
    assert_eq!(tone_label(Tone::Bad), "AT RISK");
    assert_eq!(tone_label(Tone::Good), "HEALTHY");
    assert_eq!(tone_label(Tone::Warn), "WATCH");
    assert_eq!(tone_label(Tone::Neutral), "UNKNOWN");
}

fn diff_run() -> RunScalars {
    RunScalars {
        pod: "f:n1".into(),
        name: "r_n1".into(),
        group: "r".into(),
        fleet: "f".into(),
        runspec: Some(RunSpecEnvelope {
            substrate_kind: Some("canvas".into()),
            output: Some(RunOutput {
                headline: Some(Headline { key: "diff".into(), goal: Some("max".into()), label: Some("DIFF PSNR (dB)".into()) }),
                metrics: vec![
                    RunMetricDef { key: "diff".into(), label: Some("DIFF PSNR (dB)".into()), ..Default::default() },
                    RunMetricDef { key: "loss".into(), lower_better: true, ..Default::default() },
                    RunMetricDef { key: "gnorm".into(), ..Default::default() },
                ],
                ..Default::default()
            }),
            ..Default::default()
        }),
        ..Default::default()
    }
}

#[test]
fn panels_include_system_gpu() {
    let ids: Vec<_> = panels_for(&diff_run()).into_iter().map(|p| p.id).collect();
    assert!(ids.contains(&"gpu_util".to_string()));
    assert!(ids.contains(&"gpu_mem".to_string()));
    assert_eq!(ids, vec!["diff", "loss", "gnorm", "gpu_util", "gpu_mem"]);
}

#[test]
fn legacy_lm_includes_gpu_panels() {
    let run = RunScalars { metric: Some("ppl".into()), ..Default::default() };
    let ids: Vec<_> = panels_for(&run).into_iter().map(|p| p.id).collect();
    assert!(ids.contains(&"gpu_util".to_string()));
    assert!(ids.contains(&"gpu_mem".to_string()));
    assert!(ids.iter().any(|id| id == "ppl"));
    assert_eq!(ids, vec!["ppl", "ce", "lm_acc", "gpu_util", "gpu_mem"]);
}

#[test]
fn headline_from_runspec() {
    let run = diff_run();
    assert_eq!(headline_series_key(&run), "diff");
}

#[test]
fn synth_panel_for_novel_key() {
    let run = RunScalars {
        runspec: Some(RunSpecEnvelope {
            output: Some(RunOutput {
                metrics: vec![RunMetricDef { key: "fid".into(), label: Some("FID".into()), lower_better: true, ..Default::default() }],
                ..Default::default()
            }),
            ..Default::default()
        }),
        ..Default::default()
    };
    let p = panels_for(&run).into_iter().find(|p| p.id == "fid").expect("fid");
    assert_eq!(p.series_key, "fid");
    assert_eq!(p.title, "FID");
}

#[test]
fn panel_catalog_and_lookup() {
    assert_eq!(legacy_panel_catalog().len(), 10);
    assert_eq!(legacy_panels().len(), 10);
    let p = legacy_by_series(false, "top1").expect("score");
    assert_eq!(p.id, "score");
    let q = legacy_by_series(true, "top1").expect("lm_acc");
    assert_eq!(q.id, "lm_acc");
    assert!(legacy_by_series(true, "loss").is_none());
    let m = RunMetricDef { key: "k".into(), pct: true, ..Default::default() };
    let s = synth_panel(&m, true);
    assert_eq!((s.id.as_str(), s.title.as_str(), s.lm, s.pct), ("k", "k", true, true));
}

#[test]
fn war_room_panels_need_data() {
    let run = diff_run();
    assert!(metric_panels_for_run(&run, None).is_empty());
    let series = RunSeries {
        pod: "f:n1".into(),
        name: "r_n1".into(),
        epochs: vec![1, 2],
        metrics: vec![
            ("loss".into(), vec![f64::NAN.to_bits(), 0.5f64.to_bits()]),
            ("gnorm".into(), vec![f64::INFINITY.to_bits()]),
        ],
    };
    let ids: Vec<_> = metric_panels_for_run(&run, Some(&series)).into_iter().map(|p| p.id).collect();
    assert_eq!(ids, vec!["loss"]);
}

#[test]
fn group_key_uses_group_when_set() {
    let run = RunScalars {
        fleet: "copytest".into(),
        group: "sweep_a".into(),
        name: "sweep_a_n1".into(),
        ..Default::default()
    };
    assert_eq!(group_key(&run), "copytest\u{0001}sweep_a");
    let ungrouped = RunScalars { fleet: "f".into(), name: "solo".into(), pod: "f:n3".into(), ..Default::default() };
    assert_eq!(group_key(&ungrouped), "f\u{0001}solo");
    assert_eq!(member_key(&ungrouped), "f:n3\u{0001}solo");
}

#[test]
fn kind_filter_lm() {
    let lm = RunScalars { metric: Some("ppl".into()), ..Default::default() };
    let recon = RunScalars::default();
    assert!(matches_kind(&lm, KindFilter::Lm));
    assert!(!matches_kind(&recon, KindFilter::Lm));
    assert!(matches_kind(&recon, KindFilter::Recon));
    assert_eq!(KindFilter::Lm.label(), "LM");
    assert_eq!(KindFilter::default(), KindFilter::All);
}

#[test]
fn search_matches_pod() {
    let run = RunScalars { name: "foo".into(), pod: "f:n7".into(), ..Default::default() };
    assert!(matches_search(&run, "n7"));
    assert!(!matches_search(&run, "n8"));
}

#[test]
fn search_ignores_case_and_blank_query() {
    let run = RunScalars { name: "MixedCase".into(), ..Default::default() };
    assert!(matches_search(&run, "  MIXEDcase "));
    assert!(matches_search(&run, "   "));
    assert!(matches_search(&run, ""));
}

#[test]
fn filter_runs_by_kind_and_search() {
    let runs = vec![
        RunScalars { name: "a".into(), metric: Some("ppl".into()), ..Default::default() },
        RunScalars { name: "b".into(), ..Default::default() },
        RunScalars { name: "ab".into(), ..Default::default() },
    ];
    let all = filter_runs(&runs, KindFilter::All, " ");
    assert_eq!(all.len(), 3);
    let recon_a: Vec<_> = filter_runs(&runs, KindFilter::Recon, "a").into_iter().map(|r| r.name.clone()).collect();
    assert_eq!(recon_a, vec!["ab"]);
}

#[test]
fn pick_sparkline_uses_headline_only() {
    let run = RunScalars {
        runspec: Some(RunSpecEnvelope {
            output: Some(RunOutput {
                headline: Some(Headline { key: "diff".into(), goal: Some("max".into()), label: None }),
                ..Default::default()
            }),
            ..Default::default()
        }),
        ..Default::default()
    };
    assert_eq!(pick_sparkline_key(&run), "diff");
    assert_eq!(pick_sparkline_key(&RunScalars::default()), "top1");
}

#[test]
fn color_for_key_is_palette_entry() {
    // "ab": h = 97 * 31 + 98 = 3105; 3105 % 16 = 1
    assert_eq!(color_for_key("ab"), 0xff7a45);
    assert_eq!(color_for_key(""), 0x4f8cff);
    assert_eq!(color_for_key("copytest\u{1}sweep_a"), color_for_key("copytest\u{1}sweep_a"));
}

#[test]
fn sparkline_takes_last_finite_values() {
    let series = RunSeries {
        metrics: vec![(
            "top1".into(),
            vec![1.0f64.to_bits(), f64::NAN.to_bits(), 2.0f64.to_bits(), 3.0f64.to_bits()],
        )],
        ..Default::default()
    };
    assert_eq!(sparkline_values(&series, "top1", 2), vec![2.0f64.to_bits(), 3.0f64.to_bits()]);
    assert_eq!(sparkline_values(&series, "top1", 10).len(), 3);
    assert!(sparkline_values(&series, "none", 3).is_empty());
}

fn text(v: &str) -> SeriesField {
    SeriesField::Text(v.into())
}

fn ints(values: &[i64]) -> SeriesField {
    SeriesField::Array(values.iter().map(|v| Some(SeriesNumber { epoch: *v, value: (*v as f64).to_bits() })).collect())
}

fn floats(values: &[f64]) -> SeriesField {
    SeriesField::Array(values.iter().map(|v| Some(SeriesNumber { epoch: *v as i64, value: v.to_bits() })).collect())
}

fn series_fixture() -> RunSeries {
    series_from_fields(&[
        ("pod".into(), text("p")),
        ("name".into(), text("r")),
        ("epochs".into(), ints(&[1000, 2000, 3000])),
        ("loss".into(), floats(&[0.5, 0.3, 0.1])),
    ])
    .expect("parse")
}

#[test]
fn deserializes_series_fixture() {
    let s = series_from_fields(&[
        ("pod".into(), text("copytest:n1")),
        ("name".into(), text("membands4_n1")),
        ("epochs".into(), ints(&[1000, 2000])),
        ("loss".into(), floats(&[0.5, 0.3])),
        ("top1".into(), floats(&[20.1, 22.0])),
    ])
    .expect("parse");
    assert_eq!(s.pod, "copytest:n1");
    assert_eq!(s.epochs, vec![1000, 2000]);
    assert_eq!(s.latest("loss"), Some(0.3f64.to_bits()));
}

#[test]
fn series_fields_skip_reserved_and_non_numbers() {
    let s = series_from_fields(&[
        ("epoch".into(), ints(&[7])),
        ("n_series".into(), ints(&[3])),
        ("loss".into(), SeriesField::Array(vec![None, Some(SeriesNumber { epoch: 1, value: 1.5f64.to_bits() })])),
        ("empty".into(), SeriesField::Array(vec![None])),
        ("note".into(), text("x")),
        ("loss".into(), floats(&[2.5])),
        ("epochs".into(), SeriesField::Other),
    ])
    .expect("parse");
    assert_eq!(s.pod, "");
    assert!(s.epochs.is_empty());
    assert_eq!(s.metrics, vec![("loss".to_string(), vec![2.5f64.to_bits()])]);
    assert!(series_from_fields(&[("pod".into(), SeriesField::Other)]).is_none());
    assert!(series_from_fields(&[("name".into(), ints(&[1]))]).is_none());
}

#[test]
fn value_at_epoch_picks_nearest_probe() {
    let s = series_fixture();
    assert_eq!(s.value_at_epoch("loss", 1900), Some(0.3f64.to_bits()));
    assert_eq!(s.value_at_epoch("loss", 3000), Some(0.1f64.to_bits()));
    assert_eq!(s.value_at_epoch("ppl", 1000), None);
}

#[test]
fn latest_and_nearest() {
    let s = series_fixture();
    assert_eq!(s.latest("loss"), Some(0.1f64.to_bits()));
    assert_eq!(series_latest(&[1.0f64.to_bits(), f64::NAN.to_bits()]), Some(1.0f64.to_bits()));
    assert_eq!(nearest_epoch_index(&[], 5), None);
    assert_eq!(nearest_epoch_index(&[10, 20, 30], 15), Some(0));
    assert_eq!(nearest_epoch_index(&[10, 20, 30], 26), Some(2));
}

fn named(name: &str, best: Option<f64>, epoch: Option<i64>) -> RunScalars {
    RunScalars { name: name.into(), best: best.map(f64::to_bits), last_epoch: epoch, ..Default::default() }
}

#[test]
fn sort_runs_by_columns() {
    let mut runs = vec![named("b", Some(2.0), Some(3)), named("a", None, Some(1)), named("c", Some(-1.0), None)];
    sort_runs(&mut runs, SortState { column: SortColumn::Name, direction: SortDirection::Asc });
    let names: Vec<_> = runs.iter().map(|r| r.name.clone()).collect();
    assert_eq!(names, vec!["a", "b", "c"]);
    sort_runs(&mut runs, SortState { column: SortColumn::Best, direction: SortDirection::Desc });
    let names: Vec<_> = runs.iter().map(|r| r.name.clone()).collect();
    assert_eq!(names, vec!["b", "c", "a"]);
    sort_runs(&mut runs, SortState { column: SortColumn::Epoch, direction: SortDirection::Asc });
    let names: Vec<_> = runs.iter().map(|r| r.name.clone()).collect();
    assert_eq!(names, vec!["c", "a", "b"]);
    assert_eq!(SortState::default(), SortState { column: SortColumn::Created, direction: SortDirection::Desc });
}

#[test]
fn sort_runs_is_stable_for_ties() {
    let mut runs = vec![named("x", Some(1.0), None), named("y", Some(1.0), None), named("z", Some(0.0), None)];
    sort_runs(&mut runs, SortState { column: SortColumn::Best, direction: SortDirection::Desc });
    let names: Vec<_> = runs.iter().map(|r| r.name.clone()).collect();
    assert_eq!(names, vec!["x", "y", "z"]);
}

#[test]
fn cmp_opt_i64_orders_missing_first() {
    assert_eq!(cmp_opt_i64(None, None), Ordering::Equal);
    assert_eq!(cmp_opt_i64(None, Some(1)), Ordering::Less);
    assert_eq!(cmp_opt_i64(Some(1), None), Ordering::Greater);
    assert_eq!(cmp_opt_i64(Some(-3), Some(2)), Ordering::Less);
}
