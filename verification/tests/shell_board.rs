use fabric::board::{
    footer, metric_wall_view, row_tone, wall_empty_text, wall_loading_text, Dashboard, DashboardEvent, DotTone,
    LoginView, WallView,
};
use fabric::series::RunSeries;
use fabric::client::ClientError;
use fabric::desktop::{edge_live, group_display, header_label, quoted_value, saved_value};
use fabric::live::LiveMessage;
use fabric::model::{GpuSummary, RunScalars, RunsSummary, SseRunEvent, TreeNode};
use fabric::network::{AppUiMsg, DashboardMsg};
use fabric::session::SessionBundle;
use fabric::shell::{
    mode_file_text, mode_from_saved, session_check_outcome, AppMode, Credential, ShellEffect, FabricApp,
};
use fabric::signin::AuthMsg;

fn session(expires_at: Option<i64>) -> SessionBundle {
    SessionBundle {
        access_token: "tok".into(),
        portal_url: "https://p".into(),
        email: Some("op@x".into()),
        expires_at,
    }
}

#[test]
fn saved_mode_round_trips() {
    for mode in [AppMode::Runs, AppMode::Fleets, AppMode::Topology] {
        assert_eq!(mode_from_saved(&mode_file_text(mode)), mode);
    }
    assert_eq!(mode_file_text(AppMode::Topology), "\"topology\"");
    assert_eq!(mode_from_saved("  \"fleets\"\n"), AppMode::Fleets);
    assert_eq!(mode_from_saved("garbage"), AppMode::Runs);
}

#[test]
fn start_prefers_a_live_session_then_a_token() {
    let mut shell = FabricApp::new(AppMode::Runs);
    let mut out = Vec::new();
    shell.start(Some(session(Some(200))), Some("t".into()), 100, &mut out);
    assert!(matches!(out.as_slice(), [ShellEffect::PreflightSession(_)]));
    out.clear();
    shell.start(Some(session(Some(50))), Some("t".into()), 100, &mut out);
    assert!(matches!(out.as_slice(), [ShellEffect::ClearSession, ShellEffect::PreflightToken(t)] if t == "t"));
    out.clear();
    shell.start(None, None, 100, &mut out);
    assert!(out.is_empty());
    assert!(!shell.authenticated);
}

#[test]
fn a_session_message_saves_and_connects() {
    let mut shell = FabricApp::new(AppMode::Fleets);
    let mut out = Vec::new();
    shell.handle_ui_msg(AppUiMsg::Auth(AuthMsg::Session(session(None))), 100, &mut out);
    assert!(shell.authenticated);
    assert_eq!(out.len(), 5);
    assert!(matches!(&out[0], ShellEffect::SaveSession(s) if s.access_token == "tok"));
    assert!(matches!(&out[1], ShellEffect::AttachNetwork(Credential::Session(_))));
    assert!(matches!(&out[2], ShellEffect::SetOperatorEmail(Some(e)) if e == "op@x"));
    assert!(matches!(out[3], ShellEffect::ResetLogin));
    assert!(matches!(out[4], ShellEffect::ShowFleets));
}

#[test]
fn an_expired_session_signs_out() {
    let mut shell = FabricApp::new(AppMode::Runs);
    shell.authenticated = true;
    let mut out = Vec::new();
    shell.connect_session(session(Some(10)), 100, &mut out);
    assert!(!shell.authenticated);
    assert!(matches!(
        out.as_slice(),
        [ShellEffect::ClearSession, ShellEffect::Disconnect, ShellEffect::LoginFailed(m)]
            if m == "Session expired \u{2014} sign in again"
    ));
}

#[test]
fn unauthorized_and_failed_return_to_login() {
    let mut shell = FabricApp::new(AppMode::Runs);
    shell.authenticated = true;
    let mut out = Vec::new();
    shell.handle_ui_msg(AppUiMsg::Unauthorized("expired".into()), 0, &mut out);
    assert!(!shell.authenticated);
    assert_eq!(out.len(), 3);
    out.clear();
    shell.handle_ui_msg(AppUiMsg::Auth(AuthMsg::Failed("nope".into())), 0, &mut out);
    assert!(matches!(out.as_slice(), [ShellEffect::LoginFailed(m)] if m == "nope"));
    out.clear();
    shell.handle_ui_msg(AppUiMsg::Dashboard(DashboardMsg::RefreshStarted), 0, &mut out);
    assert!(matches!(out.as_slice(), [ShellEffect::ToDashboard(DashboardMsg::RefreshStarted)]));
}

#[test]
fn switching_views_saves_and_shows() {
    let mut shell = FabricApp::new(AppMode::Runs);
    let mut out = Vec::new();
    shell.set_mode(AppMode::Runs, &mut out);
    assert!(out.is_empty());
    shell.open_topology_for_run("f".into(), "p".into(), "n".into(), &mut out);
    assert_eq!(shell.mode, AppMode::Topology);
    assert_eq!(out.len(), 3);
    assert!(matches!(&out[0], ShellEffect::SelectInTopology { name, .. } if name == "n"));
    assert!(matches!(out[1], ShellEffect::SaveMode(AppMode::Topology)));
    assert!(matches!(out[2], ShellEffect::ShowTopology));
    out.clear();
    shell.refresh(&mut out);
    assert!(out.is_empty());
    shell.authenticated = true;
    shell.refresh(&mut out);
    assert!(matches!(out.as_slice(), [ShellEffect::Refresh(AppMode::Topology)]));
}

#[test]
fn session_checks_forget_a_rejected_session() {
    let (msg, clear) = session_check_outcome(session(None), Ok(()));
    assert!(matches!(msg, AuthMsg::Session(_)) && !clear);
    let (msg, clear) = session_check_outcome(session(None), Err(ClientError::Unauthorized));
    assert!(matches!(msg, AuthMsg::Failed(ref m) if m == "Session expired \u{2014} sign in again") && clear);
    let (msg, clear) = session_check_outcome(session(None), Err(ClientError::Http("down".into())));
    assert!(matches!(msg, AuthMsg::Failed(ref m) if m == "http error: down") && !clear);
}

#[test]
fn dashboard_takes_summaries_errors_and_live_events() {
    let mut d = Dashboard::new();
    assert_eq!(d.status_text(), "Polling");
    assert_eq!(d.start(None), None);
    assert_eq!(
        d.error.as_deref(),
        Some("No service token \u{2014} run `fabric auth <token>` or set FABRIC_SERVICE_TOKEN")
    );
    let run = RunScalars { pod: "p".into(), name: "r".into(), ..Default::default() };
    d.handle_msg(DashboardEvent::Summary(Ok(RunsSummary { runs: vec![run], ..Default::default() })));
    assert_eq!(d.error, None);
    d.handle_msg(DashboardEvent::Live(LiveMessage::Connected));
    assert!(d.live);
    assert_eq!(d.status_text(), "Live");
    let ev = SseRunEvent { kind: "run".into(), pod: "p".into(), run: "r".into(), v: Some(2), ..Default::default() };
    d.handle_live(LiveMessage::RunEvent(ev));
    assert_eq!(d.summary.as_ref().unwrap().runs.len(), 1);
    d.handle_msg(DashboardEvent::Summary(Err(ClientError::Json("eof".into()))));
    assert_eq!(d.error.as_deref(), Some("invalid json: eof"));
    d.handle_live(LiveMessage::Disconnected);
    assert!(!d.live);
}

#[test]
fn footer_and_row_tones() {
    let summary = RunsSummary {
        gpus: GpuSummary { active: Some(3), total: Some(8), ..Default::default() },
        ..Default::default()
    };
    assert_eq!(footer(&summary, 12), "12 runs \u{b7} 3/8 GPUs active");
    assert_eq!(footer(&RunsSummary::default(), 0), "0 runs \u{b7} 0/0 GPUs active");
    let running = RunScalars { status: Some("starting".into()), ..Default::default() };
    assert_eq!(row_tone(&running), DotTone::Active);
    let stopping = RunScalars { status: Some("stopping".into()), ..Default::default() };
    assert_eq!(row_tone(&stopping), DotTone::Stopping);
    assert_eq!(row_tone(&RunScalars::default()), DotTone::Idle);
}

#[test]
fn login_view_runs_one_sign_in_at_a_time() {
    let mut v = LoginView::new();
    assert!(!v.begin_sign_in());
    v.attach_ui();
    assert!(v.begin_sign_in());
    assert!(v.busy);
    assert_eq!(v.button_label(), " SIGNING IN\u{2026} ");
    assert!(!v.begin_sign_in());
    v.on_auth_failed("Invalid service token".into());
    assert!(!v.busy);
    assert_eq!(v.error.as_deref(), Some("Invalid service token"));
    assert_eq!(v.button_label(), " SIGN IN ");
}

#[test]
fn table_texts() {
    let run = RunScalars { name: "count20_gpu0".into(), group: "count20".into(), ..Default::default() };
    assert_eq!(group_display(&run), "count20");
    let same = RunScalars { name: "x".into(), group: "x".into(), ..Default::default() };
    assert_eq!(group_display(&same), "\u{2014}");
    assert_eq!(header_label("", true, true), "");
    assert_eq!(header_label("BEST", false, true), "BEST");
    assert_eq!(header_label("BEST", true, true), "BEST \u{25bc}");
    assert_eq!(header_label("BEST", true, false), "BEST \u{25b2}");
    let relay = TreeNode { relay: true, gnodes: Some(4), ..Default::default() };
    assert!(edge_live(&relay, 4));
    assert!(!edge_live(&relay, 5));
    assert!(!edge_live(&relay, 0));
    let leaf = TreeNode { gnodes: Some(9), ..Default::default() };
    assert!(!edge_live(&leaf, 4));
}

#[test]
fn one_value_preferences_round_trip() {
    assert_eq!(quoted_value("fleet-7"), "\"fleet-7\"");
    assert_eq!(saved_value(&quoted_value("fleet-7")), "fleet-7");
    assert_eq!(saved_value("  \"abc\"\n"), "abc");
    assert_eq!(saved_value(""), "");
}

fn wall_series(epochs: Vec<i64>) -> RunSeries {
    RunSeries {
        pod: "f:n1".into(),
        name: "r_n1".into(),
        epochs,
        metrics: vec![("loss".into(), vec![0.9f64.to_bits(), 0.5f64.to_bits()])],
    }
}

#[test]
fn metric_wall_shows_error_first() {
    let run = RunScalars::default();
    let s = wall_series(vec![1, 2]);
    match metric_wall_view(&run, Some(&s), false, Some("boom")) {
        WallView::Error(t) => assert_eq!(t, "\u{25a0} SERIES ERR \u{2014} boom"),
        other => panic!("unexpected {:?}", other),
    }
    match metric_wall_view(&run, None, true, Some("x")) {
        WallView::Error(t) => assert_eq!(t, "\u{25a0} SERIES ERR \u{2014} x"),
        other => panic!("unexpected {:?}", other),
    }
}

#[test]
fn metric_wall_loading_and_empty() {
    let run = RunScalars::default();
    assert!(matches!(metric_wall_view(&run, None, false, None), WallView::Loading));
    let s = wall_series(vec![1, 2]);
    assert!(matches!(metric_wall_view(&run, Some(&s), true, None), WallView::Loading));
    let no_epochs = wall_series(vec![]);
    assert!(matches!(metric_wall_view(&run, Some(&no_epochs), false, None), WallView::NoSeries));
    let no_data = RunSeries { pod: "p".into(), name: "n".into(), epochs: vec![1], metrics: vec![] };
    assert!(matches!(metric_wall_view(&run, Some(&no_data), false, None), WallView::NoSeries));
    assert_eq!(wall_loading_text(), "\u{25b8} LOADING SERIES\u{2026}");
    assert_eq!(wall_empty_text(), "NO METRIC SERIES YET");
}

#[test]
fn metric_wall_lists_panels_with_data() {
    let run = RunScalars::default();
    let s = wall_series(vec![1, 2]);
    match metric_wall_view(&run, Some(&s), false, None) {
        WallView::Panels(v) => {
            let ids: Vec<_> = v.into_iter().map(|p| p.id).collect();
            assert_eq!(ids, vec!["loss"]);
        }
        other => panic!("unexpected {:?}", other),
    }
}
