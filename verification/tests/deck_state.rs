use fabric::network::{viz_poll_step, VizPollStep};
use fabric::vizmodel::VizStatusResp;
use fabric::client::ClientError;
use fabric::deck::{DeckEffect, FleetsView, DEFAULT_BRANCH};
use fabric::live::LiveMessage;
use fabric::model::{
    BoxProgressResp, Fleet, FleetsResp, GpuSearchGroup, GpuSearchResp, InstancesResp, Job, JobsResp, JsonValue,
    SseBoxEvent, SseFleetEvent, SseJobEvent, TreeNode, TreeResp,
};
use fabric::network::{
    command_plan, live_route, probe_follows, route_dashboard, route_fleets, route_topology, ActionField,
    ActionReply, Announce, AppUiMsg, CommandPlan, DashboardMsg, FleetsMsg, LiveRoute, NetworkCommand,
    PendingEntry, Request, TopologyMsg, Work, SERIES_MAX_POINTS, SPARKLINE_MAX_POINTS,
};

fn sends(out: &[DeckEffect]) -> Vec<NetworkCommand> {
    out.iter()
        .filter_map(|e| match e {
            DeckEffect::Send(c) => Some(c.clone()),
            _ => None,
        })
        .collect()
}

fn fleet(id: &str, name: &str) -> Fleet {
    Fleet { id: id.into(), name: name.into(), ..Default::default() }
}

#[test]
fn new_deck_defaults() {
    let d = FleetsView::new("f1".into());
    assert_eq!(d.selected_fleet, "f1");
    assert_eq!(d.branch, DEFAULT_BRANCH);
    assert_eq!((d.rent_gpus_per_box, d.rent_count, d.rent_disk_gb), (1, 1, 200));
    assert!(!d.rent_open && !d.live && d.tree_pending.is_empty());
}

#[test]
fn select_fleet_fetches_tree_and_jobs_once() {
    let mut d = FleetsView::new(String::new());
    let mut out = Vec::new();
    d.select_fleet("f2".into(), &mut out);
    assert_eq!(out[0], DeckEffect::SaveSelectedFleet("f2".into()));
    assert_eq!(
        sends(&out),
        vec![
            NetworkCommand::FetchTreePhased { fleet: "f2".into(), branch: DEFAULT_BRANCH },
            NetworkCommand::FetchJobs { fleet: "f2".into() },
        ]
    );
    assert_eq!(d.tree_phased_remaining, 2);
    assert!(d.tree_loading);
    let mut again = Vec::new();
    d.select_fleet("f2".into(), &mut again);
    assert!(again.is_empty());
    d.fetch_tree_phased(&mut again);
    assert!(again.is_empty(), "same phased fetch already in flight");
    d.fetch_tree(true, &mut again);
    assert_eq!(sends(&again), vec![NetworkCommand::FetchTree { fleet: "f2".into(), branch: DEFAULT_BRANCH, probe: true }]);
    assert_eq!(d.tree_phased_remaining, 0);
}

#[test]
fn tree_answers_count_down_phased_fetch() {
    let mut d = FleetsView::new("f1".into());
    let mut out = Vec::new();
    d.refresh_all(&mut out);
    assert!(d.refreshing);
    assert_eq!(d.tree_phased_remaining, 2);
    let tree = TreeResp { nodes: vec![TreeNode { tag: "n1".into(), ..Default::default() }], fleet: 3, ..Default::default() };
    d.selected_node = Some("gone".into());
    d.handle_msg(FleetsMsg::Tree { result: Ok(tree.clone()) }, &mut out);
    assert_eq!(d.tree_phased_remaining, 1);
    assert!(d.tree_loading);
    assert_eq!(d.fleet_size, 3);
    assert_eq!(d.selected_node, None);
    assert_eq!(out.last(), Some(&DeckEffect::Relayout));
    d.handle_msg(FleetsMsg::Tree { result: Ok(tree) }, &mut out);
    assert_eq!(d.tree_phased_remaining, 0);
    assert!(!d.tree_loading);
    d.handle_msg(FleetsMsg::Tree { result: Err(ClientError::Http("down".into())) }, &mut out);
    assert_eq!(d.error.as_deref(), Some("TREE \u{2014} http error: down"));
}

#[test]
fn fleets_answer_selects_active_fleet() {
    let mut d = FleetsView::new(String::new());
    d.refreshing = true;
    let mut out = Vec::new();
    let resp = FleetsResp { fleets: vec![fleet("a", "A"), fleet("b", "B")], active: String::new(), default: "b".into() };
    d.handle_msg(FleetsMsg::Fleets(Ok(resp)), &mut out);
    assert_eq!(d.selected_fleet, "b");
    assert_eq!(out, vec![DeckEffect::SaveSelectedFleet("b".into())]);
    assert!(!d.refreshing);
    d.handle_msg(FleetsMsg::Fleets(Err(ClientError::Api { status: 500, message: "boom".into() })), &mut out);
    assert_eq!(d.error.as_deref(), Some("FLEETS \u{2014} portal returned 500 Internal Server Error: boom"));
}

#[test]
fn assign_box_requires_fleet_and_polls_progress() {
    let mut d = FleetsView::new(String::new());
    let mut out = Vec::new();
    d.assign_box("c1", &mut out);
    assert_eq!(d.action_msg.as_deref(), Some("ASSIGN \u{2014} pick a fleet first"));
    assert!(out.is_empty());
    d.selected_fleet = "f1".into();
    d.selected_box = Some("c1".into());
    d.assign_box("c1", &mut out);
    assert_eq!(d.action_msg.as_deref(), Some("ASSIGN c1 \u{2192} f1\u{2026}"));
    assert_eq!(d.progress_contract.as_deref(), Some("c1"));
    assert_eq!(d.selected_box, None);
    assert_eq!(
        sends(&out),
        vec![
            NetworkCommand::FleetAction {
                action: "assign".into(),
                payload: vec![
                    ("contract".into(), ActionField::Text("c1".into())),
                    ("fleet".into(), ActionField::Text("f1".into())),
                ],
            },
            NetworkCommand::PollBoxProgress { contract: "c1".into() },
        ]
    );
}

#[test]
fn rent_panel_and_submit() {
    let mut d = FleetsView::new("f1".into());
    let mut out = Vec::new();
    d.toggle_rent_panel(&mut out);
    assert!(d.rent_open && d.gpu_search_loading);
    assert_eq!(sends(&out), vec![NetworkCommand::FetchGpuSearch { num_gpus: 1 }]);
    d.bump_rent_gpus_per_box(-5, &mut out);
    assert_eq!(d.rent_gpus_per_box, 1);
    d.bump_rent_disk_gb(-500);
    assert_eq!(d.rent_disk_gb, 20);
    d.bump_rent_count(2);
    assert_eq!(d.rent_count, 3);
    let mut rent = Vec::new();
    d.submit_rent(&mut rent);
    assert_eq!(d.action_msg.as_deref(), Some("RENT \u{2014} pick a GPU platform"));
    d.select_rent_gpu("  H100 ".into());
    d.submit_rent(&mut rent);
    assert_eq!(d.action_msg.as_deref(), Some("RENT H100 \u{00d7}3\u{2026}"));
    assert!(!d.rent_open);
    assert_eq!(
        sends(&rent),
        vec![NetworkCommand::FleetAction {
            action: "rentgpus".into(),
            payload: vec![
                ("gpu_name".into(), ActionField::Text("H100".into())),
                ("count".into(), ActionField::Number(3)),
                ("gpus".into(), ActionField::Number(1)),
                ("disk".into(), ActionField::Number(20)),
            ],
        }]
    );
}

#[test]
fn rent_reply_adds_placeholders_and_polls() {
    let mut d = FleetsView::new("f1".into());
    d.gpu_offers = Some(GpuSearchResp {
        groups: vec![GpuSearchGroup { gpu_filter: "h100".into(), gpu_name: "NVIDIA H100".into(), ..Default::default() }],
        ..Default::default()
    });
    d.rent_gpu_filter = "h100".into();
    let reply = ActionReply {
        fields: vec![("gpus".into(), JsonValue::Num { text: "2".into(), integer: Some(2), bits: 2.0f64.to_bits() })],
        pending: Some(vec![
            PendingEntry::Id("p1".into()),
            PendingEntry::Object(vec![("id".into(), JsonValue::Str("p2".into()))]),
            PendingEntry::Other,
            PendingEntry::Id("p1".into()),
        ]),
    };
    let mut out = Vec::new();
    d.handle_msg(FleetsMsg::Action { action: "rentgpus".into(), result: Ok(reply) }, &mut out);
    assert_eq!(d.action_msg.as_deref(), Some("rentgpus OK"));
    let rows = &d.instances.as_ref().expect("roster").instances;
    assert_eq!(rows.len(), 2);
    assert_eq!(rows[0].gpu_name.as_deref(), Some("NVIDIA H100"));
    assert_eq!(rows[0].num_gpus, Some(2));
    assert_eq!(rows[1].id, JsonValue::Str("p2".into()));
    assert_eq!(sends(&out), vec![NetworkCommand::PollInstancesReconcile]);
}

#[test]
fn action_replies_and_refreshes() {
    let mut d = FleetsView::new("f1".into());
    let mut out = Vec::new();
    let err = ActionReply { fields: vec![("error".into(), JsonValue::Str("nope".into()))], pending: None };
    d.handle_msg(FleetsMsg::Action { action: "assign".into(), result: Ok(err) }, &mut out);
    assert_eq!(d.action_msg.as_deref(), Some("assign \u{2014} nope"));
    assert!(out.is_empty());
    let made = ActionReply { fields: vec![("id".into(), JsonValue::Str("f9".into()))], pending: None };
    d.handle_msg(FleetsMsg::Action { action: "newfleet".into(), result: Ok(made) }, &mut out);
    assert_eq!(d.selected_fleet, "f9");
    assert_eq!(out[0], DeckEffect::SaveSelectedFleet("f9".into()));
    assert_eq!(
        sends(&out),
        vec![NetworkCommand::RefreshFleetDeck { fleet: "f9".into(), branch: DEFAULT_BRANCH, probe_tree_after: true }]
    );
    let mut out2 = Vec::new();
    let ok = ActionReply { fields: vec![], pending: None };
    d.handle_msg(FleetsMsg::Action { action: "unassign".into(), result: Ok(ok) }, &mut out2);
    assert_eq!(
        sends(&out2),
        vec![NetworkCommand::RefreshInstances, NetworkCommand::FetchTreePhased { fleet: "f9".into(), branch: DEFAULT_BRANCH }]
    );
}

#[test]
fn progress_for_polled_box_only() {
    let mut d = FleetsView::new("f1".into());
    d.progress_contract = Some("c1".into());
    let mut out = Vec::new();
    let running = BoxProgressResp { state: Some("booting".into()), ..Default::default() };
    d.handle_msg(FleetsMsg::BoxProgress { contract: "c2".into(), result: Ok(running.clone()) }, &mut out);
    assert!(d.progress.is_none());
    d.handle_msg(FleetsMsg::BoxProgress { contract: "c1".into(), result: Ok(running) }, &mut out);
    assert!(d.progress.is_some());
    let done = BoxProgressResp { state: Some("ready".into()), ..Default::default() };
    d.handle_msg(FleetsMsg::BoxProgress { contract: "c1".into(), result: Ok(done) }, &mut out);
    assert!(d.progress.is_none() && d.progress_contract.is_none());
    assert_eq!(
        sends(&out),
        vec![NetworkCommand::RefreshInstances, NetworkCommand::FetchTreePhased { fleet: "f1".into(), branch: DEFAULT_BRANCH }]
    );
}

#[test]
fn live_deltas_patch_or_refetch() {
    let mut d = FleetsView::new("f1".into());
    let mut out = Vec::new();
    d.handle_msg(
        FleetsMsg::JobDelta(SseJobEvent { job_id: "j1".into(), fleet: "other".into(), ..Default::default() }),
        &mut out,
    );
    assert!(out.is_empty());
    d.handle_msg(
        FleetsMsg::JobDelta(SseJobEvent { job_id: "j1".into(), fleet: "f1".into(), state: "done".into(), ..Default::default() }),
        &mut out,
    );
    assert_eq!(sends(&out), vec![NetworkCommand::FetchJobs { fleet: "f1".into() }]);
    d.selected_job = Some("j1".into());
    d.handle_msg(
        FleetsMsg::Jobs { result: Ok(JobsResp { jobs: vec![Job { job_id: "j1".into(), ..Default::default() }], error: None }) },
        &mut out,
    );
    assert_eq!(d.selected_job.as_deref(), Some("j1"));
    let mut patched = Vec::new();
    d.handle_msg(
        FleetsMsg::JobDelta(SseJobEvent { job_id: "j1".into(), fleet: "f1".into(), state: "running".into(), ..Default::default() }),
        &mut patched,
    );
    assert!(patched.is_empty());
    assert_eq!(d.jobs[0].state, "running");

    let mut fx = Vec::new();
    d.handle_msg(FleetsMsg::FleetDelta(SseFleetEvent { id: "f1".into(), ..Default::default() }), &mut fx);
    assert_eq!(sends(&fx), vec![NetworkCommand::RefreshFleets]);

    let mut bx = Vec::new();
    d.progress_contract = Some("b1".into());
    let ev = SseBoxEvent {
        id: JsonValue::Str("b1".into()),
        fleet_id: Some(Some("f1".into())),
        provision_state: Some("assigned".into()),
        ..Default::default()
    };
    d.handle_msg(FleetsMsg::BoxDelta(ev), &mut bx);
    assert_eq!(d.instances.as_ref().map(|r| r.instances.len()), Some(1));
    assert!(d.progress_contract.is_none());
    assert_eq!(sends(&bx), vec![NetworkCommand::FetchTreePhased { fleet: "f1".into(), branch: DEFAULT_BRANCH }]);
}

#[test]
fn gpu_offers_pick_first_platform() {
    let mut d = FleetsView::new("f1".into());
    d.gpu_search_loading = true;
    let mut out = Vec::new();
    let offers = GpuSearchResp {
        groups: vec![GpuSearchGroup { gpu_filter: "a100".into(), ..Default::default() }],
        ..Default::default()
    };
    d.handle_msg(FleetsMsg::GpuSearch { result: Ok(offers) }, &mut out);
    assert_eq!(d.rent_gpu_filter, "a100");
    assert!(!d.gpu_search_loading);
    d.handle_msg(FleetsMsg::GpuSearch { result: Err(ClientError::Json("bad".into())) }, &mut out);
    assert!(d.gpu_offers.is_none());
    assert_eq!(d.action_msg.as_deref(), Some("GPU SEARCH \u{2014} invalid json: bad"));
    d.handle_msg(FleetsMsg::LiveConnected(true), &mut out);
    assert!(d.live);
    d.handle_msg(FleetsMsg::Instances { result: Ok(InstancesResp::default()), reconcile: true }, &mut out);
    assert!(d.instances.is_some());
    assert!(out.is_empty());
}

#[test]
fn command_plans() {
    assert_eq!(
        command_plan(NetworkCommand::RefreshSummary),
        CommandPlan { announce: Some(Announce::Dashboard), spawned: false, check_shutdown: false, work: Work::Fetch(Request::RunsSummary) }
    );
    assert_eq!(
        command_plan(NetworkCommand::FetchSparkline { pod: "p".into(), name: "n".into() }).work,
        Work::Fetch(Request::RunSeries { pod: "p".into(), name: "n".into(), max_points: SPARKLINE_MAX_POINTS, sparkline: true })
    );
    assert_eq!(
        command_plan(NetworkCommand::FetchSeries { pod: "p".into(), name: "n".into() }).work,
        Work::Fetch(Request::RunSeries { pod: "p".into(), name: "n".into(), max_points: SERIES_MAX_POINTS, sparkline: false })
    );
    let fleets = command_plan(NetworkCommand::RefreshFleets);
    assert_eq!(fleets.announce, Some(Announce::Fleets));
    let poll = command_plan(NetworkCommand::PollBoxProgress { contract: "c".into() });
    assert!(poll.spawned && !poll.check_shutdown);
    match command_plan(NetworkCommand::TopologyVizOpen {
        fleet: "f".into(),
        pod: "p".into(),
        run: "r".into(),
        file: "x.pt".into(),
        force: false,
    })
    .work
    {
        Work::Fetch(Request::VizOpen { body }) => assert!(body.background && !body.force),
        other => panic!("unexpected {other:?}"),
    }
    assert!(probe_follows("f", true));
    assert!(!probe_follows("", true));
    assert!(!probe_follows("f", false));
}

#[test]
fn routing_results_and_live_messages() {
    let expired = |m: AppUiMsg| matches!(m, AppUiMsg::Unauthorized(t) if t == "Session expired \u{2014} sign in again");
    assert!(expired(route_fleets(FleetsMsg::Jobs { result: Err(ClientError::Unauthorized) })));
    assert!(matches!(
        route_fleets(FleetsMsg::GpuSearch { result: Err(ClientError::Unauthorized) }),
        AppUiMsg::Fleets(_)
    ));
    assert!(expired(route_dashboard(DashboardMsg::Summary(Err(ClientError::Api { status: 401, message: "x".into() })))));
    assert!(matches!(
        route_dashboard(DashboardMsg::Sparkline { pod: "p".into(), name: "n".into(), result: Err(ClientError::Unauthorized) }),
        AppUiMsg::Dashboard(_)
    ));
    assert!(expired(route_topology(TopologyMsg::Gallery(Err(ClientError::Unauthorized)))));
    assert!(matches!(route_topology(TopologyMsg::RefreshStarted), AppUiMsg::Topology(_)));
    assert_eq!(live_route(&LiveMessage::Connected), LiveRoute::Connection(true));
    assert_eq!(live_route(&LiveMessage::Disconnected), LiveRoute::Connection(false));
    assert_eq!(live_route(&LiveMessage::JobEvent(SseJobEvent::default())), LiveRoute::FleetsDelta);
}

#[test]
fn assign_selected_box_uses_the_selection() {
    let mut d = FleetsView::new("f1".into());
    let mut out = Vec::new();
    d.assign_selected_box(&mut out);
    assert!(out.is_empty());
    assert_eq!(d.action_msg, None);
    d.selected_box = Some("c9".into());
    d.assign_selected_box(&mut out);
    assert_eq!(d.action_msg.as_deref(), Some("ASSIGN c9 \u{2192} f1\u{2026}"));
    assert_eq!(d.selected_box, None);
    assert_eq!(out.len(), 2);
}

#[test]
fn ops_rail_needs_a_fleet() {
    let mut d = FleetsView::new(String::new());
    assert_eq!(d.ops_enabled(), (false, false));
    d.selected_box = Some("c1".into());
    assert_eq!(d.ops_enabled(), (false, false));
    d.selected_fleet = "f".into();
    assert_eq!(d.ops_enabled(), (true, true));
    d.selected_box = None;
    assert_eq!(d.ops_enabled(), (false, true));
}

#[test]
fn viz_poll_stops_on_rejection_delivery_or_time_out() {
    let pending = VizStatusResp { state: Some("loading".into()), ..Default::default() };
    assert!(matches!(viz_poll_step(0, Ok(pending.clone())), VizPollStep::Wait));
    assert!(matches!(viz_poll_step(3, Err(ClientError::Http("flaky".into()))), VizPollStep::Wait));
    assert!(matches!(
        viz_poll_step(3, Err(ClientError::Unauthorized)),
        VizPollStep::Send(AppUiMsg::Unauthorized(ref m)) if m == "Session expired \u{2014} sign in again"
    ));
    assert!(matches!(
        viz_poll_step(7, Err(ClientError::Api { status: 401, message: "no".into() })),
        VizPollStep::Send(AppUiMsg::Unauthorized(_))
    ));
    let ready = VizStatusResp { ready: Some(true), ..Default::default() };
    assert!(matches!(
        viz_poll_step(1, Ok(ready)),
        VizPollStep::Send(AppUiMsg::Topology(TopologyMsg::VizReady(Ok(ref s)))) if s.ready == Some(true)
    ));
    assert!(matches!(
        viz_poll_step(239, Ok(pending)),
        VizPollStep::Send(AppUiMsg::Topology(TopologyMsg::VizReady(Err(ClientError::Api { status: 400, ref message }))))
            if message == "viz load timed out after ~6 minutes"
    ));
    assert!(matches!(
        viz_poll_step(239, Err(ClientError::Http("down".into()))),
        VizPollStep::Send(AppUiMsg::Topology(TopologyMsg::VizReady(Err(ClientError::Api { status: 400, .. }))))
    ));
}
