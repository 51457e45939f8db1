//! The network task's decisions: what each command from the views asks of
//! the portal, which view a live event reaches, and which failed answers end
//! the session.
//!
//! Running requests, spawning tasks and posting messages belong to the caller.
use vstd::prelude::*;
use crate::client::{ClientError, STATUS_BAD_REQUEST, STATUS_UNAUTHORIZED};
use crate::desktop::{viz_poll_next, viz_ready, viz_timeout_error, VizPollNext, MAX_VIZ_POLLS};
use crate::live::LiveMessage;
use crate::model::{
    BoxProgressResp, FleetsResp, GpuSearchResp, InstancesResp, JobsResp, JsonValue, RunsSummary,
    SseBoxEvent, SseFleetEvent, SseJobEvent, SseNodeEvent, TreeResp,
};
use crate::series::RunSeries;
use crate::signin::AuthMsg;
use crate::text::owned;
use crate::vizmodel::{
    CheckpointsResp, TopoManifestResp, VizGalleryResp, VizOpenRequest, VizStatusResp, VizStepRequest,
};

verus! {

/// Points fetched for a run's detail charts.
pub const SERIES_MAX_POINTS: u32 = 2000;

/// Points fetched for a table sparkline.
pub const SPARKLINE_MAX_POINTS: u32 = 64;

/// A field of a fleet operation's request object.
#[derive(Debug, Clone, PartialEq, Eq)]
pub enum ActionField {
    Text(String),
    Number(u32),
}

/// Commands from the views to the network task.
#[derive(Debug, Clone, PartialEq)]
pub enum NetworkCommand {
    RefreshSummary,
    FetchSeries { pod: String, name: String },
    FetchSparkline { pod: String, name: String },
    /// Fleets, boxes, jobs and the tree skeleton at once.
    RefreshFleetDeck { fleet: String, branch: u32, probe_tree_after: bool },
    RefreshFleets,
    RefreshInstances,
    FetchTree { fleet: String, branch: u32, probe: bool },
    /// The cached tree, then the live-probed one.
    FetchTreePhased { fleet: String, branch: u32 },
    FetchJobs { fleet: String },
    /// A fleet operation; `payload` holds the fields of the request object.
    FleetAction { action: String, payload: Vec<(String, ActionField)> },
    FetchGpuSearch { num_gpus: u32 },
    PollBoxProgress { contract: String },
    PollInstancesReconcile,
    TopologyRefreshDeck,
    TopologyVizOpen { fleet: String, pod: String, run: String, file: String, force: bool },
    TopologyPollVizReady { ckpt: String },
    TopologyFetchVizState,
    TopologyVizStep { body: VizStepRequest },
    TopologyVizReset,
    TopologyFetchTopoFab { run: String, file: String },
    TopologyFetchGallery { dataset: String, start: u32, count: u32, size: u32 },
    TopologyFetchInputImage { dataset: String, idx: u32, size: u32 },
}

/// One request to the portal, and where its answer goes.
#[derive(Debug, Clone, PartialEq)]
pub enum Request {
    RunsSummary,
    /// A run's series, for the detail charts or (`sparkline`) a table cell.
    RunSeries { pod: String, name: String, max_points: u32, sparkline: bool },
    Fleets,
    Instances,
    Jobs { fleet: String },
    Tree { fleet: String, branch: u32, probe: bool },
    FleetAction { action: String, payload: Vec<(String, ActionField)> },
    GpuSearch { num_gpus: u32 },
    /// Runs summary, checkpoints and topology manifest at once.
    TopologyDeck,
    VizOpen { body: VizOpenRequest },
    VizState,
    /// Reset the visualizer, then step it with `body`.
    VizStep { body: VizStepRequest },
    /// Reset the visualizer; the answer is not reported.
    VizReset,
    /// A topology file (its path from [`crate::client::topo_file_path`]).
    TopoFab { run: String, file: String },
    Gallery { dataset: String, start: u32, count: u32, size: u32 },
    InputImage { dataset: String, idx: u32, size: u32 },
}

/// The work a command starts.
#[derive(Debug, Clone, PartialEq)]
pub enum Work {
    /// One request.
    Fetch(Request),
    /// The fleet deck (announced to the fleet view first); then, when
    /// `probe_after` and a fleet is named, the probed tree on a task of its own.
    FleetDeck { fleet: String, branch: u32, probe_after: bool },
    /// The tree skeleton; then, when a fleet is named, the probed tree.
    TreePhased { fleet: String, branch: u32 },
    /// Poll a box's provisioning progress.
    PollBoxProgress { contract: String },
    /// Poll the box roster until in-flight boxes settle.
    PollInstancesReconcile,
    /// Poll the visualizer until the checkpoint is ready or failed.
    PollVizReady { ckpt: String },
}

/// The view told that a refresh started.
#[derive(Debug, Clone, Copy, PartialEq, Eq, Structural)]
pub enum Announce {
    Dashboard,
    Fleets,
}

/// How the network task carries out one command.
#[derive(Debug, Clone, PartialEq)]
pub struct CommandPlan {
    /// Refresh notice posted before anything else.
    pub announce: Option<Announce>,
    /// The work runs on a task of its own, rather than in the command loop.
    pub spawned: bool,
    /// Such a task first gives up when the network is shutting down.
    pub check_shutdown: bool,
    pub work: Work,
}

/// A plan that runs `work` on its own task after checking for shutdown.
pub open spec fn spawned_fetch(work: Work) -> CommandPlan {
    CommandPlan { announce: None, spawned: true, check_shutdown: true, work }
}

/// What `cmd` asks of the network task.
pub open spec fn plan_of(cmd: NetworkCommand) -> CommandPlan {
    match cmd {
        NetworkCommand::RefreshSummary => CommandPlan {
            announce: Some(Announce::Dashboard),
            spawned: false,
            check_shutdown: false,
            work: Work::Fetch(Request::RunsSummary),
        },
        NetworkCommand::FetchSeries { pod, name } => spawned_fetch(
            Work::Fetch(Request::RunSeries { pod, name, max_points: SERIES_MAX_POINTS, sparkline: false }),
        ),
        NetworkCommand::FetchSparkline { pod, name } => spawned_fetch(
            Work::Fetch(Request::RunSeries { pod, name, max_points: SPARKLINE_MAX_POINTS, sparkline: true }),
        ),
        NetworkCommand::RefreshFleetDeck { fleet, branch, probe_tree_after } => spawned_fetch(
            Work::FleetDeck { fleet, branch, probe_after: probe_tree_after },
        ),
        NetworkCommand::RefreshFleets => CommandPlan {
            announce: Some(Announce::Fleets),
            spawned: true,
            check_shutdown: true,
            work: Work::Fetch(Request::Fleets),
        },
        NetworkCommand::RefreshInstances => spawned_fetch(Work::Fetch(Request::Instances)),
        NetworkCommand::FetchTree { fleet, branch, probe } => spawned_fetch(
            Work::Fetch(Request::Tree { fleet, branch, probe }),
        ),
        NetworkCommand::FetchTreePhased { fleet, branch } => spawned_fetch(Work::TreePhased { fleet, branch }),
        NetworkCommand::FetchJobs { fleet } => spawned_fetch(Work::Fetch(Request::Jobs { fleet })),
        NetworkCommand::FleetAction { action, payload } => spawned_fetch(
            Work::Fetch(Request::FleetAction { action, payload }),
        ),
        NetworkCommand::FetchGpuSearch { num_gpus } => spawned_fetch(Work::Fetch(Request::GpuSearch { num_gpus })),
        NetworkCommand::PollBoxProgress { contract } => CommandPlan {
            announce: None,
            spawned: true,
            check_shutdown: false,
            work: Work::PollBoxProgress { contract },
        },
        NetworkCommand::PollInstancesReconcile => CommandPlan {
            announce: None,
            spawned: true,
            check_shutdown: false,
            work: Work::PollInstancesReconcile,
        },
        NetworkCommand::TopologyRefreshDeck => spawned_fetch(Work::Fetch(Request::TopologyDeck)),
        NetworkCommand::TopologyVizOpen { fleet, pod, run, file, force } => spawned_fetch(
            Work::Fetch(
                Request::VizOpen { body: VizOpenRequest { fleet, pod, run, file, background: true, force } },
            ),
        ),
        NetworkCommand::TopologyPollVizReady { ckpt } => CommandPlan {
            announce: None,
            spawned: true,
            check_shutdown: false,
            work: Work::PollVizReady { ckpt },
        },
        NetworkCommand::TopologyFetchVizState => spawned_fetch(Work::Fetch(Request::VizState)),
        NetworkCommand::TopologyVizStep { body } => spawned_fetch(Work::Fetch(Request::VizStep { body })),
        NetworkCommand::TopologyVizReset => spawned_fetch(Work::Fetch(Request::VizReset)),
        NetworkCommand::TopologyFetchTopoFab { run, file } => spawned_fetch(
            Work::Fetch(Request::TopoFab { run, file }),
        ),
        NetworkCommand::TopologyFetchGallery { dataset, start, count, size } => spawned_fetch(
            Work::Fetch(Request::Gallery { dataset, start, count, size }),
        ),
        NetworkCommand::TopologyFetchInputImage { dataset, idx, size } => spawned_fetch(
            Work::Fetch(Request::InputImage { dataset, idx, size }),
        ),
    }
}

/// How the network task carries out `cmd` (see [`plan_of`]).
pub fn command_plan(cmd: NetworkCommand) -> (r: CommandPlan)
    ensures
        r == plan_of(cmd),
{
    match cmd {
        NetworkCommand::RefreshSummary => CommandPlan {
            announce: Some(Announce::Dashboard),
            spawned: false,
            check_shutdown: false,
            work: Work::Fetch(Request::RunsSummary),
        },
        NetworkCommand::FetchSeries { pod, name } => spawned(
            Work::Fetch(Request::RunSeries { pod, name, max_points: SERIES_MAX_POINTS, sparkline: false }),
        ),
        NetworkCommand::FetchSparkline { pod, name } => spawned(
            Work::Fetch(Request::RunSeries { pod, name, max_points: SPARKLINE_MAX_POINTS, sparkline: true }),
        ),
        NetworkCommand::RefreshFleetDeck { fleet, branch, probe_tree_after } => spawned(
            Work::FleetDeck { fleet, branch, probe_after: probe_tree_after },
        ),
        NetworkCommand::RefreshFleets => CommandPlan {
            announce: Some(Announce::Fleets),
            spawned: true,
            check_shutdown: true,
            work: Work::Fetch(Request::Fleets),
        },
        NetworkCommand::RefreshInstances => spawned(Work::Fetch(Request::Instances)),
        NetworkCommand::FetchTree { fleet, branch, probe } => spawned(
            Work::Fetch(Request::Tree { fleet, branch, probe }),
        ),
        NetworkCommand::FetchTreePhased { fleet, branch } => spawned(Work::TreePhased { fleet, branch }),
        NetworkCommand::FetchJobs { fleet } => spawned(Work::Fetch(Request::Jobs { fleet })),
        NetworkCommand::FleetAction { action, payload } => spawned(
            Work::Fetch(Request::FleetAction { action, payload }),
        ),
        NetworkCommand::FetchGpuSearch { num_gpus } => spawned(Work::Fetch(Request::GpuSearch { num_gpus })),
        NetworkCommand::PollBoxProgress { contract } => CommandPlan {
            announce: None,
            spawned: true,
            check_shutdown: false,
            work: Work::PollBoxProgress { contract },
        },
        NetworkCommand::PollInstancesReconcile => CommandPlan {
            announce: None,
            spawned: true,
            check_shutdown: false,
            work: Work::PollInstancesReconcile,
        },
        NetworkCommand::TopologyRefreshDeck => spawned(Work::Fetch(Request::TopologyDeck)),
        NetworkCommand::TopologyVizOpen { fleet, pod, run, file, force } => spawned(
            Work::Fetch(
                Request::VizOpen { body: VizOpenRequest { fleet, pod, run, file, background: true, force } },
            ),
        ),
        NetworkCommand::TopologyPollVizReady { ckpt } => CommandPlan {
            announce: None,
            spawned: true,
            check_shutdown: false,
            work: Work::PollVizReady { ckpt },
        },
        NetworkCommand::TopologyFetchVizState => spawned(Work::Fetch(Request::VizState)),
        NetworkCommand::TopologyVizStep { body } => spawned(Work::Fetch(Request::VizStep { body })),
        NetworkCommand::TopologyVizReset => spawned(Work::Fetch(Request::VizReset)),
        NetworkCommand::TopologyFetchTopoFab { run, file } => spawned(
            Work::Fetch(Request::TopoFab { run, file }),
        ),
        NetworkCommand::TopologyFetchGallery { dataset, start, count, size } => spawned(
            Work::Fetch(Request::Gallery { dataset, start, count, size }),
        ),
        NetworkCommand::TopologyFetchInputImage { dataset, idx, size } => spawned(
            Work::Fetch(Request::InputImage { dataset, idx, size }),
        ),
    }
}

/// A plan that runs `work` on its own task after checking for shutdown.
fn spawned(work: Work) -> (r: CommandPlan)
    ensures
        r == spawned_fetch(work),
{
    CommandPlan { announce: None, spawned: true, check_shutdown: true, work }
}

/// Whether the probed tree follows a deck refresh or a phased fetch: only for
/// a named fleet (and, after a deck, only when asked).
pub fn probe_follows(fleet: &str, asked: bool) -> (r: bool)
    ensures
        r == (asked && fleet@.len() > 0),
{
    asked && !fleet.is_empty()
}

/// A fleet operation's answer: the fields of the answer object (none when it
/// is not an object), and its `pending` array when it has one.
#[derive(Debug, Clone, PartialEq)]
pub struct ActionReply {
    pub fields: Vec<(String, JsonValue)>,
    pub pending: Option<Vec<PendingEntry>>,
}

/// One element of a rent answer's `pending` array.
#[derive(Debug, Clone, PartialEq)]
pub enum PendingEntry {
    /// A box id.
    Id(String),
    /// A box described by the fields of an object.
    Object(Vec<(String, JsonValue)>),
    /// Anything else.
    Other,
}

/// Results for the runs dashboard.
#[derive(Debug)]
pub enum DashboardMsg {
    Summary(Result<RunsSummary, ClientError>),
    Live(LiveMessage),
    RefreshStarted,
    Series { pod: String, name: String, result: Result<RunSeries, ClientError> },
    Sparkline { pod: String, name: String, result: Result<RunSeries, ClientError> },
}

/// Results and live deltas for the fleet deck.
#[derive(Debug)]
pub enum FleetsMsg {
    Fleets(Result<FleetsResp, ClientError>),
    /// The box roster; `reconcile` keeps in-flight rows the portal has not
    /// returned yet.
    Instances { result: Result<InstancesResp, ClientError>, reconcile: bool },
    Tree { result: Result<TreeResp, ClientError> },
    Jobs { result: Result<JobsResp, ClientError> },
    Action { action: String, result: Result<ActionReply, ClientError> },
    BoxProgress { contract: String, result: Result<BoxProgressResp, ClientError> },
    RefreshStarted,
    JobDelta(SseJobEvent),
    LiveConnected(bool),
    GpuSearch { result: Result<GpuSearchResp, ClientError> },
    BoxDelta(SseBoxEvent),
    FleetDelta(SseFleetEvent),
    NodeDelta(SseNodeEvent),
}

/// Results for the topology explorer.
#[derive(Debug)]
pub enum TopologyMsg {
    Deck {
        summary: Result<RunsSummary, ClientError>,
        checkpoints: Result<CheckpointsResp, ClientError>,
        manifest: Result<TopoManifestResp, ClientError>,
    },
    VizOpen(Result<JsonValue, ClientError>),
    VizReady(Result<VizStatusResp, ClientError>),
    VizState(Result<JsonValue, ClientError>),
    VizStep(Result<JsonValue, ClientError>),
    TopoFab { run: String, file: String, result: Result<Vec<u8>, ClientError> },
    Gallery(Result<VizGalleryResp, ClientError>),
    InputImage { idx: u32, result: Result<Vec<u8>, ClientError> },
    RefreshStarted,
}

/// A message to the views.
#[derive(Debug)]
pub enum AppUiMsg {
    Dashboard(DashboardMsg),
    Fleets(FleetsMsg),
    Topology(TopologyMsg),
    Auth(AuthMsg),
    /// The credential was rejected: back to sign-in, with this text.
    Unauthorized(String),
}

/// Whether `e` means the credential was rejected.
pub open spec fn rejected(e: ClientError) -> bool {
    e is Unauthorized || (e matches ClientError::Api { status, .. } && status == STATUS_UNAUTHORIZED)
}

/// Whether a failed answer is `Err(e)` with a rejected credential.
pub open spec fn rejected_result<T>(r: Result<T, ClientError>) -> bool {
    r matches Err(e) && rejected(e)
}

/// The notice sent when the credential was rejected.
pub open spec fn expired_notice(m: AppUiMsg) -> bool {
    m matches AppUiMsg::Unauthorized(t) && t@ == "Session expired \u{2014} sign in again"@
}

/// The notice sent when the credential was rejected.
pub fn unauthorized_notice() -> (r: AppUiMsg)
    ensures
        expired_notice(r),
{
    AppUiMsg::Unauthorized(owned("Session expired \u{2014} sign in again"))
}

fn result_rejected<T>(r: &Result<T, ClientError>) -> (b: bool)
    ensures
        b == rejected_result(*r),
{
    match r {
        Ok(_) => false,
        Err(e) => e.is_unauthorized(),
    }
}


/// What the readiness poll does after one answer.
#[derive(Debug)]
pub enum VizPollStep {
    /// Send this message and stop polling.
    Send(AppUiMsg),
    /// Wait the poll interval, then ask again.
    Wait,
}

/// Whether a readiness answer ends the poll with a delivery: a status that
/// is ready or reports a failure.
pub open spec fn viz_answer_done(r: Result<VizStatusResp, ClientError>) -> bool {
    r matches Ok(s) && (viz_ready(s) || s.error is Some)
}

/// After readiness answer `result` to attempt `attempt` (from 0): a rejected
/// credential signs out and stops; a ready or failed status goes to the
/// explorer and stops; any other answer (another failure among them) waits
/// before the last attempt, and after it the time-out goes to the explorer.
pub fn viz_poll_step(attempt: u32, result: Result<VizStatusResp, ClientError>) -> (r: VizPollStep)
    ensures
        rejected_result(result) ==> (r matches VizPollStep::Send(m) && expired_notice(m)),
        !rejected_result(result) && viz_answer_done(result) ==> r == VizPollStep::Send(
            AppUiMsg::Topology(TopologyMsg::VizReady(result)),
        ),
        !rejected_result(result) && !viz_answer_done(result) && attempt + 1 < MAX_VIZ_POLLS ==> r is Wait,
        !rejected_result(result) && !viz_answer_done(result) && attempt + 1 >= MAX_VIZ_POLLS ==> (r matches
            VizPollStep::Send(AppUiMsg::Topology(TopologyMsg::VizReady(Err(ClientError::Api { status, message }))))
            && status == STATUS_BAD_REQUEST && message@ == "viz load timed out after ~6 minutes"@),
{
    if result_rejected(&result) {
        return VizPollStep::Send(unauthorized_notice());
    }
    match viz_poll_next(attempt, result.as_ref().ok()) {
        VizPollNext::Deliver => VizPollStep::Send(AppUiMsg::Topology(TopologyMsg::VizReady(result))),
        VizPollNext::Wait => VizPollStep::Wait,
        VizPollNext::TimedOut => VizPollStep::Send(AppUiMsg::Topology(TopologyMsg::VizReady(Err(viz_timeout_error())))),
    }
}

/// Whether a dashboard result ends the session: a failed summary or series
/// whose credential was rejected.
pub open spec fn dashboard_ends_session(msg: DashboardMsg) -> bool {
    match msg {
        DashboardMsg::Summary(r) => rejected_result(r),
        DashboardMsg::Series { result, .. } => rejected_result(result),
        _ => false,
    }
}

/// Whether a fleet-deck result ends the session: any failed fetch, action or
/// progress poll whose credential was rejected (GPU search failures do not).
pub open spec fn fleets_ends_session(msg: FleetsMsg) -> bool {
    match msg {
        FleetsMsg::Fleets(r) => rejected_result(r),
        FleetsMsg::Instances { result, .. } => rejected_result(result),
        FleetsMsg::Tree { result } => rejected_result(result),
        FleetsMsg::Jobs { result } => rejected_result(result),
        FleetsMsg::Action { result, .. } => rejected_result(result),
        FleetsMsg::BoxProgress { result, .. } => rejected_result(result),
        _ => false,
    }
}

/// Whether a topology result ends the session: a rejected credential on the
/// deck's summary or on any visualizer, file or gallery request.
pub open spec fn topology_ends_session(msg: TopologyMsg) -> bool {
    match msg {
        TopologyMsg::Deck { summary, .. } => rejected_result(summary),
        TopologyMsg::VizOpen(r) => rejected_result(r),
        TopologyMsg::VizReady(r) => rejected_result(r),
        TopologyMsg::VizState(r) => rejected_result(r),
        TopologyMsg::VizStep(r) => rejected_result(r),
        TopologyMsg::TopoFab { result, .. } => rejected_result(result),
        TopologyMsg::Gallery(r) => rejected_result(r),
        TopologyMsg::InputImage { result, .. } => rejected_result(result),
        _ => false,
    }
}

/// What the dashboard result becomes: the session-expired notice when it
/// ends the session, else the result itself.
pub fn route_dashboard(msg: DashboardMsg) -> (r: AppUiMsg)
    ensures
        dashboard_ends_session(msg) ==> expired_notice(r),
        !dashboard_ends_session(msg) ==> r == AppUiMsg::Dashboard(msg),
{
    let ends = match &msg {
        DashboardMsg::Summary(res) => result_rejected(res),
        DashboardMsg::Series { result, .. } => result_rejected(result),
        _ => false,
    };
    if ends {
        unauthorized_notice()
    } else {
        AppUiMsg::Dashboard(msg)
    }
}

/// What the fleet-deck result becomes (see [`fleets_ends_session`]).
pub fn route_fleets(msg: FleetsMsg) -> (r: AppUiMsg)
    ensures
        fleets_ends_session(msg) ==> expired_notice(r),
        !fleets_ends_session(msg) ==> r == AppUiMsg::Fleets(msg),
{
    let ends = match &msg {
        FleetsMsg::Fleets(res) => result_rejected(res),
        FleetsMsg::Instances { result, .. } => result_rejected(result),
        FleetsMsg::Tree { result } => result_rejected(result),
        FleetsMsg::Jobs { result } => result_rejected(result),
        FleetsMsg::Action { result, .. } => result_rejected(result),
        FleetsMsg::BoxProgress { result, .. } => result_rejected(result),
        _ => false,
    };
    if ends {
        unauthorized_notice()
    } else {
        AppUiMsg::Fleets(msg)
    }
}

/// What the topology result becomes (see [`topology_ends_session`]).
pub fn route_topology(msg: TopologyMsg) -> (r: AppUiMsg)
    ensures
        topology_ends_session(msg) ==> expired_notice(r),
        !topology_ends_session(msg) ==> r == AppUiMsg::Topology(msg),
{
    let ends = match &msg {
        TopologyMsg::Deck { summary, .. } => result_rejected(summary),
        TopologyMsg::VizOpen(res) => result_rejected(res),
        TopologyMsg::VizReady(res) => result_rejected(res),
        TopologyMsg::VizState(res) => result_rejected(res),
        TopologyMsg::VizStep(res) => result_rejected(res),
        TopologyMsg::TopoFab { result, .. } => result_rejected(result),
        TopologyMsg::Gallery(res) => result_rejected(res),
        TopologyMsg::InputImage { result, .. } => result_rejected(result),
        _ => false,
    };
    if ends {
        unauthorized_notice()
    } else {
        AppUiMsg::Topology(msg)
    }
}

/// Where a live message goes besides the dashboard (which sees every one).
#[derive(Debug, Clone, Copy, PartialEq, Eq, Structural)]
pub enum LiveRoute {
    /// The fleet deck's live indicator, connected or not.
    Connection(bool),
    /// The fleet deck, as a delta of the same event.
    FleetsDelta,
    /// Nowhere else.
    DashboardOnly,
}

/// Where a live message goes besides the dashboard: connection changes and
/// job, box, fleet and node events also reach the fleet deck; run events do not.
pub fn live_route(msg: &LiveMessage) -> (r: LiveRoute)
    ensures
        r == match *msg {
            LiveMessage::Connected => LiveRoute::Connection(true),
            LiveMessage::Disconnected => LiveRoute::Connection(false),
            LiveMessage::RunEvent(_) => LiveRoute::DashboardOnly,
            _ => LiveRoute::FleetsDelta,
        },
{
    match msg {
        LiveMessage::Connected => LiveRoute::Connection(true),
        LiveMessage::Disconnected => LiveRoute::Connection(false),
        LiveMessage::RunEvent(_) => LiveRoute::DashboardOnly,
        _ => LiveRoute::FleetsDelta,
    }
}

} // verus!
