//! The runs board: the run summary kept up to date from the live stream, and
//! the texts its header, rows and footer show; and the sign-in view's state.
use vstd::prelude::*;
use crate::client::{error_text, ClientError};
use crate::desktop::{status_label, status_text};
use crate::live::LiveMessage;
use crate::model::{RunScalars, RunsSummary, SseRunEvent};
use crate::panels::{metric_panels_for_run, panels_spec, with_data, MetricPanel};
use crate::series::RunSeries;
use crate::order::{SortColumn, SortDirection, SortState};
use crate::patch::{patch_summary, run_key_matches, run_patched};
use crate::seqs::first_match;
use crate::text::{decimal, i64_text, int_text, owned, push_str, str_eq, u64_text};

verus! {

/// A result or live message for the runs board.
#[derive(Debug)]
pub enum DashboardEvent {
    /// The run summary, or why it could not be fetched.
    Summary(Result<RunsSummary, ClientError>),
    /// A message of the live stream.
    Live(LiveMessage),
}

/// What the runs board holds.
#[derive(Debug)]
pub struct Dashboard {
    pub summary: Option<RunsSummary>,
    pub error: Option<String>,
    /// Whether the live stream is connected.
    pub live: bool,
    pub sort: SortState,
}

/// How a row's status dot is coloured.
#[derive(Debug, Clone, Copy, PartialEq, Eq, Structural)]
pub enum DotTone {
    /// Running or starting.
    Active,
    /// Stopping.
    Stopping,
    /// Anything else.
    Idle,
}

/// The text shown without a service token.
pub open spec fn no_token_text() -> Seq<char> {
    "No service token \u{2014} run `fabric auth <token>` or set FABRIC_SERVICE_TOKEN"@
}

/// `n` is `o` after the live message `msg`: the stream's state follows its
/// connection; a run event of the current schema patches the summary (see
/// [`patch_summary`]); other messages change nothing.
pub open spec fn live_applied(o: Dashboard, n: Dashboard, msg: LiveMessage) -> bool {
    match msg {
        LiveMessage::Connected => n == Dashboard { live: true, ..o },
        LiveMessage::Disconnected => n == Dashboard { live: false, ..o },
        LiveMessage::RunEvent(ev) => match o.summary {
            Some(s) => if ev.kind@ == "run"@ && ev.v == Some(2i64) {
                n == Dashboard { summary: n.summary, ..o } && (n.summary matches Some(t) && summary_patched(s, t, ev))
            } else {
                n == o
            },
            None => n == o,
        },
        _ => n == o,
    }
}

/// `t` is the summary `s` after the run event `ev` (see [`patch_summary`]).
pub open spec fn summary_patched(s: RunsSummary, t: RunsSummary, ev: SseRunEvent) -> bool {
    &&& t == RunsSummary { runs: t.runs, ..s }
    &&& match first_match(s.runs@, run_key_matches(ev)) {
        Some(i) => {
            &&& t.runs@.len() == s.runs@.len()
            &&& forall|j: int| 0 <= j < s.runs@.len() && j != i ==> t.runs@[j] == s.runs@[j]
            &&& run_patched(s.runs@[i], t.runs@[i], ev)
        },
        None => t.runs@ == s.runs@,
    }
}

/// The footer text: `n` runs and the active and total GPUs (0 when not given).
pub open spec fn footer_text(summary: RunsSummary, n: nat) -> Seq<char> {
    decimal(n) + " runs \u{b7} "@ + int_text(
        match summary.gpus.active {
            Some(a) => a as int,
            None => 0,
        },
    ) + "/"@ + int_text(
        match summary.gpus.total {
            Some(t) => t as int,
            None => 0,
        },
    ) + " GPUs active"@
}

/// The dot tone of a status label.
pub open spec fn tone_of(label: Seq<char>) -> DotTone {
    if label == "running"@ || label == "starting"@ {
        DotTone::Active
    } else if label == "stopping"@ {
        DotTone::Stopping
    } else {
        DotTone::Idle
    }
}

impl Dashboard {
    /// A board with no summary, no error, not live, newest runs first.
    pub fn new() -> (r: Self)
        ensures
            r.summary is None && r.error is None && !r.live,
            r.sort == (SortState { column: SortColumn::Created, direction: SortDirection::Desc }),
    {
        Dashboard { summary: None, error: None, live: false, sort: SortState::default() }
    }

    /// At start, with the saved service token: `Some` of the token to fetch
    /// and stream with; without one the error says how to add one.
    pub fn start(&mut self, token: Option<String>) -> (r: Option<String>)
        ensures
            token is Some ==> r == token && *final(self) == *old(self),
            token is None ==> r is None && *final(self) == (Dashboard { error: final(self).error, ..*old(self) })
                && (final(self).error matches Some(m) && m@ == no_token_text()),
    {
        match token {
            Some(t) => Some(t),
            None => {
                self.set_error(owned("No service token \u{2014} run `fabric auth <token>` or set FABRIC_SERVICE_TOKEN"));
                None
            },
        }
    }

    /// The summary arrived: kept, and the error cleared.
    pub fn set_summary(&mut self, summary: RunsSummary)
        ensures
            *final(self) == (Dashboard { summary: Some(summary), error: None, ..*old(self) }),
    {
        self.error = None;
        self.summary = Some(summary);
    }

    /// Shows `message` in place of the table.
    pub fn set_error(&mut self, message: String)
        ensures
            *final(self) == (Dashboard { error: Some(message), ..*old(self) }),
    {
        self.error = Some(message);
    }

    /// Takes a live message (see [`live_applied`]).
    pub fn handle_live(&mut self, msg: LiveMessage)
        ensures
            live_applied(*old(self), *final(self), msg),
    {
        match msg {
            LiveMessage::Connected => {
                self.live = true;
            },
            LiveMessage::Disconnected => {
                self.live = false;
            },
            LiveMessage::RunEvent(ev) => {
                match &mut self.summary {
                    Some(summary) => {
                        if ev.is_run_v2() {
                            let _ = patch_summary(summary, &ev);
                        }
                    },
                    None => {},
                }
            },
            _ => {},
        }
    }

    /// Takes a result or live message: the summary kept, a failure shown as
    /// its text, a live message applied.
    pub fn handle_msg(&mut self, msg: DashboardEvent)
        requires
            msg matches DashboardEvent::Summary(Err(ClientError::Api { status, .. })) ==> 100 <= status <= 999,
        ensures
            match msg {
                DashboardEvent::Summary(Ok(s)) => *final(self) == (Dashboard { summary: Some(s), error: None, ..*old(self) }),
                DashboardEvent::Summary(Err(e)) => *final(self) == (Dashboard { error: final(self).error, ..*old(self) })
                    && (final(self).error matches Some(m) && m@ == error_text(e)),
                DashboardEvent::Live(l) => live_applied(*old(self), *final(self), l),
            },
    {
        match msg {
            DashboardEvent::Summary(Ok(summary)) => self.set_summary(summary),
            DashboardEvent::Summary(Err(e)) => self.set_error(e.message()),
            DashboardEvent::Live(live) => self.handle_live(live),
        }
    }

    /// The header's stream state: `Live`, else `Polling`.
    pub fn status_text(&self) -> (r: &'static str)
        ensures
            r@ == (if self.live { "Live"@ } else { "Polling"@ }),
    {
        if self.live {
            "Live"
        } else {
            "Polling"
        }
    }
}

/// The footer text for `n` shown runs (see [`footer_text`]).
pub fn footer(summary: &RunsSummary, n: usize) -> (r: String)
    ensures
        r@ == footer_text(*summary, n as nat),
{
    let active: i64 = match summary.gpus.active {
        Some(a) => a,
        None => 0,
    };
    let total: i64 = match summary.gpus.total {
        Some(t) => t,
        None => 0,
    };
    let mut m = u64_text(n as u64);
    push_str(&mut m, " runs \u{b7} ");
    push_str(&mut m, i64_text(active).as_str());
    push_str(&mut m, "/");
    push_str(&mut m, i64_text(total).as_str());
    push_str(&mut m, " GPUs active");
    m
}

/// The status dot of a row (see [`tone_of`] and [`status_text`]).
pub fn row_tone(run: &RunScalars) -> (r: DotTone)
    ensures
        r == tone_of(
            status_text(
                match run.status {
                    Some(s) => Some(s@),
                    None => None,
                },
            ),
        ),
{
    let label = match &run.status {
        Some(s) => status_label(Some(s.as_str())),
        None => status_label(None),
    };
    if str_eq(label, "running") || str_eq(label, "starting") {
        DotTone::Active
    } else if str_eq(label, "stopping") {
        DotTone::Stopping
    } else {
        DotTone::Idle
    }
}


/// What a run's metric wall shows.
#[derive(Debug)]
pub enum WallView {
    /// The series could not be fetched: this text.
    Error(String),
    /// The series is still loading.
    Loading,
    /// No panel has data, or the series has no epochs.
    NoSeries,
    /// These panels, charted over the series' epochs.
    Panels(Vec<MetricPanel>),
}

/// The metric wall's error line for a series failure `err`.
pub open spec fn wall_error_text(err: Seq<char>) -> Seq<char> {
    "\u{25a0} SERIES ERR \u{2014} "@ + err
}

/// What the metric wall shows: a series failure first; then loading while
/// the series is absent or loading; then no series when no panel has data or
/// there are no epochs; else the run's panels that have data.
pub fn metric_wall_view(run: &RunScalars, series: Option<&RunSeries>, loading: bool, error: Option<&str>) -> (r:
    WallView)
    ensures
        match error {
            Some(e) => r matches WallView::Error(t) && t@ == wall_error_text(e@),
            None => match series {
                Some(s) if !loading => {
                    let ds = with_data(panels_spec(*run), s.metrics@);
                    if ds.len() == 0 || s.epochs@.len() == 0 {
                        r is NoSeries
                    } else {
                        r matches WallView::Panels(v) && crate::panels::defs_of(v@) == ds
                    }
                },
                _ => r is Loading,
            },
        },
{
    match error {
        Some(e) => {
            let mut m = owned("\u{25a0} SERIES ERR \u{2014} ");
            push_str(&mut m, e);
            return WallView::Error(m);
        },
        None => {},
    }
    let s = match series {
        Some(s) => s,
        None => return WallView::Loading,
    };
    if loading {
        return WallView::Loading;
    }
    let panels = metric_panels_for_run(run, Some(s));
    if panels.len() == 0 || s.epochs.len() == 0 {
        WallView::NoSeries
    } else {
        WallView::Panels(panels)
    }
}

/// The text shown while a run's series loads.
pub fn wall_loading_text() -> (r: &'static str)
    ensures
        r@ == "\u{25b8} LOADING SERIES\u{2026}"@,
{
    "\u{25b8} LOADING SERIES\u{2026}"
}

/// The text shown when a run has no metric series.
pub fn wall_empty_text() -> (r: &'static str)
    ensures
        r@ == "NO METRIC SERIES YET"@,
{
    "NO METRIC SERIES YET"
}

/// What the sign-in view holds. Whether it can reach the shell stands for the
/// channel it sends sign-in results on.
#[derive(Debug, Clone, PartialEq)]
pub struct LoginView {
    pub attached: bool,
    pub error: Option<String>,
    pub busy: bool,
}

impl LoginView {
    /// Not attached, no error, not busy.
    pub fn new() -> (r: Self)
        ensures
            r == (LoginView { attached: false, error: None, busy: false }),
    {
        LoginView { attached: false, error: None, busy: false }
    }

    /// The shell can now be reached.
    pub fn attach_ui(&mut self)
        ensures
            *final(self) == (LoginView { attached: true, ..*old(self) }),
    {
        self.attached = true;
    }

    /// A sign-in failed: no longer busy, and `message` shown.
    pub fn on_auth_failed(&mut self, message: String)
        ensures
            *final(self) == (LoginView { busy: false, error: Some(message), ..*old(self) }),
    {
        self.busy = false;
        self.error = Some(message);
    }

    /// Starts a sign-in (either kind): `true`, busy and the error cleared,
    /// unless one is running or the shell cannot be reached.
    pub fn begin_sign_in(&mut self) -> (started: bool)
        ensures
            started == (!old(self).busy && old(self).attached),
            started ==> *final(self) == (LoginView { busy: true, error: None, ..*old(self) }),
            !started ==> *final(self) == *old(self),
    {
        if self.busy || !self.attached {
            return false;
        }
        self.busy = true;
        self.error = None;
        true
    }

    /// The sign-in button's label.
    pub fn button_label(&self) -> (r: &'static str)
        ensures
            r@ == (if self.busy { " SIGNING IN\u{2026} "@ } else { " SIGN IN "@ }),
    {
        if self.busy {
            " SIGNING IN\u{2026} "
        } else {
            " SIGN IN "
        }
    }
}

} // verus!
