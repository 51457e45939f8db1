//! The app shell: which view is shown, whether the operator is signed in,
//! and what signing in, signing out, switching views and each message from
//! the network ask of the views and of the session store.
//!
//! Each step changes a [`FabricApp`] and appends [`ShellEffect`]s, which the
//! caller carries out in order.
use vstd::prelude::*;
use crate::client::{error_text, ClientError};
use crate::desktop::{unquote, unquoted};
use crate::network::{AppUiMsg, DashboardMsg, FleetsMsg, TopologyMsg};
use crate::session::{session_expired, SessionBundle};
use crate::signin::{session_expired_at, AuthMsg};
use crate::text::{owned, push_char, push_str, str_eq, trim_ws, trimmed};

verus! {

/// The view the shell shows.
#[derive(Debug, Clone, Copy, PartialEq, Eq, Structural)]
pub enum AppMode {
    Runs,
    Fleets,
    Topology,
}

/// How the shell reaches the portal once signed in.
#[derive(Debug, Clone)]
pub enum Credential {
    /// A browser sign-in session.
    Session(SessionBundle),
    /// A saved service token.
    ServiceToken(String),
}

/// What a shell step asks of its caller.
#[derive(Debug)]
pub enum ShellEffect {
    /// Save the shown view as the preference.
    SaveMode(AppMode),
    /// The fleet view became visible.
    ShowFleets,
    /// The topology view became visible.
    ShowTopology,
    /// Select this run in the topology explorer.
    SelectInTopology { fleet: String, pod: String, name: String },
    /// Refresh the view shown.
    Refresh(AppMode),
    /// Check a saved session against the portal.
    PreflightSession(SessionBundle),
    /// Check a saved service token against the portal.
    PreflightToken(String),
    /// Forget the saved session.
    ClearSession,
    /// Save this session.
    SaveSession(SessionBundle),
    /// Stop the network and detach the views, then start a network with this
    /// credential and attach the views to it.
    AttachNetwork(Credential),
    /// Stop the network and detach the views.
    Disconnect,
    /// Show the operator's account.
    SetOperatorEmail(Option<String>),
    /// Return the sign-in view to its start.
    ResetLogin,
    /// Show the sign-in view with this failure.
    LoginFailed(String),
    /// Hand the message to the runs view.
    ToDashboard(DashboardMsg),
    /// Hand the message to the fleet view.
    ToFleets(FleetsMsg),
    /// Hand the message to the topology view.
    ToTopology(TopologyMsg),
}

/// What the shell holds.
#[derive(Debug, Clone, Copy, PartialEq, Eq, Structural)]
pub struct FabricApp {
    /// Signed in (else the sign-in view is shown).
    pub authenticated: bool,
    pub mode: AppMode,
}

/// The view a saved preference names: `fleets` or `topology` (after trimming
/// white space, then quotes), anything else meaning the runs view.
pub open spec fn mode_from_text(raw: Seq<char>) -> AppMode {
    let v = unquoted(trimmed(raw));
    if v == "fleets"@ {
        AppMode::Fleets
    } else if v == "topology"@ {
        AppMode::Topology
    } else {
        AppMode::Runs
    }
}

/// The value a view is saved as.
pub open spec fn mode_value(mode: AppMode) -> Seq<char> {
    match mode {
        AppMode::Runs => "runs"@,
        AppMode::Fleets => "fleets"@,
        AppMode::Topology => "topology"@,
    }
}

/// The view a saved preference names (see [`mode_from_text`]).
pub fn mode_from_saved(raw: &str) -> (r: AppMode)
    ensures
        r == mode_from_text(raw@),
{
    let t = trim_ws(raw);
    let v = unquote(t.as_str());
    if str_eq(v.as_str(), "fleets") {
        AppMode::Fleets
    } else if str_eq(v.as_str(), "topology") {
        AppMode::Topology
    } else {
        AppMode::Runs
    }
}

/// The saved form of a view: its value as a JSON string.
pub fn mode_file_text(mode: AppMode) -> (r: String)
    ensures
        r@ == seq!['"'] + mode_value(mode) + seq!['"'],
{
    let mut s = String::new();
    push_char(&mut s, '"');
    match mode {
        AppMode::Runs => push_str(&mut s, "runs"),
        AppMode::Fleets => push_str(&mut s, "fleets"),
        AppMode::Topology => push_str(&mut s, "topology"),
    }
    push_char(&mut s, '"');
    s
}

/// Saving a view and reading it back gives the same view.
pub proof fn lemma_mode_round_trip(mode: AppMode)
    ensures
        mode_from_text(seq!['"'] + mode_value(mode) + seq!['"']) == mode,
{
    reveal_strlit("runs");
    reveal_strlit("fleets");
    reveal_strlit("topology");
    let v = mode_value(mode);
    let q = seq!['"'] + v + seq!['"'];
    assert(crate::text::trim_start_ws(q) == q) by {
        assert(q[0] == '"');
    }
    assert(trimmed(q) == q) by {
        assert(q.last() == '"');
    }
    assert(q.skip(1) =~= v + seq!['"']);
    let w = v + seq!['"'];
    assert(w[0] == v[0]);
    assert(crate::desktop::trim_start_char(w, '"') == w);
    assert(crate::desktop::trim_start_char(q, '"') == w);
    assert(w.drop_last() =~= v);
    assert(crate::text::trim_end_char(v, '"') == v);
    assert(unquoted(q) == v);
    match mode {
        AppMode::Runs => {
            assert(v.len() != "fleets"@.len() && v.len() != "topology"@.len());
        },
        AppMode::Fleets => {
            assert(v.len() != "topology"@.len());
        },
        AppMode::Topology => {},
    }
}

/// The effect that shows a view, if showing it asks for one.
pub open spec fn show_effects(mode: AppMode) -> Seq<ShellEffect> {
    match mode {
        AppMode::Runs => Seq::empty(),
        AppMode::Fleets => seq![ShellEffect::ShowFleets],
        AppMode::Topology => seq![ShellEffect::ShowTopology],
    }
}

/// Signing in with `cred`: the network attached with it, the account shown,
/// the sign-in view reset, and the shown view told it is visible.
pub open spec fn connect_effects(cred: Credential, email: Option<String>, mode: AppMode) -> Seq<ShellEffect> {
    seq![ShellEffect::AttachNetwork(cred), ShellEffect::SetOperatorEmail(email), ShellEffect::ResetLogin]
        + show_effects(mode)
}

/// `fx` signs out with a failure whose text is `m`: the session forgotten,
/// the network stopped, and the sign-in view shown with the text.
pub open spec fn relogin_effects(fx: Seq<ShellEffect>, m: Seq<char>) -> bool {
    &&& fx.len() == 3
    &&& fx[0] is ClearSession
    &&& fx[1] is Disconnect
    &&& fx[2] matches ShellEffect::LoginFailed(t) && t@ == m
}

/// The text shown when a session is over.
pub open spec fn expired_text() -> Seq<char> {
    "Session expired \u{2014} sign in again"@
}

/// `fx` connects with a session at `now`: refused (see [`relogin_effects`])
/// when it expired, else [`connect_effects`] with the session's account.
pub open spec fn session_connect(o: FabricApp, n: FabricApp, fx: Seq<ShellEffect>, s: SessionBundle, now: i64) -> bool {
    if session_expired_at(s.expires_at, now) {
        n == FabricApp { authenticated: false, ..o } && relogin_effects(fx, expired_text())
    } else {
        n == FabricApp { authenticated: true, ..o } && fx == connect_effects(
            Credential::Session(s),
            s.email,
            o.mode,
        )
    }
}

/// How the shell takes a message from the network at `now`.
pub open spec fn routed(o: FabricApp, n: FabricApp, fx: Seq<ShellEffect>, msg: AppUiMsg, now: i64) -> bool {
    match msg {
        AppUiMsg::Unauthorized(m) => n == FabricApp { authenticated: false, ..o } && relogin_effects(fx, m@),
        AppUiMsg::Auth(AuthMsg::Session(b)) => fx.len() >= 1 && fx[0] == ShellEffect::SaveSession(b)
            && session_connect(o, n, fx.skip(1), b, now),
        AppUiMsg::Auth(AuthMsg::ServiceToken(t)) => n == FabricApp { authenticated: true, ..o } && fx
            == connect_effects(Credential::ServiceToken(t), None, o.mode),
        AppUiMsg::Auth(AuthMsg::Failed(e)) => n == FabricApp { authenticated: false, ..o } && fx == seq![
            ShellEffect::LoginFailed(e),
        ],
        AppUiMsg::Dashboard(m) => n == o && fx == seq![ShellEffect::ToDashboard(m)],
        AppUiMsg::Fleets(m) => n == o && fx == seq![ShellEffect::ToFleets(m)],
        AppUiMsg::Topology(m) => n == o && fx == seq![ShellEffect::ToTopology(m)],
    }
}

/// What a check of a saved session against the portal tells the shell, and
/// whether the session is to be forgotten: accepted; rejected (forgotten,
/// with the expired text); or the check's own failure.
pub open spec fn session_check(s: SessionBundle, check: Result<(), ClientError>, r: (AuthMsg, bool)) -> bool {
    match check {
        Ok(_) => r == (AuthMsg::Session(s), false),
        Err(e) => if e is Unauthorized || (e matches ClientError::Api { status, .. } && status
            == crate::client::STATUS_UNAUTHORIZED) {
            r.1 && (r.0 matches AuthMsg::Failed(m) && m@ == expired_text())
        } else {
            !r.1 && (r.0 matches AuthMsg::Failed(m) && m@ == error_text(e))
        },
    }
}

/// The outcome of checking a saved session (see [`session_check`]).
pub fn session_check_outcome(session: SessionBundle, check: Result<(), ClientError>) -> (r: (AuthMsg, bool))
    requires
        check matches Err(ClientError::Api { status, .. }) ==> 100 <= status <= 999,
    ensures
        session_check(session, check, r),
{
    match check {
        Ok(()) => (AuthMsg::Session(session), false),
        Err(e) => {
            if e.is_unauthorized() {
                (AuthMsg::Failed(owned("Session expired \u{2014} sign in again")), true)
            } else {
                (AuthMsg::Failed(e.message()), false)
            }
        },
    }
}

fn copy_session(s: &SessionBundle) -> (r: SessionBundle)
    ensures
        r == *s,
{
    SessionBundle {
        access_token: s.access_token.clone(),
        portal_url: s.portal_url.clone(),
        email: crate::model::copy_opt(&s.email),
        expires_at: s.expires_at,
    }
}

impl FabricApp {
    /// Signed out, showing the saved view.
    pub fn new(saved: AppMode) -> (r: Self)
        ensures
            r == (FabricApp { authenticated: false, mode: saved }),
    {
        FabricApp { authenticated: false, mode: saved }
    }

    /// At start, with the saved session and service token: a session that has
    /// not expired at `now` is checked; an expired one is forgotten; then a
    /// saved token is checked; else the sign-in view stays.
    pub fn start(
        &mut self,
        session: Option<SessionBundle>,
        token: Option<String>,
        now: i64,
        out: &mut Vec<ShellEffect>,
    )
        ensures
            ({
                let fx = final(out)@.skip(old(out)@.len() as int);
                match session {
                    Some(s) if !session_expired_at(s.expires_at, now) => *final(self) == *old(self) && fx
                        == seq![ShellEffect::PreflightSession(s)],
                    _ => {
                        let cleared: Seq<ShellEffect> = if session is Some {
                            seq![ShellEffect::ClearSession]
                        } else {
                            Seq::empty()
                        };
                        match token {
                            Some(t) => *final(self) == *old(self) && fx == cleared.push(
                                ShellEffect::PreflightToken(t),
                            ),
                            None => *final(self) == (FabricApp { authenticated: false, ..*old(self) })
                                && fx == cleared,
                        }
                    },
                }
            }),
            final(out)@.take(old(out)@.len() as int) == old(out)@,
    {
        let ghost before = out@;
        match session {
            Some(s) => {
                if !session_expired(s.expires_at, now) {
                    out.push(ShellEffect::PreflightSession(s));
                    proof {
                        assert(out@.take(before.len() as int) =~= before);
                        assert(out@.skip(before.len() as int) =~= seq![out@.last()]);
                    }
                    return;
                }
                out.push(ShellEffect::ClearSession);
            },
            None => {},
        }
        let ghost cleared = out@;
        match token {
            Some(t) => {
                out.push(ShellEffect::PreflightToken(t));
            },
            None => {
                self.authenticated = false;
            },
        }
        proof {
            assert(out@.take(before.len() as int) =~= before);
            assert(cleared.skip(before.len() as int) =~= (if session is Some {
                seq![ShellEffect::ClearSession]
            } else {
                Seq::<ShellEffect>::empty()
            }));
            if token is Some {
                assert(out@.skip(before.len() as int) =~= cleared.skip(before.len() as int).push(out@.last()));
            } else {
                assert(out@.skip(before.len() as int) =~= cleared.skip(before.len() as int));
            }
        }
    }

    /// Signs in with `cred` (see [`connect_effects`]).
    pub fn connect(&mut self, cred: Credential, email: Option<String>, out: &mut Vec<ShellEffect>)
        ensures
            *final(self) == (FabricApp { authenticated: true, ..*old(self) }),
            final(out)@ == old(out)@ + connect_effects(cred, email, old(self).mode),
    {
        self.authenticated = true;
        let ghost before = out@;
        out.push(ShellEffect::AttachNetwork(cred));
        out.push(ShellEffect::SetOperatorEmail(email));
        out.push(ShellEffect::ResetLogin);
        match self.mode {
            AppMode::Runs => {},
            AppMode::Fleets => out.push(ShellEffect::ShowFleets),
            AppMode::Topology => out.push(ShellEffect::ShowTopology),
        }
        proof {
            assert(out@ =~= before + connect_effects(cred, email, old(self).mode));
        }
    }

    /// Signs in with a session, unless it expired at `now` (see [`session_connect`]).
    pub fn connect_session(&mut self, session: SessionBundle, now: i64, out: &mut Vec<ShellEffect>)
        ensures
            final(out)@.len() >= old(out)@.len(),
            final(out)@.take(old(out)@.len() as int) == old(out)@,
            session_connect(*old(self), *final(self), final(out)@.skip(old(out)@.len() as int), session, now),
    {
        let ghost before = out@;
        if session_expired(session.expires_at, now) {
            self.force_relogin(owned("Session expired \u{2014} sign in again"), out);
            proof {
                assert(out@.skip(before.len() as int) =~= seq![out@[before.len() as int], out@[before.len() + 1int], out@[before.len() + 2int]]);
            }
        } else {
            let email = crate::model::copy_opt(&session.email);
            self.connect(Credential::Session(session), email, out);
            proof {
                assert(out@.skip(before.len() as int) =~= connect_effects(Credential::Session(session), session.email, old(self).mode));
            }
        }
        proof {
            assert(out@.take(before.len() as int) =~= before);
        }
    }

    /// Signs out showing `message` (see [`relogin_effects`]).
    pub fn force_relogin(&mut self, message: String, out: &mut Vec<ShellEffect>)
        ensures
            *final(self) == (FabricApp { authenticated: false, ..*old(self) }),
            final(out)@ == old(out)@ + seq![
                ShellEffect::ClearSession,
                ShellEffect::Disconnect,
                ShellEffect::LoginFailed(message),
            ],
    {
        let ghost before = out@;
        out.push(ShellEffect::ClearSession);
        out.push(ShellEffect::Disconnect);
        self.authenticated = false;
        out.push(ShellEffect::LoginFailed(message));
        proof {
            assert(out@ =~= before + seq![
                ShellEffect::ClearSession,
                ShellEffect::Disconnect,
                ShellEffect::LoginFailed(message),
            ]);
        }
    }

    /// Handles a message from the network at `now` (see [`routed`]).
    pub fn handle_ui_msg(&mut self, msg: AppUiMsg, now: i64, out: &mut Vec<ShellEffect>)
        ensures
            final(out)@.take(old(out)@.len() as int) == old(out)@,
            routed(*old(self), *final(self), final(out)@.skip(old(out)@.len() as int), msg, now),
    {
        let ghost before = out@;
        match msg {
            AppUiMsg::Unauthorized(message) => {
                self.force_relogin(message, out);
                proof {
                    assert(out@.skip(before.len() as int) =~= seq![out@[before.len() as int], out@[before.len() + 1int], out@[before.len() + 2int]]);
                }
            },
            AppUiMsg::Auth(AuthMsg::Session(bundle)) => {
                out.push(ShellEffect::SaveSession(copy_session(&bundle)));
                let ghost saved = out@;
                self.connect_session(bundle, now, out);
                proof {
                    assert(out@.take(saved.len() as int) =~= saved);
                    assert(out@.skip(before.len() as int).skip(1) =~= out@.skip(saved.len() as int));
                    assert(out@.skip(before.len() as int)[0] == saved.last());
                }
            },
            AppUiMsg::Auth(AuthMsg::ServiceToken(token)) => {
                self.connect(Credential::ServiceToken(token), None, out);
                proof {
                    assert(out@.skip(before.len() as int) =~= connect_effects(Credential::ServiceToken(token), None, old(self).mode));
                }
            },
            AppUiMsg::Auth(AuthMsg::Failed(e)) => {
                self.authenticated = false;
                out.push(ShellEffect::LoginFailed(e));
            },
            AppUiMsg::Dashboard(m) => out.push(ShellEffect::ToDashboard(m)),
            AppUiMsg::Fleets(m) => out.push(ShellEffect::ToFleets(m)),
            AppUiMsg::Topology(m) => out.push(ShellEffect::ToTopology(m)),
        }
        proof {
            assert(out@.take(before.len() as int) =~= before);
            if out@.len() == before.len() + 1 {
                assert(out@.skip(before.len() as int) =~= seq![out@.last()]);
            }
        }
    }

    /// Shows `mode`: nothing when it is shown; else it is saved as the
    /// preference and told it is visible.
    pub fn set_mode(&mut self, mode: AppMode, out: &mut Vec<ShellEffect>)
        ensures
            old(self).mode == mode ==> *final(self) == *old(self) && final(out)@ == old(out)@,
            old(self).mode != mode ==> *final(self) == (FabricApp { mode, ..*old(self) }) && final(out)@
                == old(out)@ + seq![ShellEffect::SaveMode(mode)] + show_effects(mode),
    {
        if self.mode == mode {
            return;
        }
        let ghost before = out@;
        self.mode = mode;
        out.push(ShellEffect::SaveMode(mode));
        match mode {
            AppMode::Runs => {},
            AppMode::Fleets => out.push(ShellEffect::ShowFleets),
            AppMode::Topology => out.push(ShellEffect::ShowTopology),
        }
        proof {
            assert(out@ =~= before + seq![ShellEffect::SaveMode(mode)] + show_effects(mode));
        }
    }

    /// Opens a run from the war room in the topology explorer and shows it.
    pub fn open_topology_for_run(&mut self, fleet: String, pod: String, name: String, out: &mut Vec<ShellEffect>)
        ensures
            final(self).mode == AppMode::Topology,
            *final(self) == (FabricApp { mode: AppMode::Topology, ..*old(self) }),
            final(out)@.take(old(out)@.len() + 1int) == old(out)@.push(
                ShellEffect::SelectInTopology { fleet, pod, name },
            ),
            final(out)@.skip(old(out)@.len() + 1int) == (if old(self).mode == AppMode::Topology {
                Seq::empty()
            } else {
                seq![ShellEffect::SaveMode(AppMode::Topology), ShellEffect::ShowTopology]
            }),
    {
        let ghost before = out@;
        out.push(ShellEffect::SelectInTopology { fleet, pod, name });
        let ghost selected = out@;
        self.set_mode(AppMode::Topology, out);
        proof {
            assert(out@.take(before.len() + 1int) =~= selected);
            if old(self).mode == AppMode::Topology {
                assert(out@.skip(before.len() + 1int) =~= Seq::<ShellEffect>::empty());
            } else {
                assert(out@.skip(before.len() + 1int) =~= seq![
                    ShellEffect::SaveMode(AppMode::Topology),
                    ShellEffect::ShowTopology,
                ]);
            }
        }
    }

    /// Refreshes the shown view, when signed in.
    pub fn refresh(&self, out: &mut Vec<ShellEffect>)
        ensures
            self.authenticated ==> final(out)@ == old(out)@.push(ShellEffect::Refresh(self.mode)),
            !self.authenticated ==> final(out)@ == old(out)@,
    {
        if self.authenticated {
            out.push(ShellEffect::Refresh(self.mode));
        }
    }
}

} // verus!
