//! Sign-in decisions: which saved service token is used, what is written
//! back, and what a finished sign-in tells the app.
//!
//! Reading the environment, the keychain and files, and the network calls,
//! belong to the caller.
use vstd::prelude::*;
use crate::auth::DesktopCallback;
use crate::client::{ClientError, STATUS_BAD_REQUEST, STATUS_UNAUTHORIZED};
use crate::desktop::{auth_error_message, auth_error_text};
use crate::model::{TokenExchangeRequest, TokenResponse};
use crate::session::{session_expired, spec_api_portal_url, SessionBundle};
use crate::text::{is_space, owned, push_char, push_str, str_eq, trim_end_char, trim_end_ws, trim_start_ws, trim_ws, trimmed};

verus! {

/// Why no service token could be had.
#[derive(Debug, Clone, PartialEq, Eq)]
pub enum CredentialsError {
    /// No source holds a token.
    NotConfigured,
    /// The keychain refused; the text describes why.
    Keychain(String),
    /// Reading or writing the token file failed; the text describes why.
    Io(String),
}

/// Text of a credentials failure.
pub open spec fn credentials_text(e: CredentialsError) -> Seq<char> {
    match e {
        CredentialsError::NotConfigured => "no service token configured \u{2014} run `fabric auth <token>` or set FABRIC_SERVICE_TOKEN"@,
        CredentialsError::Keychain(t) => "keychain error: "@ + t@,
        CredentialsError::Io(t) => "io error: "@ + t@,
    }
}

impl CredentialsError {
    /// The failure as text (see [`credentials_text`]).
    pub fn message(&self) -> (r: String)
        ensures
            r@ == credentials_text(*self),
    {
        match self {
            CredentialsError::NotConfigured => owned(
                "no service token configured \u{2014} run `fabric auth <token>` or set FABRIC_SERVICE_TOKEN",
            ),
            CredentialsError::Keychain(t) => {
                let mut m = owned("keychain error: ");
                push_str(&mut m, t.as_str());
                m
            },
            CredentialsError::Io(t) => {
                let mut m = owned("io error: ");
                push_str(&mut m, t.as_str());
                m
            },
        }
    }
}

/// Why a saved session could not be had.
#[derive(Debug, Clone, PartialEq, Eq)]
pub enum SessionError {
    /// Nothing is saved.
    NotFound,
    /// The keychain refused; the text describes why.
    Keychain(String),
    /// Reading or writing failed; the text describes why.
    Io(String),
    /// The saved session is not valid JSON.
    Json,
}

/// Text of a saved-session failure.
pub open spec fn session_error_text(e: SessionError) -> Seq<char> {
    match e {
        SessionError::NotFound => "no saved session"@,
        SessionError::Keychain(t) => "keychain error: "@ + t@,
        SessionError::Io(t) => "io error: "@ + t@,
        SessionError::Json => "invalid session json"@,
    }
}

impl SessionError {
    /// The failure as text (see [`session_error_text`]).
    pub fn message(&self) -> (r: String)
        ensures
            r@ == session_error_text(*self),
    {
        match self {
            SessionError::NotFound => owned("no saved session"),
            SessionError::Keychain(t) => {
                let mut m = owned("keychain error: ");
                push_str(&mut m, t.as_str());
                m
            },
            SessionError::Io(t) => {
                let mut m = owned("io error: ");
                push_str(&mut m, t.as_str());
                m
            },
            SessionError::Json => owned("invalid session json"),
        }
    }
}

/// Why the in-app browser sign-in did not finish.
#[derive(Debug, Clone, PartialEq, Eq)]
pub enum MacAuthError {
    Canceled,
    Failed(String),
    NoMainThread,
}

/// Text of an in-app sign-in failure.
pub open spec fn mac_auth_text(e: MacAuthError) -> Seq<char> {
    match e {
        MacAuthError::Canceled => "sign in canceled"@,
        MacAuthError::Failed(t) => "authentication failed: "@ + t@,
        MacAuthError::NoMainThread => "main thread unavailable"@,
    }
}

impl MacAuthError {
    /// The failure as text (see [`mac_auth_text`]).
    pub fn message(&self) -> (r: String)
        ensures
            r@ == mac_auth_text(*self),
    {
        match self {
            MacAuthError::Canceled => owned("sign in canceled"),
            MacAuthError::Failed(t) => {
                let mut m = owned("authentication failed: ");
                push_str(&mut m, t.as_str());
                m
            },
            MacAuthError::NoMainThread => owned("main thread unavailable"),
        }
    }
}

/// The token the sources give, tried in order (environment, keychain, token
/// file): the first whose trimmed text is not empty, trimmed.
pub open spec fn first_token(candidates: Seq<Option<String>>) -> Option<Seq<char>>
    decreases candidates.len(),
{
    if candidates.len() == 0 {
        None
    } else {
        match candidates[0] {
            Some(t) => if trimmed(t@).len() > 0 {
                Some(trimmed(t@))
            } else {
                first_token(candidates.skip(1))
            },
            None => first_token(candidates.skip(1)),
        }
    }
}

/// The service token from the sources in order (see [`first_token`]);
/// `NotConfigured` when none gives one.
pub fn pick_service_token(candidates: &[Option<String>]) -> (r: Result<String, CredentialsError>)
    ensures
        match first_token(candidates@) {
            Some(t) => r matches Ok(s) && s@ == t,
            None => r == Err::<String, CredentialsError>(CredentialsError::NotConfigured),
        },
{
    let mut i: usize = 0;
    assert(candidates@.skip(0) =~= candidates@);
    while i < candidates.len()
        invariant
            i <= candidates.len(),
            first_token(candidates@) == first_token(candidates@.skip(i as int)),
        decreases candidates.len() - i,
    {
        assert(candidates@.skip(i as int)[0] == candidates@[i as int]);
        assert(candidates@.skip(i as int).skip(1) =~= candidates@.skip(i + 1));
        if let Some(t) = &candidates[i] {
            let tok = trim_ws(t.as_str());
            if !tok.as_str().is_empty() {
                return Ok(tok);
            }
        }
        i = i + 1;
    }
    Err(CredentialsError::NotConfigured)
}

/// The token to save: trimmed; `NotConfigured` when that leaves nothing.
pub fn token_to_save(token: &str) -> (r: Result<String, CredentialsError>)
    ensures
        trimmed(token@).len() == 0 ==> r == Err::<String, CredentialsError>(CredentialsError::NotConfigured),
        trimmed(token@).len() > 0 ==> (r matches Ok(s) && s@ == trimmed(token@)),
{
    let t = trim_ws(token);
    if t.as_str().is_empty() {
        Err(CredentialsError::NotConfigured)
    } else {
        Ok(t)
    }
}

/// Contents of the token file: the token and a newline.
pub fn token_file_text(token: &str) -> (r: String)
    ensures
        r@ == token@.push('\n'),
{
    let mut s = owned(token);
    push_char(&mut s, '\n');
    s
}


proof fn lemma_trim_start_first(s: Seq<char>)
    ensures
        trim_start_ws(s).len() > 0 ==> !is_space(trim_start_ws(s)[0]),
    decreases s.len(),
{
    if s.len() > 0 && is_space(s[0]) {
        lemma_trim_start_first(s.skip(1));
    }
}

proof fn lemma_trim_end_prefix(s: Seq<char>)
    ensures
        trim_end_ws(s).len() <= s.len(),
        s.take(trim_end_ws(s).len() as int) == trim_end_ws(s),
        trim_end_ws(s).len() > 0 ==> !is_space(trim_end_ws(s).last()),
    decreases s.len(),
{
    if s.len() > 0 && is_space(s.last()) {
        lemma_trim_end_prefix(s.drop_last());
        assert(s.take(trim_end_ws(s).len() as int) =~= s.drop_last().take(trim_end_ws(s).len() as int));
    } else {
        assert(s.take(s.len() as int) =~= s);
    }
}

/// A saved service token reads back as itself: the token file holds the
/// trimmed token and a newline, and reading trims it again.
pub proof fn lemma_token_round_trip(token: Seq<char>)
    requires
        trimmed(token).len() > 0,
    ensures
        trimmed(trimmed(token).push('\n')) == trimmed(token),
{
    let x = trim_start_ws(token);
    let u = trimmed(token);
    lemma_trim_start_first(token);
    lemma_trim_end_prefix(x);
    assert(u[0] == x[0]) by {
        assert(x.take(u.len() as int)[0] == x[0]);
    }
    assert(!is_space(u[0]));
    assert(!is_space(u.last()));
    let w = u.push('\n');
    assert(w[0] == u[0]);
    assert(trim_start_ws(w) == w);
    assert(is_space(w.last()));
    assert(w.drop_last() =~= u);
    assert(trim_end_ws(w) == trim_end_ws(u));
    assert(trim_end_ws(u) == u);
}

/// What a finished sign-in tells the app.
#[derive(Debug, Clone)]
pub enum AuthMsg {
    Failed(String),
    Session(SessionBundle),
    ServiceToken(String),
}

/// Outcome of a browser sign-in that returned a token: refused when the
/// session already expired at `now`, else a session on `portal_url` with the
/// token, the account and the expiry.
pub fn session_from_token(token: TokenResponse, portal_url: String, now: i64) -> (r: AuthMsg)
    ensures
        session_expired_at(token.exp, now) ==> (r matches AuthMsg::Failed(m) && m@
            == "Session already expired \u{2014} try again"@),
        !session_expired_at(token.exp, now) ==> r == AuthMsg::Session(
            SessionBundle {
                access_token: token.access_token,
                portal_url,
                email: token.email,
                expires_at: token.exp,
            },
        ),
{
    if session_expired(token.exp, now) {
        AuthMsg::Failed(owned("Session already expired \u{2014} try again"))
    } else {
        AuthMsg::Session(
            SessionBundle {
                access_token: token.access_token,
                portal_url,
                email: token.email,
                expires_at: token.exp,
            },
        )
    }
}

/// Whether a session expiring at `exp` is over at `now`.
pub open spec fn session_expired_at(exp: Option<i64>, now: i64) -> bool {
    exp matches Some(e) && e <= now
}

/// Outcome of checking a saved service token against the portal: accepted,
/// rejected, or the check's own failure.
pub fn saved_token_outcome(token: String, check: Result<(), ClientError>) -> (r: AuthMsg)
    requires
        check matches Err(ClientError::Api { status, .. }) ==> 100 <= status <= 999,
    ensures
        match check {
            Ok(_) => r == AuthMsg::ServiceToken(token),
            Err(e) => if e is Unauthorized || (e matches ClientError::Api { status, .. } && status
                == STATUS_UNAUTHORIZED) {
                r matches AuthMsg::Failed(m) && m@ == "Invalid service token"@
            } else {
                r matches AuthMsg::Failed(m) && m@ == auth_error_text(e)
            },
        },
{
    match check {
        Ok(()) => AuthMsg::ServiceToken(token),
        Err(e) => {
            if e.is_unauthorized() {
                AuthMsg::Failed(owned("Invalid service token"))
            } else {
                AuthMsg::Failed(auth_error_message(&e))
            }
        },
    }
}

/// What follows the browser's sign-in callback.
#[derive(Debug, Clone)]
pub enum CallbackStep {
    /// The callback carried the session token itself.
    Token(TokenResponse),
    /// The callback carried a one-time code, to be exchanged at `url`.
    Exchange { url: String, request: TokenExchangeRequest },
    /// Sign-in failed.
    Failed(ClientError),
}

/// Whether `e` is a bad-request failure with message `m`.
pub open spec fn bad_request_with(e: ClientError, m: Seq<char>) -> bool {
    e matches ClientError::Api { status, message } && status == STATUS_BAD_REQUEST && message@ == m
}

/// The step after the browser returned `callback` (the parsed callback URL)
/// for a sign-in started with `expected_state` through `auth_portal`: refused
/// without a callback or when its state differs; the token when it carries
/// one; else the exchange of its code at the API host for `auth_portal`; else
/// refused for want of a token.
pub fn callback_step(
    callback: Option<DesktopCallback>,
    expected_state: &str,
    auth_portal: &str,
    sso_portal_url: &str,
    default_portal_url: &str,
) -> (r: CallbackStep)
    ensures
        match callback {
            None => r matches CallbackStep::Failed(e) && bad_request_with(e, "invalid auth callback"@),
            Some(cb) => if cb.state@ != expected_state@ {
                r matches CallbackStep::Failed(e) && bad_request_with(e, "auth state mismatch"@)
            } else if cb.access_token is Some {
                r matches CallbackStep::Token(t) && t.access_token == cb.access_token->0
                    && (t.token_type matches Some(k) && k@ == "session"@) && t.exp == cb.exp
                    && t.email == cb.email
            } else if cb.code is Some {
                r matches CallbackStep::Exchange { url, request } && url@ == spec_api_portal_url(
                    trim_end_char(auth_portal@, '/'),
                    sso_portal_url@,
                    default_portal_url@,
                ) && request == (TokenExchangeRequest { code: cb.code->0, state: cb.state })
            } else {
                r matches CallbackStep::Failed(e) && bad_request_with(e, "auth callback missing token"@)
            },
        },
{
    let cb = match callback {
        None => return CallbackStep::Failed(ClientError::bad_request(owned("invalid auth callback"))),
        Some(cb) => cb,
    };
    if !str_eq(cb.state.as_str(), expected_state) {
        return CallbackStep::Failed(ClientError::bad_request(owned("auth state mismatch")));
    }
    if let Some(access_token) = cb.access_token {
        return CallbackStep::Token(
            TokenResponse {
                access_token,
                token_type: Some(owned("session")),
                exp: cb.exp,
                email: cb.email,
            },
        );
    }
    if let Some(code) = cb.code {
        let url = SessionBundle::api_portal_url_for_sso_host(auth_portal, sso_portal_url, default_portal_url);
        return CallbackStep::Exchange { url, request: TokenExchangeRequest { code, state: cb.state } };
    }
    CallbackStep::Failed(ClientError::bad_request(owned("auth callback missing token")))
}

} // verus!
