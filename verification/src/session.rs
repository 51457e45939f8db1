//! Saved sign-in session and the portal hosts it talks to.
//!
//! The operator (SSO) host and the data host can be overridden from the
//! environment; the caller reads the variables and hands their values in.
use vstd::prelude::*;
use crate::text::{
    has_infix, is_blank, str_contains, str_eq, str_is_blank, trim_end_char, trim_end_matches_char,
};

verus! {

/// Data-plane portal (bearer-only, IAP off).
pub const DEFAULT_PORTAL_URL: &'static str = "https://agents.fabric.blackstar.inc";

/// Operator portal that runs the Google SSO handshake (IAP-gated).
pub const SSO_PORTAL_URL: &'static str = "https://fabric.blackstar.inc";

/// URL scheme of the desktop sign-in callback.
pub const AUTH_CALLBACK_SCHEME: &'static str = "fabric";

/// Header that carries a break-glass service token.
pub const SERVICE_TOKEN_HEADER: &'static str = "X-Fleet-Token";

/// Host name of the data plane, which must never run the SSO handshake.
pub open spec fn agents_host() -> Seq<char> {
    "agents.fabric.blackstar.inc"@
}

/// An environment override counts when it is set and not blank.
pub open spec fn override_or(env: Option<Seq<char>>, default: Seq<char>) -> Seq<char> {
    match env {
        Some(v) => if is_blank(v) { default } else { v },
        None => default,
    }
}

/// The view of an optional `&str`.
pub open spec fn opt_str_view(o: Option<&str>) -> Option<Seq<char>> {
    match o {
        Some(s) => Some(s@),
        None => None,
    }
}

/// SSO host: the `FABRIC_SSO_URL` override (else the built-in operator host)
/// without trailing slashes, except that a URL naming the data host is replaced
/// by the operator host.
pub open spec fn spec_sso_portal_url(env: Option<Seq<char>>) -> Seq<char> {
    let url = trim_end_char(override_or(env, SSO_PORTAL_URL@), '/');
    if has_infix(url, agents_host()) {
        trim_end_char(SSO_PORTAL_URL@, '/')
    } else {
        url
    }
}

/// Data host: the `FABRIC_PORTAL_URL` override (else the built-in data host)
/// without trailing slashes.
pub open spec fn spec_default_portal_url(env: Option<Seq<char>>) -> Seq<char> {
    trim_end_char(override_or(env, DEFAULT_PORTAL_URL@), '/')
}

fn override_value<'a>(env: Option<&'a str>, default: &'a str) -> (out: &'a str)
    ensures
        out@ == override_or(opt_str_view(env), default@),
{
    match env {
        Some(v) => if str_is_blank(v) { default } else { v },
        None => default,
    }
}

/// SSO host from the value of `FABRIC_SSO_URL` (see [`spec_sso_portal_url`]).
pub fn sso_portal_url(env_sso_url: Option<&str>) -> (out: String)
    ensures
        out@ == spec_sso_portal_url(opt_str_view(env_sso_url)),
{
    let url = trim_end_matches_char(override_value(env_sso_url, SSO_PORTAL_URL), '/');
    if str_contains(url.as_str(), "agents.fabric.blackstar.inc") {
        return trim_end_matches_char(SSO_PORTAL_URL, '/');
    }
    url
}

/// Data host from the value of `FABRIC_PORTAL_URL` (see [`spec_default_portal_url`]).
pub fn default_portal_url(env_portal_url: Option<&str>) -> (out: String)
    ensures
        out@ == spec_default_portal_url(opt_str_view(env_portal_url)),
{
    trim_end_matches_char(override_value(env_portal_url, DEFAULT_PORTAL_URL), '/')
}

/// A signed-in SSO session as saved in the keychain.
#[derive(Debug, Clone, PartialEq, Default)]
pub struct SessionBundle {
    pub access_token: String,
    pub portal_url: String,
    pub email: Option<String>,
    pub expires_at: Option<i64>,
}

/// Portal base URL for authenticated API calls: the saved URL without trailing
/// slashes, except that the SSO host is replaced by the data host.
pub open spec fn spec_api_portal_url(saved: Seq<char>, sso: Seq<char>, data: Seq<char>) -> Seq<char> {
    if trim_end_char(saved, '/') == sso {
        data
    } else {
        trim_end_char(saved, '/')
    }
}

impl SessionBundle {
    /// Portal base URL for authenticated API calls (see [`spec_api_portal_url`]),
    /// given the current SSO host and data host.
    pub fn api_portal_url(&self, sso_portal_url: &str, default_portal_url: &str) -> (out: String)
        ensures
            out@ == spec_api_portal_url(self.portal_url@, sso_portal_url@, default_portal_url@),
    {
        let saved = trim_end_matches_char(self.portal_url.as_str(), '/');
        if str_eq(saved.as_str(), sso_portal_url) {
            crate::text::owned(default_portal_url)
        } else {
            saved
        }
    }

    /// API base URL to use after signing in through `sso_host`.
    pub fn api_portal_url_for_sso_host(sso_host: &str, sso_portal_url: &str, default_portal_url: &str) -> (out: String)
        ensures
            out@ == spec_api_portal_url(trim_end_char(sso_host@, '/'), sso_portal_url@, default_portal_url@),
    {
        let bundle = SessionBundle {
            access_token: String::new(),
            portal_url: trim_end_matches_char(sso_host, '/'),
            email: None,
            expires_at: None,
        };
        bundle.api_portal_url(sso_portal_url, default_portal_url)
    }
}

/// True when a saved session's expiry lies at or before `now` (Unix seconds);
/// a session without expiry never expires.
pub fn session_expired(expires_at: Option<i64>, now: i64) -> (r: bool)
    ensures
        r == (expires_at matches Some(exp) && exp <= now),
{
    match expires_at {
        Some(exp) => exp <= now,
        None => false,
    }
}

/// Trimming trailing slashes twice changes nothing more.
pub proof fn lemma_trim_end_idempotent(s: Seq<char>, c: char)
    ensures
        trim_end_char(trim_end_char(s, c), c) == trim_end_char(s, c),
    decreases s.len(),
{
    if s.len() > 0 && s.last() == c {
        lemma_trim_end_idempotent(s.drop_last(), c);
    }
}

} // verus!
