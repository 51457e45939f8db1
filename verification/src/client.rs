//! Portal client: endpoint paths, credentials header and error classification.
//!
//! The HTTP transport lives with the caller; this module decides what is asked
//! for and how a failed answer is classified.
use vstd::prelude::*;
use vstd::string::StringSliceAdditionalSpecFns;
use crate::auth::{percent_encoded, url_encode};
use crate::session::SERVICE_TOKEN_HEADER;
use crate::text::{decimal, owned, push_str, trim_end_char, trim_end_matches_char, u64_text};

verus! {

/// How the client authenticates.
#[derive(Debug, Clone, Copy, PartialEq, Eq, Structural)]
pub enum AuthKind {
    ServiceToken,
    SessionBearer,
}

/// HTTP status of an expired or rejected credential.
pub const STATUS_UNAUTHORIZED: u16 = 401;

/// HTTP status of a malformed request.
pub const STATUS_BAD_REQUEST: u16 = 400;

/// A failed portal request.
#[derive(Debug, Clone, PartialEq)]
pub enum ClientError {
    /// Transport failure (connection, TLS, timeout); the text describes it.
    Http(String),
    /// The portal answered with a non-success status.
    Api { status: u16, message: String },
    /// The body was not the expected JSON; the text describes why.
    Json(String),
    /// The session or token was rejected.
    Unauthorized,
}

impl ClientError {
    /// Whether the failure means the credential was rejected.
    pub fn is_unauthorized(&self) -> (r: bool)
        ensures
            r == (*self is Unauthorized || (*self matches ClientError::Api { status, .. } && status
                == STATUS_UNAUTHORIZED)),
    {
        match self {
            ClientError::Unauthorized => true,
            ClientError::Api { status, .. } => *status == STATUS_UNAUTHORIZED,
            _ => false,
        }
    }

    /// An authentication failure with `message`.
    pub fn auth(message: String) -> (e: Self)
        ensures
            e == (ClientError::Api { status: STATUS_UNAUTHORIZED, message }),
    {
        ClientError::Api { status: STATUS_UNAUTHORIZED, message }
    }

    /// A bad-request failure with `message`.
    pub fn bad_request(message: String) -> (e: Self)
        ensures
            e == (ClientError::Api { status: STATUS_BAD_REQUEST, message }),
    {
        ClientError::Api { status: STATUS_BAD_REQUEST, message }
    }
}

/// The reason phrase `http` (through `reqwest::StatusCode`) knows for a status
/// code, from its table of registered codes.
pub uninterp spec fn canonical_reason(code: u16) -> Option<Seq<char>>;

/// Reason phrase of a status code. Calls `StatusCode::from_u16` and
/// `StatusCode::canonical_reason` of `reqwest` (the `http` crate's type):
/// `from_u16` refuses codes outside 100 to 999, and then there is no phrase;
/// otherwise the phrase is the crate's table entry, which is named.
#[verifier::external_body]
fn status_reason(code: u16) -> (r: Option<&'static str>)
    ensures
        (code < 100 || code > 999) ==> r is None,
        100 <= code <= 999 ==> match r {
            Some(p) => canonical_reason(code) == Some(p@),
            None => canonical_reason(code) is None,
        },
{
    match reqwest::StatusCode::from_u16(code) {
        Ok(s) => s.canonical_reason(),
        Err(_) => None,
    }
}

/// How a status code is written: the number, a space, and its reason phrase
/// (or `<unknown status code>`).
pub open spec fn status_display(code: u16) -> Seq<char> {
    decimal(code as nat) + " "@ + match canonical_reason(code) {
        Some(p) => p,
        None => "<unknown status code>"@,
    }
}

/// The text of a portal failure.
pub open spec fn error_text(e: ClientError) -> Seq<char> {
    match e {
        ClientError::Http(t) => "http error: "@ + t@,
        ClientError::Api { status, message } => "portal returned "@ + status_display(status) + ": "@
            + message@,
        ClientError::Json(t) => "invalid json: "@ + t@,
        ClientError::Unauthorized => "session expired"@,
    }
}

impl ClientError {
    /// The failure as text (see [`error_text`]); a status is a valid code.
    pub fn message(&self) -> (r: String)
        requires
            *self matches ClientError::Api { status, .. } ==> 100 <= status <= 999,
        ensures
            r@ == error_text(*self),
    {
        match self {
            ClientError::Http(t) => {
                let mut m = owned("http error: ");
                push_str(&mut m, t.as_str());
                m
            },
            ClientError::Api { status, message } => {
                let mut m = owned("portal returned ");
                let code = u64_text(*status as u64);
                push_str(&mut m, code.as_str());
                push_str(&mut m, " ");
                match status_reason(*status) {
                    Some(p) => push_str(&mut m, p),
                    None => push_str(&mut m, "<unknown status code>"),
                }
                push_str(&mut m, ": ");
                push_str(&mut m, message.as_str());
                proof {
                    reveal_strlit(" ");
                }
                m
            },
            ClientError::Json(t) => {
                let mut m = owned("invalid json: ");
                push_str(&mut m, t.as_str());
                m
            },
            ClientError::Unauthorized => owned("session expired"),
        }
    }
}

/// Message of a failed answer: the body's `error` field when it is a string,
/// else `request failed`.
pub fn failure_message(error_field: Option<&crate::model::JsonValue>) -> (r: String)
    ensures
        r@ == match error_field {
            Some(crate::model::JsonValue::Str(m)) => m@,
            _ => "request failed"@,
        },
{
    match error_field {
        Some(crate::model::JsonValue::Str(m)) => m.clone(),
        _ => owned("request failed"),
    }
}

/// Classifies a non-success answer: 401 means the credential was rejected.
pub fn api_error(status: u16, message: String) -> (e: ClientError)
    ensures
        status == STATUS_UNAUTHORIZED ==> e is Unauthorized,
        status != STATUS_UNAUTHORIZED ==> e == (ClientError::Api { status, message }),
{
    if status == STATUS_UNAUTHORIZED {
        ClientError::Unauthorized
    } else {
        ClientError::Api { status, message }
    }
}

/// Portal endpoint and credentials.
#[derive(Debug, Clone, PartialEq)]
pub struct Client {
    base_url: String,
    token: String,
    auth_kind: AuthKind,
}

impl Client {
    /// Base URL (without trailing slashes).
    pub closed spec fn spec_base_url(&self) -> Seq<char> {
        self.base_url@
    }

    /// Credential.
    pub closed spec fn spec_token(&self) -> Seq<char> {
        self.token@
    }

    /// How the credential is sent.
    pub closed spec fn spec_auth_kind(&self) -> AuthKind {
        self.auth_kind
    }

    /// A client for `base_url` (trailing slashes dropped) using `token` as `auth_kind`.
    pub fn with_auth(base_url: &str, token: String, auth_kind: AuthKind) -> (c: Self)
        ensures
            c.spec_base_url() == trim_end_char(base_url@, '/'),
            c.spec_token() == token@,
            c.spec_auth_kind() == auth_kind,
    {
        Client { base_url: trim_end_matches_char(base_url, '/'), token, auth_kind }
    }

    /// A client authenticating with a service token.
    pub fn new(base_url: &str, token: String) -> (c: Self)
        ensures
            c.spec_base_url() == trim_end_char(base_url@, '/'),
            c.spec_token() == token@,
            c.spec_auth_kind() == AuthKind::ServiceToken,
    {
        Self::with_auth(base_url, token, AuthKind::ServiceToken)
    }

    /// A client authenticating with a session bearer token.
    pub fn with_session(base_url: &str, access_token: String) -> (c: Self)
        ensures
            c.spec_base_url() == trim_end_char(base_url@, '/'),
            c.spec_token() == access_token@,
            c.spec_auth_kind() == AuthKind::SessionBearer,
    {
        Self::with_auth(base_url, access_token, AuthKind::SessionBearer)
    }

    /// The base URL.
    pub fn base_url(&self) -> (r: &str)
        ensures
            r@ == self.spec_base_url(),
    {
        self.base_url.as_str()
    }

    /// The credential.
    pub fn token(&self) -> (r: &str)
        ensures
            r@ == self.spec_token(),
    {
        self.token.as_str()
    }

    /// How the credential is sent.
    pub fn auth_kind(&self) -> (r: AuthKind)
        ensures
            r == self.spec_auth_kind(),
    {
        self.auth_kind
    }

    /// The credential header: the service-token header with the raw token, or
    /// `Authorization: Bearer <token>`.
    pub fn auth_header(&self) -> (r: (String, String))
        ensures
            self.spec_auth_kind() is ServiceToken ==> r.0@ == SERVICE_TOKEN_HEADER@ && r.1@
                == self.spec_token(),
            self.spec_auth_kind() is SessionBearer ==> r.0@ == "Authorization"@ && r.1@
                == "Bearer "@ + self.spec_token(),
    {
        match self.auth_kind {
            AuthKind::ServiceToken => (owned(SERVICE_TOKEN_HEADER), owned(self.token.as_str())),
            AuthKind::SessionBearer => {
                let mut v = owned("Bearer ");
                push_str(&mut v, self.token.as_str());
                (owned("Authorization"), v)
            },
        }
    }

    /// Full URL of `path` on this portal.
    pub fn url(&self, path: &str) -> (r: String)
        ensures
            r@ == self.spec_base_url() + path@,
    {
        let mut r = owned(self.base_url.as_str());
        push_str(&mut r, path);
        r
    }

    /// URL of the live event stream.
    pub fn sse_url(&self) -> (r: String)
        ensures
            r@ == self.spec_base_url() + "/api/events"@,
    {
        self.url("/api/events")
    }

    /// Path of one dataset image on the proxied viewer daemon.
    pub fn viz_image_path(&self, dataset: &str, idx: u32, size: u32) -> (r: String)
        ensures
            r@ == "/viz/default/api/image?idx="@ + decimal(idx as nat) + "&dataset="@
                + percent_encoded(dataset.spec_bytes()) + "&size="@ + decimal(size as nat),
    {
        viz_image_path(dataset, idx, size)
    }
}

/// Path of one dataset image on the proxied viewer daemon.
pub fn viz_image_path(dataset: &str, idx: u32, size: u32) -> (r: String)
    ensures
        r@ == "/viz/default/api/image?idx="@ + decimal(idx as nat) + "&dataset="@ + percent_encoded(
            dataset.spec_bytes(),
        ) + "&size="@ + decimal(size as nat),
{
    let mut r = owned("/viz/default/api/image?idx=");
    push_str(&mut r, u64_text(idx as u64).as_str());
    push_str(&mut r, "&dataset=");
    push_str(&mut r, url_encode(dataset).as_str());
    push_str(&mut r, "&size=");
    push_str(&mut r, u64_text(size as u64).as_str());
    r
}

/// Path of the lazy per-run metric series.
pub fn run_series_path(pod: &str, name: &str, max_points: u32) -> (r: String)
    ensures
        r@ == "/api/runs/series?pod="@ + percent_encoded(pod.spec_bytes()) + "&name="@
            + percent_encoded(name.spec_bytes()) + "&max="@ + decimal(max_points as nat),
{
    let mut r = owned("/api/runs/series?pod=");
    push_str(&mut r, url_encode(pod).as_str());
    push_str(&mut r, "&name=");
    push_str(&mut r, url_encode(name).as_str());
    push_str(&mut r, "&max=");
    push_str(&mut r, u64_text(max_points as u64).as_str());
    r
}

/// Path of the GPU platform search for boxes of `num_gpus` GPUs.
pub fn gpu_search_path(num_gpus: u32) -> (r: String)
    ensures
        r@ == "/api/fleets/search?num_gpus="@ + decimal(num_gpus as nat),
{
    let mut r = owned("/api/fleets/search?num_gpus=");
    push_str(&mut r, u64_text(num_gpus as u64).as_str());
    r
}

/// Path of the provisioning progress of one box.
pub fn box_progress_path(contract: &str) -> (r: String)
    ensures
        r@ == "/api/boxes/progress?contract="@ + percent_encoded(contract.spec_bytes()),
{
    let mut r = owned("/api/boxes/progress?contract=");
    push_str(&mut r, url_encode(contract).as_str());
    r
}

/// `base` alone for an empty filter, else `base?key=<filter>`.
pub open spec fn filtered_path(base: Seq<char>, key: Seq<char>, filter: &str) -> Seq<char> {
    if filter@.len() == 0 {
        base
    } else {
        base + "?"@ + key + "="@ + percent_encoded(filter.spec_bytes())
    }
}

fn filtered(base: &str, key: &str, filter: &str) -> (r: String)
    ensures
        r@ == filtered_path(base@, key@, filter),
{
    let mut r = owned(base);
    if !filter.is_empty() {
        push_str(&mut r, "?");
        push_str(&mut r, key);
        push_str(&mut r, "=");
        push_str(&mut r, url_encode(filter).as_str());
    }
    r
}

/// Path of the job list, for one fleet or (empty `fleet`) all of them.
pub fn jobs_path(fleet: &str) -> (r: String)
    ensures
        r@ == filtered_path("/api/jobs"@, "fleet"@, fleet),
{
    filtered("/api/jobs", "fleet", fleet)
}

/// Path of the checkpoint index, for one fleet or (empty `fleet`) all of them.
pub fn checkpoints_path(fleet: &str) -> (r: String)
    ensures
        r@ == filtered_path("/api/checkpoints"@, "fleet"@, fleet),
{
    filtered("/api/checkpoints", "fleet", fleet)
}

/// Path of the viewer status, for one checkpoint or (empty `ckpt`) the current one.
pub fn viz_status_path(ckpt: &str) -> (r: String)
    ensures
        r@ == filtered_path("/api/viz/status"@, "ckpt"@, ckpt),
{
    filtered("/api/viz/status", "ckpt", ckpt)
}

/// Path of the relay tree of one branch, probed live or served from cache,
/// optionally restricted to one fleet.
pub fn tree_path(branch: u32, fleet: &str, probe: bool) -> (r: String)
    ensures
        r@ == "/api/tree?branch="@ + decimal(branch as nat) + "&probe="@ + (if probe {
            "1"@
        } else {
            "0"@
        }) + (if fleet@.len() == 0 {
            Seq::<char>::empty()
        } else {
            "&fleet="@ + percent_encoded(fleet.spec_bytes())
        }),
{
    let mut r = owned("/api/tree?branch=");
    push_str(&mut r, u64_text(branch as u64).as_str());
    push_str(&mut r, "&probe=");
    push_str(&mut r, if probe { "1" } else { "0" });
    if !fleet.is_empty() {
        push_str(&mut r, "&fleet=");
        push_str(&mut r, url_encode(fleet).as_str());
    }
    r
}

/// Path of a page of dataset thumbnails on the proxied viewer daemon.
pub fn viz_gallery_path(dataset: &str, start: u32, count: u32, size: u32) -> (r: String)
    ensures
        r@ == "/viz/default/api/gallery?dataset="@ + percent_encoded(dataset.spec_bytes())
            + "&start="@ + decimal(start as nat) + "&count="@ + decimal(count as nat) + "&size="@
            + decimal(size as nat),
{
    let mut r = owned("/viz/default/api/gallery?dataset=");
    push_str(&mut r, url_encode(dataset).as_str());
    push_str(&mut r, "&start=");
    push_str(&mut r, u64_text(start as u64).as_str());
    push_str(&mut r, "&count=");
    push_str(&mut r, u64_text(count as u64).as_str());
    push_str(&mut r, "&size=");
    push_str(&mut r, u64_text(size as u64).as_str());
    r
}

/// Path of one `.topo` export of a run.
pub fn topo_file_path(run: &str, file: &str) -> (r: String)
    ensures
        r@ == "/api/topology/file?run="@ + percent_encoded(run.spec_bytes()) + "&file="@
            + percent_encoded(file.spec_bytes()),
{
    let mut r = owned("/api/topology/file?run=");
    push_str(&mut r, url_encode(run).as_str());
    push_str(&mut r, "&file=");
    push_str(&mut r, url_encode(file).as_str());
    r
}

} // verus!
