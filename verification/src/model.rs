//! Portal wire types, holding plain values.
//!
//! A JSON number that the portal sends as a float is kept as the bit pattern of
//! its IEEE-754 binary64 value ([`FloatBits`]); a free-form JSON value is kept as
//! a [`JsonValue`].
use vstd::prelude::*;
use crate::text::owned;

verus! {

/// Bit pattern of an IEEE-754 binary64 value (`f64::to_bits`).
pub type FloatBits = u64;

/// A JSON value as the patching logic reads it.
#[derive(Debug, Clone, PartialEq)]
pub enum JsonValue {
    Null,
    Bool(bool),
    Str(String),
    /// A number: its JSON text, its value when it is an integer that fits in
    /// `i64`, and the bit pattern of its value as `f64`.
    Num { text: String, integer: Option<i64>, bits: FloatBits },
    /// An array or an object, as compact JSON text.
    Composite(String),
}

impl Default for JsonValue {
    /// JSON `null`.
    fn default() -> (r: Self)
        ensures
            r == JsonValue::Null,
    {
        JsonValue::Null
    }
}

/// Compact JSON text of a value that is not a string.
pub open spec fn json_text(v: JsonValue) -> Seq<char> {
    match v {
        JsonValue::Null => "null"@,
        JsonValue::Bool(b) => if b { "true"@ } else { "false"@ },
        JsonValue::Str(s) => s@,
        JsonValue::Num { text, .. } => text@,
        JsonValue::Composite(t) => t@,
    }
}

/// An identifier as text: a string as it is, any other value as its JSON text.
pub open spec fn id_text(v: JsonValue) -> Seq<char> {
    json_text(v)
}

/// `Value::as_str`.
pub open spec fn json_as_str(v: JsonValue) -> Option<String> {
    match v {
        JsonValue::Str(s) => Some(s),
        _ => None,
    }
}

/// `Value::as_i64`.
pub open spec fn json_as_i64(v: JsonValue) -> Option<i64> {
    match v {
        JsonValue::Num { integer, .. } => integer,
        _ => None,
    }
}

/// `Value::as_f64`, as a bit pattern.
pub open spec fn json_as_f64(v: JsonValue) -> Option<FloatBits> {
    match v {
        JsonValue::Num { bits, .. } => Some(bits),
        _ => None,
    }
}

impl JsonValue {
    /// A copy of this value.
    pub fn duplicate(&self) -> (r: Self)
        ensures
            r == *self,
    {
        match self {
            JsonValue::Null => JsonValue::Null,
            JsonValue::Bool(b) => JsonValue::Bool(*b),
            JsonValue::Str(s) => JsonValue::Str(s.clone()),
            JsonValue::Num { text, integer, bits } => JsonValue::Num {
                text: text.clone(),
                integer: *integer,
                bits: *bits,
            },
            JsonValue::Composite(t) => JsonValue::Composite(t.clone()),
        }
    }

    /// The value as an identifier string (see [`id_text`]).
    pub fn id_str(&self) -> (r: String)
        ensures
            r@ == id_text(*self),
    {
        match self {
            JsonValue::Null => owned("null"),
            JsonValue::Bool(b) => if *b { owned("true") } else { owned("false") },
            JsonValue::Str(s) => s.clone(),
            JsonValue::Num { text, .. } => text.clone(),
            JsonValue::Composite(t) => t.clone(),
        }
    }

    /// Whether this is JSON `null`.
    pub fn is_null(&self) -> (r: bool)
        ensures
            r == (*self is Null),
    {
        matches!(self, JsonValue::Null)
    }

    /// `Value::as_str`, owned.
    pub fn as_string(&self) -> (r: Option<String>)
        ensures
            r == json_as_str(*self),
    {
        match self {
            JsonValue::Str(s) => Some(s.clone()),
            _ => None,
        }
    }

    /// `Value::as_i64`.
    pub fn as_i64(&self) -> (r: Option<i64>)
        ensures
            r == json_as_i64(*self),
    {
        match self {
            JsonValue::Num { integer, .. } => *integer,
            _ => None,
        }
    }

    /// `Value::as_f64`, as a bit pattern.
    pub fn as_f64_bits(&self) -> (r: Option<FloatBits>)
        ensures
            r == json_as_f64(*self),
    {
        match self {
            JsonValue::Num { bits, .. } => Some(*bits),
            _ => None,
        }
    }
}

/// A copy of an optional string.
pub fn copy_opt(o: &Option<String>) -> (r: Option<String>)
    ensures
        r == *o,
{
    match o {
        Some(s) => Some(s.clone()),
        None => None,
    }
}

/// A copy of a list of strings.
pub fn copy_strings(v: &Vec<String>) -> (r: Vec<String>)
    ensures
        r@ == v@,
{
    let mut r: Vec<String> = Vec::new();
    let mut i: usize = 0;
    while i < v.len()
        invariant
            i <= v.len(),
            r@ == v@.take(i as int),
        decreases v.len() - i,
    {
        r.push(v[i].clone());
        i = i + 1;
        assert(r@ =~= v@.take(i as int));
    }
    assert(v@.take(v.len() as int) =~= v@);
    r
}

// ---------------------------------------------------------------------------
// Runs
// ---------------------------------------------------------------------------

/// Headline metric of a run's output contract.
#[derive(Debug, Clone, PartialEq, Default)]
pub struct Headline {
    pub key: String,
    pub goal: Option<String>,
    pub label: Option<String>,
}

/// One metric of a run's output contract.
#[derive(Debug, Clone, PartialEq, Default)]
pub struct RunMetricDef {
    pub key: String,
    pub label: Option<String>,
    pub lower_better: bool,
    pub priority: Option<i64>,
    pub pct: bool,
    pub log_y: bool,
    pub overlay: Vec<String>,
}

/// One media output of a run's output contract.
#[derive(Debug, Clone, PartialEq, Default)]
pub struct RunMediaDef {
    pub key: String,
    pub label: Option<String>,
    pub layout: Option<String>,
    pub hero: bool,
}

/// Output contract of a run.
#[derive(Debug, Clone, PartialEq, Default)]
pub struct RunOutput {
    pub kind: Option<String>,
    pub checkpoint_kind: Option<String>,
    pub headline: Option<Headline>,
    pub metrics: Vec<RunMetricDef>,
    pub media: Vec<RunMediaDef>,
}

/// Free-form run context.
#[derive(Debug, Clone, PartialEq, Default)]
pub struct RunContext {
    pub fields: Vec<(String, JsonValue)>,
}

/// What the dashboard may show for a run.
#[derive(Debug, Clone, PartialEq, Default)]
pub struct UiCapabilities {
    pub media_shown: Vec<String>,
    pub media_hidden: Vec<String>,
    pub interactive_viz: bool,
    pub topology_link: bool,
    pub metrics_charted: Vec<String>,
}

/// Frozen run specification.
#[derive(Debug, Clone, PartialEq, Default)]
pub struct RunSpecEnvelope {
    pub schema: Option<String>,
    pub schema_version: Option<String>,
    pub name: Option<String>,
    pub trainer: Option<String>,
    pub substrate_kind: Option<String>,
    pub data_deps: Vec<String>,
    pub output: Option<RunOutput>,
    pub context: Option<RunContext>,
    pub ui_capabilities: Option<UiCapabilities>,
}

impl RunSpecEnvelope {
    /// Whether the substrate is a language model.
    pub fn substrate_is_lm(&self) -> (r: bool)
        ensures
            r == (self.substrate_kind is Some && self.substrate_kind->0@ == "lm"@),
    {
        crate::text::opt_is(&self.substrate_kind, "lm")
    }
}

/// One row of the runs summary.
#[derive(Debug, Clone, PartialEq, Default)]
pub struct RunScalars {
    pub pod: String,
    pub name: String,
    pub group: String,
    pub fleet: String,
    pub metric: Option<String>,
    pub best: Option<FloatBits>,
    pub last_epoch: Option<i64>,
    pub last_top1: Option<FloatBits>,
    pub last_tgt: Option<FloatBits>,
    pub last_lr: Option<FloatBits>,
    pub n: Option<i64>,
    pub total_epochs: Option<i64>,
    pub eta_sec: Option<FloatBits>,
    pub sec_per_epoch: Option<FloatBits>,
    pub created: Option<FloatBits>,
    pub status: Option<String>,
    pub label: Option<String>,
    pub grid: Option<String>,
    pub dataset: Option<String>,
    pub sweep: Option<String>,
    pub runspec: Option<RunSpecEnvelope>,
    /// Scalars the summary does not name, by key (each key once).
    pub extra: Vec<(String, JsonValue)>,
}

/// One GPU model's usage.
#[derive(Debug, Clone, PartialEq, Default)]
pub struct GpuDetail {
    pub name: String,
    pub active: Option<i64>,
    pub total: Option<i64>,
    pub online: Option<bool>,
}

/// GPU usage over the whole portal.
#[derive(Debug, Clone, PartialEq, Default)]
pub struct GpuSummary {
    pub active: Option<i64>,
    pub total: Option<i64>,
    pub detail: Vec<GpuDetail>,
}

/// The runs summary.
#[derive(Debug, Clone, PartialEq, Default)]
pub struct RunsSummary {
    pub updated: Option<String>,
    pub title: Option<String>,
    pub unit: Option<String>,
    pub scale: Option<FloatBits>,
    pub metric: Option<String>,
    pub runs: Vec<RunScalars>,
    pub gpus: GpuSummary,
    pub stale: Option<bool>,
}

/// Headline value carried by a live run event.
#[derive(Debug, Clone, PartialEq)]
pub struct SseHeadline {
    pub key: String,
    pub value: FloatBits,
    pub best: bool,
}

/// Live run delta (`type: "run"`).
#[derive(Debug, Clone, PartialEq, Default)]
pub struct SseRunEvent {
    pub kind: String,
    pub pod: String,
    pub run: String,
    pub v: Option<i64>,
    pub ts: Option<FloatBits>,
    pub headline: Option<SseHeadline>,
    /// Changed scalars, by key (each key once).
    pub scalars: Vec<(String, JsonValue)>,
    /// One new series point, by key (each key once).
    pub point: Vec<(String, JsonValue)>,
}

impl SseRunEvent {
    /// Whether this is a version-2 run event.
    pub fn is_run_v2(&self) -> (r: bool)
        ensures
            r == (self.kind@ == "run"@ && self.v == Some(2i64)),
    {
        crate::text::str_eq(self.kind.as_str(), "run") && self.v == Some(2i64)
    }
}

// ---------------------------------------------------------------------------
// Fleets, boxes, jobs, relay tree
// ---------------------------------------------------------------------------

/// A fleet of pods.
#[derive(Debug, Clone, PartialEq, Default)]
pub struct Fleet {
    pub id: String,
    pub name: String,
    pub pods_path: String,
    pub n_pods: i64,
    pub active: bool,
    pub status: String,
    pub pool_profile: Option<String>,
    pub contracts: Vec<i64>,
    pub provisioning: Option<JsonValue>,
}

/// The fleet roster.
#[derive(Debug, Clone, PartialEq, Default)]
pub struct FleetsResp {
    pub fleets: Vec<Fleet>,
    pub active: String,
    pub default: String,
}

/// State of one pod of a job.
#[derive(Debug, Clone, PartialEq, Default)]
pub struct JobPod {
    pub pod: String,
    pub state: String,
    pub updated: Option<String>,
}

/// A job running on a fleet.
#[derive(Debug, Clone, PartialEq, Default)]
pub struct Job {
    pub job_id: String,
    pub fleet: String,
    pub pods_path: String,
    pub run_name: String,
    pub state: String,
    pub created: Option<String>,
    pub updated: Option<String>,
    pub pods: Vec<JobPod>,
}

/// The job list.
#[derive(Debug, Clone, PartialEq, Default)]
pub struct JobsResp {
    pub jobs: Vec<Job>,
    pub error: Option<String>,
}

/// A GPU box.
#[derive(Debug, Clone, PartialEq, Default)]
pub struct Instance {
    pub id: JsonValue,
    pub label: Option<String>,
    pub provider: String,
    pub gpu_name: Option<String>,
    pub num_gpus: Option<i64>,
    pub status: Option<String>,
    pub ssh_host: Option<String>,
    pub ssh_port: Option<JsonValue>,
    pub region: Option<String>,
    pub fleet_id: Option<String>,
    pub fleet_name: Option<String>,
    pub pod_name: Option<String>,
    pub provision_state: Option<String>,
    pub assignable: Option<bool>,
    pub error: Option<String>,
}

impl Instance {
    /// The box id as text.
    pub fn id_str(&self) -> (r: String)
        ensures
            r@ == id_text(self.id),
    {
        self.id.id_str()
    }

    /// A copy of this box.
    pub fn duplicate(&self) -> (r: Self)
        ensures
            r == *self,
    {
        Instance {
            id: self.id.duplicate(),
            label: copy_opt(&self.label),
            provider: self.provider.clone(),
            gpu_name: copy_opt(&self.gpu_name),
            num_gpus: self.num_gpus,
            status: copy_opt(&self.status),
            ssh_host: copy_opt(&self.ssh_host),
            ssh_port: match &self.ssh_port {
                Some(p) => Some(p.duplicate()),
                None => None,
            },
            region: copy_opt(&self.region),
            fleet_id: copy_opt(&self.fleet_id),
            fleet_name: copy_opt(&self.fleet_name),
            pod_name: copy_opt(&self.pod_name),
            provision_state: copy_opt(&self.provision_state),
            assignable: self.assignable,
            error: copy_opt(&self.error),
        }
    }
}

/// The box roster.
#[derive(Debug, Clone, PartialEq, Default)]
pub struct InstancesResp {
    pub ok: bool,
    pub configured: bool,
    pub total: i64,
    pub unassigned: i64,
    pub instances: Vec<Instance>,
    pub error: Option<String>,
}

/// One node of a fleet's relay tree.
#[derive(Debug, Clone, PartialEq, Default)]
pub struct TreeNode {
    pub tag: String,
    pub parent: Option<String>,
    pub children: Vec<String>,
    pub state: Option<String>,
    pub up: bool,
    pub relay: bool,
    pub stale: bool,
    pub metric_name: Option<String>,
    pub metric_value: Option<FloatBits>,
    pub epoch: Option<i64>,
    pub gpus_total: Option<i64>,
    pub gpus_free: Option<i64>,
    /// Gossip nodes merged; drives live edge styling.
    pub gnodes: Option<i64>,
    pub host: Option<String>,
    pub port: Option<JsonValue>,
}

/// A fleet's relay tree.
#[derive(Debug, Clone, PartialEq, Default)]
pub struct TreeResp {
    pub nodes: Vec<TreeNode>,
    pub root: Option<String>,
    pub branch: i64,
    pub depth: i64,
    pub fleet: i64,
    pub ts: FloatBits,
}

/// Live job delta (`type: "job"`).
#[derive(Debug, Clone, PartialEq, Default)]
pub struct SseJobEvent {
    pub kind: String,
    pub v: Option<i64>,
    pub job_id: String,
    pub fleet: String,
    pub state: String,
    pub pod: Option<String>,
    pub ts: Option<FloatBits>,
}

impl SseJobEvent {
    /// Whether the event is a job event.
    pub fn is_job(&self) -> (r: bool)
        ensures
            r == (self.kind@ == "job"@),
    {
        crate::text::str_eq(self.kind.as_str(), "job")
    }
}

/// Live box delta (`type: "box"`).
#[derive(Debug, Clone, PartialEq, Default)]
pub struct SseBoxEvent {
    pub kind: String,
    pub id: JsonValue,
    /// Present with `None` clears the assignment; absent leaves it unchanged.
    pub fleet_id: Option<Option<String>>,
    pub status: Option<String>,
    pub provision_state: Option<String>,
    pub assignable: Option<bool>,
    pub error: Option<String>,
    pub gpu_name: Option<String>,
    pub num_gpus: Option<i64>,
    pub pod_name: Option<String>,
    pub label: Option<String>,
    pub ts: Option<FloatBits>,
    pub v: Option<i64>,
}

impl SseBoxEvent {
    /// Whether the event is a box event.
    pub fn is_box(&self) -> (r: bool)
        ensures
            r == (self.kind@ == "box"@),
    {
        crate::text::str_eq(self.kind.as_str(), "box")
    }

    /// The box id as text.
    pub fn id_str(&self) -> (r: String)
        ensures
            r@ == id_text(self.id),
    {
        self.id.id_str()
    }
}

/// Live fleet delta (`type: "fleet"`).
#[derive(Debug, Clone, PartialEq, Default)]
pub struct SseFleetEvent {
    pub kind: String,
    pub id: String,
    pub status: Option<String>,
    pub n_pods: Option<i64>,
    pub active: Option<bool>,
    pub ts: Option<FloatBits>,
    pub v: Option<i64>,
}

impl SseFleetEvent {
    /// Whether the event is a fleet event.
    pub fn is_fleet(&self) -> (r: bool)
        ensures
            r == (self.kind@ == "fleet"@),
    {
        crate::text::str_eq(self.kind.as_str(), "fleet")
    }
}

/// Live relay-tree node delta (`type: "node"`).
#[derive(Debug, Clone, PartialEq, Default)]
pub struct SseNodeEvent {
    pub kind: String,
    pub fleet: String,
    pub tag: String,
    pub pod: Option<String>,
    pub state: Option<String>,
    pub up: Option<bool>,
    pub stale: Option<bool>,
    pub epoch: Option<i64>,
    pub metric_name: Option<String>,
    pub metric_value: Option<FloatBits>,
    pub gpus_free: Option<i64>,
    pub parent: Option<String>,
    pub children: Option<Vec<String>>,
    pub ts: Option<FloatBits>,
    pub v: Option<i64>,
}

impl SseNodeEvent {
    /// Whether the event is a node event.
    pub fn is_node(&self) -> (r: bool)
        ensures
            r == (self.kind@ == "node"@),
    {
        crate::text::str_eq(self.kind.as_str(), "node")
    }
}

/// Provisioning log of one box.
#[derive(Debug, Clone, PartialEq, Default)]
pub struct BoxProgressResp {
    pub ok: bool,
    pub contract: Option<String>,
    pub state: Option<String>,
    pub message: Option<String>,
    pub done: Option<bool>,
    pub lines: Vec<String>,
    pub error: Option<String>,
}

/// Provisioning states after which a box no longer changes by itself.
pub open spec fn is_terminal_state(s: Seq<char>) -> bool {
    s == "ready"@ || s == "error"@ || s == "failed"@ || s == "done"@ || s == "assigned"@ || s
        == "untracked"@
}

impl BoxProgressResp {
    /// Whether provisioning has finished: the `done` flag, or a terminal state.
    pub fn is_terminal(&self) -> (r: bool)
        ensures
            r == (self.done == Some(true) || (self.state is Some && is_terminal_state(
                self.state->0@,
            ))),
    {
        if self.done == Some(true) {
            return true;
        }
        match &self.state {
            Some(s) => {
                let s = s.as_str();
                crate::text::str_eq(s, "ready") || crate::text::str_eq(s, "error")
                    || crate::text::str_eq(s, "failed") || crate::text::str_eq(s, "done")
                    || crate::text::str_eq(s, "assigned") || crate::text::str_eq(s, "untracked")
            },
            None => false,
        }
    }
}

/// One GPU offer group of the rent search.
#[derive(Debug, Clone, PartialEq, Default)]
pub struct GpuSearchGroup {
    pub gpu_filter: String,
    pub gpu_name: String,
    pub num_gpus: i64,
    pub count: Option<JsonValue>,
    pub dph_min: Option<FloatBits>,
    pub dph_med: Option<FloatBits>,
    pub dph_max: Option<FloatBits>,
    pub vram_gb: Option<FloatBits>,
}

/// The rent search.
#[derive(Debug, Clone, PartialEq, Default)]
pub struct GpuSearchResp {
    pub ok: bool,
    pub configured: bool,
    pub provider: Option<String>,
    pub groups: Vec<GpuSearchGroup>,
    pub error: Option<String>,
}

// ---------------------------------------------------------------------------
// Sign-in
// ---------------------------------------------------------------------------

/// Body of the one-time code exchange.
#[derive(Debug, Clone, PartialEq, Default)]
pub struct TokenExchangeRequest {
    pub code: String,
    pub state: String,
}

/// Answer of the one-time code exchange.
#[derive(Debug, Clone, PartialEq, Default)]
pub struct TokenResponse {
    pub access_token: String,
    pub token_type: Option<String>,
    pub exp: Option<i64>,
    pub email: Option<String>,
}

/// Body of the service-token login.
#[derive(Debug, Clone, PartialEq, Default)]
pub struct SessionLoginRequest {
    pub token: String,
}

/// Answer of the service-token login.
#[derive(Debug, Clone, PartialEq, Default)]
pub struct SessionLoginResponse {
    pub ok: bool,
    pub exp: Option<i64>,
    pub ttl: Option<i64>,
    pub access_token: Option<String>,
}

} // verus!
