//! What the cards, chips and bars say: a relay node's epoch, GPUs, state and
//! detail rows, the tone a status is drawn in, a box chip's texts, the fleet
//! roster's title, and a run's command-bar readings and configuration lines.
use vstd::prelude::*;
use crate::health::{is_lm_run, lm_run};
use crate::model::{id_text, FloatBits, Instance, RunScalars, TreeNode};
use crate::series::{column, last_finite, RunSeries};
use crate::text::{i64_text, int_text, opt_is, owned, push_str, str_eq, u64_text, decimal};

verus! {

/// The tone a node's status is drawn in.
#[derive(Debug, Clone, Copy, PartialEq, Eq, Structural)]
pub enum NodeTone {
    /// The node is down.
    Down,
    /// Running or ready.
    Live,
    /// Preparing or starting.
    Pending,
    /// Failed.
    Error,
    /// Any other state.
    Idle,
}

/// `o` is `Some` of text `t`.
pub open spec fn is_text(o: Option<String>, t: Seq<char>) -> bool {
    o is Some && o->0@ == t
}

/// The tone of a node's status: down first, then by its state. (A selected
/// card is framed in the selection colour whatever its tone.)
pub open spec fn tone_of_node(n: TreeNode) -> NodeTone {
    if !n.up {
        NodeTone::Down
    } else if is_text(n.state, "running"@) || is_text(n.state, "ready"@) {
        NodeTone::Live
    } else if is_text(n.state, "preparing"@) || is_text(n.state, "starting"@) {
        NodeTone::Pending
    } else if is_text(n.state, "error"@) {
        NodeTone::Error
    } else {
        NodeTone::Idle
    }
}

/// The tone of a node's status (see [`tone_of_node`]).
pub fn node_tone(n: &TreeNode) -> (r: NodeTone)
    ensures
        r == tone_of_node(*n),
{
    if !n.up {
        NodeTone::Down
    } else if opt_is(&n.state, "running") || opt_is(&n.state, "ready") {
        NodeTone::Live
    } else if opt_is(&n.state, "preparing") || opt_is(&n.state, "starting") {
        NodeTone::Pending
    } else if opt_is(&n.state, "error") {
        NodeTone::Error
    } else {
        NodeTone::Idle
    }
}

/// A card's epoch line: `epoch` and the epoch, or a dash.
pub open spec fn epoch_line(n: TreeNode) -> Seq<char> {
    match n.epoch {
        Some(e) => "epoch "@ + int_text(e as int),
        None => "epoch \u{2014}"@,
    }
}

/// A card's epoch line (see [`epoch_line`]).
pub fn node_epoch_text(n: &TreeNode) -> (r: String)
    ensures
        r@ == epoch_line(*n),
{
    match n.epoch {
        Some(e) => {
            let mut m = owned("epoch ");
            push_str(&mut m, i64_text(e).as_str());
            m
        },
        None => owned("epoch \u{2014}"),
    }
}

/// A card's GPU line: free of total, the total alone, or a dash.
pub open spec fn gpu_line(n: TreeNode) -> Seq<char> {
    match (n.gpus_free, n.gpus_total) {
        (Some(f), Some(t)) => "gpu "@ + int_text(f as int) + "/"@ + int_text(t as int),
        (None, Some(t)) => "gpu \u{d7}"@ + int_text(t as int),
        _ => "gpu \u{2014}"@,
    }
}

/// A card's GPU line (see [`gpu_line`]).
pub fn node_gpu_text(n: &TreeNode) -> (r: String)
    ensures
        r@ == gpu_line(*n),
{
    match (n.gpus_free, n.gpus_total) {
        (Some(f), Some(t)) => {
            let mut m = owned("gpu ");
            push_str(&mut m, i64_text(f).as_str());
            push_str(&mut m, "/");
            push_str(&mut m, i64_text(t).as_str());
            m
        },
        (None, Some(t)) => {
            let mut m = owned("gpu \u{d7}");
            push_str(&mut m, i64_text(t).as_str());
            m
        },
        _ => owned("gpu \u{2014}"),
    }
}

/// A card's state: the node's state, else `up` or `down`.
pub open spec fn state_line(n: TreeNode) -> Seq<char> {
    match n.state {
        Some(s) => s@,
        None => if n.up { "up"@ } else { "down"@ },
    }
}

/// A card's state (see [`state_line`]).
pub fn node_state_text(n: &TreeNode) -> (r: String)
    ensures
        r@ == state_line(*n),
{
    match &n.state {
        Some(s) => s.clone(),
        None => if n.up {
            owned("up")
        } else {
            owned("down")
        },
    }
}

/// The detail rows of a selected node, as label and value: its tag, its
/// parent when it has one, its state (a dash without one), its link, its
/// epoch and GPUs when known, and its host when known.
pub open spec fn detail_rows(n: TreeNode) -> Seq<(Seq<char>, Seq<char>)> {
    let a: Seq<(Seq<char>, Seq<char>)> = seq![("tag"@, n.tag@)];
    let b = match n.parent {
        Some(p) => a.push(("parent"@, p@)),
        None => a,
    };
    let c = b.push(
        (
            "state"@,
            match n.state {
                Some(s) => s@,
                None => "\u{2014}"@,
            },
        ),
    ).push(("link"@, if n.up { "up"@ } else { "down"@ }));
    let d = match n.epoch {
        Some(e) => c.push(("epoch"@, int_text(e as int))),
        None => c,
    };
    let e = match (n.gpus_free, n.gpus_total) {
        (Some(f), Some(t)) => d.push(("gpus"@, int_text(f as int) + " free / "@ + int_text(t as int))),
        (None, Some(t)) => d.push(("gpus"@, "\u{d7}"@ + int_text(t as int))),
        _ => d,
    };
    match n.host {
        Some(h) => e.push(("host"@, h@)),
        None => e,
    }
}

/// Texts of label and value pairs.
pub open spec fn pair_texts(v: Seq<(String, String)>) -> Seq<(Seq<char>, Seq<char>)> {
    v.map_values(|p: (String, String)| (p.0@, p.1@))
}

fn push_row(rows: &mut Vec<(String, String)>, label: &str, value: String)
    ensures
        pair_texts(final(rows)@) == pair_texts(old(rows)@).push((label@, value@)),
{
    let ghost before = rows@;
    rows.push((owned(label), value));
    assert(pair_texts(rows@) =~= pair_texts(before).push((label@, value@)));
}

/// The detail rows of a selected node (see [`detail_rows`]); the metric row,
/// whose value is a floating-point reading, follows them.
pub fn node_detail_rows(n: &TreeNode) -> (r: Vec<(String, String)>)
    ensures
        pair_texts(r@) == detail_rows(*n),
{
    let mut rows: Vec<(String, String)> = Vec::new();
    assert(pair_texts(rows@) =~= Seq::<(Seq<char>, Seq<char>)>::empty());
    push_row(&mut rows, "tag", n.tag.clone());
    match &n.parent {
        Some(p) => push_row(&mut rows, "parent", p.clone()),
        None => {},
    }
    let state = match &n.state {
        Some(s) => s.clone(),
        None => owned("\u{2014}"),
    };
    push_row(&mut rows, "state", state);
    push_row(&mut rows, "link", if n.up { owned("up") } else { owned("down") });
    match n.epoch {
        Some(e) => push_row(&mut rows, "epoch", i64_text(e)),
        None => {},
    }
    match (n.gpus_free, n.gpus_total) {
        (Some(f), Some(t)) => {
            let mut m = i64_text(f);
            push_str(&mut m, " free / ");
            push_str(&mut m, i64_text(t).as_str());
            push_row(&mut rows, "gpus", m);
        },
        (None, Some(t)) => {
            let mut m = owned("\u{d7}");
            push_str(&mut m, i64_text(t).as_str());
            push_row(&mut rows, "gpus", m);
        },
        _ => {},
    }
    match &n.host {
        Some(h) => push_row(&mut rows, "host", h.clone()),
        None => {},
    }
    rows
}

/// A box chip's name: the pod it runs, else its label, else its id.
pub open spec fn chip_label(b: Instance) -> Seq<char> {
    match b.pod_name {
        Some(p) => p@,
        None => match b.label {
            Some(l) => l@,
            None => id_text(b.id),
        },
    }
}

/// A box chip's GPU line: the GPU model (`GPU` when unknown) times the count
/// (0 when unknown).
pub open spec fn chip_gpus(b: Instance) -> Seq<char> {
    (match b.gpu_name {
        Some(g) => g@,
        None => "GPU"@,
    }) + " \u{d7}"@ + int_text(
        match b.num_gpus {
            Some(n) => n as int,
            None => 0,
        },
    )
}

/// A box chip's provisioning state: its provisioning state, else its
/// status, unless empty or `ready`.
pub open spec fn chip_provision(b: Instance) -> Option<Seq<char>> {
    let s = match b.provision_state {
        Some(p) => Some(p@),
        None => match b.status {
            Some(t) => Some(t@),
            None => None,
        },
    };
    match s {
        Some(t) => if t.len() > 0 && t != "ready"@ {
            Some(t)
        } else {
            None
        },
        None => None,
    }
}

/// A box chip's texts: name, GPU line and provisioning state (see
/// [`chip_label`], [`chip_gpus`] and [`chip_provision`]).
pub fn box_chip_texts(b: &Instance) -> (r: (String, String, Option<String>))
    ensures
        r.0@ == chip_label(*b),
        r.1@ == chip_gpus(*b),
        match r.2 {
            Some(t) => chip_provision(*b) == Some(t@),
            None => chip_provision(*b) is None,
        },
{
    let label = match &b.pod_name {
        Some(p) => p.clone(),
        None => match &b.label {
            Some(l) => l.clone(),
            None => b.id_str(),
        },
    };
    let mut gpus = match &b.gpu_name {
        Some(g) => g.clone(),
        None => owned("GPU"),
    };
    push_str(&mut gpus, " \u{d7}");
    let n: i64 = match b.num_gpus {
        Some(n) => n,
        None => 0,
    };
    push_str(&mut gpus, i64_text(n).as_str());
    let state = match &b.provision_state {
        Some(p) => Some(p),
        None => match &b.status {
            Some(t) => Some(t),
            None => None,
        },
    };
    let provision = match state {
        Some(t) => if !t.as_str().is_empty() && !crate::text::str_eq(t.as_str(), "ready") {
            Some(t.clone())
        } else {
            None
        },
        None => None,
    };
    (label, gpus, provision)
}


/// The tone of a fleet's or job's status dot: running, ready or assigned are
/// live; preparing, starting, booting or provisioning pending; error an
/// error; anything else idle.
pub open spec fn status_dot(status: Seq<char>) -> NodeTone {
    if status == "running"@ || status == "ready"@ || status == "assigned"@ {
        NodeTone::Live
    } else if status == "preparing"@ || status == "starting"@ || status == "booting"@ || status == "provisioning"@ {
        NodeTone::Pending
    } else if status == "error"@ {
        NodeTone::Error
    } else {
        NodeTone::Idle
    }
}

/// The tone of a status dot (see [`status_dot`]).
pub fn status_dot_tone(status: &str) -> (r: NodeTone)
    ensures
        r == status_dot(status@),
{
    if str_eq(status, "running") || str_eq(status, "ready") || str_eq(status, "assigned") {
        NodeTone::Live
    } else if str_eq(status, "preparing") || str_eq(status, "starting") || str_eq(status, "booting") || str_eq(
        status,
        "provisioning",
    ) {
        NodeTone::Pending
    } else if str_eq(status, "error") {
        NodeTone::Error
    } else {
        NodeTone::Idle
    }
}

/// The fleet roster's title: the number of fleets, and an ellipsis while the
/// tree loads.
pub open spec fn roster_title_text(n: nat, loading: bool) -> Seq<char> {
    "FLEETS ("@ + decimal(n) + if loading { ") \u{2026}"@ } else { ")"@ }
}

/// The fleet roster's title (see [`roster_title_text`]).
pub fn roster_title(n: usize, loading: bool) -> (r: String)
    ensures
        r@ == roster_title_text(n as nat, loading),
{
    let mut m = owned("FLEETS (");
    push_str(&mut m, u64_text(n as u64).as_str());
    if loading {
        push_str(&mut m, ") \u{2026}");
    } else {
        push_str(&mut m, ")");
    }
    m
}

/// The latest finite value of a column of an optional series.
pub open spec fn latest_of(s: Option<RunSeries>, key: Seq<char>) -> Option<FloatBits> {
    match s {
        Some(x) => last_finite(column(x.metrics@, key)),
        None => None,
    }
}

/// `a`, else `b`.
pub open spec fn or_else(a: Option<FloatBits>, b: Option<FloatBits>) -> Option<FloatBits> {
    match a {
        Some(x) => Some(x),
        None => b,
    }
}

/// The readings a run's command bar shows (as binary64 bits): the objective
/// (a language model's validation cross-entropy, else its perplexity; other
/// runs' loss; else the summary's last top-1), the learning rate (else the
/// summary's), the gradient norm and the GPU utilisation.
#[derive(Debug, Clone, Copy, PartialEq, Eq)]
pub struct Kpis {
    /// Whether the run is a language model (its best is a perplexity).
    pub lm: bool,
    pub loss: Option<FloatBits>,
    pub lr: Option<FloatBits>,
    pub gnorm: Option<FloatBits>,
    pub util: Option<FloatBits>,
}

/// The command bar's readings (see [`Kpis`]).
pub fn command_kpis(run: &RunScalars, series: Option<&RunSeries>) -> (r: Kpis)
    ensures
        ({
            let s = match series {
                Some(x) => Some(*x),
                None => None,
            };
            &&& r.lm == lm_run(*run)
            &&& r.loss == or_else(
                if lm_run(*run) {
                    or_else(latest_of(s, "ce_val"@), latest_of(s, "ppl"@))
                } else {
                    latest_of(s, "loss"@)
                },
                run.last_top1,
            )
            &&& r.lr == or_else(latest_of(s, "lr"@), run.last_lr)
            &&& r.gnorm == latest_of(s, "gnorm"@)
            &&& r.util == latest_of(s, "gpu_util"@)
        }),
{
    let lm = is_lm_run(run);
    let (loss, lr, gnorm, util) = match series {
        Some(s) => {
            let l = if lm {
                match s.latest("ce_val") {
                    Some(v) => Some(v),
                    None => s.latest("ppl"),
                }
            } else {
                s.latest("loss")
            };
            (l, s.latest("lr"), s.latest("gnorm"), s.latest("gpu_util"))
        },
        None => (None, None, None, None),
    };
    Kpis {
        lm,
        loss: match loss {
            Some(v) => Some(v),
            None => run.last_top1,
        },
        lr: match lr {
            Some(v) => Some(v),
            None => run.last_lr,
        },
        gnorm,
        util,
    }
}

/// The run's configuration lines: dataset, grid, metric and sweep, each a
/// dash when unset.
pub open spec fn config_rows(run: RunScalars) -> Seq<(Seq<char>, Seq<char>)> {
    let v = |o: Option<String>| match o {
        Some(x) => x@,
        None => "\u{2014}"@,
    };
    seq![("DATASET"@, v(run.dataset)), ("GRID"@, v(run.grid)), ("METRIC"@, v(run.metric)), ("SWEEP"@, v(run.sweep))]
}

fn or_dash(o: &Option<String>) -> (r: String)
    ensures
        r@ == match *o {
            Some(x) => x@,
            None => "\u{2014}"@,
        },
{
    match o {
        Some(x) => x.clone(),
        None => owned("\u{2014}"),
    }
}

/// The run's configuration lines (see [`config_rows`]); the start time, a
/// local clock reading, follows them.
pub fn config_lines(run: &RunScalars) -> (r: Vec<(String, String)>)
    ensures
        pair_texts(r@) == config_rows(*run),
{
    let mut rows: Vec<(String, String)> = Vec::new();
    assert(pair_texts(rows@) =~= Seq::<(Seq<char>, Seq<char>)>::empty());
    push_row(&mut rows, "DATASET", or_dash(&run.dataset));
    push_row(&mut rows, "GRID", or_dash(&run.grid));
    push_row(&mut rows, "METRIC", or_dash(&run.metric));
    push_row(&mut rows, "SWEEP", or_dash(&run.sweep));
    assert(pair_texts(rows@) =~= config_rows(*run));
    rows
}


/// A count header: the title and the count in parentheses.
pub open spec fn count_title_text(title: Seq<char>, n: nat) -> Seq<char> {
    title + " ("@ + decimal(n) + ")"@
}

fn count_title(title: &str, n: usize) -> (r: String)
    ensures
        r@ == count_title_text(title@, n as nat),
{
    let mut m = owned(title);
    push_str(&mut m, " (");
    push_str(&mut m, u64_text(n as u64).as_str());
    push_str(&mut m, ")");
    m
}

/// The operations rail's jobs header: `JOBS` and the number of jobs.
pub fn jobs_title(n: usize) -> (r: String)
    ensures
        r@ == count_title_text("JOBS"@, n as nat),
{
    count_title("JOBS", n)
}

/// The operations rail's boxes header: `UNASSIGNED GPU` and the number of
/// free boxes.
pub fn free_boxes_title(n: usize) -> (r: String)
    ensures
        r@ == count_title_text("UNASSIGNED GPU"@, n as nat),
{
    count_title("UNASSIGNED GPU", n)
}

/// The note under the boxes header: shown only without free boxes.
pub fn free_boxes_note(n: usize) -> (r: Option<&'static str>)
    ensures
        n == 0 ==> (r matches Some(t) && t@ == "no free boxes"@),
        n > 0 ==> r is None,
{
    if n == 0 {
        Some("no free boxes")
    } else {
        None
    }
}

/// The note over an empty relay board: probing while the tree loads, else
/// how to seed the fleet; nothing when the board has nodes.
pub fn board_note(node_count: usize, loading: bool) -> (r: Option<&'static str>)
    ensures
        node_count > 0 ==> r is None,
        node_count == 0 && loading ==> (r matches Some(t) && t@ == "PROBING RELAY TREE \u{2026}"@),
        node_count == 0 && !loading ==> (r matches Some(t) && t@
            == "NO RELAY TREE \u{2014} drag a GPU box here to seed this fleet"@),
{
    if node_count > 0 {
        None
    } else if loading {
        Some("PROBING RELAY TREE \u{2026}")
    } else {
        Some("NO RELAY TREE \u{2014} drag a GPU box here to seed this fleet")
    }
}

} // verus!
