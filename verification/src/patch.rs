//! Live-event cache patching: applies portal deltas to cached collections in place.
use vstd::prelude::*;
use crate::model::{
    copy_opt, copy_strings, id_text, json_as_f64, json_as_i64, json_as_str, FleetsResp, Instance,
    InstancesResp, Job, JobPod, JsonValue, RunScalars, RunsSummary, SseBoxEvent, SseFleetEvent,
    SseJobEvent, SseNodeEvent, SseRunEvent, TreeNode, TreeResp, Fleet, FloatBits,
};
use crate::seqs::{
    count_matching, first_match, lemma_count_push, lemma_filter_push,
    lemma_first_match_at, lemma_first_match_none, lemma_first_match_props,
};
use crate::text::{has_prefix, opt_is, str_eq, str_starts_with, string_eq};

verus! {

/// Result of applying a box or fleet delta to a cached collection.
#[derive(Debug, Clone, Copy, PartialEq, Eq, Structural)]
pub enum PatchOutcome {
    /// An existing row matched the event id and was patched in place.
    Updated,
    /// No matching row was found; the caller should refetch the collection.
    NotFound,
}

/// Result of applying a node delta to a cached relay tree.
#[derive(Debug, Clone, Copy, PartialEq, Eq, Structural)]
pub enum TreePatchOutcome {
    /// An existing node matched the event tag and was patched in place.
    Updated,
    /// No node matched the tag, so a new node was appended.
    Inserted,
}

/// Default cap on the points kept per live series.
pub const DEFAULT_MAX_POINTS: usize = 600;

/// Default cap on the points kept per live series.
pub fn default_max_points() -> (r: usize)
    ensures
        r == DEFAULT_MAX_POINTS,
{
    DEFAULT_MAX_POINTS
}

/// The last `cap` items of `s`; all of them when `cap` is 0 or not exceeded.
pub open spec fn capped<T>(s: Seq<T>, cap: usize) -> Seq<T> {
    if cap > 0 && s.len() > cap {
        s.skip(s.len() - cap)
    } else {
        s
    }
}

/// A capped list never holds more than `cap` items (when `cap` is set), and
/// it ends with the list's last items.
pub proof fn lemma_capped_bound<T>(s: Seq<T>, cap: usize)
    ensures
        cap > 0 ==> capped(s, cap).len() <= cap,
        capped(s, cap).len() <= s.len(),
        forall|k: int|
            0 <= k < capped(s, cap).len() ==> #[trigger] capped(s, cap)[k] == s[s.len() - capped(s, cap).len() + k],
{
}

/// Keeps the last `cap` items (all of them when `cap` is 0).
pub fn trim_vec<T>(arr: &mut Vec<T>, cap: usize)
    ensures
        final(arr)@ == capped(old(arr)@, cap),
{
    if cap > 0 && arr.len() > cap {
        let drop = arr.len() - cap;
        let tail = arr.split_off(drop);
        *arr = tail;
    }
}

/// The epoch a series point carries, when it is an integer.
pub open spec fn point_epoch(point: Seq<(String, JsonValue)>) -> Option<i64> {
    match crate::roster::field(point, "epoch"@) {
        Some(v) => json_as_i64(v),
        None => None,
    }
}

/// The numeric value a series point carries for a metric column (never for `epoch`).
pub open spec fn point_value(point: Seq<(String, JsonValue)>, key: Seq<char>) -> Option<FloatBits> {
    if key == "epoch"@ {
        None
    } else {
        match crate::roster::field(point, key) {
            Some(v) => json_as_f64(v),
            None => None,
        }
    }
}

/// Appends one live point to a series: nothing happens unless the point
/// carries an integer `epoch`; then the epoch is appended, and each existing
/// column the point has a number for gets it appended; every grown list
/// keeps its last `cap` items.
pub fn append_point(
    epochs: &mut Vec<i64>,
    metrics: &mut Vec<(String, Vec<FloatBits>)>,
    point: &[(String, JsonValue)],
    cap: usize,
)
    ensures
        match point_epoch(point@) {
            None => final(epochs)@ == old(epochs)@ && final(metrics)@ == old(metrics)@,
            Some(e) => {
                &&& final(epochs)@ == capped(old(epochs)@.push(e), cap)
                &&& final(metrics)@.len() == old(metrics)@.len()
                &&& forall|i: int|
                    0 <= i < old(metrics)@.len() ==> {
                        &&& (#[trigger] final(metrics)@[i]).0 == old(metrics)@[i].0
                        &&& final(metrics)@[i].1@ == match point_value(point@, old(metrics)@[i].0@) {
                            Some(b) => capped(old(metrics)@[i].1@.push(b), cap),
                            None => old(metrics)@[i].1@,
                        }
                    }
            },
        },
{
    let epoch = match crate::roster::get_field(point, "epoch") {
        Some(v) => match v.as_i64() {
            Some(e) => e,
            None => return,
        },
        None => return,
    };
    epochs.push(epoch);
    trim_vec(epochs, cap);
    let ghost before = metrics@;
    let mut i: usize = 0;
    while i < metrics.len()
        invariant
            i <= metrics.len(),
            metrics@.len() == before.len(),
            forall|j: int| i <= j < before.len() ==> #[trigger] metrics@[j] == before[j],
            forall|j: int|
                0 <= j < i ==> {
                    &&& (#[trigger] metrics@[j]).0 == before[j].0
                    &&& metrics@[j].1@ == match point_value(point@, before[j].0@) {
                        Some(b) => capped(before[j].1@.push(b), cap),
                        None => before[j].1@,
                    }
                },
        decreases metrics.len() - i,
    {
        let is_epoch = str_eq(metrics[i].0.as_str(), "epoch");
        let val = if is_epoch {
            None
        } else {
            match crate::roster::get_field(point, metrics[i].0.as_str()) {
                Some(v) => v.as_f64_bits(),
                None => None,
            }
        };
        proof {
            reveal_strlit("epoch");
        }
        if let Some(b) = val {
            let (key, mut vals) = metrics.remove(i);
            vals.push(b);
            trim_vec(&mut vals, cap);
            metrics.insert(i, (key, vals));
        }
        i = i + 1;
    }
}

/// The optional string holds exactly `lit`.
pub open spec fn opt_eq(o: Option<String>, lit: Seq<char>) -> bool {
    o is Some && o->0@ == lit
}

// ---------------------------------------------------------------------------
// Runs summary
// ---------------------------------------------------------------------------

/// Scalar keys that the summary row names as fields.
pub open spec fn is_named_scalar(k: Seq<char>) -> bool {
    k == "status"@ || k == "metric"@ || k == "label"@ || k == "grid"@ || k == "dataset"@ || k
        == "sweep"@ || k == "last_epoch"@ || k == "n"@ || k == "total_epochs"@ || k == "eta_sec"@
        || k == "sec_per_epoch"@ || k == "last_top1"@ || k == "last_tgt"@ || k == "last_lr"@ || k
        == "best"@ || k == "created"@
}

/// One scalar applied to the named fields of a row: `null` changes nothing;
/// string fields take the value's string, integer fields its `i64` value and
/// float fields its `f64` value (each `None` when the value has none).
pub open spec fn set_named(row: RunScalars, k: Seq<char>, v: JsonValue) -> RunScalars {
    if v is Null {
        row
    } else if k == "status"@ {
        RunScalars { status: json_as_str(v), ..row }
    } else if k == "metric"@ {
        RunScalars { metric: json_as_str(v), ..row }
    } else if k == "label"@ {
        RunScalars { label: json_as_str(v), ..row }
    } else if k == "grid"@ {
        RunScalars { grid: json_as_str(v), ..row }
    } else if k == "dataset"@ {
        RunScalars { dataset: json_as_str(v), ..row }
    } else if k == "sweep"@ {
        RunScalars { sweep: json_as_str(v), ..row }
    } else if k == "last_epoch"@ {
        RunScalars { last_epoch: json_as_i64(v), ..row }
    } else if k == "n"@ {
        RunScalars { n: json_as_i64(v), ..row }
    } else if k == "total_epochs"@ {
        RunScalars { total_epochs: json_as_i64(v), ..row }
    } else if k == "eta_sec"@ {
        RunScalars { eta_sec: json_as_f64(v), ..row }
    } else if k == "sec_per_epoch"@ {
        RunScalars { sec_per_epoch: json_as_f64(v), ..row }
    } else if k == "last_top1"@ {
        RunScalars { last_top1: json_as_f64(v), ..row }
    } else if k == "last_tgt"@ {
        RunScalars { last_tgt: json_as_f64(v), ..row }
    } else if k == "last_lr"@ {
        RunScalars { last_lr: json_as_f64(v), ..row }
    } else if k == "best"@ {
        RunScalars { best: json_as_f64(v), ..row }
    } else if k == "created"@ {
        RunScalars { created: json_as_f64(v), ..row }
    } else {
        row
    }
}

/// The named fields after applying `scalars` in order.
pub open spec fn named_after(row: RunScalars, scalars: Seq<(String, JsonValue)>) -> RunScalars
    decreases scalars.len(),
{
    if scalars.len() == 0 {
        row
    } else {
        let pre = named_after(row, scalars.drop_last());
        set_named(pre, scalars.last().0@, scalars.last().1)
    }
}

/// `m` with `k` mapped to `v`: an entry with the same key keeps its key and
/// takes `v`; otherwise the pair is appended.
pub open spec fn map_insert(m: Seq<(String, JsonValue)>, k: String, v: JsonValue) -> Seq<
    (String, JsonValue),
> {
    match first_match(m, |e: (String, JsonValue)| e.0@ == k@) {
        Some(i) => m.update(i, (m[i].0, v)),
        None => m.push((k, v)),
    }
}

/// The extra scalars after applying `scalars` in order: every non-`null` value
/// under a key the row does not name is inserted.
pub open spec fn extra_after(extra: Seq<(String, JsonValue)>, scalars: Seq<(String, JsonValue)>) -> Seq<
    (String, JsonValue),
>
    decreases scalars.len(),
{
    if scalars.len() == 0 {
        extra
    } else {
        let pre = extra_after(extra, scalars.drop_last());
        let (k, v) = scalars.last();
        if v is Null || is_named_scalar(k@) {
            pre
        } else {
            map_insert(pre, k, v)
        }
    }
}

/// `new` is `old` with the event's scalars applied.
pub open spec fn scalars_applied(old: RunScalars, new: RunScalars, scalars: Seq<(String, JsonValue)>) -> bool {
    &&& new == (RunScalars { extra: new.extra, ..named_after(old, scalars) })
    &&& new.extra@ == extra_after(old.extra@, scalars)
}

/// The summary row an event addresses: the same pod and run name.
pub open spec fn run_key_matches(ev: SseRunEvent) -> spec_fn(RunScalars) -> bool {
    |r: RunScalars| r.pod@ == ev.pod@ && r.name@ == ev.run@
}

/// `new` is `old` with the event applied: scalars first, then a best headline
/// value becomes the row's best.
pub open spec fn run_patched(old: RunScalars, new: RunScalars, ev: SseRunEvent) -> bool {
    match ev.headline {
        Some(h) if h.best => exists|mid: RunScalars|
            #![trigger scalars_applied(old, mid, ev.scalars@)]
            scalars_applied(old, mid, ev.scalars@) && new == (RunScalars { best: Some(h.value), ..mid }),
        _ => scalars_applied(old, new, ev.scalars@),
    }
}

/// The entry at `j` sets the status (its key is `status` and its value is not
/// `null`), and no later entry does.
pub open spec fn last_status_entry(scalars: Seq<(String, JsonValue)>, j: int) -> bool {
    &&& 0 <= j < scalars.len()
    &&& scalars[j].0@ == "status"@
    &&& !(scalars[j].1 is Null)
    &&& forall|k: int| j < k < scalars.len() ==> !(#[trigger] scalars[k].0@ == "status"@) || scalars[k].1 is Null
}

/// Applying scalars leaves the status alone unless one sets it; then the last
/// that does decides it (its string, none for a value that is no string).
proof fn lemma_named_after_status(row: RunScalars, scalars: Seq<(String, JsonValue)>)
    ensures
        (forall|k: int| 0 <= k < scalars.len() ==> !(#[trigger] scalars[k].0@ == "status"@) || scalars[k].1 is Null)
            ==> named_after(row, scalars).status == row.status,
        forall|j: int| #[trigger] last_status_entry(scalars, j) ==> named_after(row, scalars).status == json_as_str(
            scalars[j].1,
        ),
    decreases scalars.len(),
{
    if scalars.len() > 0 {
        let pre = scalars.drop_last();
        lemma_named_after_status(row, pre);
        let n = scalars.len() - 1;
        if (forall|k: int| 0 <= k < scalars.len() ==> !(#[trigger] scalars[k].0@ == "status"@) || scalars[k].1 is Null) {
            assert forall|k: int| 0 <= k < pre.len() implies !(#[trigger] pre[k].0@ == "status"@) || pre[k].1 is Null by {
                assert(pre[k] == scalars[k]);
            }
            assert(!(scalars[n].0@ == "status"@) || scalars[n].1 is Null);
        }
        assert forall|j: int| #[trigger] last_status_entry(scalars, j) implies named_after(row, scalars).status
            == json_as_str(scalars[j].1) by {
            if j < n {
                assert(!(scalars[n].0@ == "status"@) || scalars[n].1 is Null);
                assert(last_status_entry(pre, j)) by {
                    assert forall|k: int| j < k < pre.len() implies !(#[trigger] pre[k].0@ == "status"@) || pre[k].1 is Null by {
                        assert(pre[k] == scalars[k]);
                        assert(!(scalars[k].0@ == "status"@) || scalars[k].1 is Null);
                    }
                }
            }
        }
    }
}

/// Live patching sets the status: when the event's scalars carry a
/// non-`null` status under exactly one entry, the patched row's status is that
/// value's string (none when it is no string); when no entry sets the status
/// it stays as it was.
pub proof fn lemma_status_scalar_sets_status(old: RunScalars, new: RunScalars, ev: SseRunEvent, j: int)
    requires
        run_patched(old, new, ev),
    ensures
        0 <= j < ev.scalars@.len() && ev.scalars@[j].0@ == "status"@ && !(ev.scalars@[j].1 is Null) && (forall|
            k: int,
        | 0 <= k < ev.scalars@.len() && k != j ==> !(#[trigger] ev.scalars@[k].0@ == "status"@))
            ==> new.status == json_as_str(ev.scalars@[j].1),
        (forall|k: int|
            0 <= k < ev.scalars@.len() ==> !(#[trigger] ev.scalars@[k].0@ == "status"@) || ev.scalars@[k].1 is Null)
            ==> new.status == old.status,
{
    let sc = ev.scalars@;
    lemma_named_after_status(old, sc);
    if 0 <= j < sc.len() && sc[j].0@ == "status"@ && !(sc[j].1 is Null) && (forall|k: int|
        0 <= k < sc.len() && k != j ==> !(#[trigger] sc[k].0@ == "status"@)) {
        assert(last_status_entry(sc, j));
    }
    match ev.headline {
        Some(h) => {
            if h.best {
                let mid = choose|mid: RunScalars|
                    #![trigger scalars_applied(old, mid, ev.scalars@)]
                    scalars_applied(old, mid, ev.scalars@) && new == (RunScalars { best: Some(h.value), ..mid });
                assert(mid.status == named_after(old, sc).status);
            }
        },
        None => {},
    }
}

/// Index of the entry keyed `k`.
fn find_key(m: &Vec<(String, JsonValue)>, k: &String) -> (r: Option<usize>)
    ensures
        r matches Some(i) ==> first_match(m@, |e: (String, JsonValue)| e.0@ == k@) == Some(i as int),
        r is None ==> first_match(m@, |e: (String, JsonValue)| e.0@ == k@) is None,
{
    let ghost p = |e: (String, JsonValue)| e.0@ == k@;
    let mut i: usize = 0;
    while i < m.len()
        invariant
            i <= m.len(),
            p == (|e: (String, JsonValue)| e.0@ == k@),
            forall|j: int| 0 <= j < i ==> !p(#[trigger] m@[j]),
        decreases m.len() - i,
    {
        if string_eq(&m[i].0, k) {
            proof {
                lemma_first_match_at(m@, p, i as int);
            }
            return Some(i);
        }
        i = i + 1;
    }
    proof {
        lemma_first_match_none(m@, p);
    }
    None
}

/// Maps `k` to `v` in the entries `m` (see [`map_insert`]).
fn insert_entry(m: &mut Vec<(String, JsonValue)>, k: String, v: JsonValue)
    ensures
        final(m)@ == map_insert(old(m)@, k, v),
{
    match find_key(m, &k) {
        Some(i) => {
            proof {
                lemma_first_match_props(m@, |e: (String, JsonValue)| e.0@ == k@);
            }
            let key = m[i].0.clone();
            m.set(i, (key, v));
        },
        None => {
            m.push((k, v));
        },
    }
}

/// Applies one scalar to a row.
fn apply_scalar(row: &mut RunScalars, k: &String, v: &JsonValue)
    ensures
        *final(row) == (RunScalars { extra: final(row).extra, ..set_named(*old(row), k@, *v) }),
        final(row).extra@ == (if *v is Null || is_named_scalar(k@) {
            old(row).extra@
        } else {
            map_insert(old(row).extra@, *k, *v)
        }),
{
    if v.is_null() {
        return;
    }
    let ks = k.as_str();
    if str_eq(ks, "status") {
        row.status = v.as_string();
    } else if str_eq(ks, "metric") {
        row.metric = v.as_string();
    } else if str_eq(ks, "label") {
        row.label = v.as_string();
    } else if str_eq(ks, "grid") {
        row.grid = v.as_string();
    } else if str_eq(ks, "dataset") {
        row.dataset = v.as_string();
    } else if str_eq(ks, "sweep") {
        row.sweep = v.as_string();
    } else if str_eq(ks, "last_epoch") {
        row.last_epoch = v.as_i64();
    } else if str_eq(ks, "n") {
        row.n = v.as_i64();
    } else if str_eq(ks, "total_epochs") {
        row.total_epochs = v.as_i64();
    } else if str_eq(ks, "eta_sec") {
        row.eta_sec = v.as_f64_bits();
    } else if str_eq(ks, "sec_per_epoch") {
        row.sec_per_epoch = v.as_f64_bits();
    } else if str_eq(ks, "last_top1") {
        row.last_top1 = v.as_f64_bits();
    } else if str_eq(ks, "last_tgt") {
        row.last_tgt = v.as_f64_bits();
    } else if str_eq(ks, "last_lr") {
        row.last_lr = v.as_f64_bits();
    } else if str_eq(ks, "best") {
        row.best = v.as_f64_bits();
    } else if str_eq(ks, "created") {
        row.created = v.as_f64_bits();
    } else {
        insert_entry(&mut row.extra, k.clone(), v.duplicate());
    }
}

/// Applies the event's scalars, in order, to a row.
fn apply_scalars(row: &mut RunScalars, scalars: &Vec<(String, JsonValue)>)
    ensures
        scalars_applied(*old(row), *final(row), scalars@),
{
    let ghost start = *row;
    let mut i: usize = 0;
    while i < scalars.len()
        invariant
            i <= scalars.len(),
            scalars_applied(start, *row, scalars@.take(i as int)),
        decreases scalars.len() - i,
    {
        let ghost t = scalars@.take(i + 1);
        assert(t.drop_last() =~= scalars@.take(i as int));
        apply_scalar(row, &scalars[i].0, &scalars[i].1);
        i = i + 1;
    }
    assert(scalars@.take(scalars.len() as int) =~= scalars@);
}

/// Index of the summary row an event addresses.
fn find_run(runs: &Vec<RunScalars>, ev: &SseRunEvent) -> (r: Option<usize>)
    ensures
        r matches Some(i) ==> first_match(runs@, run_key_matches(*ev)) == Some(i as int),
        r is None ==> first_match(runs@, run_key_matches(*ev)) is None,
{
    let ghost p = run_key_matches(*ev);
    let mut i: usize = 0;
    while i < runs.len()
        invariant
            i <= runs.len(),
            p == run_key_matches(*ev),
            forall|j: int| 0 <= j < i ==> !p(#[trigger] runs@[j]),
        decreases runs.len() - i,
    {
        if string_eq(&runs[i].pod, &ev.pod) && string_eq(&runs[i].name, &ev.run) {
            proof {
                lemma_first_match_at(runs@, p, i as int);
            }
            return Some(i);
        }
        i = i + 1;
    }
    proof {
        lemma_first_match_none(runs@, p);
    }
    None
}

fn patch_run_row(row: &mut RunScalars, ev: &SseRunEvent)
    ensures
        run_patched(*old(row), *final(row), *ev),
{
    apply_scalars(row, &ev.scalars);
    let ghost mid = *row;
    match &ev.headline {
        Some(h) => {
            if h.best {
                row.best = Some(h.value);
                assert(scalars_applied(*old(row), mid, ev.scalars@));
            }
        },
        None => {},
    }
}

/// Patches the summary row the event addresses (first row with the event's pod
/// and run name): its scalars, then a best headline value. Returns whether a
/// row matched; when none does the summary is left as it was.
pub fn patch_summary(summary: &mut RunsSummary, ev: &SseRunEvent) -> (found: bool)
    ensures
        match first_match(old(summary).runs@, run_key_matches(*ev)) {
            Some(i) => {
                &&& found
                &&& final(summary).runs@.len() == old(summary).runs@.len()
                &&& forall|j: int| 0 <= j < old(summary).runs@.len() && j != i ==> final(summary).runs@[j] == old(summary).runs@[j]
                &&& run_patched(old(summary).runs@[i], final(summary).runs@[i], *ev)
            },
            None => !found && final(summary).runs@ == old(summary).runs@,
        },
        *final(summary) == (RunsSummary { runs: final(summary).runs, ..*old(summary) }),
{
    match find_run(&summary.runs, ev) {
        Some(i) => {
            proof {
                lemma_first_match_props(summary.runs@, run_key_matches(*ev));
            }
            patch_run_row(&mut summary.runs[i], ev);
            true
        },
        None => false,
    }
}

// ---------------------------------------------------------------------------
// Boxes
// ---------------------------------------------------------------------------

/// An `untracked` box is back in the free pool and can be (re)assigned.
pub open spec fn with_untracked_assignable(row: Instance) -> Instance {
    if opt_eq(row.provision_state, "untracked"@) {
        Instance { assignable: Some(true), ..row }
    } else {
        row
    }
}

/// `new` if present, else `old`.
pub open spec fn or_keep<T>(new: Option<T>, old: Option<T>) -> Option<T> {
    if new is Some { new } else { old }
}

/// A box row after a delta: only fields present on the event override the
/// row (a present `fleet_id` of `None` clears the assignment), then an
/// `untracked` box becomes assignable.
pub open spec fn patched_instance(row: Instance, ev: SseBoxEvent) -> Instance {
    with_untracked_assignable(
        Instance {
            fleet_id: match ev.fleet_id {
                Some(f) => f,
                None => row.fleet_id,
            },
            status: or_keep(ev.status, row.status),
            provision_state: or_keep(ev.provision_state, row.provision_state),
            assignable: or_keep(ev.assignable, row.assignable),
            error: or_keep(ev.error, row.error),
            gpu_name: or_keep(ev.gpu_name, row.gpu_name),
            num_gpus: or_keep(ev.num_gpus, row.num_gpus),
            pod_name: or_keep(ev.pod_name, row.pod_name),
            label: or_keep(ev.label, row.label),
            ..row
        },
    )
}

/// Applying the same box delta twice gives the row it gives once, and a
/// delta never changes a row's id.
pub proof fn lemma_patch_instance_idempotent(row: Instance, ev: SseBoxEvent)
    ensures
        patched_instance(patched_instance(row, ev), ev) == patched_instance(row, ev),
        patched_instance(row, ev).id == row.id,
{
}

/// A box delta overrides exactly the fields it carries: each carried field
/// takes the delta's value (a carried `fleet_id` of `None` clears the fleet),
/// each field it leaves out keeps the row's value, the fields a delta never
/// carries are untouched, and a box left `untracked` becomes assignable.
pub proof fn lemma_box_delta_fields(row: Instance, ev: SseBoxEvent)
    ensures
        ({
            let r = patched_instance(row, ev);
            &&& r.id == row.id && r.provider == row.provider && r.ssh_host == row.ssh_host
            &&& r.ssh_port == row.ssh_port && r.region == row.region && r.fleet_name == row.fleet_name
            &&& (ev.fleet_id is Some ==> r.fleet_id == ev.fleet_id->0)
            &&& (ev.fleet_id is None ==> r.fleet_id == row.fleet_id)
            &&& (ev.status is Some ==> r.status == ev.status) && (ev.status is None ==> r.status == row.status)
            &&& (ev.provision_state is Some ==> r.provision_state == ev.provision_state)
            &&& (ev.provision_state is None ==> r.provision_state == row.provision_state)
            &&& (ev.error is Some ==> r.error == ev.error) && (ev.error is None ==> r.error == row.error)
            &&& (ev.gpu_name is Some ==> r.gpu_name == ev.gpu_name) && (ev.gpu_name is None ==> r.gpu_name == row.gpu_name)
            &&& (ev.num_gpus is Some ==> r.num_gpus == ev.num_gpus) && (ev.num_gpus is None ==> r.num_gpus == row.num_gpus)
            &&& (ev.pod_name is Some ==> r.pod_name == ev.pod_name) && (ev.pod_name is None ==> r.pod_name == row.pod_name)
            &&& (ev.label is Some ==> r.label == ev.label) && (ev.label is None ==> r.label == row.label)
            &&& (opt_eq(r.provision_state, "untracked"@) ==> r.assignable == Some(true))
            &&& (!opt_eq(r.provision_state, "untracked"@) && ev.assignable is Some ==> r.assignable == ev.assignable)
            &&& (!opt_eq(r.provision_state, "untracked"@) && ev.assignable is None ==> r.assignable == row.assignable)
        }),
{
}

/// Rows whose id is the event's id.
pub open spec fn same_id(id: Seq<char>) -> spec_fn(Instance) -> bool {
    |r: Instance| id_text(r.id) == id
}

/// Rows whose id is not the event's id.
pub open spec fn other_id(id: Seq<char>) -> spec_fn(Instance) -> bool {
    |r: Instance| id_text(r.id) != id
}

/// Rows with no fleet.
pub open spec fn is_unassigned() -> spec_fn(Instance) -> bool {
    |r: Instance| r.fleet_id is None
}

/// The roster's counters agree with its rows.
pub open spec fn counts_agree(resp: InstancesResp) -> bool {
    &&& resp.total == resp.instances@.len() as i64
    &&& resp.unassigned == count_matching(resp.instances@, is_unassigned()) as i64
}

/// Everything but the rows and the counters is unchanged.
pub open spec fn same_header(a: InstancesResp, b: InstancesResp) -> bool {
    a.ok == b.ok && a.configured == b.configured && a.error == b.error
}

fn apply_untracked(row: &mut Instance)
    ensures
        *final(row) == with_untracked_assignable(*old(row)),
{
    if opt_is(&row.provision_state, "untracked") {
        row.assignable = Some(true);
    }
}

fn patch_instance(row: &mut Instance, ev: &SseBoxEvent)
    ensures
        *final(row) == patched_instance(*old(row), *ev),
{
    match &ev.fleet_id {
        Some(f) => {
            row.fleet_id = copy_opt(f);
        },
        None => {},
    }
    if ev.status.is_some() {
        row.status = copy_opt(&ev.status);
    }
    if ev.provision_state.is_some() {
        row.provision_state = copy_opt(&ev.provision_state);
    }
    if ev.assignable.is_some() {
        row.assignable = ev.assignable;
    }
    if ev.error.is_some() {
        row.error = copy_opt(&ev.error);
    }
    if ev.gpu_name.is_some() {
        row.gpu_name = copy_opt(&ev.gpu_name);
    }
    if ev.num_gpus.is_some() {
        row.num_gpus = ev.num_gpus;
    }
    if ev.pod_name.is_some() {
        row.pod_name = copy_opt(&ev.pod_name);
    }
    if ev.label.is_some() {
        row.label = copy_opt(&ev.label);
    }
    apply_untracked(row);
}

/// Index of the first box with id `id`.
fn find_box(rows: &Vec<Instance>, id: &String) -> (r: Option<usize>)
    ensures
        r matches Some(i) ==> first_match(rows@, same_id(id@)) == Some(i as int),
        r is None ==> first_match(rows@, same_id(id@)) is None,
{
    let ghost p = same_id(id@);
    let mut i: usize = 0;
    while i < rows.len()
        invariant
            i <= rows.len(),
            p == same_id(id@),
            forall|j: int| 0 <= j < i ==> !p(#[trigger] rows@[j]),
        decreases rows.len() - i,
    {
        let rid = rows[i].id_str();
        if string_eq(&rid, id) {
            proof {
                lemma_first_match_at(rows@, p, i as int);
            }
            return Some(i);
        }
        i = i + 1;
    }
    proof {
        lemma_first_match_none(rows@, p);
    }
    None
}

/// Number of rows without a fleet.
fn count_unassigned(rows: &Vec<Instance>) -> (n: i64)
    ensures
        n == count_matching(rows@, is_unassigned()) as i64,
{
    let mut n: u64 = 0;
    let mut i: usize = 0;
    while i < rows.len()
        invariant
            i <= rows.len(),
            n == count_matching(rows@.take(i as int), is_unassigned()),
            n <= i,
        decreases rows.len() - i,
    {
        proof {
            lemma_count_push(rows@.take(i as int), is_unassigned(), rows@[i as int]);
            assert(rows@.take(i + 1) =~= rows@.take(i as int).push(rows@[i as int]));
        }
        if rows[i].fleet_id.is_none() {
            n = n + 1;
        }
        i = i + 1;
    }
    assert(rows@.take(rows.len() as int) =~= rows@);
    n as i64
}

/// Sets both counters from the rows.
pub(crate) fn recount(resp: &mut InstancesResp)
    ensures
        counts_agree(*final(resp)),
        final(resp).instances@ == old(resp).instances@,
        same_header(*old(resp), *final(resp)),
{
    resp.total = resp.instances.len() as i64;
    resp.unassigned = count_unassigned(&resp.instances);
}

/// `n` is the roster `o` after the box delta `ev`, with outcome `out` (see [`patch_box`]).
pub open spec fn box_patch(o: InstancesResp, n: InstancesResp, ev: SseBoxEvent, out: PatchOutcome) -> bool {
    &&& same_header(o, n)
    &&& n.unassigned == o.unassigned
    &&& (if opt_eq(ev.provision_state, "destroyed"@) {
            &&& n.instances@ == o.instances@.filter(other_id(id_text(ev.id)))
            &&& out == (if n.instances@.len() < o.instances@.len() {
                PatchOutcome::Updated
            } else {
                PatchOutcome::NotFound
            })
            &&& out == PatchOutcome::Updated ==> n.total == n.instances@.len() as i64
            &&& out == PatchOutcome::NotFound ==> n.total == o.total
        } else {
            &&& n.total == o.total
            &&& match first_match(o.instances@, same_id(id_text(ev.id))) {
                Some(i) => out == PatchOutcome::Updated && n.instances@ == o.instances@.update(i, patched_instance(o.instances@[i], ev)),
                None => out == PatchOutcome::NotFound && n.instances@ == o.instances@,
            }
        })
}

/// Applies a `box` delta to the roster.
///
/// A `destroyed` delta removes every row with the event's id (pending rent slots
/// are replaced by real ids) and resets the total; it is `Updated` when a row
/// went away. Any other delta patches the first row with the event's id (see
/// [`patched_instance`]); without such a row the roster is unchanged and the
/// outcome is `NotFound`.
pub fn patch_box(resp: &mut InstancesResp, ev: &SseBoxEvent) -> (out: PatchOutcome)
    ensures
        box_patch(*old(resp), *final(resp), *ev, out),
{
    let id = ev.id_str();
    if opt_is(&ev.provision_state, "destroyed") {
        let ghost p = other_id(id@);
        let before = resp.instances.len();
        let mut kept: Vec<Instance> = Vec::new();
        let rows = &resp.instances;
        let ghost all = rows@;
        let mut i: usize = 0;
        while i < rows.len()
            invariant
                i <= rows.len(),
                rows@ == all,
                p == other_id(id@),
                kept@ == all.take(i as int).filter(p),
            decreases rows.len() - i,
        {
            proof {
                lemma_filter_push(all.take(i as int), p, all[i as int]);
                assert(all.take(i + 1) =~= all.take(i as int).push(all[i as int]));
            }
            let rid = rows[i].id_str();
            if !string_eq(&rid, &id) {
                kept.push(rows[i].duplicate());
            }
            i = i + 1;
        }
        assert(all.take(all.len() as int) =~= all);
        proof {
            crate::seqs::lemma_filter_len(all, p);
        }
        resp.instances = kept;
        assert(resp.instances@ == old(resp).instances@.filter(other_id(id_text(ev.id))));
        if resp.instances.len() < before {
            resp.total = resp.instances.len() as i64;
            return PatchOutcome::Updated;
        }
        return PatchOutcome::NotFound;
    }
    match find_box(&resp.instances, &id) {
        Some(i) => {
            proof {
                lemma_first_match_props(resp.instances@, same_id(id@));
            }
            patch_instance(&mut resp.instances[i], ev);
            PatchOutcome::Updated
        },
        None => PatchOutcome::NotFound,
    }
}

/// The row a delta inserts: the event's fields on a `nebius` box with nothing
/// else set, made assignable when `untracked`.
pub open spec fn inserted_from(row: Instance, ev: SseBoxEvent) -> bool {
    let base = Instance {
        id: ev.id,
        label: ev.label,
        provider: row.provider,
        gpu_name: ev.gpu_name,
        num_gpus: ev.num_gpus,
        status: ev.status,
        ssh_host: None,
        ssh_port: None,
        region: None,
        fleet_id: match ev.fleet_id {
            Some(f) => f,
            None => None,
        },
        fleet_name: None,
        pod_name: ev.pod_name,
        provision_state: ev.provision_state,
        assignable: ev.assignable,
        error: ev.error,
    };
    &&& row.provider@ == "nebius"@
    &&& row == with_untracked_assignable(base)
}

/// `n` is the roster `o` with a row for the box delta `ev` appended (see [`insert_box`]).
pub open spec fn box_inserted(o: InstancesResp, n: InstancesResp, ev: SseBoxEvent) -> bool {
    &&& n.instances@.len() == o.instances@.len() + 1
    &&& n.instances@.drop_last() == o.instances@
    &&& inserted_from(n.instances@.last(), ev)
    &&& counts_agree(n)
    &&& same_header(o, n)
}

/// Appends a new row built from a `box` delta (rent/assign in flight) and
/// recounts the roster.
pub fn insert_box(resp: &mut InstancesResp, ev: &SseBoxEvent)
    ensures
        box_inserted(*old(resp), *final(resp), *ev),
{
    let fleet_id = match &ev.fleet_id {
        Some(inner) => copy_opt(inner),
        None => None,
    };
    let mut row = Instance {
        id: ev.id.duplicate(),
        label: copy_opt(&ev.label),
        provider: crate::text::owned("nebius"),
        gpu_name: copy_opt(&ev.gpu_name),
        num_gpus: ev.num_gpus,
        status: copy_opt(&ev.status),
        ssh_host: None,
        ssh_port: None,
        region: None,
        fleet_id,
        fleet_name: None,
        pod_name: copy_opt(&ev.pod_name),
        provision_state: copy_opt(&ev.provision_state),
        assignable: ev.assignable,
        error: copy_opt(&ev.error),
    };
    apply_untracked(&mut row);
    let ghost before = resp.instances@;
    resp.instances.push(row);
    assert(resp.instances@.drop_last() =~= before);
    recount(resp);
}

/// Provisioning states of a box that is still coming up.
pub open spec fn is_booting_state(s: Seq<char>) -> bool {
    s == "booting"@ || s == "provisioning"@ || s == "creating"@
}

/// A row still in flight locally: a pending rent slot, or a box whose
/// provisioning state or status says it is still coming up.
pub open spec fn instance_in_flight(row: Instance) -> bool {
    ||| has_prefix(id_text(row.id), "pending-"@)
    ||| (row.provision_state is Some && (is_booting_state(row.provision_state->0@)
        || row.provision_state->0@ == "pending"@))
    ||| (row.status is Some && is_booting_state(row.status->0@))
}

fn opt_in(o: &Option<String>, with_pending: bool) -> (r: bool)
    ensures
        r == (o is Some && (is_booting_state(o->0@) || (with_pending && o->0@ == "pending"@))),
{
    match o {
        Some(s) => {
            let s = s.as_str();
            str_eq(s, "booting") || str_eq(s, "provisioning") || str_eq(s, "creating") || (
            with_pending && str_eq(s, "pending"))
        },
        None => false,
    }
}

/// Whether a row is in flight locally (see [`instance_in_flight`]).
pub fn is_instance_in_flight(row: &Instance) -> (r: bool)
    ensures
        r == instance_in_flight(*row),
{
    let id = row.id_str();
    str_starts_with(id.as_str(), "pending-") || opt_in(&row.provision_state, true) || opt_in(
        &row.status,
        false,
    )
}

/// Cached rows that a reconcile poll keeps: in flight and not returned by the portal.
pub open spec fn kept_from_cache(fetched: Seq<Instance>) -> spec_fn(Instance) -> bool {
    |r: Instance|
        instance_in_flight(r) && !(exists|k: int|
            0 <= k < fetched.len() && #[trigger] id_text(fetched[k].id) == id_text(r.id))
}

fn id_in(rows: &Vec<Instance>, n: usize, id: &String) -> (r: bool)
    requires
        n <= rows.len(),
    ensures
        r == exists|k: int| 0 <= k < n && #[trigger] id_text(rows@[k].id) == id@,
{
    let mut i: usize = 0;
    while i < n
        invariant
            i <= n <= rows.len(),
            forall|k: int| 0 <= k < i ==> #[trigger] id_text(rows@[k].id) != id@,
        decreases n - i,
    {
        let rid = rows[i].id_str();
        if string_eq(&rid, id) {
            return true;
        }
        i = i + 1;
    }
    false
}

/// Merges a reconcile poll with the cached roster: the fetched rows, then every
/// cached row still in flight locally whose id the portal did not return, in
/// cached order; the counters are recomputed.
pub fn merge_instances_reconcile(cached: &InstancesResp, fetched: InstancesResp) -> (merged: InstancesResp)
    ensures
        merged.instances@ == fetched.instances@ + cached.instances@.filter(
            kept_from_cache(fetched.instances@),
        ),
        counts_agree(merged),
        same_header(fetched, merged),
{
    let ghost f0 = fetched;
    let mut fetched = fetched;
    let n = fetched.instances.len();
    let ghost orig = fetched.instances@;
    let ghost p = kept_from_cache(orig);
    let mut i: usize = 0;
    while i < cached.instances.len()
        invariant
            i <= cached.instances.len(),
            n == orig.len(),
            fetched.instances@.take(n as int) == orig,
            n <= fetched.instances@.len(),
            p == kept_from_cache(orig),
            fetched.instances@ == orig + cached.instances@.take(i as int).filter(p),
            same_header(f0, fetched),
        decreases cached.instances.len() - i,
    {
        let row = &cached.instances[i];
        proof {
            lemma_filter_push(cached.instances@.take(i as int), p, cached.instances@[i as int]);
            assert(cached.instances@.take(i + 1) =~= cached.instances@.take(i as int).push(
                cached.instances@[i as int],
            ));
        }
        let rid = row.id_str();
        let seen = id_in(&fetched.instances, n, &rid);
        assert(seen == exists|k: int| 0 <= k < orig.len() && #[trigger] id_text(orig[k].id) == id_text(row.id)) by {
            if seen {
                let k = choose|k: int| 0 <= k < n && #[trigger] id_text(fetched.instances@[k].id) == rid@;
                assert(fetched.instances@[k] == orig[k]);
            }
            if exists|k: int| 0 <= k < orig.len() && #[trigger] id_text(orig[k].id) == id_text(row.id) {
                let k = choose|k: int| 0 <= k < orig.len() && #[trigger] id_text(orig[k].id) == id_text(row.id);
                assert(fetched.instances@[k] == orig[k]);
            }
        }
        if !seen && is_instance_in_flight(row) {
            let ghost before = fetched.instances@;
            fetched.instances.push(row.duplicate());
            assert(fetched.instances@ =~= before.push(*row));
            assert(fetched.instances@.take(n as int) =~= before.take(n as int));
        }
        i = i + 1;
    }
    assert(cached.instances@.take(cached.instances@.len() as int) =~= cached.instances@);
    recount(&mut fetched);
    fetched
}

// ---------------------------------------------------------------------------
// Fleets and jobs
// ---------------------------------------------------------------------------

/// A fleet row after a delta: status, pod count and active flag when present.
pub open spec fn patched_fleet(row: Fleet, ev: SseFleetEvent) -> Fleet {
    Fleet {
        status: match ev.status {
            Some(s) => s,
            None => row.status,
        },
        n_pods: match ev.n_pods {
            Some(n) => n,
            None => row.n_pods,
        },
        active: match ev.active {
            Some(a) => a,
            None => row.active,
        },
        ..row
    }
}

/// Fleets whose id is the event's id.
pub open spec fn fleet_id_is(id: Seq<char>) -> spec_fn(Fleet) -> bool {
    |f: Fleet| f.id@ == id
}

/// `n` is the fleet roster `o` after the fleet delta `ev`, with outcome `out` (see [`patch_fleet`]).
pub open spec fn fleet_patch(o: FleetsResp, n: FleetsResp, ev: SseFleetEvent, out: PatchOutcome) -> bool {
    &&& n.active == o.active
    &&& n.default == o.default
    &&& (match first_match(o.fleets@, fleet_id_is(ev.id@)) {
            Some(i) => out == PatchOutcome::Updated && n.fleets@ == o.fleets@.update(i, patched_fleet(o.fleets@[i], ev)),
            None => out == PatchOutcome::NotFound && n.fleets@ == o.fleets@,
        })
}

/// Patches the first fleet with the event's id; `NotFound` (roster unchanged)
/// when there is none.
pub fn patch_fleet(resp: &mut FleetsResp, ev: &SseFleetEvent) -> (out: PatchOutcome)
    ensures
        fleet_patch(*old(resp), *final(resp), *ev, out),
{
    let ghost p = fleet_id_is(ev.id@);
    let mut i: usize = 0;
    while i < resp.fleets.len()
        invariant
            i <= resp.fleets.len(),
            p == fleet_id_is(ev.id@),
            *resp == *old(resp),
            forall|j: int| 0 <= j < i ==> !p(#[trigger] resp.fleets@[j]),
        decreases resp.fleets.len() - i,
    {
        if string_eq(&resp.fleets[i].id, &ev.id) {
            proof {
                lemma_first_match_at(resp.fleets@, p, i as int);
            }
            patch_fleet_row(&mut resp.fleets[i], ev);
            return PatchOutcome::Updated;
        }
        i = i + 1;
    }
    proof {
        lemma_first_match_none(resp.fleets@, p);
    }
    PatchOutcome::NotFound
}

fn patch_fleet_row(row: &mut Fleet, ev: &SseFleetEvent)
    ensures
        *final(row) == patched_fleet(*old(row), *ev),
{
    match &ev.status {
        Some(s) => {
            row.status = s.clone();
        },
        None => {},
    }
    match ev.n_pods {
        Some(n) => {
            row.n_pods = n;
        },
        None => {},
    }
    match ev.active {
        Some(a) => {
            row.active = a;
        },
        None => {},
    }
}

/// A fleet delta patches the first fleet with its id and nothing else: that
/// fleet takes the status, pod count and active flag the delta carries and
/// keeps every field the delta does not carry; every other fleet, and the
/// roster's header, stay as they were. The outcome is `Updated` exactly when
/// some fleet has the delta's id.
pub proof fn lemma_fleet_delta_fields(o: FleetsResp, n: FleetsResp, ev: SseFleetEvent, out: PatchOutcome, i: int)
    requires
        fleet_patch(o, n, ev, out),
    ensures
        (out == PatchOutcome::Updated) <==> (exists|k: int| 0 <= k < o.fleets@.len() && #[trigger] o.fleets@[k].id@ == ev.id@),
        n.fleets@.len() == o.fleets@.len(),
        n.active == o.active,
        n.default == o.default,
        0 <= i < o.fleets@.len() && o.fleets@[i].id@ == ev.id@ && (forall|k: int| 0 <= k < i ==> #[trigger] o.fleets@[k].id@ != ev.id@) ==> {
            let a = o.fleets@[i];
            let b = n.fleets@[i];
            &&& b.id == a.id && b.name == a.name && b.pods_path == a.pods_path
            &&& b.pool_profile == a.pool_profile && b.contracts == a.contracts && b.provisioning == a.provisioning
            &&& (ev.status is Some ==> b.status == ev.status->0)
            &&& (ev.status is None ==> b.status == a.status)
            &&& (ev.n_pods is Some ==> b.n_pods == ev.n_pods->0)
            &&& (ev.n_pods is None ==> b.n_pods == a.n_pods)
            &&& (ev.active is Some ==> b.active == ev.active->0)
            &&& (ev.active is None ==> b.active == a.active)
            &&& forall|k: int| 0 <= k < o.fleets@.len() && k != i ==> #[trigger] n.fleets@[k] == o.fleets@[k]
        },
        (forall|k: int| 0 <= k < o.fleets@.len() ==> #[trigger] o.fleets@[k].id@ != ev.id@) ==> n.fleets@ == o.fleets@,
{
    let p = fleet_id_is(ev.id@);
    lemma_first_match_props(o.fleets@, p);
    match first_match(o.fleets@, p) {
        Some(k) => {
            assert(o.fleets@[k].id@ == ev.id@);
        },
        None => {
            assert forall|k: int| 0 <= k < o.fleets@.len() implies #[trigger] o.fleets@[k].id@ != ev.id@ by {
                assert(!p(o.fleets@[k]));
            }
        },
    }
    if 0 <= i < o.fleets@.len() && o.fleets@[i].id@ == ev.id@ && (forall|k: int| 0 <= k < i ==> #[trigger] o.fleets@[k].id@ != ev.id@) {
        assert forall|k: int| 0 <= k < i implies !p(#[trigger] o.fleets@[k]) by {
            assert(o.fleets@[k].id@ != ev.id@);
        }
        lemma_first_match_at(o.fleets@, p, i);
    }
}

/// Jobs whose id is the event's job id.
pub open spec fn job_id_is(id: Seq<char>) -> spec_fn(Job) -> bool {
    |j: Job| j.job_id@ == id
}

/// Pods named `pod`.
pub open spec fn pod_is(pod: Seq<char>) -> spec_fn(JobPod) -> bool {
    |p: JobPod| p.pod@ == pod
}

/// A job after a delta: the job takes the event's state and, when the event
/// names a pod, so does the first pod row of that name.
pub open spec fn job_patched(old: Job, new: Job, ev: SseJobEvent) -> bool {
    &&& new == (Job { state: ev.state, pods: new.pods, ..old })
    &&& match ev.pod {
        Some(pod) => match first_match(old.pods@, pod_is(pod@)) {
            Some(k) => new.pods@ == old.pods@.update(k, JobPod { state: ev.state, ..old.pods@[k] }),
            None => new.pods@ == old.pods@,
        },
        None => new.pods@ == old.pods@,
    }
}

/// A job delta sets the job's state and, when it names a pod, that of the
/// first pod row of that name; every other field of the job, every other pod
/// row and every other field of the named pod row keep their values.
pub proof fn lemma_job_delta_fields(old: Job, new: Job, ev: SseJobEvent)
    requires
        job_patched(old, new, ev),
    ensures
        new.state == ev.state,
        new.job_id == old.job_id && new.fleet == old.fleet && new.pods_path == old.pods_path,
        new.run_name == old.run_name && new.created == old.created && new.updated == old.updated,
        new.pods@.len() == old.pods@.len(),
        forall|k: int|
            0 <= k < old.pods@.len() ==> (#[trigger] new.pods@[k]).pod == old.pods@[k].pod && new.pods@[k].updated
                == old.pods@[k].updated,
        forall|k: int|
            0 <= k < old.pods@.len() && (ev.pod is None || old.pods@[k].pod@ != ev.pod->0@) ==> #[trigger] new.pods@[k]
                == old.pods@[k],
        forall|k: int|
            0 <= k < old.pods@.len() && ev.pod is Some && old.pods@[k].pod@ == ev.pod->0@ && (forall|j: int|
                0 <= j < k ==> #[trigger] old.pods@[j].pod@ != ev.pod->0@) ==> (#[trigger] new.pods@[k]).state == ev.state,
{
    match ev.pod {
        Some(pod) => {
            let p = pod_is(pod@);
            lemma_first_match_props(old.pods@, p);
            match first_match(old.pods@, p) {
                Some(i) => {
                    assert forall|k: int|
                        0 <= k < old.pods@.len() && old.pods@[k].pod@ == pod@ && (forall|j: int|
                            0 <= j < k ==> #[trigger] old.pods@[j].pod@ != pod@) implies k == i by {
                        if k < i {
                            assert(!p(old.pods@[k]));
                        }
                        if i < k {
                            assert(old.pods@[i].pod@ != pod@);
                        }
                    }
                },
                None => {
                    assert forall|k: int| 0 <= k < old.pods@.len() implies old.pods@[k].pod@ != pod@ by {
                        assert(!p(old.pods@[k]));
                    }
                },
            }
        },
        None => {},
    }
}

fn patch_job_row(job: &mut Job, ev: &SseJobEvent)
    ensures
        job_patched(*old(job), *final(job), *ev),
{
    job.state = ev.state.clone();
    match &ev.pod {
        Some(pod) => {
            let ghost p = pod_is(pod@);
            let mut k: usize = 0;
            while k < job.pods.len()
                invariant
                    k <= job.pods.len(),
                    p == pod_is(pod@),
                    ev.pod == Some(*pod),
                    job.pods@ == old(job).pods@,
                    *job == (Job { state: ev.state, pods: job.pods, ..*old(job) }),
                    forall|j: int| 0 <= j < k ==> !p(#[trigger] job.pods@[j]),
                decreases job.pods.len() - k,
            {
                if string_eq(&job.pods[k].pod, pod) {
                    proof {
                        lemma_first_match_at(job.pods@, p, k as int);
                    }
                    let st = ev.state.clone();
                    let ghost before = *job;
                    job.pods[k].state = st;
                    assert(job.pods@ == before.pods@.update(k as int, JobPod { state: ev.state, ..before.pods@[k as int] }));
                    assert(*job == (Job { pods: job.pods, ..before }));
                    assert(first_match(old(job).pods@, p) == Some(k as int));
                    return;
                }
                k = k + 1;
            }
            proof {
                lemma_first_match_none(job.pods@, p);
            }
        },
        None => {},
    }
}

/// `n` is the job list `o` after the job delta `ev`, with outcome `out` (see [`patch_job`]).
pub open spec fn job_patch(o: Seq<Job>, n: Seq<Job>, ev: SseJobEvent, out: PatchOutcome) -> bool {
    &&& n.len() == o.len()
    &&& (match first_match(o, job_id_is(ev.job_id@)) {
            Some(i) => {
                &&& out == PatchOutcome::Updated
                &&& forall|j: int| 0 <= j < o.len() && j != i ==> n[j] == o[j]
                &&& job_patched(o[i], n[i], ev)
            },
            None => out == PatchOutcome::NotFound && n == o,
        })
}

/// Patches the first job with the event's job id; `NotFound` (jobs unchanged)
/// when there is none, which tells the caller to refetch the job list.
pub fn patch_job(jobs: &mut Vec<Job>, ev: &SseJobEvent) -> (out: PatchOutcome)
    ensures
        job_patch(old(jobs)@, final(jobs)@, *ev, out),
{
    let ghost p = job_id_is(ev.job_id@);
    let mut i: usize = 0;
    while i < jobs.len()
        invariant
            i <= jobs.len(),
            p == job_id_is(ev.job_id@),
            jobs@ == old(jobs)@,
            forall|j: int| 0 <= j < i ==> !p(#[trigger] jobs@[j]),
        decreases jobs.len() - i,
    {
        if string_eq(&jobs[i].job_id, &ev.job_id) {
            proof {
                lemma_first_match_at(jobs@, p, i as int);
            }
            patch_job_row(&mut jobs[i], ev);
            return PatchOutcome::Updated;
        }
        i = i + 1;
    }
    proof {
        lemma_first_match_none(jobs@, p);
    }
    PatchOutcome::NotFound
}

// ---------------------------------------------------------------------------
// Relay tree
// ---------------------------------------------------------------------------

/// A tree node after a delta: every field the event carries overrides the node.
pub open spec fn node_patched(old: TreeNode, new: TreeNode, ev: SseNodeEvent) -> bool {
    &&& new == (TreeNode {
        state: or_keep(ev.state, old.state),
        up: match ev.up {
            Some(u) => u,
            None => old.up,
        },
        stale: match ev.stale {
            Some(s) => s,
            None => old.stale,
        },
        epoch: or_keep(ev.epoch, old.epoch),
        metric_name: or_keep(ev.metric_name, old.metric_name),
        metric_value: or_keep(ev.metric_value, old.metric_value),
        gpus_free: or_keep(ev.gpus_free, old.gpus_free),
        parent: or_keep(ev.parent, old.parent),
        children: new.children,
        ..old
    })
    &&& new.children@ == match ev.children {
        Some(c) => c@,
        None => old.children@,
    }
}

/// A node delta overrides exactly the fields it carries: each carried field
/// takes the delta's value, each field it leaves out keeps the node's value,
/// and the fields a delta never carries (tag, relay flag, GPU total, node
/// count, host, port) are untouched.
pub proof fn lemma_node_delta_fields(old: TreeNode, new: TreeNode, ev: SseNodeEvent)
    requires
        node_patched(old, new, ev),
    ensures
        new.tag == old.tag && new.relay == old.relay && new.gpus_total == old.gpus_total,
        new.gnodes == old.gnodes && new.host == old.host && new.port == old.port,
        ev.state is Some ==> new.state == ev.state,
        ev.state is None ==> new.state == old.state,
        ev.up is Some ==> new.up == ev.up->0,
        ev.up is None ==> new.up == old.up,
        ev.stale is Some ==> new.stale == ev.stale->0,
        ev.stale is None ==> new.stale == old.stale,
        ev.epoch is Some ==> new.epoch == ev.epoch,
        ev.epoch is None ==> new.epoch == old.epoch,
        ev.metric_name is Some ==> new.metric_name == ev.metric_name,
        ev.metric_name is None ==> new.metric_name == old.metric_name,
        ev.metric_value is Some ==> new.metric_value == ev.metric_value,
        ev.metric_value is None ==> new.metric_value == old.metric_value,
        ev.gpus_free is Some ==> new.gpus_free == ev.gpus_free,
        ev.gpus_free is None ==> new.gpus_free == old.gpus_free,
        ev.parent is Some ==> new.parent == ev.parent,
        ev.parent is None ==> new.parent == old.parent,
        ev.children is Some ==> new.children@ == ev.children->0@,
        ev.children is None ==> new.children@ == old.children@,
{
}

/// A fresh node for `tag`: nothing known yet.
pub open spec fn blank_node(n: TreeNode, tag: String) -> bool {
    &&& n == (TreeNode {
        tag,
        parent: None,
        children: n.children,
        state: None,
        up: false,
        relay: false,
        stale: false,
        metric_name: None,
        metric_value: None,
        epoch: None,
        gpus_total: None,
        gpus_free: None,
        gnodes: None,
        host: None,
        port: None,
    })
    &&& n.children@.len() == 0
}

/// Nodes whose tag is the event's tag.
pub open spec fn tag_is(tag: Seq<char>) -> spec_fn(TreeNode) -> bool {
    |n: TreeNode| n.tag@ == tag
}

fn patch_node(node: &mut TreeNode, ev: &SseNodeEvent)
    ensures
        node_patched(*old(node), *final(node), *ev),
{
    if ev.state.is_some() {
        node.state = copy_opt(&ev.state);
    }
    match ev.up {
        Some(u) => {
            node.up = u;
        },
        None => {},
    }
    match ev.stale {
        Some(s) => {
            node.stale = s;
        },
        None => {},
    }
    if ev.epoch.is_some() {
        node.epoch = ev.epoch;
    }
    if ev.metric_name.is_some() {
        node.metric_name = copy_opt(&ev.metric_name);
    }
    if ev.metric_value.is_some() {
        node.metric_value = ev.metric_value;
    }
    if ev.gpus_free.is_some() {
        node.gpus_free = ev.gpus_free;
    }
    if ev.parent.is_some() {
        node.parent = copy_opt(&ev.parent);
    }
    match &ev.children {
        Some(children) => {
            node.children = copy_strings(children);
        },
        None => {},
    }
}

/// `n` is the tree `o` after the node delta `ev`, with outcome `out` (see [`patch_tree_node`]).
pub open spec fn node_patch(o: TreeResp, n: TreeResp, ev: SseNodeEvent, out: TreePatchOutcome) -> bool {
    &&& n == (TreeResp { nodes: n.nodes, ..o })
    &&& (match first_match(o.nodes@, tag_is(ev.tag@)) {
            Some(i) => {
                &&& out == TreePatchOutcome::Updated
                &&& n.nodes@.len() == o.nodes@.len()
                &&& forall|j: int| 0 <= j < o.nodes@.len() && j != i ==> n.nodes@[j] == o.nodes@[j]
                &&& node_patched(o.nodes@[i], n.nodes@[i], ev)
            },
            None => {
                &&& out == TreePatchOutcome::Inserted
                &&& n.nodes@.drop_last() == o.nodes@
                &&& n.nodes@.len() == o.nodes@.len() + 1
                &&& exists|fresh: TreeNode| #[trigger] blank_node(fresh, ev.tag) && node_patched(fresh, n.nodes@.last(), ev)
            },
        })
}

/// Patches the first node with the event's tag, or appends a new node for the
/// tag with the event applied when the tree has none.
pub fn patch_tree_node(resp: &mut TreeResp, ev: &SseNodeEvent) -> (out: TreePatchOutcome)
    ensures
        node_patch(*old(resp), *final(resp), *ev, out),
{
    let ghost p = tag_is(ev.tag@);
    let mut i: usize = 0;
    while i < resp.nodes.len()
        invariant
            i <= resp.nodes.len(),
            p == tag_is(ev.tag@),
            *resp == *old(resp),
            forall|j: int| 0 <= j < i ==> !p(#[trigger] resp.nodes@[j]),
        decreases resp.nodes.len() - i,
    {
        if string_eq(&resp.nodes[i].tag, &ev.tag) {
            proof {
                lemma_first_match_at(resp.nodes@, p, i as int);
            }
            patch_node(&mut resp.nodes[i], ev);
            return TreePatchOutcome::Updated;
        }
        i = i + 1;
    }
    proof {
        lemma_first_match_none(resp.nodes@, p);
    }
    let mut node = TreeNode {
        tag: ev.tag.clone(),
        parent: None,
        children: Vec::new(),
        state: None,
        up: false,
        relay: false,
        stale: false,
        metric_name: None,
        metric_value: None,
        epoch: None,
        gpus_total: None,
        gpus_free: None,
        gnodes: None,
        host: None,
        port: None,
    };
    let ghost fresh = node;
    assert(blank_node(fresh, ev.tag));
    patch_node(&mut node, ev);
    let ghost before = resp.nodes@;
    resp.nodes.push(node);
    assert(resp.nodes@.drop_last() =~= before);
    TreePatchOutcome::Inserted
}

} // verus!
