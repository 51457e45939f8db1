//! The box roster as the fleets view shows and edits it: free and assigned
//! boxes, provisioning placeholders from a rent reply, optimistic assignment,
//! and what a lifecycle change or a finished action asks to refresh.
use vstd::prelude::*;
use crate::model::{
    id_text, json_as_i64, json_as_str, FleetsResp, Instance, InstancesResp, JsonValue,
    SseBoxEvent,
};
use crate::patch::{counts_agree, opt_eq, recount, same_header};
use crate::seqs::{first_match, lemma_filter_push, lemma_first_match_at, lemma_first_match_none};
use crate::text::{i64_text, int_text, opt_is, owned, push_str, str_eq};

verus! {

/// Whether an optional text is one of the states of a box still coming up.
pub open spec fn coming_up(o: Option<String>) -> bool {
    opt_eq(o, "booting"@) || opt_eq(o, "provisioning"@) || opt_eq(o, "creating"@)
}

/// A box still coming up, by its provisioning state or its status.
pub open spec fn box_in_flight(inst: Instance) -> bool {
    coming_up(inst.provision_state) || coming_up(inst.status)
}

/// A destroyed box.
pub open spec fn box_terminal(inst: Instance) -> bool {
    opt_eq(inst.provision_state, "destroyed"@)
}

fn is_coming_up(o: &Option<String>) -> (r: bool)
    ensures
        r == coming_up(*o),
{
    opt_is(o, "booting") || opt_is(o, "provisioning") || opt_is(o, "creating")
}

/// Whether a box is still coming up.
pub fn is_in_flight_box(inst: &Instance) -> (r: bool)
    ensures
        r == box_in_flight(*inst),
{
    is_coming_up(&inst.provision_state) || is_coming_up(&inst.status)
}

/// Whether a box is destroyed.
pub fn is_terminal_box(inst: &Instance) -> (r: bool)
    ensures
        r == box_terminal(*inst),
{
    opt_is(&inst.provision_state, "destroyed")
}

/// Boxes offered for assignment: without a fleet, not destroyed, and
/// assignable or still coming up.
pub open spec fn free_box() -> spec_fn(Instance) -> bool {
    |b: Instance| b.fleet_id is None && !box_terminal(b) && (b.assignable == Some(true) || box_in_flight(b))
}

/// Boxes of `fleet` that are not destroyed.
pub open spec fn fleet_box(fleet: Seq<char>) -> spec_fn(Instance) -> bool {
    |b: Instance| !box_terminal(b) && b.fleet_id is Some && b.fleet_id->0@ == fleet
}

fn keep_boxes(rows: &Vec<Instance>, free: bool, fleet: &str) -> (r: Vec<Instance>)
    ensures
        r@ == rows@.filter(if free { free_box() } else { fleet_box(fleet@) }),
{
    let ghost p = if free { free_box() } else { fleet_box(fleet@) };
    let mut out: Vec<Instance> = Vec::new();
    let mut i: usize = 0;
    while i < rows.len()
        invariant
            i <= rows.len(),
            p == (if free { free_box() } else { fleet_box(fleet@) }),
            out@ == rows@.take(i as int).filter(p),
        decreases rows.len() - i,
    {
        let b = &rows[i];
        proof {
            lemma_filter_push(rows@.take(i as int), p, *b);
            assert(rows@.take(i + 1) =~= rows@.take(i as int).push(*b));
        }
        let keep = if free {
            b.fleet_id.is_none() && !is_terminal_box(b) && (match b.assignable {
                Some(a) => a,
                None => false,
            } || is_in_flight_box(b))
        } else {
            !is_terminal_box(b) && opt_is(&b.fleet_id, fleet)
        };
        if keep {
            out.push(b.duplicate());
        }
        i = i + 1;
    }
    assert(rows@.take(rows.len() as int) =~= rows@);
    out
}

/// Boxes offered for assignment (see [`free_box`]); none without a roster.
pub fn unassigned_boxes(instances: Option<&InstancesResp>) -> (r: Vec<Instance>)
    ensures
        match instances {
            Some(i) => r@ == i.instances@.filter(free_box()),
            None => r@.len() == 0,
        },
{
    match instances {
        Some(i) => keep_boxes(&i.instances, true, ""),
        None => Vec::new(),
    }
}

/// Boxes of the selected fleet that are not destroyed; none without a roster.
pub fn assigned_boxes(instances: Option<&InstancesResp>, selected_fleet: &str) -> (r: Vec<Instance>)
    ensures
        match instances {
            Some(i) => r@ == i.instances@.filter(fleet_box(selected_fleet@)),
            None => r@.len() == 0,
        },
{
    match instances {
        Some(i) => keep_boxes(&i.instances, false, selected_fleet),
        None => Vec::new(),
    }
}

/// Whether some row has this id.
pub open spec fn has_box(rows: Seq<Instance>, id: Seq<char>) -> bool {
    exists|i: int| 0 <= i < rows.len() && id_text((#[trigger] rows[i]).id) == id
}

fn find_id(rows: &Vec<Instance>, id: &str) -> (r: bool)
    ensures
        r == has_box(rows@, id@),
{
    let mut i: usize = 0;
    while i < rows.len()
        invariant
            i <= rows.len(),
            forall|j: int| 0 <= j < i ==> id_text((#[trigger] rows@[j]).id) != id@,
        decreases rows.len() - i,
    {
        let s = rows[i].id_str();
        if str_eq(s.as_str(), id) {
            return true;
        }
        i = i + 1;
    }
    false
}

/// A provisioning placeholder: a `nebius` box with the given id, label, GPU,
/// fleet and provisioning state, status `provisioning`, not assignable, and
/// nothing else set.
pub open spec fn placeholder(
    id: JsonValue,
    label: Option<String>,
    gpu_name: Seq<char>,
    num_gpus: i64,
    fleet_id: Option<String>,
    provision_state: Option<String>,
    row: Instance,
) -> bool {
    &&& row.id == id
    &&& row.label == label
    &&& row.provider@ == "nebius"@
    &&& row.gpu_name is Some && row.gpu_name->0@ == gpu_name
    &&& row.num_gpus == Some(num_gpus)
    &&& opt_eq(row.status, "provisioning"@)
    &&& row.ssh_host is None && row.ssh_port is None && row.region is None
    &&& row.fleet_id == fleet_id
    &&& row.fleet_name is None && row.pod_name is None && row.error is None
    &&& row.provision_state == provision_state
    &&& row.assignable == Some(false)
}

fn push_placeholder(
    resp: &mut InstancesResp,
    id: JsonValue,
    label: Option<String>,
    gpu_name: String,
    num_gpus: i64,
    fleet_id: Option<String>,
    provision_state: Option<String>,
)
    ensures
        final(resp).instances@.drop_last() == old(resp).instances@,
        final(resp).instances@.len() == old(resp).instances@.len() + 1,
        placeholder(id, label, gpu_name@, num_gpus, fleet_id, provision_state, final(resp).instances@.last()),
        counts_agree(*final(resp)),
        same_header(*old(resp), *final(resp)),
{
    let ghost gv = gpu_name@;
    let row = Instance {
        id,
        label,
        provider: owned("nebius"),
        gpu_name: Some(gpu_name),
        num_gpus: Some(num_gpus),
        status: Some(owned("provisioning")),
        ssh_host: None,
        ssh_port: None,
        region: None,
        fleet_id,
        fleet_name: None,
        pod_name: None,
        provision_state,
        assignable: Some(false),
        error: None,
    };
    let ghost before = resp.instances@;
    resp.instances.push(row);
    assert(resp.instances@.drop_last() =~= before);
    recount(resp);
}

/// `n` is the roster `o` after adding a placeholder for the rented box `id` (see [`insert_pending_box_id`]).
pub open spec fn pending_id_inserted(o: InstancesResp, n: InstancesResp, id: Seq<char>, gpu_name: Seq<char>, num_gpus: i64) -> bool {
    &&& (has_box(o.instances@, id) ==> n == o)
    &&& (!has_box(o.instances@, id) ==> {
            &&& n.instances@.drop_last() == o.instances@
            &&& n.instances@.len() == o.instances@.len() + 1
            &&& placeholder(
                n.instances@.last().id,
                n.instances@.last().label,
                gpu_name,
                num_gpus,
                None,
                n.instances@.last().provision_state,
                n.instances@.last(),
            )
            &&& (n.instances@.last().id matches JsonValue::Str(s) && s@ == id)
            &&& (n.instances@.last().label matches Some(l) && l@ == "GPU (provisioning)"@)
            &&& opt_eq(n.instances@.last().provision_state, "provisioning"@)
            &&& counts_agree(n)
            &&& same_header(o, n)
        })
}

/// Adds a provisioning placeholder for a rented box id unless a row already
/// has that id; the counters follow the rows.
pub fn insert_pending_box_id(resp: &mut InstancesResp, id: &str, gpu_name: &str, num_gpus: i64)
    ensures
        pending_id_inserted(*old(resp), *final(resp), id@, gpu_name@, num_gpus),
{
    if find_id(&resp.instances, id) {
        return;
    }
    push_placeholder(
        resp,
        JsonValue::Str(owned(id)),
        Some(owned("GPU (provisioning)")),
        owned(gpu_name),
        num_gpus,
        None,
        Some(owned("provisioning")),
    );
}

/// Fields named `key`.
pub open spec fn key_is(key: Seq<char>) -> spec_fn((String, JsonValue)) -> bool {
    |e: (String, JsonValue)| e.0@ == key
}

/// The value of an object's field (the first with that key).
pub open spec fn field(entry: Seq<(String, JsonValue)>, key: Seq<char>) -> Option<JsonValue> {
    match first_match(entry, key_is(key)) {
        Some(i) => Some(entry[i].1),
        None => None,
    }
}

pub fn get_field(entry: &[(String, JsonValue)], key: &str) -> (r: Option<JsonValue>)
    ensures
        r == field(entry@, key@),
{
    let ghost p = key_is(key@);
    let mut i: usize = 0;
    while i < entry.len()
        invariant
            i <= entry.len(),
            p == key_is(key@),
            forall|j: int| 0 <= j < i ==> !p(#[trigger] entry@[j]),
        decreases entry.len() - i,
    {
        if str_eq(entry[i].0.as_str(), key) {
            proof {
                lemma_first_match_at(entry@, p, i as int);
            }
            return Some(entry[i].1.duplicate());
        }
        i = i + 1;
    }
    proof {
        lemma_first_match_none(entry@, p);
    }
    None
}

/// `a`, or `b` when `a` is missing.
pub open spec fn either(a: Option<JsonValue>, b: Option<JsonValue>) -> Option<JsonValue> {
    if a is Some {
        a
    } else {
        b
    }
}

/// A field's string value.
pub open spec fn str_field(entry: Seq<(String, JsonValue)>, key: Seq<char>) -> Option<String> {
    match field(entry, key) {
        Some(v) => json_as_str(v),
        None => None,
    }
}

/// The id of a pending entry: its `id`, else its `contract`; null without either.
pub open spec fn pending_id(entry: Seq<(String, JsonValue)>) -> JsonValue {
    match either(field(entry, "id"@), field(entry, "contract"@)) {
        Some(v) => v,
        None => JsonValue::Null,
    }
}

/// `n` is the roster `o` after adding a placeholder for the pending entry `entry` (see [`insert_pending_box`]).
pub open spec fn pending_entry_inserted(o: InstancesResp, n: InstancesResp, entry: Seq<(String, JsonValue)>, gpu_name: Seq<char>, num_gpus: i64) -> bool {
    let e = entry;
    let id = pending_id(e);
    ({
            if id is Null || has_box(o.instances@, id_text(id)) {
                n == o
            } else {
                &&& n.instances@.drop_last() == o.instances@
                &&& n.instances@.len() == o.instances@.len() + 1
                &&& placeholder(
                    id,
                    str_field(e, "label"@),
                    match str_field(e, "gpu_name"@) {
                        Some(g) => g@,
                        None => gpu_name,
                    },
                    match either(field(e, "num_gpus"@), field(e, "gpus"@)) {
                        Some(v) => match json_as_i64(v) {
                            Some(k) => k,
                            None => num_gpus,
                        },
                        None => num_gpus,
                    },
                    str_field(e, "fleet_id"@),
                    match str_field(e, "provision_state"@) {
                        Some(p) => Some(p),
                        None => n.instances@.last().provision_state,
                    },
                    n.instances@.last(),
                )
                &&& (str_field(e, "provision_state"@) is None ==> opt_eq(
                    n.instances@.last().provision_state,
                    "provisioning"@,
                ))
                &&& counts_agree(n)
                &&& same_header(o, n)
            }
        })
}

/// Adds a provisioning placeholder for one entry of a rent reply's `pending`
/// list (an object's fields). Nothing changes when the entry has no id or a
/// row already has it. Otherwise the placeholder takes the entry's GPU name
/// and count (`num_gpus`, else `gpus`) over the defaults, its label and fleet,
/// and its provisioning state (`provisioning` when missing).
pub fn insert_pending_box(
    resp: &mut InstancesResp,
    entry: &[(String, JsonValue)],
    gpu_name: &str,
    num_gpus: i64,
)
    ensures
        pending_entry_inserted(*old(resp), *final(resp), entry@, gpu_name@, num_gpus),
{
    let id = match get_field(entry, "id") {
        Some(v) => v,
        None => match get_field(entry, "contract") {
            Some(v) => v,
            None => JsonValue::Null,
        },
    };
    if id.is_null() {
        return;
    }
    let id_s = id.id_str();
    if find_id(&resp.instances, id_s.as_str()) {
        return;
    }
    let gpu = match get_field(entry, "gpu_name") {
        Some(v) => match v.as_string() {
            Some(s) => s,
            None => owned(gpu_name),
        },
        None => owned(gpu_name),
    };
    let count_field = match get_field(entry, "num_gpus") {
        Some(v) => Some(v),
        None => get_field(entry, "gpus"),
    };
    let n = match count_field {
        Some(v) => match v.as_i64() {
            Some(n) => n,
            None => num_gpus,
        },
        None => num_gpus,
    };
    let label = match get_field(entry, "label") {
        Some(v) => v.as_string(),
        None => None,
    };
    let fleet_id = match get_field(entry, "fleet_id") {
        Some(v) => v.as_string(),
        None => None,
    };
    let provision_state = match get_field(entry, "provision_state") {
        Some(v) => match v.as_string() {
            Some(s) => Some(s),
            None => Some(owned("provisioning")),
        },
        None => Some(owned("provisioning")),
    };
    push_placeholder(resp, id, label, gpu, n, fleet_id, provision_state);
}

/// Index of the last row with this id (the one a by-id index keeps).
pub open spec fn last_with_id(rows: Seq<Instance>, id: Seq<char>) -> Option<int>
    decreases rows.len(),
{
    if rows.len() == 0 {
        None
    } else if id_text(rows.last().id) == id {
        Some(rows.len() - 1)
    } else {
        last_with_id(rows.drop_last(), id)
    }
}

/// Fleets with this id.
pub open spec fn fleet_is(id: Seq<char>) -> spec_fn(crate::model::Fleet) -> bool {
    |x: crate::model::Fleet| x.id@ == id
}

/// Name of the first fleet with this id.
pub open spec fn fleet_name_of(fleets: Option<FleetsResp>, id: Seq<char>) -> Option<Seq<char>> {
    match fleets {
        Some(f) => match first_match(f.fleets@, fleet_is(id)) {
            Some(i) => Some(f.fleets@[i].name@),
            None => None,
        },
        None => None,
    }
}

/// `n` is the roster `o` with the box `contract` shown booting under `selected_fleet` (see [`optimistic_assign`]).
pub open spec fn assigned_optimistically(o: InstancesResp, n: InstancesResp, contract: Seq<char>, fleets: Option<FleetsResp>, selected_fleet: Seq<char>) -> bool {
    &&& (match last_with_id(o.instances@, contract) {
            None => n == o,
            Some(k) => {
                let row = n.instances@[k];
                &&& n.instances@ == o.instances@.update(k, row)
                &&& n.total == o.total
                &&& n.unassigned == o.unassigned
                &&& same_header(o, n)
                &&& row == (Instance {
                    fleet_id: row.fleet_id,
                    fleet_name: row.fleet_name,
                    assignable: Some(false),
                    provision_state: row.provision_state,
                    status: row.status,
                    ..o.instances@[k]
                })
                &&& row.fleet_id is Some && row.fleet_id->0@ == selected_fleet
                &&& (match row.fleet_name {
                    Some(n) => fleet_name_of(
                        fleets,
                        selected_fleet,
                    ) == Some(n@),
                    None => fleet_name_of(
                        fleets,
                        selected_fleet,
                    ) is None,
                })
                &&& opt_eq(row.provision_state, "booting"@)
                &&& opt_eq(row.status, "booting"@)
            },
        })
}

/// Marks the box being assigned as booting under the selected fleet at once,
/// while the portal stages it. The row is the last one with the contract id;
/// nothing changes without one.
pub fn optimistic_assign(
    resp: &mut InstancesResp,
    contract: &str,
    fleets: Option<&FleetsResp>,
    selected_fleet: &str,
)
    ensures
        assigned_optimistically(*old(resp), *final(resp), contract@, match fleets { Some(f) => Some(*f), None => None }, selected_fleet@),
{
    let mut k: usize = resp.instances.len();
    let ghost rows = resp.instances@;
    assert(rows.take(k as int) =~= rows);
    while k > 0
        invariant
            k <= rows.len(),
            rows == resp.instances@,
            last_with_id(rows, contract@) == last_with_id(rows.take(k as int), contract@),
        ensures
            k <= rows.len(),
            last_with_id(rows, contract@) == last_with_id(rows.take(k as int), contract@),
            k > 0 ==> id_text(rows[k - 1].id) == contract@,
        decreases k,
    {
        let ghost t = rows.take(k as int);
        assert(t.drop_last() =~= rows.take(k - 1));
        assert(t.last() == rows[k - 1]);
        let s = resp.instances[k - 1].id_str();
        if str_eq(s.as_str(), contract) {
            break;
        }
        k = k - 1;
    }
    if k == 0 {
        assert(rows.take(0) =~= Seq::<Instance>::empty());
        return;
    }
    let idx = k - 1;
    let mut fleet_name: Option<String> = None;
    if let Some(f) = fleets {
        let ghost p = fleet_is(selected_fleet@);
        let mut j: usize = 0;
        while j < f.fleets.len() && !str_eq(f.fleets[j].id.as_str(), selected_fleet)
            invariant
                j <= f.fleets.len(),
                p == fleet_is(selected_fleet@),
                forall|i: int| 0 <= i < j ==> !p(#[trigger] f.fleets@[i]),
            decreases f.fleets.len() - j,
        {
            j = j + 1;
        }
        if j < f.fleets.len() {
            proof {
                lemma_first_match_at(f.fleets@, p, j as int);
            }
            fleet_name = Some(f.fleets[j].name.clone());
        } else {
            proof {
                lemma_first_match_none(f.fleets@, p);
            }
        }
    }
    let row = &mut resp.instances[idx];
    row.fleet_id = Some(owned(selected_fleet));
    row.fleet_name = fleet_name;
    row.assignable = Some(false);
    row.provision_state = Some(owned("booting"));
    row.status = Some(owned("booting"));
}

/// What a box lifecycle change asks of the fleets view.
#[derive(Debug, Clone, Copy, PartialEq, Eq, Structural)]
pub struct LifecycleEffect {
    /// Drop the provisioning bar shown for this box.
    pub clear_progress: bool,
    /// Refetch the selected fleet's relay tree.
    pub refresh_tree: bool,
}

/// Whether a box event says the box settled into service.
pub open spec fn provisioned_event(ev: SseBoxEvent) -> bool {
    opt_eq(ev.provision_state, "assigned"@) || opt_eq(ev.provision_state, "untracked"@) || opt_eq(
        ev.provision_state,
        "ready"@,
    ) || opt_eq(ev.status, "ready"@)
}

/// Whether a box event says the box failed or went away.
pub open spec fn failed_event(ev: SseBoxEvent) -> bool {
    opt_eq(ev.provision_state, "error"@) || opt_eq(ev.provision_state, "failed"@) || opt_eq(
        ev.provision_state,
        "destroyed"@,
    )
}

/// Reaction to a box event: the provisioning bar of that box goes when it
/// settled or failed; the relay tree is refetched when it settled into the
/// selected fleet.
pub fn on_box_lifecycle(ev: &SseBoxEvent, progress_contract: Option<&str>, selected_fleet: &str) -> (r: LifecycleEffect)
    ensures
        r.clear_progress == ((progress_contract matches Some(c) && c@ == id_text(ev.id)) && (
        provisioned_event(*ev) || failed_event(*ev))),
        r.refresh_tree == (provisioned_event(*ev) && selected_fleet@.len() > 0 && (ev.fleet_id matches Some(
            Some(f),
        ) && f@ == selected_fleet@)),
{
    let id = ev.id_str();
    let provisioned = opt_is(&ev.provision_state, "assigned") || opt_is(&ev.provision_state, "untracked")
        || opt_is(&ev.provision_state, "ready") || opt_is(&ev.status, "ready");
    let failed = opt_is(&ev.provision_state, "error") || opt_is(&ev.provision_state, "failed")
        || opt_is(&ev.provision_state, "destroyed");
    let mine = match progress_contract {
        Some(c) => str_eq(c, id.as_str()),
        None => false,
    };
    let targets = match &ev.fleet_id {
        Some(Some(f)) => str_eq(f.as_str(), selected_fleet),
        _ => false,
    };
    LifecycleEffect {
        clear_progress: mine && (provisioned || failed),
        refresh_tree: provisioned && !selected_fleet.is_empty() && targets,
    }
}

/// What to refetch after a fleet action succeeds.
#[derive(Debug, Clone, Copy, PartialEq, Eq, Structural)]
pub enum RefreshPlan {
    /// Nothing now: local placeholders or the lifecycle stream catch up.
    Nothing,
    /// The roster, and the relay tree when `tree` (a fleet is selected).
    Roster { tree: bool },
    /// The whole fleets deck.
    Deck,
}

/// What to refetch after a fleet action: nothing after a rent or an assign,
/// the roster (and the selected fleet's tree) after an unassign or a
/// destroy, and the whole deck after anything else.
pub fn refresh_after_action(action: &str, selected_fleet: &str) -> (r: RefreshPlan)
    ensures
        (action@ == "rentgpus"@ || action@ == "assign"@) ==> r == RefreshPlan::Nothing,
        (action@ == "unassign"@ || action@ == "destroybox"@) ==> r == (RefreshPlan::Roster {
            tree: selected_fleet@.len() > 0,
        }),
        !(action@ == "rentgpus"@ || action@ == "assign"@ || action@ == "unassign"@ || action@
            == "destroybox"@) ==> r == RefreshPlan::Deck,
{
    proof {
        reveal_strlit("rentgpus");
        reveal_strlit("assign");
        reveal_strlit("unassign");
        reveal_strlit("destroybox");
        assert("unassign"@[0] != "rentgpus"@[0]);
        assert("destroybox"@[0] != "rentgpus"@[0]);
    }
    if str_eq(action, "rentgpus") || str_eq(action, "assign") {
        RefreshPlan::Nothing
    } else if str_eq(action, "unassign") || str_eq(action, "destroybox") {
        RefreshPlan::Roster { tree: !selected_fleet.is_empty() }
    } else {
        RefreshPlan::Deck
    }
}

/// Roster headline: `{total} boxes · {unassigned} unassigned`; none without a roster.
pub fn instances_summary(instances: Option<&InstancesResp>) -> (r: Option<String>)
    ensures
        match instances {
            Some(i) => r matches Some(s) && s@ == int_text(i.total as int) + " boxes · "@ + int_text(
                i.unassigned as int,
            ) + " unassigned"@,
            None => r is None,
        },
{
    match instances {
        Some(i) => {
            let mut s = i64_text(i.total);
            push_str(&mut s, " boxes · ");
            let u = i64_text(i.unassigned);
            push_str(&mut s, u.as_str());
            push_str(&mut s, " unassigned");
            Some(s)
        },
        None => None,
    }
}

/// Whether a provisioning state or status says a box is still coming up, as
/// the reconcile poll reads it (a `pending` provisioning state counts too).
pub open spec fn reconcile_in_flight(b: Instance) -> bool {
    coming_up(b.provision_state) || opt_eq(b.provision_state, "pending"@) || coming_up(b.status)
}

/// Whether some box of the roster is still coming up (see [`reconcile_in_flight`]).
pub fn instances_in_flight(resp: &InstancesResp) -> (r: bool)
    ensures
        r == exists|i: int| 0 <= i < resp.instances@.len() && reconcile_in_flight(#[trigger] resp.instances@[i]),
{
    let mut i: usize = 0;
    while i < resp.instances.len()
        invariant
            i <= resp.instances.len(),
            forall|j: int| 0 <= j < i ==> !reconcile_in_flight(#[trigger] resp.instances@[j]),
        decreases resp.instances.len() - i,
    {
        let b = &resp.instances[i];
        if is_coming_up(&b.provision_state) || opt_is(&b.provision_state, "pending") || is_coming_up(&b.status) {
            assert(reconcile_in_flight(resp.instances@[i as int]));
            return true;
        }
        i = i + 1;
    }
    false
}

} // verus!
