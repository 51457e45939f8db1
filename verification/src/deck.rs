//! The fleet deck: the roster, relay tree, jobs and rent panel it shows, and
//! how each operator action and each network result changes them.
//!
//! Every change is a step from one [`FleetsView`] to the next plus the effects
//! it asks for ([`DeckEffect`]): commands for the network task, saving the
//! selected fleet, and laying out the board again. Drawing belongs to the caller.
use vstd::prelude::*;
use crate::client::{error_text, ClientError};
use crate::network::{ActionField, ActionReply, FleetsMsg, NetworkCommand, PendingEntry};
use crate::model::{
    id_text, is_terminal_state, json_as_i64, BoxProgressResp, JobsResp, JsonValue, SseFleetEvent, SseJobEvent,
    SseNodeEvent, FleetsResp, GpuSearchResp, InstancesResp, Job,
    SseBoxEvent, TreeResp,
};
use crate::patch::{
    box_inserted, box_patch, counts_agree, fleet_patch, insert_box, job_patch, kept_from_cache,
    merge_instances_reconcile, node_patch, patch_box, patch_fleet, patch_job, patch_tree_node, same_header,
    PatchOutcome, TreePatchOutcome,
};
use crate::seqs::{first_match, lemma_first_match_at, lemma_first_match_none};
use crate::seqs::lemma_filter_push;
use crate::roster::{
    assigned_optimistically, failed_event, field, get_field, insert_pending_box, insert_pending_box_id,
    on_box_lifecycle, optimistic_assign, pending_entry_inserted, pending_id_inserted, provisioned_event,
    refresh_after_action, str_field, RefreshPlan,
};
use crate::text::{decimal, owned, push_str, str_eq, trim_ws, trimmed, u64_text};

verus! {

/// Relay-tree fan-out the deck asks for.
pub const DEFAULT_BRANCH: u32 = 8;

/// A tree fetch in flight: for which fleet and fan-out, and whether phased.
#[derive(Debug, PartialEq, Eq)]
pub struct TreeFetchKey {
    pub fleet: String,
    pub branch: u32,
    pub phased: bool,
}

impl TreeFetchKey {
    /// A copy of this key.
    pub fn duplicate(&self) -> (r: Self)
        ensures
            r == *self,
    {
        TreeFetchKey { fleet: self.fleet.clone(), branch: self.branch, phased: self.phased }
    }
}

/// What a deck step asks of its caller.
#[derive(Debug, PartialEq)]
pub enum DeckEffect {
    /// Send this command to the network task.
    Send(NetworkCommand),
    /// Remember this fleet as the selected one.
    SaveSelectedFleet(String),
    /// Lay the board out again from the cached tree.
    Relayout,
}

/// What the fleet deck holds.
#[derive(Debug)]
pub struct FleetsView {
    pub fleets: Option<FleetsResp>,
    pub instances: Option<InstancesResp>,
    pub tree: Option<TreeResp>,
    pub jobs: Vec<Job>,
    pub selected_fleet: String,
    pub branch: u32,
    pub error: Option<String>,
    pub action_msg: Option<String>,
    pub refreshing: bool,
    pub tree_loading: bool,
    /// Size of the fleet the cached tree describes.
    pub fleet_size: i64,
    pub selected_node: Option<String>,
    pub selected_box: Option<String>,
    pub selected_job: Option<String>,
    /// Whether the live event stream is connected.
    pub live: bool,
    /// Tree fetches in flight.
    pub tree_pending: Vec<TreeFetchKey>,
    /// Tree answers still expected from a phased fetch.
    pub tree_phased_remaining: u8,
    pub progress: Option<BoxProgressResp>,
    /// The box whose provisioning progress is polled.
    pub progress_contract: Option<String>,
    pub operator_email: Option<String>,
    pub rent_open: bool,
    pub rent_gpus_per_box: u32,
    pub rent_gpu_filter: String,
    pub rent_count: u32,
    pub rent_disk_gb: u32,
    pub gpu_offers: Option<GpuSearchResp>,
    pub gpu_search_loading: bool,
}

/// The deck in specifications: its state, with the tree fetches in flight
/// taken from the second component (the state's own list is ignored).
pub type Deck = (FleetsView, Seq<TreeFetchKey>);

/// The deck a state holds.
pub open spec fn deck_of(s: FleetsView) -> Deck {
    (s, s.tree_pending@)
}

/// `s` holds the deck `d`.
pub open spec fn holds(s: FleetsView, d: Deck) -> bool {
    &&& s == FleetsView { tree_pending: s.tree_pending, ..d.0 }
    &&& s.tree_pending@ =~= d.1
}

/// A step's outcome: the deck after it and the effects it asks for.
pub type Step = (Deck, Seq<DeckEffect>);

/// `s` and the effects appended to `before` are the outcome `t`.
pub open spec fn stepped(before: Seq<DeckEffect>, s: FleetsView, after: Seq<DeckEffect>, t: Step) -> bool {
    &&& holds(s, t.0)
    &&& after =~= before + t.1
}

/// `first`, then `next` applied to the deck it leaves.
pub open spec fn then(first: Step, next: spec_fn(Deck) -> Step) -> Step {
    let second = next(first.0);
    (second.0, first.1 + second.1)
}

/// A step that changes nothing.
pub open spec fn unchanged(d: Deck) -> Step {
    (d, Seq::empty())
}

/// Whether a fetch of this kind is in flight.
pub open spec fn has_key(p: Seq<TreeFetchKey>, fleet: Seq<char>, branch: u32, phased: bool) -> bool {
    exists|i: int| 0 <= i < p.len() && (#[trigger] p[i]).fleet@ == fleet && p[i].branch == branch && p[i].phased == phased
}

/// Keys of another fleet or fan-out than these.
pub open spec fn other_tree(fleet: Seq<char>, branch: u32) -> spec_fn(TreeFetchKey) -> bool {
    |k: TreeFetchKey| !(k.fleet@ == fleet && k.branch == branch)
}

/// Asks for the fleet deck (fleets, boxes, jobs, tree); with a fleet selected
/// the tree is loading, and one or (when the probed tree follows) two tree
/// answers are expected.
pub open spec fn spec_refresh_deck(d: Deck, probe_tree_after: bool) -> Step {
    let s = d.0;
    let s2 = if s.selected_fleet@.len() > 0 {
        FleetsView { tree_phased_remaining: if probe_tree_after { 2 } else { 1 }, tree_loading: true, ..s }
    } else {
        s
    };
    (
        (s2, d.1),
        seq![DeckEffect::Send(NetworkCommand::RefreshFleetDeck { fleet: s.selected_fleet, branch: s.branch, probe_tree_after })],
    )
}

/// Asks for the selected fleet's tree: nothing without a fleet or while the
/// same fetch is in flight; else the fetch is recorded, no phased answers are
/// expected, and the tree is loading.
pub open spec fn spec_fetch_tree(d: Deck, probe: bool) -> Step {
    let s = d.0;
    if s.selected_fleet@.len() == 0 || has_key(d.1, s.selected_fleet@, s.branch, false) {
        unchanged(d)
    } else {
        (
            (
                FleetsView { tree_phased_remaining: 0, tree_loading: true, ..s },
                d.1.push(TreeFetchKey { fleet: s.selected_fleet, branch: s.branch, phased: false }),
            ),
            seq![DeckEffect::Send(NetworkCommand::FetchTree { fleet: s.selected_fleet, branch: s.branch, probe })],
        )
    }
}

/// Asks for the selected fleet's tree in two phases (cached, then probed):
/// nothing without a fleet or while the same fetch is in flight; else the
/// fetch is recorded, two answers are expected, and the tree is loading.
pub open spec fn spec_fetch_tree_phased(d: Deck) -> Step {
    let s = d.0;
    if s.selected_fleet@.len() == 0 || has_key(d.1, s.selected_fleet@, s.branch, true) {
        unchanged(d)
    } else {
        (
            (
                FleetsView { tree_phased_remaining: 2, tree_loading: true, ..s },
                d.1.push(TreeFetchKey { fleet: s.selected_fleet, branch: s.branch, phased: true }),
            ),
            seq![DeckEffect::Send(NetworkCommand::FetchTreePhased { fleet: s.selected_fleet, branch: s.branch })],
        )
    }
}

/// Forgets the tree fetches in flight for `fleet` at fan-out `branch`.
pub open spec fn spec_clear_pending(d: Deck, fleet: Seq<char>, branch: u32) -> Step {
    ((d.0, d.1.filter(other_tree(fleet, branch))), Seq::empty())
}

/// Asks for the selected fleet's jobs (nothing without a fleet).
pub open spec fn spec_fetch_jobs(d: Deck) -> Step {
    if d.0.selected_fleet@.len() == 0 {
        unchanged(d)
    } else {
        (d, seq![DeckEffect::Send(NetworkCommand::FetchJobs { fleet: d.0.selected_fleet })])
    }
}

/// Selects fleet `id`: remembered, node and job selection dropped, its tree
/// fetches forgotten, then its tree (phased) and jobs asked for.
pub open spec fn spec_select_fleet(d: Deck, id: String) -> Step {
    if d.0.selected_fleet@ == id@ {
        unchanged(d)
    } else {
        let picked = (
            (FleetsView { selected_fleet: id, selected_node: None, selected_job: None, ..d.0 }, d.1),
            seq![DeckEffect::SaveSelectedFleet(id)],
        );
        then(
            then(
                then(picked, |x: Deck| spec_clear_pending(x, id@, d.0.branch)),
                |x: Deck| spec_fetch_tree_phased(x),
            ),
            |x: Deck| spec_fetch_jobs(x),
        )
    }
}

/// `Some(x)` with `x` dropped when it is already selected (a toggle).
pub open spec fn toggled(cur: Option<String>, x: String) -> Option<String> {
    if cur matches Some(c) && c@ == x@ {
        None
    } else {
        Some(x)
    }
}

/// Starts polling the provisioning progress of `contract`.
pub open spec fn polls_progress(old: FleetsView, new: FleetsView, contract: Seq<char>, fx: Seq<DeckEffect>) -> bool {
    &&& new.progress is None
    &&& (new.progress_contract matches Some(c) && c@ == contract)
    &&& fx.len() == 1
    &&& (fx[0] matches DeckEffect::Send(NetworkCommand::PollBoxProgress { contract: c }) && c@ == contract)
}

/// `f` is the text field `key` with value `v`.
pub open spec fn text_field(f: (String, ActionField), key: Seq<char>, v: Seq<char>) -> bool {
    &&& f.0@ == key
    &&& f.1 matches ActionField::Text(t) && t@ == v
}

/// `f` is the number field `key` with value `n`.
pub open spec fn number_field(f: (String, ActionField), key: Seq<char>, n: u32) -> bool {
    f.0@ == key && f.1 == ActionField::Number(n)
}

/// `e` sends the fleet operation `action` whose single field is the text
/// field `key` with value `v`.
pub open spec fn sends_op1(e: DeckEffect, action: Seq<char>, key: Seq<char>, v: Seq<char>) -> bool {
    &&& e matches DeckEffect::Send(NetworkCommand::FleetAction { action: a, payload })
    &&& a@ == action
    &&& payload@.len() == 1
    &&& text_field(payload@[0], key, v)
}

/// `r` is `Some` of a text with view `m`.
pub open spec fn msg_is(r: Option<String>, m: Seq<char>) -> bool {
    r matches Some(x) && x@ == m
}

/// `max(v, lo)` for a bumped value.
pub open spec fn at_least(v: int, lo: int) -> int {
    if v < lo { lo } else { v }
}

fn text_entry(key: &str, v: &str) -> (r: (String, ActionField))
    ensures
        text_field(r, key@, v@),
{
    (owned(key), ActionField::Text(owned(v)))
}

fn send_op1(out: &mut Vec<DeckEffect>, action: &str, key: &str, v: &str)
    ensures
        final(out)@.len() == old(out)@.len() + 1,
        final(out)@.drop_last() == old(out)@,
        sends_op1(final(out)@.last(), action@, key@, v@),
{
    let mut payload: Vec<(String, ActionField)> = Vec::new();
    payload.push(text_entry(key, v));
    let ghost before = out@;
    out.push(DeckEffect::Send(NetworkCommand::FleetAction { action: owned(action), payload }));
    assert(out@.drop_last() =~= before);
}

/// `e` asks to assign box `contract` to fleet `fleet`.
pub open spec fn sends_assign(e: DeckEffect, contract: Seq<char>, fleet: Seq<char>) -> bool {
    &&& e matches DeckEffect::Send(NetworkCommand::FleetAction { action: a, payload })
    &&& a@ == "assign"@
    &&& payload@.len() == 2
    &&& text_field(payload@[0], "contract"@, contract)
    &&& text_field(payload@[1], "fleet"@, fleet)
}

/// `e` asks to rent `count` boxes of `gpus` GPUs of platform `gpu` with `disk` GB.
pub open spec fn sends_rent(e: DeckEffect, gpu: Seq<char>, count: u32, gpus: u32, disk: u32) -> bool {
    &&& e matches DeckEffect::Send(NetworkCommand::FleetAction { action: a, payload })
    &&& a@ == "rentgpus"@
    &&& payload@.len() == 4
    &&& text_field(payload@[0], "gpu_name"@, gpu)
    &&& number_field(payload@[1], "count"@, count)
    &&& number_field(payload@[2], "gpus"@, gpus)
    &&& number_field(payload@[3], "disk"@, disk)
}

/// The roster after showing box `contract` booting under the selected fleet.
pub open spec fn roster_assigned(old: Option<InstancesResp>, new: Option<InstancesResp>, contract: Seq<char>, fleets: Option<FleetsResp>, fleet: Seq<char>) -> bool {
    match old {
        None => new is None,
        Some(r) => new matches Some(r2) && assigned_optimistically(r, r2, contract, fleets, fleet),
    }
}

/// The effects of opening the rent search: loading, and the search for
/// boxes of `gpus` GPUs.
pub open spec fn searches_gpus(s: FleetsView, gpus: u32, fx: Seq<DeckEffect>) -> bool {
    &&& s.gpu_search_loading
    &&& fx == seq![DeckEffect::Send(NetworkCommand::FetchGpuSearch { num_gpus: gpus })]
}

/// `n` and the effects `before` grew into `after` are the deck `o` after
/// assigning box `contract` to the selected fleet (see [`FleetsView::assign_box`]).
pub open spec fn box_assigned(
    o: FleetsView,
    n: FleetsView,
    before: Seq<DeckEffect>,
    after: Seq<DeckEffect>,
    contract: Seq<char>,
) -> bool {
    &&& o.selected_fleet@.len() == 0 ==> {
        &&& n == (FleetsView { action_msg: n.action_msg, ..o })
        &&& msg_is(n.action_msg, "ASSIGN \u{2014} pick a fleet first"@)
        &&& after == before
    }
    &&& o.selected_fleet@.len() > 0 ==> {
        &&& n == (FleetsView {
            instances: n.instances,
            action_msg: n.action_msg,
            progress: None,
            progress_contract: n.progress_contract,
            selected_box: n.selected_box,
            ..o
        })
        &&& roster_assigned(o.instances, n.instances, contract, o.fleets, o.selected_fleet@)
        &&& msg_is(n.action_msg, "ASSIGN "@ + contract + " \u{2192} "@ + o.selected_fleet@ + "\u{2026}"@)
        &&& msg_is(n.progress_contract, contract)
        &&& n.selected_box == (if o.selected_box matches Some(b) && b@ == contract { None } else { o.selected_box })
        &&& after.len() == before.len() + 2
        &&& after.take(before.len() as int) =~= before
        &&& sends_assign(after[before.len() as int], contract, o.selected_fleet@)
        &&& (after.last() matches DeckEffect::Send(NetworkCommand::PollBoxProgress { contract: c }) && c@ == contract)
    }
}

impl FleetsView {
    /// A deck with nothing loaded, the given fleet selected, the default
    /// fan-out, and the rent panel closed at one box of one GPU with 200 GB.
    pub fn new(selected_fleet: String) -> (r: Self)
        ensures
            r.fleets is None && r.instances is None && r.tree is None && r.jobs@.len() == 0,
            r.selected_fleet == selected_fleet,
            r.branch == DEFAULT_BRANCH,
            r.error is None && r.action_msg is None,
            !r.refreshing && !r.tree_loading && !r.live,
            r.fleet_size == 0,
            r.selected_node is None && r.selected_box is None && r.selected_job is None,
            r.tree_pending@.len() == 0 && r.tree_phased_remaining == 0,
            r.progress is None && r.progress_contract is None && r.operator_email is None,
            !r.rent_open && r.rent_gpus_per_box == 1 && r.rent_gpu_filter@.len() == 0,
            r.rent_count == 1 && r.rent_disk_gb == 200,
            r.gpu_offers is None && !r.gpu_search_loading,
    {
        FleetsView {
            fleets: None,
            instances: None,
            tree: None,
            jobs: Vec::new(),
            selected_fleet,
            branch: DEFAULT_BRANCH,
            error: None,
            action_msg: None,
            refreshing: false,
            tree_loading: false,
            fleet_size: 0,
            selected_node: None,
            selected_box: None,
            selected_job: None,
            live: false,
            tree_pending: Vec::new(),
            tree_phased_remaining: 0,
            progress: None,
            progress_contract: None,
            operator_email: None,
            rent_open: false,
            rent_gpus_per_box: 1,
            rent_gpu_filter: String::new(),
            rent_count: 1,
            rent_disk_gb: 200,
            gpu_offers: None,
            gpu_search_loading: false,
        }
    }

    fn pending_contains(&self, phased: bool) -> (r: bool)
        ensures
            r == has_key(self.tree_pending@, self.selected_fleet@, self.branch, phased),
    {
        let mut i: usize = 0;
        while i < self.tree_pending.len()
            invariant
                i <= self.tree_pending.len(),
                forall|j: int|
                    0 <= j < i ==> !((#[trigger] self.tree_pending@[j]).fleet@ == self.selected_fleet@
                        && self.tree_pending@[j].branch == self.branch && self.tree_pending@[j].phased == phased),
            decreases self.tree_pending.len() - i,
        {
            let k = &self.tree_pending[i];
            if str_eq(k.fleet.as_str(), self.selected_fleet.as_str()) && k.branch == self.branch && k.phased
                == phased {
                return true;
            }
            i = i + 1;
        }
        false
    }

    /// Asks for the fleet deck (see [`spec_refresh_deck`]).
    pub fn refresh_deck(&mut self, probe_tree_after: bool, out: &mut Vec<DeckEffect>)
        ensures
            stepped(old(out)@, *final(self), final(out)@, spec_refresh_deck(deck_of(*old(self)), probe_tree_after)),
    {
        if !self.selected_fleet.as_str().is_empty() {
            self.tree_phased_remaining = if probe_tree_after { 2 } else { 1 };
            self.tree_loading = true;
        }
        out.push(
            DeckEffect::Send(
                NetworkCommand::RefreshFleetDeck { fleet: self.selected_fleet.clone(), branch: self.branch, probe_tree_after },
            ),
        );
    }

    /// Asks for the selected fleet's tree (see [`spec_fetch_tree`]).
    pub fn fetch_tree(&mut self, probe: bool, out: &mut Vec<DeckEffect>)
        ensures
            stepped(old(out)@, *final(self), final(out)@, spec_fetch_tree(deck_of(*old(self)), probe)),
    {
        if self.selected_fleet.as_str().is_empty() || self.pending_contains(false) {
            return;
        }
        self.tree_pending.push(TreeFetchKey { fleet: self.selected_fleet.clone(), branch: self.branch, phased: false });
        self.tree_phased_remaining = 0;
        self.tree_loading = true;
        out.push(
            DeckEffect::Send(NetworkCommand::FetchTree { fleet: self.selected_fleet.clone(), branch: self.branch, probe }),
        );
    }

    /// Asks for the selected fleet's tree in two phases (see [`spec_fetch_tree_phased`]).
    pub fn fetch_tree_phased(&mut self, out: &mut Vec<DeckEffect>)
        ensures
            stepped(old(out)@, *final(self), final(out)@, spec_fetch_tree_phased(deck_of(*old(self)))),
    {
        if self.selected_fleet.as_str().is_empty() || self.pending_contains(true) {
            return;
        }
        self.tree_pending.push(TreeFetchKey { fleet: self.selected_fleet.clone(), branch: self.branch, phased: true });
        self.tree_phased_remaining = 2;
        self.tree_loading = true;
        out.push(
            DeckEffect::Send(NetworkCommand::FetchTreePhased { fleet: self.selected_fleet.clone(), branch: self.branch }),
        );
    }

    /// Forgets the tree fetches in flight for `fleet` at fan-out `branch`.
    pub fn clear_tree_pending_for(&mut self, fleet: &str, branch: u32)
        ensures
            holds(*final(self), spec_clear_pending(deck_of(*old(self)), fleet@, branch).0),
    {
        let ghost p = other_tree(fleet@, branch);
        let ghost all = self.tree_pending@;
        let mut kept: Vec<TreeFetchKey> = Vec::new();
        let mut i: usize = 0;
        while i < self.tree_pending.len()
            invariant
                i <= self.tree_pending.len(),
                self.tree_pending@ == all,
                *self == *old(self),
                p == other_tree(fleet@, branch),
                kept@ == all.take(i as int).filter(p),
            decreases self.tree_pending.len() - i,
        {
            proof {
                lemma_filter_push(all.take(i as int), p, all[i as int]);
                assert(all.take(i + 1) =~= all.take(i as int).push(all[i as int]));
            }
            let k = &self.tree_pending[i];
            if !(str_eq(k.fleet.as_str(), fleet) && k.branch == branch) {
                kept.push(k.duplicate());
            }
            i = i + 1;
        }
        assert(all.take(all.len() as int) =~= all);
        self.tree_pending = kept;
    }

    /// Asks for the selected fleet's jobs (see [`spec_fetch_jobs`]).
    pub fn fetch_jobs(&self, out: &mut Vec<DeckEffect>)
        ensures
            stepped(old(out)@, *self, final(out)@, spec_fetch_jobs(deck_of(*self))),
    {
        if self.selected_fleet.as_str().is_empty() {
            return;
        }
        out.push(DeckEffect::Send(NetworkCommand::FetchJobs { fleet: self.selected_fleet.clone() }));
    }

    /// Asks for the box roster.
    pub fn fetch_instances(&self, out: &mut Vec<DeckEffect>)
        ensures
            final(out)@ == old(out)@.push(DeckEffect::Send(NetworkCommand::RefreshInstances)),
    {
        out.push(DeckEffect::Send(NetworkCommand::RefreshInstances));
    }

    /// Asks for the fleet roster.
    pub fn refresh_fleets(&self, out: &mut Vec<DeckEffect>)
        ensures
            final(out)@ == old(out)@.push(DeckEffect::Send(NetworkCommand::RefreshFleets)),
    {
        out.push(DeckEffect::Send(NetworkCommand::RefreshFleets));
    }

    /// Selects fleet `id` (see [`spec_select_fleet`]); nothing when it is
    /// already selected.
    pub fn select_fleet(&mut self, id: String, out: &mut Vec<DeckEffect>)
        ensures
            stepped(old(out)@, *final(self), final(out)@, spec_select_fleet(deck_of(*old(self)), id)),
    {
        if self.selected_fleet == id {
            return;
        }
        let ghost d0 = deck_of(*self);
        self.selected_fleet = id.clone();
        out.push(DeckEffect::SaveSelectedFleet(id.clone()));
        self.selected_node = None;
        self.selected_job = None;
        let branch = self.branch;
        self.clear_tree_pending_for(id.as_str(), branch);
        self.fetch_tree_phased(out);
        self.fetch_jobs(out);
    }

    /// Selects node `tag`, or clears the selection when it is selected.
    pub fn select_node(&mut self, tag: String)
        ensures
            *final(self) == (FleetsView { selected_node: toggled(old(self).selected_node, tag), ..*old(self) }),
    {
        let same = match &self.selected_node {
            Some(c) => str_eq(c.as_str(), tag.as_str()),
            None => false,
        };
        self.selected_node = if same { None } else { Some(tag) };
    }

    /// Selects box `contract`, or clears the selection when it is selected.
    pub fn select_box(&mut self, contract: String)
        ensures
            *final(self) == (FleetsView { selected_box: toggled(old(self).selected_box, contract), ..*old(self) }),
    {
        let same = match &self.selected_box {
            Some(c) => str_eq(c.as_str(), contract.as_str()),
            None => false,
        };
        self.selected_box = if same { None } else { Some(contract) };
    }

    /// Selects job `job_id`, or clears the selection when it is selected.
    pub fn select_job(&mut self, job_id: String)
        ensures
            *final(self) == (FleetsView { selected_job: toggled(old(self).selected_job, job_id), ..*old(self) }),
    {
        let same = match &self.selected_job {
            Some(c) => str_eq(c.as_str(), job_id.as_str()),
            None => false,
        };
        self.selected_job = if same { None } else { Some(job_id) };
    }

    fn start_progress_poll(&mut self, contract: &str, out: &mut Vec<DeckEffect>)
        ensures
            *final(self) == (FleetsView { progress: final(self).progress, progress_contract: final(self).progress_contract, ..*old(self) }),
            final(out)@.len() == old(out)@.len() + 1,
            final(out)@.take(old(out)@.len() as int) == old(out)@,
            polls_progress(*old(self), *final(self), contract@, final(out)@.skip(old(out)@.len() as int)),
    {
        self.progress_contract = Some(owned(contract));
        self.progress = None;
        let ghost before = out@;
        out.push(DeckEffect::Send(NetworkCommand::PollBoxProgress { contract: owned(contract) }));
        assert(out@.take(before.len() as int) =~= before);
        assert(out@.skip(before.len() as int) =~= seq![out@.last()]);
    }

    /// Stops showing provisioning progress.
    pub fn clear_progress(&mut self)
        ensures
            *final(self) == (FleetsView { progress: None, progress_contract: None, ..*old(self) }),
    {
        self.progress = None;
        self.progress_contract = None;
    }

    /// Refreshes everything: marked refreshing, then the fleet deck with the
    /// probed tree after it.
    pub fn refresh_all(&mut self, out: &mut Vec<DeckEffect>)
        ensures
            stepped(
                old(out)@,
                *final(self),
                final(out)@,
                spec_refresh_deck((FleetsView { refreshing: true, ..*old(self) }, old(self).tree_pending@), true),
            ),
    {
        self.refreshing = true;
        self.refresh_deck(true, out);
    }

    /// On showing the deck: refresh everything unless fleets, boxes and tree
    /// are all loaded.
    pub fn on_visible(&mut self, out: &mut Vec<DeckEffect>)
        ensures
            old(self).fleets is Some && old(self).instances is Some && old(self).tree is Some ==> {
                &&& *final(self) == *old(self)
                &&& final(out)@ == old(out)@
            },
            !(old(self).fleets is Some && old(self).instances is Some && old(self).tree is Some)
                ==> stepped(
                old(out)@,
                *final(self),
                final(out)@,
                spec_refresh_deck((FleetsView { refreshing: true, ..*old(self) }, old(self).tree_pending@), true),
            ),
    {
        if self.fleets.is_none() || self.instances.is_none() || self.tree.is_none() {
            self.refresh_all(out);
        }
    }

    /// On leaving the network: not refreshing, rent panel closed, no search loading.
    pub fn detach(&mut self)
        ensures
            *final(self) == (FleetsView { refreshing: false, rent_open: false, gpu_search_loading: false, ..*old(self) }),
    {
        self.refreshing = false;
        self.rent_open = false;
        self.gpu_search_loading = false;
    }

    /// Records the signed-in operator's address.
    pub fn set_operator_email(&mut self, email: Option<String>)
        ensures
            *final(self) == (FleetsView { operator_email: email, ..*old(self) }),
    {
        self.operator_email = email;
    }

    /// Whether the operations rail can assign a box (one is selected and a
    /// fleet is chosen) and stop a job (a fleet is chosen).
    pub fn ops_enabled(&self) -> (r: (bool, bool))
        ensures
            r.0 == (self.selected_box is Some && self.selected_fleet@.len() > 0),
            r.1 == (self.selected_fleet@.len() > 0),
    {
        let has_fleet = !self.selected_fleet.as_str().is_empty();
        (self.selected_box.is_some() && has_fleet, has_fleet)
    }

    /// Assigns the selected box (see [`box_assigned`]); nothing without one.
    pub fn assign_selected_box(&mut self, out: &mut Vec<DeckEffect>)
        ensures
            match old(self).selected_box {
                Some(c) => box_assigned(*old(self), *final(self), old(out)@, final(out)@, c@),
                None => *final(self) == *old(self) && final(out)@ == old(out)@,
            },
    {
        let contract = match &self.selected_box {
            Some(c) => c.clone(),
            None => return,
        };
        self.assign_box(contract.as_str(), out);
    }

    /// Asks to assign box `contract` to the selected fleet: without a fleet
    /// only a hint is shown. Otherwise the box shows booting under the fleet
    /// at once, the assignment is sent, its progress is polled, and the box
    /// is no longer selected.
    pub fn assign_box(&mut self, contract: &str, out: &mut Vec<DeckEffect>)
        ensures
            box_assigned(*old(self), *final(self), old(out)@, final(out)@, contract@),
    {
        if self.selected_fleet.as_str().is_empty() {
            self.action_msg = Some(owned("ASSIGN \u{2014} pick a fleet first"));
            return;
        }
        match self.instances.take() {
            Some(mut resp) => {
                optimistic_assign(&mut resp, contract, self.fleets.as_ref(), self.selected_fleet.as_str());
                self.instances = Some(resp);
            },
            None => {},
        }
        let mut payload: Vec<(String, ActionField)> = Vec::new();
        payload.push(text_entry("contract", contract));
        payload.push(text_entry("fleet", self.selected_fleet.as_str()));
        let ghost before = out@;
        out.push(DeckEffect::Send(NetworkCommand::FleetAction { action: owned("assign"), payload }));
        let ghost mid = out@;
        assert(sends_assign(mid[before.len() as int], contract@, self.selected_fleet@));
        let mut m = owned("ASSIGN ");
        push_str(&mut m, contract);
        push_str(&mut m, " \u{2192} ");
        push_str(&mut m, self.selected_fleet.as_str());
        push_str(&mut m, "\u{2026}");
        self.action_msg = Some(m);
        self.start_progress_poll(contract, out);
        assert(out@[before.len() as int] == out@.take(mid.len() as int)[before.len() as int]);
        assert(out@.last() == out@.skip(mid.len() as int)[0]);
        assert(out@.take(before.len() as int) =~= mid.take(before.len() as int));
        let drop_box = match &self.selected_box {
            Some(b) => str_eq(b.as_str(), contract),
            None => false,
        };
        if drop_box {
            self.selected_box = None;
        }
    }

    /// Asks to create a fleet named `fleet-<now>` (`now` in Unix seconds).
    pub fn new_fleet(&mut self, now: u64, out: &mut Vec<DeckEffect>)
        ensures
            *final(self) == (FleetsView { action_msg: final(self).action_msg, ..*old(self) }),
            msg_is(final(self).action_msg, "NEW FLEET\u{2026}"@),
            final(out)@.len() == old(out)@.len() + 1,
            final(out)@.drop_last() == old(out)@,
            sends_op1(final(out)@.last(), "newfleet"@, "name"@, "fleet-"@ + decimal(now as nat)),
    {
        let mut name = owned("fleet-");
        push_str(&mut name, u64_text(now).as_str());
        send_op1(out, "newfleet", "name", name.as_str());
        self.action_msg = Some(owned("NEW FLEET\u{2026}"));
    }

    /// Asks to stop the selected fleet's job; without a fleet only a hint is shown.
    pub fn stop_selected_job(&mut self, out: &mut Vec<DeckEffect>)
        ensures
            *final(self) == (FleetsView { action_msg: final(self).action_msg, ..*old(self) }),
            old(self).selected_fleet@.len() == 0 ==> {
                &&& msg_is(final(self).action_msg, "STOP \u{2014} select a fleet first"@)
                &&& final(out)@ == old(out)@
            },
            old(self).selected_fleet@.len() > 0 ==> {
                &&& msg_is(final(self).action_msg, "STOP "@ + old(self).selected_fleet@ + "\u{2026}"@)
                &&& final(out)@.len() == old(out)@.len() + 1
                &&& final(out)@.drop_last() == old(out)@
                &&& sends_op1(final(out)@.last(), "stopjob"@, "fleet"@, old(self).selected_fleet@)
            },
    {
        if self.selected_fleet.as_str().is_empty() {
            self.action_msg = Some(owned("STOP \u{2014} select a fleet first"));
            return;
        }
        send_op1(out, "stopjob", "fleet", self.selected_fleet.as_str());
        let mut m = owned("STOP ");
        push_str(&mut m, self.selected_fleet.as_str());
        push_str(&mut m, "\u{2026}");
        self.action_msg = Some(m);
    }

    /// Opens or closes the rent panel; opening it searches GPU offers for the
    /// chosen GPUs per box.
    pub fn toggle_rent_panel(&mut self, out: &mut Vec<DeckEffect>)
        ensures
            *final(self) == (FleetsView {
                rent_open: !old(self).rent_open,
                gpu_search_loading: final(self).gpu_search_loading,
                ..*old(self)
            }),
            old(self).rent_open ==> final(self).gpu_search_loading == old(self).gpu_search_loading
                && final(out)@ == old(out)@,
            !old(self).rent_open ==> searches_gpus(*final(self), old(self).rent_gpus_per_box, final(out)@.skip(old(out)@.len() as int))
                && final(out)@.take(old(out)@.len() as int) == old(out)@,
    {
        self.rent_open = !self.rent_open;
        if self.rent_open {
            self.gpu_search_loading = true;
            let ghost before = out@;
            out.push(DeckEffect::Send(NetworkCommand::FetchGpuSearch { num_gpus: self.rent_gpus_per_box }));
            assert(out@.skip(before.len() as int) =~= seq![out@.last()]);
            assert(out@.take(before.len() as int) =~= before);
        }
    }

    /// Sets the GPUs per rented box (at least one); with the panel open the
    /// offers are searched again.
    pub fn set_rent_gpus_per_box(&mut self, n: u32, out: &mut Vec<DeckEffect>)
        ensures
            *final(self) == (FleetsView {
                rent_gpus_per_box: if n < 1 { 1 } else { n },
                gpu_search_loading: final(self).gpu_search_loading,
                ..*old(self)
            }),
            !old(self).rent_open ==> final(self).gpu_search_loading == old(self).gpu_search_loading
                && final(out)@ == old(out)@,
            old(self).rent_open ==> searches_gpus(*final(self), final(self).rent_gpus_per_box, final(out)@.skip(old(out)@.len() as int))
                && final(out)@.take(old(out)@.len() as int) == old(out)@,
    {
        self.rent_gpus_per_box = if n < 1 { 1 } else { n };
        if self.rent_open {
            self.gpu_search_loading = true;
            let ghost before = out@;
            out.push(DeckEffect::Send(NetworkCommand::FetchGpuSearch { num_gpus: self.rent_gpus_per_box }));
            assert(out@.skip(before.len() as int) =~= seq![out@.last()]);
            assert(out@.take(before.len() as int) =~= before);
        }
    }

    /// Changes the GPUs per rented box by `delta` (at least one).
    pub fn bump_rent_gpus_per_box(&mut self, delta: i32, out: &mut Vec<DeckEffect>)
        requires
            i32::MIN <= (old(self).rent_gpus_per_box as i32) + delta <= i32::MAX,
        ensures
            *final(self) == (FleetsView {
                rent_gpus_per_box: at_least((old(self).rent_gpus_per_box as i32) + delta, 1) as u32,
                gpu_search_loading: final(self).gpu_search_loading,
                ..*old(self)
            }),
            !old(self).rent_open ==> final(self).gpu_search_loading == old(self).gpu_search_loading
                && final(out)@ == old(out)@,
            old(self).rent_open ==> searches_gpus(*final(self), final(self).rent_gpus_per_box, final(out)@.skip(old(out)@.len() as int))
                && final(out)@.take(old(out)@.len() as int) == old(out)@,
    {
        let v = self.rent_gpus_per_box as i32 + delta;
        let n: u32 = if v < 1 { 1 } else { v as u32 };
        self.set_rent_gpus_per_box(n, out);
    }

    /// Changes the number of boxes to rent by `delta` (at least one).
    pub fn bump_rent_count(&mut self, delta: i32)
        requires
            i32::MIN <= (old(self).rent_count as i32) + delta <= i32::MAX,
        ensures
            *final(self) == (FleetsView { rent_count: at_least((old(self).rent_count as i32) + delta, 1) as u32, ..*old(self) }),
    {
        let v = self.rent_count as i32 + delta;
        let n: u32 = if v < 1 { 1 } else { v as u32 };
        self.set_rent_count(n);
    }

    /// Changes the disk size to rent by `delta` GB (at least 20).
    pub fn bump_rent_disk_gb(&mut self, delta: i32)
        requires
            i32::MIN <= (old(self).rent_disk_gb as i32) + delta <= i32::MAX,
        ensures
            *final(self) == (FleetsView { rent_disk_gb: at_least((old(self).rent_disk_gb as i32) + delta, 20) as u32, ..*old(self) }),
    {
        let v = self.rent_disk_gb as i32 + delta;
        let n: u32 = if v < 20 { 20 } else { v as u32 };
        self.set_rent_disk_gb(n);
    }

    /// Chooses the GPU platform to rent.
    pub fn select_rent_gpu(&mut self, filter: String)
        ensures
            *final(self) == (FleetsView { rent_gpu_filter: filter, ..*old(self) }),
    {
        self.rent_gpu_filter = filter;
    }

    /// Sets the number of boxes to rent (at least one).
    pub fn set_rent_count(&mut self, n: u32)
        ensures
            *final(self) == (FleetsView { rent_count: if n < 1 { 1 } else { n }, ..*old(self) }),
    {
        self.rent_count = if n < 1 { 1 } else { n };
    }

    /// Sets the disk size to rent (at least 20 GB).
    pub fn set_rent_disk_gb(&mut self, n: u32)
        ensures
            *final(self) == (FleetsView { rent_disk_gb: if n < 20 { 20 } else { n }, ..*old(self) }),
    {
        self.rent_disk_gb = if n < 20 { 20 } else { n };
    }

    /// Asks to rent boxes of the chosen platform (its name trimmed); without
    /// one only a hint is shown. The panel closes.
    pub fn submit_rent(&mut self, out: &mut Vec<DeckEffect>)
        ensures
            trimmed(old(self).rent_gpu_filter@).len() == 0 ==> {
                &&& *final(self) == (FleetsView { action_msg: final(self).action_msg, ..*old(self) })
                &&& msg_is(final(self).action_msg, "RENT \u{2014} pick a GPU platform"@)
                &&& final(out)@ == old(out)@
            },
            trimmed(old(self).rent_gpu_filter@).len() > 0 ==> {
                &&& *final(self) == (FleetsView { action_msg: final(self).action_msg, rent_open: false, ..*old(self) })
                &&& msg_is(final(self).action_msg, "RENT "@ + trimmed(old(self).rent_gpu_filter@) + " \u{00d7}"@
                    + decimal(old(self).rent_count as nat) + "\u{2026}"@)
                &&& final(out)@.len() == old(out)@.len() + 1
                &&& final(out)@.drop_last() == old(out)@
                &&& sends_rent(
                    final(out)@.last(),
                    trimmed(old(self).rent_gpu_filter@),
                    old(self).rent_count,
                    old(self).rent_gpus_per_box,
                    old(self).rent_disk_gb,
                )
            },
    {
        let gpu = trim_ws(self.rent_gpu_filter.as_str());
        if gpu.as_str().is_empty() {
            self.action_msg = Some(owned("RENT \u{2014} pick a GPU platform"));
            return;
        }
        let mut payload: Vec<(String, ActionField)> = Vec::new();
        payload.push(text_entry("gpu_name", gpu.as_str()));
        payload.push((owned("count"), ActionField::Number(self.rent_count)));
        payload.push((owned("gpus"), ActionField::Number(self.rent_gpus_per_box)));
        payload.push((owned("disk"), ActionField::Number(self.rent_disk_gb)));
        let ghost before = out@;
        out.push(DeckEffect::Send(NetworkCommand::FleetAction { action: owned("rentgpus"), payload }));
        assert(out@.drop_last() =~= before);
        let mut m = owned("RENT ");
        push_str(&mut m, gpu.as_str());
        push_str(&mut m, " \u{00d7}");
        push_str(&mut m, u64_text(self.rent_count as u64).as_str());
        push_str(&mut m, "\u{2026}");
        self.action_msg = Some(m);
        self.rent_open = false;
    }

    /// Asks to take box `contract` out of its fleet.
    pub fn unassign_box(&mut self, contract: &str, out: &mut Vec<DeckEffect>)
        ensures
            *final(self) == (FleetsView { action_msg: final(self).action_msg, ..*old(self) }),
            msg_is(final(self).action_msg, "UNASSIGN "@ + contract@ + "\u{2026}"@),
            final(out)@.len() == old(out)@.len() + 1,
            final(out)@.drop_last() == old(out)@,
            sends_op1(final(out)@.last(), "unassign"@, "contract"@, contract@),
    {
        send_op1(out, "unassign", "contract", contract);
        let mut m = owned("UNASSIGN ");
        push_str(&mut m, contract);
        push_str(&mut m, "\u{2026}");
        self.action_msg = Some(m);
    }

    /// Asks for the selected fleet's probed tree again, forgetting the
    /// fetches in flight for it.
    pub fn refresh_tree(&mut self, out: &mut Vec<DeckEffect>)
        ensures
            ({
                let t = then(
                    spec_clear_pending(deck_of(*old(self)), old(self).selected_fleet@, old(self).branch),
                    |x: Deck| spec_fetch_tree(x, true),
                );
                &&& holds(FleetsView { action_msg: t.0.0.action_msg, ..*final(self) }, t.0)
                &&& msg_is(final(self).action_msg, "REFRESH TREE\u{2026}"@)
                &&& final(out)@ =~= old(out)@ + t.1
            }),
    {
        let fleet = self.selected_fleet.clone();
        let branch = self.branch;
        self.clear_tree_pending_for(fleet.as_str(), branch);
        self.fetch_tree(true, out);
        self.action_msg = Some(owned("REFRESH TREE\u{2026}"));
    }

    /// Asks to destroy box `contract`.
    pub fn destroy_box(&mut self, contract: &str, out: &mut Vec<DeckEffect>)
        ensures
            *final(self) == (FleetsView { action_msg: final(self).action_msg, ..*old(self) }),
            msg_is(final(self).action_msg, "DESTROY "@ + contract@ + "\u{2026}"@),
            final(out)@.len() == old(out)@.len() + 1,
            final(out)@.drop_last() == old(out)@,
            sends_op1(final(out)@.last(), "destroybox"@, "contract"@, contract@),
    {
        send_op1(out, "destroybox", "contract", contract);
        let mut m = owned("DESTROY ");
        push_str(&mut m, contract);
        push_str(&mut m, "\u{2026}");
        self.action_msg = Some(m);
    }
}


// ---------------------------------------------------------------------------
// Network results
// ---------------------------------------------------------------------------

/// A failure's status is one an HTTP answer can carry.
pub open spec fn error_ok(e: ClientError) -> bool {
    e matches ClientError::Api { status, .. } ==> 100 <= status <= 999
}

/// A failed result carries such a status.
pub open spec fn result_ok<T>(r: Result<T, ClientError>) -> bool {
    r matches Err(e) ==> error_ok(e)
}

/// Every failure in the message carries a status an HTTP answer can carry.
pub open spec fn msg_ok(msg: FleetsMsg) -> bool {
    match msg {
        FleetsMsg::Fleets(r) => result_ok(r),
        FleetsMsg::Instances { result, .. } => result_ok(result),
        FleetsMsg::Tree { result } => result_ok(result),
        FleetsMsg::Jobs { result } => result_ok(result),
        FleetsMsg::Action { result, .. } => result_ok(result),
        FleetsMsg::BoxProgress { result, .. } => result_ok(result),
        FleetsMsg::GpuSearch { result } => result_ok(result),
        _ => true,
    }
}

/// The banner for a failure: its label, a dash, and the failure's text.
pub open spec fn failure_text(label: Seq<char>, e: ClientError) -> Seq<char> {
    label + " \u{2014} "@ + error_text(e)
}

fn failure_banner(label: &str, e: &ClientError) -> (r: String)
    requires
        error_ok(*e),
    ensures
        r@ == failure_text(label@, *e),
{
    let mut m = owned(label);
    push_str(&mut m, " \u{2014} ");
    push_str(&mut m, e.message().as_str());
    m
}

/// The fleet selected when none was: the active one, else the default, else
/// the first listed, else none.
pub open spec fn first_fleet_id(resp: FleetsResp) -> Seq<char> {
    if resp.active@.len() > 0 {
        resp.active@
    } else if resp.default@.len() > 0 {
        resp.default@
    } else if resp.fleets@.len() > 0 {
        resp.fleets@[0].id@
    } else {
        Seq::empty()
    }
}

/// The fleet roster arrived: no longer refreshing, no error, the roster kept;
/// without a selected fleet the first one (see [`first_fleet_id`]) is
/// selected and remembered.
pub open spec fn on_fleets(d: Deck, n: FleetsView, before: Seq<DeckEffect>, after: Seq<DeckEffect>, resp: FleetsResp) -> bool {
    &&& holds(
        n,
        ((FleetsView { refreshing: false, error: None, fleets: Some(resp), selected_fleet: n.selected_fleet, ..d.0 }), d.1),
    )
    &&& if d.0.selected_fleet@.len() == 0 {
        &&& n.selected_fleet@ == first_fleet_id(resp)
        &&& after =~= before.push(DeckEffect::SaveSelectedFleet(n.selected_fleet))
    } else {
        &&& n.selected_fleet == d.0.selected_fleet
        &&& after =~= before
    }
}

/// Only the banner `field` of the state changed, to `text`, and nothing was asked.
pub open spec fn banner_only(d: Deck, n: FleetsView, before: Seq<DeckEffect>, after: Seq<DeckEffect>, error: bool, text: Seq<char>) -> bool {
    &&& if error {
        holds(FleetsView { error: d.0.error, ..n }, d) && msg_is(n.error, text)
    } else {
        holds(FleetsView { action_msg: d.0.action_msg, ..n }, d) && msg_is(n.action_msg, text)
    }
    &&& after =~= before
}

/// The roster after a reconcile: the fetched rows, then the cached rows
/// still in flight that the portal has not returned yet.
pub open spec fn reconciled(cached: InstancesResp, fetched: InstancesResp, merged: InstancesResp) -> bool {
    &&& merged.instances@ == fetched.instances@ + cached.instances@.filter(kept_from_cache(fetched.instances@))
    &&& counts_agree(merged)
    &&& same_header(fetched, merged)
}

/// The box roster arrived; a reconcile merges it with the cached roster
/// (see [`reconciled`]).
pub open spec fn on_instances(d: Deck, n: FleetsView, before: Seq<DeckEffect>, after: Seq<DeckEffect>, fetched: InstancesResp, reconcile: bool) -> bool {
    &&& holds(n, (FleetsView { instances: n.instances, ..d.0 }, d.1))
    &&& (if reconcile && d.0.instances is Some {
        n.instances matches Some(m) && reconciled(d.0.instances->0, fetched, m)
    } else {
        n.instances == Some(fetched)
    })
    &&& after =~= before
}

/// The selected node, kept only while the tree has a node with its tag.
pub open spec fn node_kept(sel: Option<String>, tree: TreeResp) -> Option<String> {
    match sel {
        Some(s) => if exists|i: int| 0 <= i < tree.nodes@.len() && (#[trigger] tree.nodes@[i]).tag@ == s@ {
            Some(s)
        } else {
            None
        },
        None => None,
    }
}

/// Shows `tree`: kept, its fleet size taken, the node selection dropped when
/// its node is gone, and the board laid out again.
pub open spec fn spec_apply_tree(d: Deck, tree: TreeResp) -> Step {
    (
        (FleetsView { tree: Some(tree), fleet_size: tree.fleet, selected_node: node_kept(d.0.selected_node, tree), ..d.0 }, d.1),
        seq![DeckEffect::Relayout],
    )
}

/// A tree answer arrived: shown; then, when it was the last one expected,
/// the tree is no longer loading and the fetches for the selected fleet are
/// forgotten.
pub open spec fn spec_tree_ok(d: Deck, tree: TreeResp) -> Step {
    let fleet = d.0.selected_fleet@;
    let branch = d.0.branch;
    let a = spec_apply_tree(d, tree);
    let s = a.0.0;
    if s.tree_phased_remaining > 0 && s.tree_phased_remaining - 1 > 0 {
        ((FleetsView { tree_phased_remaining: (s.tree_phased_remaining - 1) as u8, ..s }, a.0.1), a.1)
    } else {
        (
            (FleetsView { tree_phased_remaining: 0, tree_loading: false, ..s }, a.0.1.filter(other_tree(fleet, branch))),
            a.1,
        )
    }
}

/// The selected job, kept only while the job list has it.
pub open spec fn job_kept(sel: Option<String>, jobs: Seq<Job>) -> Option<String> {
    match sel {
        Some(s) => if exists|i: int| 0 <= i < jobs.len() && (#[trigger] jobs[i]).job_id@ == s@ {
            Some(s)
        } else {
            None
        },
        None => None,
    }
}

/// The GPU offers arrived: kept, no longer loading, and the first platform
/// chosen when none was.
pub open spec fn spec_gpu_search_ok(d: Deck, resp: GpuSearchResp) -> Step {
    let s = d.0;
    let filter = if s.rent_gpu_filter@.len() == 0 && resp.groups@.len() > 0 {
        resp.groups@[0].gpu_filter
    } else {
        s.rent_gpu_filter
    };
    ((FleetsView { gpu_search_loading: false, rent_gpu_filter: filter, gpu_offers: Some(resp), ..s }, d.1), Seq::empty())
}

/// Whether a provisioning answer says it is over.
pub open spec fn progress_over(r: BoxProgressResp) -> bool {
    r.done == Some(true) || (r.state is Some && is_terminal_state(r.state->0@))
}

/// Progress for the polled box arrived: shown; once over, no longer shown,
/// and the roster and (with a fleet selected) the tree are fetched again.
pub open spec fn spec_progress_ok(d: Deck, resp: BoxProgressResp) -> Step {
    if progress_over(resp) {
        then(
            ((FleetsView { progress: None, progress_contract: None, ..d.0 }, d.1), seq![DeckEffect::Send(NetworkCommand::RefreshInstances)]),
            |x: Deck| spec_fetch_tree_phased(x),
        )
    } else {
        unchanged((FleetsView { progress: Some(resp), ..d.0 }, d.1))
    }
}

/// Whether the progress answer is for the polled box.
pub open spec fn polled(d: Deck, contract: Seq<char>) -> bool {
    d.0.progress_contract matches Some(c) && c@ == contract
}

/// What a box delta does besides patching the roster (see
/// [`crate::roster::on_box_lifecycle`]): the progress bar for a settled box
/// goes, and a box settling into the selected fleet refreshes its tree.
pub open spec fn spec_box_lifecycle(d: Deck, ev: SseBoxEvent) -> Step {
    let s = d.0;
    let clear = (s.progress_contract matches Some(c) && c@ == id_text(ev.id)) && (provisioned_event(ev) || failed_event(ev));
    let refresh = provisioned_event(ev) && s.selected_fleet@.len() > 0 && (ev.fleet_id matches Some(Some(f)) && f@ == s.selected_fleet@);
    let s2 = if clear { FleetsView { progress: None, progress_contract: None, ..s } } else { s };
    if refresh {
        spec_fetch_tree_phased((s2, d.1))
    } else {
        unchanged((s2, d.1))
    }
}

/// An empty, configured roster.
pub open spec fn fresh_roster(r: InstancesResp) -> bool {
    r.ok && r.configured && r.total == 0 && r.unassigned == 0 && r.instances@.len() == 0 && r.error is None
}

/// The roster after a box delta: without one, a fresh roster with the box
/// added; else the delta applied, and the box added when no row had it.
pub open spec fn box_delta_applied(o: Option<InstancesResp>, n: Option<InstancesResp>, ev: SseBoxEvent) -> bool {
    match o {
        None => n matches Some(r) && exists|base: InstancesResp| fresh_roster(base) && #[trigger] box_inserted(base, r, ev),
        Some(r0) => n matches Some(r) && exists|mid: InstancesResp, out: PatchOutcome|
            #[trigger] box_patch(r0, mid, ev, out) && (out == PatchOutcome::Updated ==> r == mid) && (out
                == PatchOutcome::NotFound ==> box_inserted(mid, r, ev)),
    }
}

/// Refreshing after a fleet operation succeeded (see
/// [`crate::roster::refresh_after_action`]): nothing after a rent or an
/// assignment; the roster and the tree after an unassignment or a
/// destruction; the whole deck otherwise.
pub open spec fn spec_refresh_after(d: Deck, action: Seq<char>) -> Step {
    if action == "rentgpus"@ || action == "assign"@ {
        unchanged(d)
    } else if action == "unassign"@ || action == "destroybox"@ {
        then((d, seq![DeckEffect::Send(NetworkCommand::RefreshInstances)]), |x: Deck| spec_fetch_tree_phased(x))
    } else {
        spec_refresh_deck(d, true)
    }
}

/// Groups for the GPU platform `filter`.
pub open spec fn group_filter_is(filter: Seq<char>) -> spec_fn(crate::model::GpuSearchGroup) -> bool {
    |g: crate::model::GpuSearchGroup| g.gpu_filter@ == filter
}

/// The answer's non-empty `gpu_name`.
pub open spec fn reply_gpu_name(reply: ActionReply) -> Option<Seq<char>> {
    match str_field(reply.fields@, "gpu_name"@) {
        Some(g) => if g@.len() > 0 { Some(g@) } else { None },
        None => None,
    }
}

/// The chosen platform's GPU name in the offers, else the chosen platform.
pub open spec fn offered_gpu_name(s: FleetsView) -> Seq<char> {
    match s.gpu_offers {
        Some(offers) => match first_match(offers.groups@, group_filter_is(s.rent_gpu_filter@)) {
            Some(i) => offers.groups@[i].gpu_name@,
            None => s.rent_gpu_filter@,
        },
        None => s.rent_gpu_filter@,
    }
}

/// The GPU name of rented placeholders: the answer's, else the chosen
/// platform's in the offers, else the chosen platform itself.
pub open spec fn rent_gpu_name(s: FleetsView, reply: ActionReply) -> Seq<char> {
    match reply_gpu_name(reply) {
        Some(g) => g,
        None => offered_gpu_name(s),
    }
}

/// The GPU count of rented placeholders: the answer's `gpus`, else the chosen count.
pub open spec fn rent_num_gpus(s: FleetsView, reply: ActionReply) -> i64 {
    match field(reply.fields@, "gpus"@) {
        Some(v) => match json_as_i64(v) {
            Some(k) => k,
            None => s.rent_gpus_per_box as i64,
        },
        None => s.rent_gpus_per_box as i64,
    }
}

/// One pending entry added (see [`crate::roster::insert_pending_box_id`] and
/// [`crate::roster::insert_pending_box`]).
pub open spec fn entry_applied(b: InstancesResp, c: InstancesResp, e: PendingEntry, gpu: Seq<char>, num: i64) -> bool {
    match e {
        PendingEntry::Id(id) => pending_id_inserted(b, c, id@, gpu, num),
        PendingEntry::Object(f) => pending_entry_inserted(b, c, f@, gpu, num),
        PendingEntry::Other => c == b,
    }
}

/// `steps` runs from `a` to `c`, each step adding the next pending entry.
pub open spec fn pending_chain(steps: Seq<InstancesResp>, a: InstancesResp, c: InstancesResp, entries: Seq<PendingEntry>, gpu: Seq<char>, num: i64) -> bool {
    &&& steps.len() == entries.len() + 1
    &&& steps[0] == a
    &&& steps[entries.len() as int] == c
    &&& forall|k: int| 0 <= k < entries.len() ==> #[trigger] entry_applied(steps[k], steps[k + 1], entries[k], gpu, num)
}

/// The pending entries added one after another.
pub open spec fn pending_applied(a: InstancesResp, c: InstancesResp, entries: Seq<PendingEntry>, gpu: Seq<char>, num: i64) -> bool {
    exists|steps: Seq<InstancesResp>| #[trigger] pending_chain(steps, a, c, entries, gpu, num)
}

/// The roster after a rent succeeded: with a `pending` list, its entries
/// added as provisioning placeholders (to a fresh roster when there was none).
pub open spec fn rent_roster(s: FleetsView, n: Option<InstancesResp>, reply: ActionReply) -> bool {
    match reply.pending {
        None => n == s.instances,
        Some(entries) => n matches Some(r) && exists|base: InstancesResp|
            (match s.instances {
                Some(b) => base == b,
                None => fresh_roster(base),
            }) && #[trigger] pending_applied(base, r, entries@, rent_gpu_name(s, reply), rent_num_gpus(s, reply)),
    }
}

/// A fleet operation succeeded (its answer has no `error` text): `OK` is
/// shown; a rent adds its placeholders and polls the roster; a new fleet
/// (with an id) is selected and remembered; then the deck refreshes as
/// [`spec_refresh_after`] says. With an `error` text, only that is shown.
pub open spec fn on_action_ok(d: Deck, n: FleetsView, before: Seq<DeckEffect>, after: Seq<DeckEffect>, action: Seq<char>, reply: ActionReply) -> bool {
    match str_field(reply.fields@, "error"@) {
        Some(err) => banner_only(d, n, before, after, false, action + " \u{2014} "@ + err@),
        None => {
            let s0 = FleetsView { action_msg: n.action_msg, ..d.0 };
            &&& msg_is(n.action_msg, action + " OK"@)
            &&& if action == "rentgpus"@ {
                &&& rent_roster(d.0, n.instances, reply)
                &&& stepped(before, n, after, (
                    (FleetsView { instances: n.instances, ..s0 }, d.1),
                    seq![DeckEffect::Send(NetworkCommand::PollInstancesReconcile)],
                ))
            } else if action == "newfleet"@ {
                let picked: Step = match str_field(reply.fields@, "id"@) {
                    Some(id) => if id@.len() > 0 {
                        (
                            (FleetsView { selected_fleet: id, selected_node: None, selected_job: None, ..s0 }, d.1),
                            seq![DeckEffect::SaveSelectedFleet(id)],
                        )
                    } else {
                        unchanged((s0, d.1))
                    },
                    None => unchanged((s0, d.1)),
                };
                stepped(before, n, after, then(picked, |x: Deck| spec_refresh_deck(x, true)))
            } else {
                stepped(before, n, after, spec_refresh_after((s0, d.1), action))
            }
        },
    }
}

/// Provisioning progress arrived: ignored unless for the polled box; else shown (see [`spec_progress_ok`]), or on failure the bar goes and the failure is shown.
pub open spec fn on_progress(d: Deck, n: FleetsView, before: Seq<DeckEffect>, after: Seq<DeckEffect>, contract: String, result: Result<BoxProgressResp, ClientError>) -> bool {
    if !polled(d, contract@) {
        stepped(before, n, after, unchanged(d))
    } else {
        match result {
            Ok(resp) => stepped(before, n, after, spec_progress_ok(d, resp)),
            Err(e) => banner_only(
                (FleetsView { progress: None, progress_contract: None, ..d.0 }, d.1),
                n,
                before,
                after,
                false,
                failure_text("PROVISION"@, e),
            ),
        }
    }
}

/// A job delta: ignored for another fleet; else the job patched, and the jobs fetched again when no job had its id.
pub open spec fn on_job_delta(d: Deck, n: FleetsView, before: Seq<DeckEffect>, after: Seq<DeckEffect>, ev: SseJobEvent) -> bool {
    if ev.fleet@ != d.0.selected_fleet@ {
        stepped(before, n, after, unchanged(d))
    } else {
        exists|out: PatchOutcome|
            #[trigger] job_patch(d.0.jobs@, n.jobs@, ev, out) && stepped(
                before,
                n,
                after,
                if out == PatchOutcome::NotFound {
                    spec_fetch_jobs((FleetsView { jobs: n.jobs, ..d.0 }, d.1))
                } else {
                    unchanged((FleetsView { jobs: n.jobs, ..d.0 }, d.1))
                },
            )
    }
}

/// A box delta: the roster patched (see [`box_delta_applied`]), then its lifecycle consequences (see [`spec_box_lifecycle`]).
pub open spec fn on_box_delta(d: Deck, n: FleetsView, before: Seq<DeckEffect>, after: Seq<DeckEffect>, ev: SseBoxEvent) -> bool {
    {
        &&& box_delta_applied(d.0.instances, n.instances, ev)
        &&& stepped(before, n, after, spec_box_lifecycle((FleetsView { instances: n.instances, ..d.0 }, d.1), ev))
    }
}

/// A fleet delta: a known fleet is patched in place; an unknown one makes the roster fetched again.
pub open spec fn on_fleet_delta(d: Deck, n: FleetsView, before: Seq<DeckEffect>, after: Seq<DeckEffect>, ev: SseFleetEvent) -> bool {
    match d.0.fleets {
        Some(f0) => if knows_fleet(f0, ev.id@) {
            &&& (n.fleets matches Some(f1) && (exists|out: PatchOutcome| #[trigger] fleet_patch(f0, f1, ev, out)))
            &&& stepped(before, n, after, unchanged((FleetsView { fleets: n.fleets, ..d.0 }, d.1)))
        } else {
            stepped(before, n, after, (d, seq![DeckEffect::Send(NetworkCommand::RefreshFleets)]))
        },
        None => stepped(before, n, after, (d, seq![DeckEffect::Send(NetworkCommand::RefreshFleets)])),
    }
}

/// A node delta: ignored for another fleet; without a tree the probed tree is fetched; else the node patched, and the board laid out again when a node was added or the links changed.
pub open spec fn on_node_delta(d: Deck, n: FleetsView, before: Seq<DeckEffect>, after: Seq<DeckEffect>, ev: SseNodeEvent) -> bool {
    if ev.fleet@ != d.0.selected_fleet@ {
        stepped(before, n, after, unchanged(d))
    } else {
        match d.0.tree {
            None => stepped(before, n, after, spec_fetch_tree(d, true)),
            Some(t0) => {
                &&& n.tree matches Some(t1)
                &&& exists|out: TreePatchOutcome|
                    #[trigger] node_patch(t0, t1, ev, out) && stepped(
                        before,
                        n,
                        after,
                        if out == TreePatchOutcome::Inserted || ev.parent is Some || ev.children is Some {
                            spec_apply_tree((FleetsView { tree: n.tree, ..d.0 }, d.1), t1)
                        } else {
                            unchanged((FleetsView { tree: n.tree, ..d.0 }, d.1))
                        },
                    )
            },
        }
    }
}

/// How the deck handles `msg` (see the `on_*` and `spec_*` functions).
pub open spec fn handled(d: Deck, n: FleetsView, before: Seq<DeckEffect>, after: Seq<DeckEffect>, msg: FleetsMsg) -> bool {
    match msg {
        FleetsMsg::Fleets(Ok(resp)) => on_fleets(d, n, before, after, resp),
        FleetsMsg::Fleets(Err(e)) => banner_only(
            (FleetsView { refreshing: false, ..d.0 }, d.1), n, before, after, true, failure_text("FLEETS"@, e)),
        FleetsMsg::Instances { result: Ok(fetched), reconcile } => on_instances(d, n, before, after, fetched, reconcile),
        FleetsMsg::Instances { result: Err(e), .. } => banner_only(d, n, before, after, true, failure_text("BOXES"@, e)),
        FleetsMsg::Tree { result: Ok(tree) } => stepped(before, n, after, spec_tree_ok(d, tree)),
        FleetsMsg::Tree { result: Err(e) } => banner_only(
            (
                FleetsView { tree_phased_remaining: 0, tree_loading: false, ..d.0 },
                d.1.filter(other_tree(d.0.selected_fleet@, d.0.branch)),
            ),
            n,
            before,
            after,
            true,
            failure_text("TREE"@, e),
        ),
        FleetsMsg::Jobs { result: Ok(j) } => stepped(
            before,
            n,
            after,
            unchanged((FleetsView { jobs: j.jobs, selected_job: job_kept(d.0.selected_job, j.jobs@), ..d.0 }, d.1)),
        ),
        FleetsMsg::Jobs { result: Err(e) } => banner_only(d, n, before, after, true, failure_text("JOBS"@, e)),
        FleetsMsg::GpuSearch { result: Ok(resp) } => stepped(before, n, after, spec_gpu_search_ok(d, resp)),
        FleetsMsg::GpuSearch { result: Err(e) } => banner_only(
            (FleetsView { gpu_search_loading: false, gpu_offers: None, ..d.0 }, d.1),
            n,
            before,
            after,
            false,
            failure_text("GPU SEARCH"@, e),
        ),
        FleetsMsg::Action { action, result: Ok(reply) } => on_action_ok(d, n, before, after, action@, reply),
        FleetsMsg::Action { action, result: Err(e) } => banner_only(d, n, before, after, false, failure_text(action@, e)),
        FleetsMsg::BoxProgress { contract, result } => on_progress(d, n, before, after, contract, result),
        FleetsMsg::RefreshStarted => stepped(before, n, after, unchanged((FleetsView { refreshing: true, ..d.0 }, d.1))),
        FleetsMsg::LiveConnected(c) => stepped(before, n, after, unchanged((FleetsView { live: c, ..d.0 }, d.1))),
        FleetsMsg::JobDelta(ev) => on_job_delta(d, n, before, after, ev),
        FleetsMsg::BoxDelta(ev) => on_box_delta(d, n, before, after, ev),
        FleetsMsg::FleetDelta(ev) => on_fleet_delta(d, n, before, after, ev),
        FleetsMsg::NodeDelta(ev) => on_node_delta(d, n, before, after, ev),
    }
}


fn tree_has_tag(tree: &TreeResp, tag: &str) -> (r: bool)
    ensures
        r == exists|i: int| 0 <= i < tree.nodes@.len() && (#[trigger] tree.nodes@[i]).tag@ == tag@,
{
    let mut i: usize = 0;
    while i < tree.nodes.len()
        invariant
            i <= tree.nodes.len(),
            forall|j: int| 0 <= j < i ==> (#[trigger] tree.nodes@[j]).tag@ != tag@,
        decreases tree.nodes.len() - i,
    {
        if str_eq(tree.nodes[i].tag.as_str(), tag) {
            return true;
        }
        i = i + 1;
    }
    false
}

fn jobs_have(jobs: &Vec<Job>, id: &str) -> (r: bool)
    ensures
        r == exists|i: int| 0 <= i < jobs@.len() && (#[trigger] jobs@[i]).job_id@ == id@,
{
    let mut i: usize = 0;
    while i < jobs.len()
        invariant
            i <= jobs.len(),
            forall|j: int| 0 <= j < i ==> (#[trigger] jobs@[j]).job_id@ != id@,
        decreases jobs.len() - i,
    {
        if str_eq(jobs[i].job_id.as_str(), id) {
            return true;
        }
        i = i + 1;
    }
    false
}

/// Whether the roster lists a fleet with this id.
pub open spec fn knows_fleet(fleets: FleetsResp, id: Seq<char>) -> bool {
    exists|i: int| 0 <= i < fleets.fleets@.len() && (#[trigger] fleets.fleets@[i]).id@ == id
}

fn fleets_have(fleets: &FleetsResp, id: &str) -> (r: bool)
    ensures
        r == knows_fleet(*fleets, id@),
{
    let mut i: usize = 0;
    while i < fleets.fleets.len()
        invariant
            i <= fleets.fleets.len(),
            forall|j: int| 0 <= j < i ==> (#[trigger] fleets.fleets@[j]).id@ != id@,
        decreases fleets.fleets.len() - i,
    {
        if str_eq(fleets.fleets[i].id.as_str(), id) {
            return true;
        }
        i = i + 1;
    }
    false
}

fn fresh_instances() -> (r: InstancesResp)
    ensures
        fresh_roster(r),
{
    InstancesResp { ok: true, configured: true, total: 0, unassigned: 0, instances: Vec::new(), error: None }
}

impl FleetsView {
    /// Shows `tree` (see [`spec_apply_tree`]).
    pub fn apply_tree(&mut self, tree: TreeResp, out: &mut Vec<DeckEffect>)
        ensures
            stepped(old(out)@, *final(self), final(out)@, spec_apply_tree(deck_of(*old(self)), tree)),
    {
        let drop_node = match &self.selected_node {
            Some(sel) => !tree_has_tag(&tree, sel.as_str()),
            None => false,
        };
        if drop_node {
            self.selected_node = None;
        }
        self.fleet_size = tree.fleet;
        self.tree = Some(tree);
        out.push(DeckEffect::Relayout);
    }

    fn on_tree_ok(&mut self, tree: TreeResp, out: &mut Vec<DeckEffect>)
        ensures
            stepped(old(out)@, *final(self), final(out)@, spec_tree_ok(deck_of(*old(self)), tree)),
    {
        let fleet = self.selected_fleet.clone();
        let branch = self.branch;
        self.apply_tree(tree, out);
        if self.tree_phased_remaining > 0 && self.tree_phased_remaining - 1 > 0 {
            self.tree_phased_remaining = self.tree_phased_remaining - 1;
        } else {
            self.tree_phased_remaining = 0;
            self.tree_loading = false;
            self.clear_tree_pending_for(fleet.as_str(), branch);
        }
    }

    fn rent_gpu_name_of(&self, reply: &ActionReply) -> (r: String)
        ensures
            r@ == rent_gpu_name(*self, *reply),
    {
        match reply_gpu_name_of(reply) {
            Some(g) => g,
            None => self.offered_gpu_name_of(),
        }
    }

    fn offered_gpu_name_of(&self) -> (r: String)
        ensures
            r@ == offered_gpu_name(*self),
    {
        match &self.gpu_offers {
            Some(offers) => match find_group(offers, self.rent_gpu_filter.as_str()) {
                Some(i) => offers.groups[i].gpu_name.clone(),
                None => self.rent_gpu_filter.clone(),
            },
            None => self.rent_gpu_filter.clone(),
        }
    }

    fn rent_num_gpus_of(&self, reply: &ActionReply) -> (r: i64)
        ensures
            r == rent_num_gpus(*self, *reply),
    {
        match get_field(reply.fields.as_slice(), "gpus") {
            Some(v) => match v.as_i64() {
                Some(k) => k,
                None => self.rent_gpus_per_box as i64,
            },
            None => self.rent_gpus_per_box as i64,
        }
    }

    /// The selected fleet's placeholders for a successful rent, then a poll
    /// that reconciles them (see [`rent_roster`]).
    fn on_rent_ok(&mut self, reply: &ActionReply, out: &mut Vec<DeckEffect>)
        ensures
            *final(self) == (FleetsView { instances: final(self).instances, ..*old(self) }),
            rent_roster(*old(self), final(self).instances, *reply),
            final(out)@ == old(out)@.push(DeckEffect::Send(NetworkCommand::PollInstancesReconcile)),
    {
        let gpu_name = self.rent_gpu_name_of(reply);
        let num_gpus = self.rent_num_gpus_of(reply);
        match &reply.pending {
            Some(entries) => {
                let mut resp = match self.instances.take() {
                    Some(r) => r,
                    None => fresh_instances(),
                };
                let ghost base = resp;
                let mut i: usize = 0;
                proof {
                    lemma_pending_start(base, entries@, gpu_name@, num_gpus);
                }
                while i < entries.len()
                    invariant
                        i <= entries.len(),
                        pending_applied(base, resp, entries@.take(i as int), gpu_name@, num_gpus),
                    decreases entries.len() - i,
                {
                    let ghost prev = resp;
                    match &entries[i] {
                        PendingEntry::Id(id) => insert_pending_box_id(&mut resp, id.as_str(), gpu_name.as_str(), num_gpus),
                        PendingEntry::Object(f) => insert_pending_box(&mut resp, f.as_slice(), gpu_name.as_str(), num_gpus),
                        PendingEntry::Other => {},
                    }
                    proof {
                        lemma_pending_step(base, prev, resp, entries@, i as int, gpu_name@, num_gpus);
                    }
                    i = i + 1;
                }
                assert(entries@.take(entries.len() as int) =~= entries@);
                self.instances = Some(resp);
            },
            None => {},
        }
        out.push(DeckEffect::Send(NetworkCommand::PollInstancesReconcile));
    }

    /// Applies a box delta to the roster, then its lifecycle consequences
    /// (see [`box_delta_applied`] and [`spec_box_lifecycle`]).
    fn on_box_delta(&mut self, ev: &SseBoxEvent, out: &mut Vec<DeckEffect>)
        ensures
            on_box_delta(deck_of(*old(self)), *final(self), old(out)@, final(out)@, *ev),
    {
        match self.instances.take() {
            None => {
                let mut resp = fresh_instances();
                let ghost base = resp;
                insert_box(&mut resp, ev);
                assert(fresh_roster(base) && box_inserted(base, resp, *ev));
                self.instances = Some(resp);
            },
            Some(mut resp) => {
                let ghost r0 = resp;
                let outcome = patch_box(&mut resp, ev);
                let ghost mid = resp;
                match outcome {
                    PatchOutcome::Updated => {},
                    PatchOutcome::NotFound => insert_box(&mut resp, ev),
                }
                assert(box_patch(r0, mid, *ev, outcome));
                self.instances = Some(resp);
            },
        }
        let fx = on_box_lifecycle(ev, opt_as_str(&self.progress_contract), self.selected_fleet.as_str());
        if fx.clear_progress {
            self.clear_progress();
        }
        if fx.refresh_tree {
            self.fetch_tree_phased(out);
        }
    }

    /// Handles a result or live delta from the network task (see [`handled`]).
    pub fn handle_msg(&mut self, msg: FleetsMsg, out: &mut Vec<DeckEffect>)
        requires
            msg_ok(msg),
        ensures
            handled(deck_of(*old(self)), *final(self), old(out)@, final(out)@, msg),
    {
        match msg {
            FleetsMsg::Fleets(Ok(resp)) => self.on_fleets_ok(resp, out),
            FleetsMsg::Fleets(Err(e)) => {
                self.refreshing = false;
                self.error = Some(failure_banner("FLEETS", &e));
            },
            FleetsMsg::Instances { result: Ok(fetched), reconcile } => self.on_instances_ok(fetched, reconcile),
            FleetsMsg::Instances { result: Err(e), .. } => {
                self.error = Some(failure_banner("BOXES", &e));
            },
            FleetsMsg::Tree { result: Ok(tree) } => self.on_tree_ok(tree, out),
            FleetsMsg::Tree { result: Err(e) } => self.on_tree_err(&e),
            FleetsMsg::Jobs { result: Ok(j) } => self.on_jobs_ok(j),
            FleetsMsg::Jobs { result: Err(e) } => {
                self.error = Some(failure_banner("JOBS", &e));
            },
            FleetsMsg::GpuSearch { result: Ok(resp) } => self.on_gpu_search_ok(resp),
            FleetsMsg::GpuSearch { result: Err(e) } => {
                self.gpu_search_loading = false;
                self.gpu_offers = None;
                self.action_msg = Some(failure_banner("GPU SEARCH", &e));
            },
            FleetsMsg::Action { action, result: Ok(reply) } => self.on_action_ok(action, reply, out),
            FleetsMsg::Action { action, result: Err(e) } => {
                self.action_msg = Some(failure_banner(action.as_str(), &e));
            },
            FleetsMsg::BoxProgress { contract, result } => self.on_progress(contract, result, out),
            FleetsMsg::RefreshStarted => {
                self.refreshing = true;
            },
            FleetsMsg::LiveConnected(connected) => {
                self.live = connected;
            },
            FleetsMsg::JobDelta(ev) => self.on_job_delta(ev, out),
            FleetsMsg::BoxDelta(ev) => self.on_box_delta(&ev, out),
            FleetsMsg::FleetDelta(ev) => self.on_fleet_delta(ev, out),
            FleetsMsg::NodeDelta(ev) => self.on_node_delta(ev, out),
        }
    }

    fn on_fleets_ok(&mut self, resp: FleetsResp, out: &mut Vec<DeckEffect>)
        ensures
            on_fleets(deck_of(*old(self)), *final(self), old(out)@, final(out)@, resp),
    {
        self.refreshing = false;
        self.error = None;
        if self.selected_fleet.as_str().is_empty() {
            let pick = if !resp.active.as_str().is_empty() {
                resp.active.clone()
            } else if !resp.default.as_str().is_empty() {
                resp.default.clone()
            } else if resp.fleets.len() > 0 {
                resp.fleets[0].id.clone()
            } else {
                String::new()
            };
            self.selected_fleet = pick.clone();
            out.push(DeckEffect::SaveSelectedFleet(pick));
        }
        self.fleets = Some(resp);
    }

    fn on_instances_ok(&mut self, fetched: InstancesResp, reconcile: bool)
        ensures
            on_instances(deck_of(*old(self)), *final(self), Seq::empty(), Seq::empty(), fetched, reconcile),
    {
        let resp = if reconcile {
            match &self.instances {
                Some(cached) => merge_instances_reconcile(cached, fetched),
                None => fetched,
            }
        } else {
            fetched
        };
        self.instances = Some(resp);
    }

    fn on_tree_err(&mut self, e: &ClientError)
        requires
            error_ok(*e),
        ensures
            banner_only(
                (
                    FleetsView { tree_phased_remaining: 0, tree_loading: false, ..*old(self) },
                    old(self).tree_pending@.filter(other_tree(old(self).selected_fleet@, old(self).branch)),
                ),
                *final(self),
                Seq::empty(),
                Seq::empty(),
                true,
                failure_text("TREE"@, *e),
            ),
    {
        let fleet = self.selected_fleet.clone();
        let branch = self.branch;
        self.tree_phased_remaining = 0;
        self.tree_loading = false;
        self.clear_tree_pending_for(fleet.as_str(), branch);
        self.error = Some(failure_banner("TREE", e));
    }

    fn on_jobs_ok(&mut self, j: JobsResp)
        ensures
            holds(*final(self), (FleetsView { jobs: j.jobs, selected_job: job_kept(old(self).selected_job, j.jobs@), ..*old(self) }, old(self).tree_pending@)),
    {
        self.jobs = j.jobs;
        let drop_sel = match &self.selected_job {
            Some(sel) => !jobs_have(&self.jobs, sel.as_str()),
            None => false,
        };
        if drop_sel {
            self.selected_job = None;
        }
    }

    fn on_gpu_search_ok(&mut self, resp: GpuSearchResp)
        ensures
            holds(*final(self), spec_gpu_search_ok(deck_of(*old(self)), resp).0),
    {
        self.gpu_search_loading = false;
        if self.rent_gpu_filter.as_str().is_empty() && resp.groups.len() > 0 {
            self.rent_gpu_filter = resp.groups[0].gpu_filter.clone();
        }
        self.gpu_offers = Some(resp);
    }

    fn on_progress(&mut self, contract: String, result: Result<BoxProgressResp, ClientError>, out: &mut Vec<DeckEffect>)
        requires
            result_ok(result),
        ensures
            on_progress(deck_of(*old(self)), *final(self), old(out)@, final(out)@, contract, result),
    {
        let mine = match &self.progress_contract {
            Some(c) => str_eq(c.as_str(), contract.as_str()),
            None => false,
        };
        if !mine {
            return;
        }
        match result {
            Ok(resp) => {
                if resp.is_terminal() {
                    self.clear_progress();
                    self.fetch_instances(out);
                    self.fetch_tree_phased(out);
                } else {
                    self.progress = Some(resp);
                }
            },
            Err(e) => {
                self.progress = None;
                self.progress_contract = None;
                self.action_msg = Some(failure_banner("PROVISION", &e));
            },
        }
    }

    fn on_job_delta(&mut self, ev: SseJobEvent, out: &mut Vec<DeckEffect>)
        ensures
            on_job_delta(deck_of(*old(self)), *final(self), old(out)@, final(out)@, ev),
    {
        if !str_eq(ev.fleet.as_str(), self.selected_fleet.as_str()) {
            return;
        }
        let outcome = patch_job(&mut self.jobs, &ev);
        match outcome {
            PatchOutcome::Updated => {},
            PatchOutcome::NotFound => self.fetch_jobs(out),
        }
    }

    fn on_fleet_delta(&mut self, ev: SseFleetEvent, out: &mut Vec<DeckEffect>)
        ensures
            on_fleet_delta(deck_of(*old(self)), *final(self), old(out)@, final(out)@, ev),
    {
        let known = match &self.fleets {
            Some(f) => fleets_have(f, ev.id.as_str()),
            None => false,
        };
        if known {
            match self.fleets.take() {
                Some(mut f) => {
                    let ghost f0 = f;
                    let outcome = patch_fleet(&mut f, &ev);
                    assert(fleet_patch(f0, f, ev, outcome));
                    self.fleets = Some(f);
                    assert(self.fleets->0 == f);
                    assert(fleet_patch(f0, self.fleets->0, ev, outcome));
                },
                None => {},
            }
        } else {
            self.refresh_fleets(out);
        }
    }

    fn on_node_delta(&mut self, ev: SseNodeEvent, out: &mut Vec<DeckEffect>)
        ensures
            on_node_delta(deck_of(*old(self)), *final(self), old(out)@, final(out)@, ev),
    {
        if !str_eq(ev.fleet.as_str(), self.selected_fleet.as_str()) {
            return;
        }
        match self.tree.take() {
            None => {
                self.fetch_tree(true, out);
            },
            Some(mut t) => {
                let ghost t0 = t;
                let topology = ev.parent.is_some() || ev.children.is_some();
                let outcome = patch_tree_node(&mut t, &ev);
                assert(node_patch(t0, t, ev, outcome));
                let relayout = match outcome {
                    TreePatchOutcome::Inserted => true,
                    TreePatchOutcome::Updated => topology,
                };
                if relayout {
                    self.apply_tree(t, out);
                } else {
                    self.tree = Some(t);
                }
            },
        }
    }

    fn on_action_ok(&mut self, action: String, reply: ActionReply, out: &mut Vec<DeckEffect>)
        ensures
            on_action_ok(deck_of(*old(self)), *final(self), old(out)@, final(out)@, action@, reply),
    {
        match get_field(reply.fields.as_slice(), "error") {
            Some(JsonValue::Str(err)) => {
                let mut m = owned(action.as_str());
                push_str(&mut m, " \u{2014} ");
                push_str(&mut m, err.as_str());
                self.action_msg = Some(m);
                return;
            },
            _ => {},
        }
        let mut m = owned(action.as_str());
        push_str(&mut m, " OK");
        if str_eq(action.as_str(), "rentgpus") {
            self.on_rent_ok(&reply, out);
            self.action_msg = Some(m);
            return;
        }
        self.action_msg = Some(m);
        if str_eq(action.as_str(), "newfleet") {
            match get_field(reply.fields.as_slice(), "id") {
                Some(JsonValue::Str(id)) => {
                    if !id.as_str().is_empty() {
                        self.selected_fleet = id.clone();
                        out.push(DeckEffect::SaveSelectedFleet(id));
                        self.selected_node = None;
                        self.selected_job = None;
                    }
                },
                _ => {},
            }
            self.refresh_deck(true, out);
            return;
        }
        match refresh_after_action(action.as_str(), self.selected_fleet.as_str()) {
            RefreshPlan::Nothing => {},
            RefreshPlan::Roster { .. } => {
                self.fetch_instances(out);
                self.fetch_tree_phased(out);
            },
            RefreshPlan::Deck => {
                self.refresh_deck(true, out);
            },
        }
    }
}

fn reply_gpu_name_of(reply: &ActionReply) -> (r: Option<String>)
    ensures
        match reply_gpu_name(*reply) {
            Some(g) => r matches Some(x) && x@ == g,
            None => r is None,
        },
{
    match get_field(reply.fields.as_slice(), "gpu_name") {
        Some(v) => match v.as_string() {
            Some(g) => if g.as_str().is_empty() { None } else { Some(g) },
            None => None,
        },
        None => None,
    }
}

fn find_group(offers: &GpuSearchResp, filter: &str) -> (r: Option<usize>)
    ensures
        r is None <==> first_match(offers.groups@, group_filter_is(filter@)) is None,
        r matches Some(j) ==> first_match(offers.groups@, group_filter_is(filter@)) == Some(j as int) && j
            < offers.groups@.len(),
{
    let ghost p = group_filter_is(filter@);
    let mut i: usize = 0;
    while i < offers.groups.len()
        invariant
            i <= offers.groups.len(),
            p == group_filter_is(filter@),
            forall|j: int| 0 <= j < i ==> !p(#[trigger] offers.groups@[j]),
        decreases offers.groups.len() - i,
    {
        if str_eq(offers.groups[i].gpu_filter.as_str(), filter) {
            proof {
                lemma_first_match_at(offers.groups@, p, i as int);
            }
            return Some(i);
        }
        i = i + 1;
    }
    proof {
        lemma_first_match_none(offers.groups@, p);
    }
    None
}

fn opt_as_str(o: &Option<String>) -> (r: Option<&str>)
    ensures
        match *o {
            Some(s) => r matches Some(t) && t@ == s@,
            None => r is None,
        },
{
    match o {
        Some(s) => Some(s.as_str()),
        None => None,
    }
}


proof fn lemma_pending_step(
    base: InstancesResp,
    prev: InstancesResp,
    c: InstancesResp,
    entries: Seq<PendingEntry>,
    i: int,
    gpu: Seq<char>,
    num: i64,
)
    requires
        0 <= i < entries.len(),
        pending_applied(base, prev, entries.take(i), gpu, num),
        entry_applied(prev, c, entries[i], gpu, num),
    ensures
        pending_applied(base, c, entries.take(i + 1), gpu, num),
{
    let steps = choose|steps: Seq<InstancesResp>| #[trigger] pending_chain(steps, base, prev, entries.take(i), gpu, num);
    let t = entries.take(i + 1);
    let steps2 = steps.push(c);
    assert forall|k: int| 0 <= k < t.len() implies #[trigger] entry_applied(steps2[k], steps2[k + 1], t[k], gpu, num) by {
        if k < i {
            assert(entries.take(i)[k] == t[k]);
            assert(entry_applied(steps[k], steps[k + 1], entries.take(i)[k], gpu, num));
        }
    }
    assert(pending_chain(steps2, base, c, t, gpu, num));
}

proof fn lemma_pending_start(base: InstancesResp, entries: Seq<PendingEntry>, gpu: Seq<char>, num: i64)
    ensures
        pending_applied(base, base, entries.take(0), gpu, num),
{
    assert(pending_chain(seq![base], base, base, entries.take(0), gpu, num));
}

} // verus!
