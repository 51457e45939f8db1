//! Desktop app decisions: table cell text, the saved run-kind preference,
//! visualizer readiness, and when the background polls stop.
use vstd::prelude::*;
use crate::client::{error_text, ClientError, STATUS_UNAUTHORIZED};
use crate::health::KindFilter;
use crate::vizmodel::VizStatusResp;
use crate::model::{RunScalars, TreeNode};
use crate::text::{
    lemma_text_rank_flip, lemma_text_rank_trans, lemma_text_rank_zero, text_compare, text_rank,
    chars_of, decimal, int_text, i64_text, owned, push_str, str_eq, string_of,
    trim_start_ws, trim_ws, trimmed, u64_text,
};

verus! {

/// Placeholder shown for a missing value.
pub open spec fn dash() -> Seq<char> {
    seq!['\u{2014}']
}

/// Epoch cell: `current/total` when both are known and the total is
/// positive, the current epoch alone when only it is, else a dash.
pub open spec fn epoch_text(current: Option<i64>, total: Option<i64>) -> Seq<char> {
    match (current, total) {
        (Some(c), Some(t)) => if t > 0 {
            int_text(c as int) + "/"@ + int_text(t as int)
        } else {
            int_text(c as int)
        },
        (Some(c), None) => int_text(c as int),
        _ => dash(),
    }
}

/// Epoch cell text (see [`epoch_text`]).
pub fn fmt_epoch(current: Option<i64>, total: Option<i64>) -> (r: String)
    ensures
        r@ == epoch_text(current, total),
{
    match (current, total) {
        (Some(c), Some(t)) => {
            if t > 0 {
                let mut s = i64_text(c);
                push_str(&mut s, "/");
                let ts = i64_text(t);
                push_str(&mut s, ts.as_str());
                s
            } else {
                i64_text(c)
            }
        },
        (Some(c), None) => i64_text(c),
        _ => {
            let mut s = String::new();
            crate::text::push_char(&mut s, '\u{2014}');
            assert(s@ =~= dash());
            s
        },
    }
}

/// A run status as the table shows it: one of the known states, else `unknown`.
pub open spec fn status_text(status: Option<Seq<char>>) -> Seq<char> {
    match status {
        Some(s) => if s == "running"@ || s == "starting"@ || s == "stopping"@ || s == "idle"@ {
            s
        } else {
            "unknown"@
        },
        None => "unknown"@,
    }
}

/// A run status as the table shows it (see [`status_text`]).
pub fn status_label(status: Option<&str>) -> (r: &'static str)
    ensures
        r@ == status_text(
            match status {
                Some(s) => Some(s@),
                None => None,
            },
        ),
{
    match status {
        Some(s) => if str_eq(s, "running") {
            "running"
        } else if str_eq(s, "starting") {
            "starting"
        } else if str_eq(s, "stopping") {
            "stopping"
        } else if str_eq(s, "idle") {
            "idle"
        } else {
            "unknown"
        },
        None => "unknown",
    }
}

/// Remaining time for a whole number of seconds: seconds under a minute,
/// whole minutes under an hour, else whole hours; a dash when unknown.
pub open spec fn eta_text(secs: Option<i64>) -> Seq<char> {
    match secs {
        None => dash(),
        Some(s) => if s < 60 {
            int_text(s as int) + "s"@
        } else if s < 3600 {
            decimal((s / 60) as nat) + "m"@
        } else {
            decimal((s / 3600) as nat) + "h"@
        },
    }
}

/// Remaining-time cell from seconds already rounded to a whole number (see [`eta_text`]).
pub fn fmt_eta_secs(secs: Option<i64>) -> (r: String)
    ensures
        r@ == eta_text(secs),
{
    match secs {
        None => {
            let mut s = String::new();
            crate::text::push_char(&mut s, '\u{2014}');
            assert(s@ =~= dash());
            s
        },
        Some(n) => {
            if n < 60 {
                let mut s = i64_text(n);
                push_str(&mut s, "s");
                s
            } else if n < 3600 {
                let mut s = u64_text((n / 60) as u64);
                push_str(&mut s, "m");
                s
            } else {
                let mut s = u64_text((n / 3600) as u64);
                push_str(&mut s, "h");
                s
            }
        },
    }
}

/// Message shown when signing in fails: a fixed text for a rejected
/// credential, else the failure's own text.
pub open spec fn auth_error_text(e: ClientError) -> Seq<char> {
    if e is Unauthorized || (e matches ClientError::Api { status, .. } && status == STATUS_UNAUTHORIZED) {
        "Sign in failed \u{2014} authentication rejected"@
    } else {
        error_text(e)
    }
}

/// Message shown when signing in fails (see [`auth_error_text`]).
pub fn auth_error_message(err: &ClientError) -> (r: String)
    requires
        *err matches ClientError::Api { status, .. } ==> 100 <= status <= 999,
    ensures
        r@ == auth_error_text(*err),
{
    if err.is_unauthorized() {
        owned("Sign in failed \u{2014} authentication rejected")
    } else {
        err.message()
    }
}

/// `s` without leading `c`s.
pub open spec fn trim_start_char(s: Seq<char>, c: char) -> Seq<char>
    decreases s.len(),
{
    if s.len() > 0 && s[0] == c {
        trim_start_char(s.skip(1), c)
    } else {
        s
    }
}

/// `str::trim_matches('"')`: without leading and trailing double quotes.
pub open spec fn unquoted(s: Seq<char>) -> Seq<char> {
    crate::text::trim_end_char(trim_start_char(s, '"'), '"')
}

pub(crate) fn unquote(s: &str) -> (r: String)
    ensures
        r@ == unquoted(s@),
{
    let cs = chars_of(s);
    let n = cs.len();
    let mut i: usize = 0;
    assert(s@.skip(0) =~= s@);
    while i < n && cs[i] == '"'
        invariant
            i <= n,
            n == cs@.len(),
            cs@ == s@,
            trim_start_char(s@, '"') == trim_start_char(s@.skip(i as int), '"'),
        decreases n - i,
    {
        assert(s@.skip(i as int).skip(1) =~= s@.skip(i + 1));
        assert(s@.skip(i as int)[0] == cs@[i as int]);
        i = i + 1;
    }
    let ghost t = s@.skip(i as int);
    assert(trim_start_char(s@, '"') == t) by {
        if i < n {
            assert(t[0] == cs@[i as int]);
        }
    }
    let rest = string_of(vstd::slice::slice_subrange(cs.as_slice(), i, n));
    assert(rest@ =~= t);
    crate::text::trim_end_matches_char(rest.as_str(), '"')
}


/// A saved one-value preference: the file's text without surrounding white
/// space, then without surrounding double quotes.
pub fn saved_value(raw: &str) -> (r: String)
    ensures
        r@ == unquoted(trimmed(raw@)),
{
    let t = trim_ws(raw);
    unquote(t.as_str())
}

/// The saved form of a one-value preference: the value in double quotes.
pub fn quoted_value(value: &str) -> (r: String)
    ensures
        r@ == seq!['"'] + value@ + seq!['"'],
{
    let mut s = String::new();
    crate::text::push_char(&mut s, '"');
    push_str(&mut s, value);
    crate::text::push_char(&mut s, '"');
    s
}


/// A value saved in quotes reads back as itself, when it neither starts nor
/// ends with a quote.
pub proof fn lemma_quoted_round_trip(v: Seq<char>)
    requires
        v.len() > 0 ==> v[0] != '"' && v.last() != '"',
    ensures
        unquoted(trimmed(seq!['"'] + v + seq!['"'])) == v,
{
    let q = seq!['"'] + v + seq!['"'];
    assert(trim_start_ws(q) == q) by {
        assert(q[0] == '"');
    }
    assert(trimmed(q) == q) by {
        assert(q.last() == '"');
    }
    assert(q.skip(1) =~= v + seq!['"']);
    let w = v + seq!['"'];
    assert(q[0] == '"');
    assert(trim_start_char(q, '"') == trim_start_char(w, '"'));
    if v.len() > 0 {
        assert(w[0] == v[0]);
        assert(trim_start_char(w, '"') == w);
    } else {
        assert(w =~= seq!['"']);
        assert(w.skip(1) =~= Seq::<char>::empty());
        assert(trim_start_char(w.skip(1), '"') == Seq::<char>::empty());
        assert(trim_start_char(w, '"') == trim_start_char(w.skip(1), '"'));
    }
    assert(trim_start_char(q, '"') == (if v.len() > 0 { w } else { Seq::<char>::empty() }));
    if v.len() > 0 {
        assert(w.drop_last() =~= v);
        assert(crate::text::trim_end_char(v, '"') == v);
    }
}

/// The run-kind filter a saved preference names: `lm`, `video` or `recon`
/// (after trimming white space, then quotes), anything else meaning all.
pub open spec fn kind_from_text(raw: Seq<char>) -> KindFilter {
    let v = unquoted(trimmed(raw));
    if v == "lm"@ {
        KindFilter::Lm
    } else if v == "video"@ || v == "recon"@ {
        KindFilter::Recon
    } else {
        KindFilter::All
    }
}

/// The run-kind filter a saved preference names (see [`kind_from_text`]).
pub fn kind_from_saved(raw: &str) -> (r: KindFilter)
    ensures
        r == kind_from_text(raw@),
{
    let t = trim_ws(raw);
    let v = unquote(t.as_str());
    if str_eq(v.as_str(), "lm") {
        KindFilter::Lm
    } else if str_eq(v.as_str(), "video") || str_eq(v.as_str(), "recon") {
        KindFilter::Recon
    } else {
        KindFilter::All
    }
}

/// The value a run-kind filter is saved as.
pub open spec fn kind_value(kind: KindFilter) -> Seq<char> {
    match kind {
        KindFilter::All => "all"@,
        KindFilter::Recon => "video"@,
        KindFilter::Lm => "lm"@,
    }
}

/// The saved form of a run-kind filter: its value as a JSON string.
pub fn kind_file_text(kind: KindFilter) -> (r: String)
    ensures
        r@ == seq!['"'] + kind_value(kind) + seq!['"'],
{
    let mut s = String::new();
    crate::text::push_char(&mut s, '"');
    match kind {
        KindFilter::All => push_str(&mut s, "all"),
        KindFilter::Recon => push_str(&mut s, "video"),
        KindFilter::Lm => push_str(&mut s, "lm"),
    }
    crate::text::push_char(&mut s, '"');
    s
}

/// Saving a filter and reading it back gives the same filter.
pub proof fn lemma_kind_round_trip(kind: KindFilter)
    ensures
        kind_from_text(seq!['"'] + kind_value(kind) + seq!['"']) == kind,
{
    reveal_strlit("all");
    reveal_strlit("video");
    reveal_strlit("lm");
    reveal_strlit("recon");
    let v = kind_value(kind);
    let q = seq!['"'] + v + seq!['"'];
    assert(trim_start_ws(q) == q) by {
        assert(q[0] == '"');
    }
    assert(trimmed(q) == q) by {
        assert(q.last() == '"');
    }
    assert(q[0] == '"');
    assert(q.skip(1) =~= v + seq!['"']);
    assert(v.len() > 0 && v[0] != '"');
    let w = v + seq!['"'];
    assert(w[0] == v[0]);
    assert(trim_start_char(w, '"') == w);
    assert(trim_start_char(q, '"') == w);
    assert(w.last() == '"');
    assert(w.drop_last() =~= v);
    assert(v.last() != '"');
    assert(crate::text::trim_end_char(v, '"') == v);
    assert(unquoted(q) == v);
    assert(unquoted(trimmed(q)) == v);
    match kind {
        KindFilter::All => {
            assert(v.len() != "lm"@.len() && v.len() != "video"@.len() && v.len() != "recon"@.len());
        },
        KindFilter::Recon => {
            assert(v.len() != "lm"@.len());
        },
        KindFilter::Lm => {},
    }
}


/// The group a run row shows: its group when set and other than its name,
/// else a dash.
pub open spec fn group_text(run: RunScalars) -> Seq<char> {
    if run.group@.len() > 0 && run.group@ != run.name@ {
        run.group@
    } else {
        dash()
    }
}

/// The group a run row shows (see [`group_text`]).
pub fn group_display(run: &RunScalars) -> (r: String)
    ensures
        r@ == group_text(*run),
{
    if !run.group.as_str().is_empty() && !str_eq(run.group.as_str(), run.name.as_str()) {
        run.group.clone()
    } else {
        proof {
            reveal_strlit("\u{2014}");
        }
        owned("\u{2014}")
    }
}

/// A column header's text: empty for an unlabelled column; the label; for
/// the sorted column the label with a down (descending) or up arrow.
pub open spec fn header_text(label: Seq<char>, active: bool, desc: bool) -> Seq<char> {
    if label.len() == 0 {
        Seq::empty()
    } else if !active {
        label
    } else if desc {
        label + " \u{25bc}"@
    } else {
        label + " \u{25b2}"@
    }
}

/// A column header's text (see [`header_text`]).
pub fn header_label(label: &str, active: bool, desc: bool) -> (r: String)
    ensures
        r@ == header_text(label@, active, desc),
{
    if label.is_empty() {
        return String::new();
    }
    let mut s = owned(label);
    if !active {
        return s;
    }
    if desc {
        push_str(&mut s, " \u{25bc}");
    } else {
        push_str(&mut s, " \u{25b2}");
    }
    s
}

/// Whether a relay's edge is drawn live: it has merged at least the whole
/// fleet's gossip nodes.
pub open spec fn edge_is_live(node: TreeNode, fleet_size: i64) -> bool {
    node.relay && fleet_size > 0 && (node.gnodes matches Some(g) && g >= fleet_size)
}

/// Whether a relay's edge is drawn live (see [`edge_is_live`]).
pub fn edge_live(node: &TreeNode, fleet_size: i64) -> (r: bool)
    ensures
        r == edge_is_live(*node, fleet_size),
{
    let g = match node.gnodes {
        Some(g) => g,
        None => 0,
    };
    node.relay && node.gnodes.is_some() && fleet_size > 0 && g >= fleet_size
}

/// Texts of strings, in order.
pub open spec fn texts(v: Seq<String>) -> Seq<Seq<char>> {
    v.map_values(|x: String| x@)
}

/// The texts strictly increase in text order.
pub open spec fn strictly_sorted(t: Seq<Seq<char>>) -> bool {
    forall|i: int, j: int| 0 <= i < j < t.len() ==> text_rank(#[trigger] t[i], #[trigger] t[j]) < 0
}

proof fn lemma_rank_strict_trans(a: Seq<char>, b: Seq<char>, c: Seq<char>)
    requires
        text_rank(a, b) < 0,
        text_rank(b, c) < 0,
    ensures
        text_rank(a, c) < 0,
{
    lemma_text_rank_trans(a, b, c);
    lemma_text_rank_zero(a, c);
    lemma_text_rank_flip(a, b);
}

/// The hidden-run keys as the preference file lists them: sorted in text
/// order, each once, exactly the keys given.
pub fn hidden_file_list(values: &[String]) -> (r: Vec<String>)
    ensures
        strictly_sorted(texts(r@)),
        forall|x: Seq<char>| texts(r@).contains(x) <==> texts(values@).contains(x),
{
    let mut out: Vec<String> = Vec::new();
    let mut i: usize = 0;
    while i < values.len()
        invariant
            i <= values.len(),
            strictly_sorted(texts(out@)),
            forall|x: Seq<char>| texts(out@).contains(x) <==> texts(values@.take(i as int)).contains(x),
        decreases values.len() - i,
    {
        let v = &values[i];
        let ghost t = texts(out@);
        let mut k: usize = 0;
        while k < out.len() && text_compare(out[k].as_str(), v.as_str()) < 0
            invariant
                k <= out.len(),
                t == texts(out@),
                forall|j: int| 0 <= j < k ==> text_rank(#[trigger] t[j], v@) < 0,
            decreases out.len() - k,
        {
            assert(t[k as int] == out@[k as int]@);
            k = k + 1;
        }
        let dup = k < out.len() && text_compare(out[k].as_str(), v.as_str()) == 0;
        proof {
            assert(texts(values@.take(i + 1)) =~= texts(values@.take(i as int)).push(v@));
            if k < out.len() {
                assert(t[k as int] == out@[k as int]@);
                lemma_text_rank_zero(t[k as int], v@);
            }
        }
        if !dup {
            proof {
                if k < out.len() {
                    lemma_text_rank_flip(t[k as int], v@);
                }
                assert forall|j: int| k <= j < t.len() implies text_rank(v@, #[trigger] t[j]) < 0 by {
                    if j > k {
                        lemma_rank_strict_trans(v@, t[k as int], t[j]);
                    }
                }
            }
            out.insert(k, v.clone());
            let ghost n = texts(out@);
            assert(n =~= t.take(k as int).push(v@) + t.skip(k as int));
            assert forall|a: int, b: int| 0 <= a < b < n.len() implies text_rank(#[trigger] n[a], #[trigger] n[b]) < 0 by {
                if b < k {
                    assert(n[a] == t[a] && n[b] == t[b]);
                } else if b == k {
                    assert(n[a] == t[a] && n[b] == v@);
                } else if a < k {
                    assert(n[a] == t[a] && n[b] == t[b - 1]);
                    assert(text_rank(t[a], v@) < 0);
                    assert(text_rank(v@, t[b - 1]) < 0);
                    lemma_rank_strict_trans(t[a], v@, t[b - 1]);
                } else if a == k {
                    assert(n[a] == v@ && n[b] == t[b - 1]);
                } else {
                    assert(n[a] == t[a - 1] && n[b] == t[b - 1]);
                }
            }
            assert forall|x: Seq<char>| n.contains(x) <==> (t.contains(x) || x == v@) by {
                if n.contains(x) {
                    let p = choose|p: int| 0 <= p < n.len() && n[p] == x;
                    if p < k {
                        assert(t[p] == x);
                    } else if p > k {
                        assert(t[p - 1] == x);
                    }
                }
                if t.contains(x) {
                    let p = choose|p: int| 0 <= p < t.len() && t[p] == x;
                    if p < k {
                        assert(n[p] == x);
                    } else {
                        assert(n[p + 1] == x);
                    }
                }
                if x == v@ {
                    assert(n[k as int] == x);
                }
            }
        } else {
            assert(t[k as int] == v@);
            assert(t.contains(v@));
            assert(texts(out@) == t);
        }
        let ghost after = texts(out@);
        assert(forall|x: Seq<char>| after.contains(x) <==> (t.contains(x) || x == v@));
        proof {
            assert forall|x: Seq<char>| texts(values@.take(i as int)).push(v@).contains(x) <==> (texts(values@.take(i as int)).contains(x) || x == v@) by {
                let w = texts(values@.take(i as int));
                if w.push(v@).contains(x) {
                    let p = choose|p: int| 0 <= p < w.push(v@).len() && w.push(v@)[p] == x;
                    if p < w.len() {
                        assert(w[p] == x);
                    }
                }
                if w.contains(x) {
                    let p = choose|p: int| 0 <= p < w.len() && w[p] == x;
                    assert(w.push(v@)[p] == x);
                }
                if x == v@ {
                    assert(w.push(v@)[w.len() as int] == x);
                }
            }
            assert forall|x: Seq<char>| after.contains(x) <==> texts(values@.take(i + 1)).contains(x) by {
                assert(after.contains(x) <==> (t.contains(x) || x == v@));
                assert(t.contains(x) <==> texts(values@.take(i as int)).contains(x));
            }
        }
        i = i + 1;
    }
    assert(values@.take(values.len() as int) =~= values@);
    out
}

/// Whether the visualizer says it is ready: its flag, or a `ready` state.
pub open spec fn viz_ready(s: VizStatusResp) -> bool {
    s.ready == Some(true) || (s.state is Some && s.state->0@ == "ready"@)
}

/// Whether the visualizer says it is ready (see [`viz_ready`]).
pub fn viz_status_ready(status: &VizStatusResp) -> (r: bool)
    ensures
        r == viz_ready(*status),
{
    let flag = match status.ready {
        Some(b) => b,
        None => false,
    };
    flag || crate::text::opt_is(&status.state, "ready")
}

/// The failure the visualizer reports: its error text, if any.
pub fn viz_status_error(status: &VizStatusResp) -> (r: Option<String>)
    ensures
        r == status.error,
{
    crate::model::copy_opt(&status.error)
}

/// Attempts of the box-provisioning poll.
pub const MAX_PROGRESS_POLLS: u32 = 120;

/// Attempts of the roster reconcile poll.
pub const MAX_RECONCILE_POLLS: u32 = 60;

/// Attempts of the visualizer readiness poll.
pub const MAX_VIZ_POLLS: u32 = 240;

/// What a poll does after one attempt.
#[derive(Debug, Clone, Copy, PartialEq, Eq, Structural)]
pub enum PollNext {
    /// Wait the poll interval, then try again.
    Wait,
    /// Stop polling.
    Stop,
}

/// After attempt `attempt` (from 0) of at most `max`: wait unless it was the last.
pub open spec fn wait_unless_last(attempt: u32, max: u32) -> PollNext {
    if attempt + 1 < max {
        PollNext::Wait
    } else {
        PollNext::Stop
    }
}

/// After a box-provisioning attempt: stop once provisioning finished, else
/// wait unless the attempts are used up.
pub fn progress_poll_next(attempt: u32, terminal: bool) -> (r: PollNext)
    ensures
        r == (if terminal {
            PollNext::Stop
        } else {
            wait_unless_last(attempt, MAX_PROGRESS_POLLS)
        }),
{
    if terminal {
        PollNext::Stop
    } else if (attempt as u64) + 1 < MAX_PROGRESS_POLLS as u64 {
        PollNext::Wait
    } else {
        PollNext::Stop
    }
}

/// After a reconcile attempt: remember whether boxes were ever seen coming
/// up; stop once they were and none is any more, else wait unless the
/// attempts are used up.
pub fn reconcile_poll_next(seen_in_flight: bool, attempt: u32, in_flight: bool) -> (r: (bool, PollNext))
    ensures
        r.0 == (seen_in_flight || in_flight),
        r.1 == (if r.0 && !in_flight {
            PollNext::Stop
        } else {
            wait_unless_last(attempt, MAX_RECONCILE_POLLS)
        }),
{
    let seen = seen_in_flight || in_flight;
    if seen && !in_flight {
        (seen, PollNext::Stop)
    } else if (attempt as u64) + 1 < MAX_RECONCILE_POLLS as u64 {
        (seen, PollNext::Wait)
    } else {
        (seen, PollNext::Stop)
    }
}

/// What the visualizer readiness poll does after an attempt.
#[derive(Debug, Clone, Copy, PartialEq, Eq, Structural)]
pub enum VizPollNext {
    /// Hand the status to the view and stop.
    Deliver,
    /// Wait, then ask again.
    Wait,
    /// Give up and report the time-out.
    TimedOut,
}

/// After a readiness attempt: deliver a ready or failed status; otherwise
/// wait, or time out after the last attempt.
pub fn viz_poll_next(attempt: u32, status: Option<&VizStatusResp>) -> (r: VizPollNext)
    ensures
        ({
            let done = match status {
                Some(s) => viz_ready(*s) || s.error is Some,
                None => false,
            };
            r == (if done {
                VizPollNext::Deliver
            } else if attempt + 1 < MAX_VIZ_POLLS {
                VizPollNext::Wait
            } else {
                VizPollNext::TimedOut
            })
        }),
{
    let done = match status {
        Some(s) => viz_status_ready(s) || viz_status_error(s).is_some(),
        None => false,
    };
    if done {
        VizPollNext::Deliver
    } else if (attempt as u64) + 1 < MAX_VIZ_POLLS as u64 {
        VizPollNext::Wait
    } else {
        VizPollNext::TimedOut
    }
}

/// The failure reported when the visualizer never became ready.
pub fn viz_timeout_error() -> (e: ClientError)
    ensures
        e matches ClientError::Api { status, message } && status == crate::client::STATUS_BAD_REQUEST
            && message@ == "viz load timed out after ~6 minutes"@,
{
    ClientError::bad_request(owned("viz load timed out after ~6 minutes"))
}

} // verus!
