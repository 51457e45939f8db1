//! Live event stream: line framing of the SSE body, event dispatch by type,
//! and the reconnect decisions of the stream loop.
//!
//! Reading the HTTP body, decoding each `data:` payload as JSON, and sleeping
//! between reconnects belong to the caller.
use vstd::prelude::*;
use crate::auth::split_chars;
use crate::client::{ClientError, STATUS_UNAUTHORIZED};
use crate::model::{SseBoxEvent, SseFleetEvent, SseJobEvent, SseNodeEvent, SseRunEvent};
use crate::text::{
    chars_of, chars_starts_with, has_prefix, is_blank, owned, split_on, str_eq, str_is_blank,
    string_of, trim_end_char, trim_end_matches_char, utf8_lossy, utf8_lossy_text, views,
};

verus! {

/// One message of the live stream.
#[derive(Debug, Clone)]
pub enum LiveMessage {
    Connected,
    Disconnected,
    RunEvent(SseRunEvent),
    JobEvent(SseJobEvent),
    BoxEvent(SseBoxEvent),
    FleetEvent(SseFleetEvent),
    NodeEvent(SseNodeEvent),
}

/// Which event a payload's `type` names.
#[derive(Debug, Clone, Copy, PartialEq, Eq, Structural)]
pub enum LiveKind {
    Run,
    Job,
    Box,
    Fleet,
    Node,
}

/// The event a `type` names: `run`, `job`, `box` or `instance`, `fleet`,
/// `node` or `tree`; any other type is ignored.
pub open spec fn kind_of_type(t: Seq<char>) -> Option<LiveKind> {
    if t == "run"@ {
        Some(LiveKind::Run)
    } else if t == "job"@ {
        Some(LiveKind::Job)
    } else if t == "box"@ || t == "instance"@ {
        Some(LiveKind::Box)
    } else if t == "fleet"@ {
        Some(LiveKind::Fleet)
    } else if t == "node"@ || t == "tree"@ {
        Some(LiveKind::Node)
    } else {
        None
    }
}

/// The event a payload's `type` names (see [`kind_of_type`]).
pub fn live_kind(event_type: &str) -> (r: Option<LiveKind>)
    ensures
        r == kind_of_type(event_type@),
{
    if str_eq(event_type, "run") {
        Some(LiveKind::Run)
    } else if str_eq(event_type, "job") {
        Some(LiveKind::Job)
    } else if str_eq(event_type, "box") || str_eq(event_type, "instance") {
        Some(LiveKind::Box)
    } else if str_eq(event_type, "fleet") {
        Some(LiveKind::Fleet)
    } else if str_eq(event_type, "node") || str_eq(event_type, "tree") {
        Some(LiveKind::Node)
    } else {
        None
    }
}

/// The payload of one SSE line: the text after `data: ` (with trailing
/// carriage returns removed first), unless that text is blank.
pub open spec fn line_payload(line: Seq<char>) -> Option<Seq<char>> {
    let t = trim_end_char(line, '\r');
    if has_prefix(t, "data: "@) && !is_blank(t.skip(6)) {
        Some(t.skip(6))
    } else {
        None
    }
}

/// The payloads of complete lines, in order.
pub open spec fn payloads(lines: Seq<Seq<char>>) -> Seq<Seq<char>>
    decreases lines.len(),
{
    if lines.len() == 0 {
        Seq::empty()
    } else {
        let prev = payloads(lines.drop_last());
        match line_payload(lines.last()) {
            Some(p) => prev.push(p),
            None => prev,
        }
    }
}

/// Splits a stream body into lines across chunks.
pub struct SseFramer {
    /// Text received after the last complete line.
    pub buffer: String,
}

impl SseFramer {
    /// A framer that has seen nothing.
    pub fn new() -> (r: Self)
        ensures
            r.buffer@.len() == 0,
    {
        SseFramer { buffer: String::new() }
    }

    /// Takes the next text of the body; returns the payloads of the lines it
    /// completes, and keeps the unfinished rest.
    pub fn feed_text(&mut self, text: &str) -> (r: Vec<String>)
        ensures
            ({
                let parts = split_on(old(self).buffer@ + text@, '\n');
                &&& final(self).buffer@ == parts.last()
                &&& r@.map_values(|s: String| s@) == payloads(parts.drop_last())
            }),
    {
        let mut all = chars_of(self.buffer.as_str());
        let more = chars_of(text);
        let mut k: usize = 0;
        let ghost start = all@;
        while k < more.len()
            invariant
                k <= more.len(),
                all@ == start + more@.take(k as int),
            decreases more.len() - k,
        {
            all.push(more[k]);
            k = k + 1;
            assert(all@ =~= start + more@.take(k as int));
        }
        assert(more@.take(more.len() as int) =~= more@);
        let parts = split_chars(all.as_slice(), '\n');
        proof {
            crate::text::lemma_split_nonempty(all@, '\n');
        }
        let n = parts.len();
        let ghost ps = views(parts@);
        let mut out: Vec<String> = Vec::new();
        let mut i: usize = 0;
        while i + 1 < n
            invariant
                n == parts.len(),
                n >= 1,
                ps == views(parts@),
                ps == split_on(all@, '\n'),
                i + 1 <= n,
                out@.map_values(|s: String| s@) == payloads(ps.take(i as int)),
            decreases n - i,
        {
            assert(ps[i as int] == parts@[i as int]@);
            assert(ps.take(i + 1).drop_last() =~= ps.take(i as int));
            assert(ps.take(i + 1).last() == ps[i as int]);
            let line = string_of(parts[i].as_slice());
            let t = trim_end_matches_char(line.as_str(), '\r');
            let tc = chars_of(t.as_str());
            let pre = chars_of("data: ");
            proof {
                reveal_strlit("data: ");
            }
            if chars_starts_with(tc.as_slice(), pre.as_slice()) {
                let rest = string_of(vstd::slice::slice_subrange(tc.as_slice(), 6, tc.len()));
                assert(rest@ =~= t@.skip(6));
                if !str_is_blank(rest.as_str()) {
                    let ghost before = out@.map_values(|s: String| s@);
                    out.push(rest);
                    assert(out@.map_values(|s: String| s@) =~= before.push(t@.skip(6)));
                }
            }
            i = i + 1;
        }
        assert(ps.take(n - 1) =~= ps.drop_last());
        self.buffer = string_of(parts[n - 1].as_slice());
        assert(ps[n - 1] == parts@[n - 1]@);
        out
    }

    /// Takes the next bytes of the body, decoded as UTF-8 with invalid
    /// sequences replaced (see [`SseFramer::feed_text`]).
    pub fn feed(&mut self, chunk: &[u8]) -> (r: Vec<String>)
        ensures
            ({
                let parts = split_on(old(self).buffer@ + utf8_lossy_text(chunk@), '\n');
                &&& final(self).buffer@ == parts.last()
                &&& r@.map_values(|s: String| s@) == payloads(parts.drop_last())
            }),
    {
        let text = utf8_lossy(chunk);
        self.feed_text(text.as_str())
    }
}

/// How the stream loop ended for good.
#[derive(Debug, Clone, Copy, PartialEq, Eq, Structural)]
pub enum SseLoopExit {
    Shutdown,
    Unauthorized,
}

/// Outcome of opening the event stream from the answer's status: success
/// for 2xx, `Unauthorized` for 401, otherwise a failed connect.
pub fn stream_connect_result(status: u16) -> (r: Result<(), ClientError>)
    ensures
        200 <= status <= 299 ==> r is Ok,
        status == STATUS_UNAUTHORIZED ==> r == Err::<(), ClientError>(ClientError::Unauthorized),
        !(200 <= status <= 299) && status != STATUS_UNAUTHORIZED ==> (r matches Err(
            ClientError::Api { status: s, message },
        ) && s == status && message@ == "sse connect failed"@),
{
    if 200 <= status && status <= 299 {
        Ok(())
    } else if status == STATUS_UNAUTHORIZED {
        Err(ClientError::Unauthorized)
    } else {
        Err(ClientError::Api { status, message: owned("sse connect failed") })
    }
}

/// What the stream loop does after one session.
#[derive(Debug, Clone, Copy, PartialEq, Eq, Structural)]
pub enum SseLoopAction {
    /// Report `Disconnected` when told to, then stop with the exit.
    Stop { exit: SseLoopExit, disconnected: bool },
    /// Report `Disconnected`, wait, and open the stream again.
    Reconnect,
}

/// Decision after a session ends: a rejected credential stops the loop (with
/// a `Disconnected` report); otherwise the loop stops quietly when it should
/// not continue, and reconnects when it should.
pub fn after_session(rejected: bool, keep_going: bool) -> (r: SseLoopAction)
    ensures
        rejected ==> r == (SseLoopAction::Stop { exit: SseLoopExit::Unauthorized, disconnected: true }),
        !rejected && !keep_going ==> r == (SseLoopAction::Stop { exit: SseLoopExit::Shutdown, disconnected: false }),
        !rejected && keep_going ==> r == SseLoopAction::Reconnect,
{
    if rejected {
        SseLoopAction::Stop { exit: SseLoopExit::Unauthorized, disconnected: true }
    } else if !keep_going {
        SseLoopAction::Stop { exit: SseLoopExit::Shutdown, disconnected: false }
    } else {
        SseLoopAction::Reconnect
    }
}

/// Whether a session ending with this outcome means the credential was rejected.
pub fn session_rejected(outcome: &Result<(), ClientError>) -> (r: bool)
    ensures
        r == (outcome matches Err(e) && (e is Unauthorized || (e matches ClientError::Api { status, .. } && status == STATUS_UNAUTHORIZED))),
{
    match outcome {
        Ok(()) => false,
        Err(e) => e.is_unauthorized(),
    }
}

/// `parts` with `l` put in front of its first part.
pub open spec fn join_front(l: Seq<char>, parts: Seq<Seq<char>>) -> Seq<Seq<char>> {
    parts.update(0, l + parts[0])
}

proof fn lemma_split_concat(x: Seq<char>, y: Seq<char>)
    ensures
        split_on(x + y, '\n') == split_on(x, '\n').drop_last() + join_front(
            split_on(x, '\n').last(),
            split_on(y, '\n'),
        ),
    decreases y.len(),
{
    crate::text::lemma_split_nonempty(x, '\n');
    crate::text::lemma_split_nonempty(y, '\n');
    let px = split_on(x, '\n');
    if y.len() == 0 {
        assert(x + y =~= x);
        assert(split_on(y, '\n') =~= seq![Seq::<char>::empty()]);
        assert(px.last() + Seq::<char>::empty() =~= px.last());
        assert(px.drop_last() + join_front(px.last(), split_on(y, '\n')) =~= px);
    } else {
        let y1 = y.drop_last();
        let c = y.last();
        lemma_split_concat(x, y1);
        crate::text::lemma_split_nonempty(y1, '\n');
        crate::text::lemma_split_nonempty(x + y1, '\n');
        assert((x + y).drop_last() =~= x + y1);
        assert((x + y).last() == c);
        let py1 = split_on(y1, '\n');
        let pxy1 = split_on(x + y1, '\n');
        let j1 = join_front(px.last(), py1);
        assert(pxy1 == px.drop_last() + j1);
        if c == '\n' {
            assert(split_on(x + y, '\n') == pxy1.push(Seq::<char>::empty()));
            assert(split_on(y, '\n') == py1.push(Seq::<char>::empty()));
            assert(join_front(px.last(), py1.push(Seq::<char>::empty())) =~= j1.push(Seq::<char>::empty()));
            assert(split_on(x + y, '\n') =~= px.drop_last() + join_front(px.last(), split_on(y, '\n')));
        } else {
            assert(split_on(x + y, '\n') == pxy1.update(pxy1.len() - 1, pxy1.last().push(c)));
            assert(split_on(y, '\n') == py1.update(py1.len() - 1, py1.last().push(c)));
            if py1.len() == 1 {
                assert((px.last() + py1[0]).push(c) =~= px.last() + py1[0].push(c));
            }
            assert(split_on(x + y, '\n') =~= px.drop_last() + join_front(px.last(), split_on(y, '\n')));
        }
    }
}

proof fn lemma_split_no_sep(s: Seq<char>)
    requires
        !s.contains('\n'),
    ensures
        split_on(s, '\n') == seq![s],
    decreases s.len(),
{
    if s.len() > 0 {
        assert(!s.drop_last().contains('\n')) by {
            if s.drop_last().contains('\n') {
                let k = choose|k: int| 0 <= k < s.drop_last().len() && s.drop_last()[k] == '\n';
                assert(s[k] == '\n');
            }
        }
        lemma_split_no_sep(s.drop_last());
        assert(s.last() != '\n') by {
            assert(s[s.len() - 1] == s.last());
        }
        assert(s.drop_last().push(s.last()) =~= s);
        assert(seq![s.drop_last()].update(0, s.drop_last().push(s.last())) =~= seq![s]);
    } else {
        assert(s =~= Seq::<char>::empty());
    }
}

proof fn lemma_last_part_no_sep(s: Seq<char>)
    ensures
        !split_on(s, '\n').last().contains('\n'),
    decreases s.len(),
{
    crate::text::lemma_split_nonempty(s, '\n');
    if s.len() > 0 {
        lemma_last_part_no_sep(s.drop_last());
        crate::text::lemma_split_nonempty(s.drop_last(), '\n');
        let p = split_on(s.drop_last(), '\n');
        if s.last() != '\n' {
            let l = p.last().push(s.last());
            assert(split_on(s, '\n').last() == l);
            if l.contains('\n') {
                let k = choose|k: int| 0 <= k < l.len() && l[k] == '\n';
                if k < p.last().len() {
                    assert(p.last()[k] == '\n');
                }
            }
        } else {
            assert(split_on(s, '\n').last() =~= Seq::<char>::empty());
        }
    }
}

proof fn lemma_payloads_concat(a: Seq<Seq<char>>, b: Seq<Seq<char>>)
    ensures
        payloads(a + b) == payloads(a) + payloads(b),
    decreases b.len(),
{
    if b.len() == 0 {
        assert(a + b =~= a);
        assert(payloads(a) + payloads(b) =~= payloads(a));
    } else {
        lemma_payloads_concat(a, b.drop_last());
        assert((a + b).drop_last() =~= a + b.drop_last());
        assert((a + b).last() == b.last());
        match line_payload(b.last()) {
            Some(p) => {
                assert(payloads(a + b) =~= payloads(a) + payloads(b));
            },
            None => {},
        }
    }
}

/// Line framing does not depend on how the body is cut into chunks: feeding
/// `a` and then `b` leaves the same unfinished text, and yields the same
/// payloads in the same order, as feeding `a` followed by `b` at once.
pub proof fn lemma_framing_chunk_independent(buf: Seq<char>, a: Seq<char>, b: Seq<char>)
    ensures
        ({
            let p1 = split_on(buf + a, '\n');
            let p2 = split_on(p1.last() + b, '\n');
            let p3 = split_on(buf + a + b, '\n');
            &&& p2.last() == p3.last()
            &&& payloads(p1.drop_last()) + payloads(p2.drop_last()) == payloads(p3.drop_last())
        }),
{
    let x = buf + a;
    let p1 = split_on(x, '\n');
    crate::text::lemma_split_nonempty(x, '\n');
    crate::text::lemma_split_nonempty(b, '\n');
    let pb = split_on(b, '\n');
    lemma_split_concat(x, b);
    lemma_last_part_no_sep(x);
    let l = p1.last();
    lemma_split_no_sep(l);
    lemma_split_concat(l, b);
    assert(seq![l].drop_last() =~= Seq::<Seq<char>>::empty());
    let j = join_front(l, pb);
    assert(split_on(l + b, '\n') =~= j);
    assert(buf + a + b =~= x + b);
    let p3 = split_on(x + b, '\n');
    assert(p3 == p1.drop_last() + j);
    assert(p3.last() == j.last());
    assert(p3.drop_last() =~= p1.drop_last() + j.drop_last());
    lemma_payloads_concat(p1.drop_last(), j.drop_last());
}

} // verus!
