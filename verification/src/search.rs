//! The toolbar's search field: a query with a caret and a selection, edited
//! by keystrokes.
//!
//! Positions count characters. The selection runs between the anchor (where
//! it began) and the focus (where it ends); the caret is an empty selection.
use vstd::prelude::*;
use crate::text::{chars_of, str_eq, string_of};

verus! {

/// A keystroke as the field reads it: the key's name, the text it types (if
/// any), and the modifiers held.
#[derive(Debug, Clone)]
pub struct Keystroke {
    pub key: String,
    pub key_char: Option<String>,
    pub platform: bool,
    pub control: bool,
    pub function: bool,
    pub shift: bool,
}

/// The search field.
#[derive(Debug)]
pub struct SearchInput {
    query: String,
    anchor: usize,
    focus: usize,
}

/// A field's contents: the query, the anchor and the focus.
pub type FieldView = (Seq<char>, nat, nat);

/// Both ends of the selection lie within the query.
pub open spec fn field_ok(v: FieldView) -> bool {
    v.1 <= v.0.len() && v.2 <= v.0.len()
}

/// Start of the selection.
pub open spec fn sel_lo(v: FieldView) -> nat {
    if v.1 <= v.2 {
        v.1
    } else {
        v.2
    }
}

/// End of the selection.
pub open spec fn sel_hi(v: FieldView) -> nat {
    if v.1 <= v.2 {
        v.2
    } else {
        v.1
    }
}

/// The caret at `at`, nothing selected.
pub open spec fn collapsed(q: Seq<char>, at: nat) -> FieldView {
    (q, at, at)
}

/// Everything selected.
pub open spec fn all_selected(v: FieldView) -> FieldView {
    (v.0, 0, v.0.len())
}

/// The caret at the focus, kept within the query.
pub open spec fn dismissed(v: FieldView) -> FieldView {
    collapsed(v.0, if v.2 <= v.0.len() { v.2 } else { v.0.len() })
}

/// The selection removed and the caret where it began (unchanged without a
/// selection).
pub open spec fn selection_deleted(v: FieldView) -> FieldView {
    if sel_lo(v) == sel_hi(v) {
        v
    } else {
        collapsed(v.0.take(sel_lo(v) as int) + v.0.skip(sel_hi(v) as int), sel_lo(v))
    }
}

/// `text` typed: it replaces the selection, and the caret follows it.
pub open spec fn inserted(v: FieldView, text: Seq<char>) -> FieldView {
    let w = if v.1 != v.2 {
        selection_deleted(v)
    } else {
        v
    };
    collapsed(w.0.take(w.1 as int) + text + w.0.skip(w.1 as int), w.1 + text.len())
}

/// Backspace: the selection deleted; else, in a non-empty query, the
/// character before the caret (the first one when the caret is at the
/// start) removed and the caret moved onto its place.
pub open spec fn backspaced(v: FieldView) -> FieldView {
    if v.1 != v.2 {
        selection_deleted(v)
    } else if v.0.len() > 0 {
        let at: nat = if v.1 >= 1 { (v.1 - 1) as nat } else { 0 };
        collapsed(v.0.remove(at as int), at)
    } else {
        v
    }
}

/// Delete: the selection deleted; else the character after the caret.
pub open spec fn forward_deleted(v: FieldView) -> FieldView {
    if v.1 != v.2 {
        selection_deleted(v)
    } else if v.1 < v.0.len() {
        (v.0.remove(v.1 as int), v.1, v.2)
    } else {
        v
    }
}

/// Left: to the selection's start, else one character back.
pub open spec fn moved_left(v: FieldView) -> FieldView {
    if v.1 != v.2 {
        collapsed(v.0, sel_lo(v))
    } else {
        collapsed(v.0, if v.1 >= 1 { (v.1 - 1) as nat } else { 0 })
    }
}

/// Right: to the selection's end, else one character on, not past the end.
pub open spec fn moved_right(v: FieldView) -> FieldView {
    if v.1 != v.2 {
        collapsed(v.0, sel_hi(v))
    } else {
        collapsed(v.0, if v.1 + 1 <= v.0.len() { v.1 + 1 } else { v.0.len() })
    }
}

/// A control character (general category Cc).
pub open spec fn is_control(c: char) -> bool {
    (c as u32) <= 0x1f || (0x7f <= (c as u32) && (c as u32) <= 0x9f)
}

/// `s` holds no control character.
pub open spec fn printable(s: Seq<char>) -> bool {
    forall|i: int| 0 <= i < s.len() ==> !is_control(#[trigger] s[i])
}

/// `s` is one byte long in UTF-8: a single ASCII character.
pub open spec fn one_byte(s: Seq<char>) -> bool {
    s.len() == 1 && (s[0] as u32) < 0x80
}

/// What a keystroke does to the field. Select-all with the command or
/// control key; other keys with such a modifier (or the function key) do
/// nothing; then backspace, delete, escape (empties the query), left and
/// right; any other key types its text when that has no control character,
/// else its one-character name when shift is not held.
pub open spec fn key_result(v: FieldView, k: Keystroke) -> FieldView {
    if k.key@ == "a"@ && (k.platform || k.control) {
        all_selected(v)
    } else if k.platform || k.control || k.function {
        v
    } else if k.key@ == "backspace"@ {
        backspaced(v)
    } else if k.key@ == "delete"@ {
        forward_deleted(v)
    } else if k.key@ == "escape"@ {
        collapsed(Seq::empty(), 0)
    } else if k.key@ == "left"@ {
        moved_left(v)
    } else if k.key@ == "right"@ {
        moved_right(v)
    } else {
        match k.key_char {
            Some(t) => if printable(t@) {
                inserted(v, t@)
            } else {
                v
            },
            None => if one_byte(k.key@) && !k.shift {
                inserted(v, k.key@)
            } else {
                v
            },
        }
    }
}

impl View for SearchInput {
    type V = FieldView;

    closed spec fn view(&self) -> FieldView {
        (self.query@, self.anchor as nat, self.focus as nat)
    }
}

fn is_control_char(c: char) -> (r: bool)
    ensures
        r == is_control(c),
{
    let u = c as u32;
    u <= 0x1f || (0x7f <= u && u <= 0x9f)
}

fn no_control(s: &str) -> (r: bool)
    ensures
        r == printable(s@),
{
    let cs = chars_of(s);
    let mut i: usize = 0;
    while i < cs.len()
        invariant
            i <= cs.len(),
            cs@ == s@,
            forall|j: int| 0 <= j < i ==> !is_control(#[trigger] cs@[j]),
        decreases cs.len() - i,
    {
        if is_control_char(cs[i]) {
            return false;
        }
        i = i + 1;
    }
    true
}

fn is_one_byte(s: &str) -> (r: bool)
    ensures
        r == one_byte(s@),
{
    let cs = chars_of(s);
    cs.len() == 1 && (cs[0] as u32) < 0x80
}

impl SearchInput {
    #[verifier::type_invariant]
    spec fn positions_in_query(self) -> bool {
        field_ok(self@)
    }

    /// An empty field.
    pub fn new() -> (r: Self)
        ensures
            r@ == collapsed(Seq::empty(), 0),
    {
        SearchInput { query: String::new(), anchor: 0, focus: 0 }
    }

    /// The query.
    pub fn query(&self) -> (r: &str)
        ensures
            r@ == self@.0,
    {
        self.query.as_str()
    }

    /// The selection as start and end (equal for a caret).
    pub fn selection(&self) -> (r: (usize, usize))
        ensures
            r.0 == sel_lo(self@),
            r.1 == sel_hi(self@),
    {
        if self.anchor <= self.focus {
            (self.anchor, self.focus)
        } else {
            (self.focus, self.anchor)
        }
    }

    /// Whether anything is selected.
    pub fn has_selection(&self) -> (r: bool)
        ensures
            r == (self@.1 != self@.2),
    {
        self.anchor != self.focus
    }

    fn set(&mut self, query: String, anchor: usize, focus: usize)
        requires
            anchor <= query@.len(),
            focus <= query@.len(),
        ensures
            final(self)@ == (query@, anchor as nat, focus as nat),
    {
        *self = SearchInput { query, anchor, focus };
    }

    fn collapse_caret(&mut self, at: usize)
        requires
            at <= old(self)@.0.len(),
        ensures
            final(self)@ == collapsed(old(self)@.0, at as nat),
    {
        let q = self.query.clone();
        self.set(q, at, at);
    }

    /// Selects the whole query.
    pub fn select_all(&mut self)
        ensures
            final(self)@ == all_selected(old(self)@),
    {
        let cs = chars_of(self.query.as_str());
        let q = self.query.clone();
        self.set(q, 0, cs.len());
    }

    /// Collapses the selection to the caret at its focus (see [`dismissed`]).
    pub fn dismiss_selection(&mut self)
        ensures
            final(self)@ == dismissed(old(self)@),
    {
        proof {
            use_type_invariant(&*self);
        }
        let at = self.focus;
        self.collapse_caret(at);
    }

    /// Deletes the selection (see [`selection_deleted`]); whether there was one.
    pub fn delete_selection(&mut self) -> (r: bool)
        ensures
            r == (sel_lo(old(self)@) != sel_hi(old(self)@)),
            final(self)@ == selection_deleted(old(self)@),
    {
        proof {
            use_type_invariant(&*self);
        }
        let (lo, hi) = self.selection();
        if lo == hi {
            return false;
        }
        let cs = chars_of(self.query.as_str());
        let mut out: Vec<char> = Vec::new();
        let mut i: usize = 0;
        while i < lo
            invariant
                i <= lo,
                lo < hi <= cs@.len(),
                out@ == cs@.take(i as int),
            decreases lo - i,
        {
            out.push(cs[i]);
            i = i + 1;
            assert(cs@.take(i as int) == cs@.take(i - 1).push(cs@[i - 1]));
        }
        let mut j: usize = hi;
        while j < cs.len()
            invariant
                lo < hi <= j <= cs@.len(),
                out@ == cs@.take(lo as int) + cs@.subrange(hi as int, j as int),
            decreases cs.len() - j,
        {
            out.push(cs[j]);
            j = j + 1;
            assert(cs@.subrange(hi as int, j as int) == cs@.subrange(hi as int, j - 1).push(cs@[j - 1]));
        }
        assert(cs@.subrange(hi as int, cs@.len() as int) == cs@.skip(hi as int));
        let q = string_of(out.as_slice());
        self.set(q, lo, lo);
        true
    }

    /// Types `text` over the selection (see [`inserted`]).
    pub fn insert_str(&mut self, text: &str)
        ensures
            final(self)@ == inserted(old(self)@, text@),
    {
        if self.has_selection() {
            self.delete_selection();
        }
        proof {
            use_type_invariant(&*self);
        }
        let at = self.anchor;
        let cs = chars_of(self.query.as_str());
        let ts = chars_of(text);
        let mut out: Vec<char> = Vec::new();
        let mut i: usize = 0;
        while i < at
            invariant
                i <= at <= cs@.len(),
                out@ == cs@.take(i as int),
            decreases at - i,
        {
            out.push(cs[i]);
            i = i + 1;
            assert(cs@.take(i as int) == cs@.take(i - 1).push(cs@[i - 1]));
        }
        let mut k: usize = 0;
        while k < ts.len()
            invariant
                at <= cs@.len(),
                k <= ts@.len(),
                out@ == cs@.take(at as int) + ts@.take(k as int),
            decreases ts.len() - k,
        {
            out.push(ts[k]);
            k = k + 1;
            assert(ts@.take(k as int) == ts@.take(k - 1).push(ts@[k - 1]));
        }
        assert(ts@.take(ts@.len() as int) == ts@);
        let caret = out.len();
        let mut j: usize = at;
        while j < cs.len()
            invariant
                at <= j <= cs@.len(),
                caret == at + ts@.len(),
                out@ == cs@.take(at as int) + ts@ + cs@.subrange(at as int, j as int),
            decreases cs.len() - j,
        {
            out.push(cs[j]);
            j = j + 1;
            assert(cs@.subrange(at as int, j as int) == cs@.subrange(at as int, j - 1).push(cs@[j - 1]));
        }
        assert(cs@.subrange(at as int, cs@.len() as int) == cs@.skip(at as int));
        let q = string_of(out.as_slice());
        self.set(q, caret, caret);
    }

    fn remove_at(&mut self, at: usize, caret: usize)
        requires
            at < old(self)@.0.len(),
            caret <= at,
        ensures
            final(self)@ == (old(self)@.0.remove(at as int), caret as nat, caret as nat),
    {
        let cs = chars_of(self.query.as_str());
        let mut out: Vec<char> = Vec::new();
        let mut i: usize = 0;
        while i < cs.len()
            invariant
                at < cs@.len(),
                i <= cs@.len(),
                out@ == (if i <= at {
                    cs@.take(i as int)
                } else {
                    cs@.take(at as int) + cs@.subrange(at + 1, i as int)
                }),
            decreases cs.len() - i,
        {
            if i != at {
                out.push(cs[i]);
            }
            i = i + 1;
            if i <= at {
                assert(cs@.take(i as int) == cs@.take(i - 1).push(cs@[i - 1]));
            } else if i > at + 1 {
                assert(cs@.subrange(at + 1, i as int) == cs@.subrange(at + 1, i - 1).push(cs@[i - 1]));
            } else {
                assert(cs@.subrange(at + 1, i as int) =~= Seq::<char>::empty());
            }
        }
        assert(cs@.take(at as int) + cs@.subrange(at + 1, cs@.len() as int) =~= cs@.remove(at as int));
        let q = string_of(out.as_slice());
        self.set(q, caret, caret);
    }

    /// Handles a keystroke (see [`key_result`]).
    pub fn handle_key(&mut self, k: &Keystroke)
        ensures
            final(self)@ == key_result(old(self)@, *k),
    {
        proof {
            use_type_invariant(&*self);
        }
        if str_eq(k.key.as_str(), "a") && (k.platform || k.control) {
            self.select_all();
            return;
        }
        if k.platform || k.control || k.function {
            return;
        }
        if str_eq(k.key.as_str(), "backspace") {
            if self.has_selection() {
                self.delete_selection();
            } else {
                let len = chars_of(self.query.as_str()).len();
                if len > 0 {
                    let at: usize = if self.anchor >= 1 { self.anchor - 1 } else { 0 };
                    self.remove_at(at, at);
                }
            }
        } else if str_eq(k.key.as_str(), "delete") {
            if self.has_selection() {
                self.delete_selection();
            } else {
                let len = chars_of(self.query.as_str()).len();
                if self.anchor < len {
                    let at = self.anchor;
                    self.remove_at(at, at);
                }
            }
        } else if str_eq(k.key.as_str(), "escape") {
            self.set(String::new(), 0, 0);
        } else if str_eq(k.key.as_str(), "left") {
            if self.has_selection() {
                let (lo, _) = self.selection();
                self.collapse_caret(lo);
            } else {
                let at: usize = if self.anchor >= 1 { self.anchor - 1 } else { 0 };
                self.collapse_caret(at);
            }
        } else if str_eq(k.key.as_str(), "right") {
            if self.has_selection() {
                let (_, hi) = self.selection();
                self.collapse_caret(hi);
            } else {
                let len = chars_of(self.query.as_str()).len();
                let at: usize = if self.anchor < len { self.anchor + 1 } else { len };
                self.collapse_caret(at);
            }
        } else {
            match &k.key_char {
                Some(t) => {
                    if no_control(t.as_str()) {
                        self.insert_str(t.as_str());
                    }
                },
                None => {
                    if is_one_byte(k.key.as_str()) && !k.shift {
                        self.insert_str(k.key.as_str());
                    }
                },
            }
        }
    }

    /// A left click in the field: the caret at the end of the query.
    pub fn on_mouse_down(&mut self)
        ensures
            final(self)@ == collapsed(old(self)@.0, old(self)@.0.len()),
    {
        let len = chars_of(self.query.as_str()).len();
        self.collapse_caret(len);
    }

    /// A click elsewhere: the selection dismissed (see [`dismissed`]).
    pub fn on_mouse_down_out(&mut self)
        ensures
            final(self)@ == dismissed(old(self)@),
    {
        self.dismiss_selection();
    }
}

/// Typing a character at the caret and then pressing backspace gives the
/// field back as it was.
pub proof fn lemma_type_then_backspace(v: FieldView, c: char)
    requires
        field_ok(v),
        v.1 == v.2,
    ensures
        backspaced(inserted(v, seq![c])) == v,
{
    let w = inserted(v, seq![c]);
    assert(w.0.remove(v.1 as int) =~= v.0);
}

/// Typing over a full selection replaces the whole query.
pub proof fn lemma_select_all_then_type(v: FieldView, text: Seq<char>)
    requires
        field_ok(v),
    ensures
        inserted(all_selected(v), text) == collapsed(text, text.len()),
{
    if v.0.len() == 0 {
        assert(v.0.take(0) + text + v.0.skip(0) =~= text);
    } else {
        let d = selection_deleted(all_selected(v));
        assert(d.0 =~= Seq::<char>::empty());
        assert(d.0.take(0) + text + d.0.skip(0) =~= text);
    }
}

/// Every keystroke keeps the anchor and the focus within the query.
pub proof fn lemma_key_keeps_positions(v: FieldView, k: Keystroke)
    requires
        field_ok(v),
    ensures
        field_ok(key_result(v, k)),
{
}

} // verus!
