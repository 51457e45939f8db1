//! Sorting the run table by a column.
//!
//! Floating-point columns follow `f64::partial_cmp`, with an
//! unordered pair (a NaN) tying.
use vstd::prelude::*;
use std::cmp::Ordering;
use crate::model::{FloatBits, RunScalars};
use crate::series::{float_is_nan, float_key, is_nan_bits, float_below};
use crate::text::{text_rank, text_compare, lemma_text_rank_flip, lemma_text_rank_trans};

verus! {

/// Column the run table is sorted by.
#[derive(Debug, Clone, Copy, PartialEq, Eq, Structural)]
pub enum SortColumn {
    Name,
    Best,
    Epoch,
    Status,
    Created,
}

/// Sort direction.
#[derive(Debug, Clone, Copy, PartialEq, Eq, Structural)]
pub enum SortDirection {
    Asc,
    Desc,
}

/// Column and direction of the run table.
#[derive(Debug, Clone, Copy, PartialEq, Eq, Structural)]
pub struct SortState {
    pub column: SortColumn,
    pub direction: SortDirection,
}

impl Default for SortState {
    /// Newest runs first.
    fn default() -> (r: Self)
        ensures
            r == (SortState { column: SortColumn::Created, direction: SortDirection::Desc }),
    {
        SortState { column: SortColumn::Created, direction: SortDirection::Desc }
    }
}

/// The opposite ordering.
pub open spec fn flipped(o: Ordering) -> Ordering {
    match o {
        Ordering::Less => Ordering::Greater,
        Ordering::Equal => Ordering::Equal,
        Ordering::Greater => Ordering::Less,
    }
}

/// The ordering for a rank of -1, 0 or 1.
pub open spec fn rank_order(r: int) -> Ordering {
    if r < 0 {
        Ordering::Less
    } else if r > 0 {
        Ordering::Greater
    } else {
        Ordering::Equal
    }
}

/// Lexicographic order of two texts by code point (the order of `str`).
pub open spec fn text_order(a: Seq<char>, b: Seq<char>) -> Ordering {
    rank_order(text_rank(a, b))
}

/// Order of two integers.
pub open spec fn int_order(a: int, b: int) -> Ordering {
    if a < b {
        Ordering::Less
    } else if a > b {
        Ordering::Greater
    } else {
        Ordering::Equal
    }
}

/// Order of two `i64` values.
pub open spec fn i64_order(a: i64, b: i64) -> Ordering {
    if a < b {
        Ordering::Less
    } else if a > b {
        Ordering::Greater
    } else {
        Ordering::Equal
    }
}

/// Order of optional integers: a missing value comes first.
pub open spec fn opt_i64_order(a: Option<i64>, b: Option<i64>) -> Ordering {
    match (a, b) {
        (None, None) => Ordering::Equal,
        (None, Some(_)) => Ordering::Less,
        (Some(_), None) => Ordering::Greater,
        (Some(x), Some(y)) => i64_order(x, y),
    }
}

/// `f64::partial_cmp` on bit patterns; an unordered pair ties.
pub open spec fn float_order(a: FloatBits, b: FloatBits) -> Ordering {
    if float_is_nan(a) || float_is_nan(b) {
        Ordering::Equal
    } else {
        int_order(float_key(a), float_key(b))
    }
}

/// Order of optional floats: a missing value comes first.
pub open spec fn opt_f64_order(a: Option<FloatBits>, b: Option<FloatBits>) -> Ordering {
    match (a, b) {
        (None, None) => Ordering::Equal,
        (None, Some(_)) => Ordering::Less,
        (Some(_), None) => Ordering::Greater,
        (Some(x), Some(y)) => float_order(x, y),
    }
}

/// The text of an optional status, empty when missing.
pub open spec fn status_text(s: Option<String>) -> Seq<char> {
    match s {
        Some(t) => t@,
        None => Seq::empty(),
    }
}

/// Order of two runs by one column, ascending.
pub open spec fn column_order(a: RunScalars, b: RunScalars, col: SortColumn) -> Ordering {
    match col {
        SortColumn::Name => text_order(a.name@, b.name@),
        SortColumn::Best => opt_f64_order(a.best, b.best),
        SortColumn::Epoch => opt_i64_order(a.last_epoch, b.last_epoch),
        SortColumn::Status => text_order(status_text(a.status), status_text(b.status)),
        SortColumn::Created => opt_f64_order(a.created, b.created),
    }
}

/// Order of two runs under a sort state.
pub open spec fn run_order(a: RunScalars, b: RunScalars, sort: SortState) -> Ordering {
    match sort.direction {
        SortDirection::Asc => column_order(a, b, sort.column),
        SortDirection::Desc => flipped(column_order(a, b, sort.column)),
    }
}

/// Whether the sort state puts `a` after `b`.
pub open spec fn goes_after(a: RunScalars, b: RunScalars, sort: SortState) -> bool {
    run_order(a, b, sort) == Ordering::Greater
}

/// Of two runs, at most one goes after the other.
pub proof fn lemma_goes_after_asym(a: RunScalars, b: RunScalars, sort: SortState)
    ensures
        goes_after(a, b, sort) ==> !goes_after(b, a, sort),
{
    lemma_text_rank_flip(a.name@, b.name@);
    lemma_text_rank_flip(status_text(a.status), status_text(b.status));
}

/// Whether a run's value in a column is comparable (not a NaN).
pub open spec fn orderable(r: RunScalars, col: SortColumn) -> bool {
    match col {
        SortColumn::Best => r.best matches Some(x) ==> !float_is_nan(x),
        SortColumn::Created => r.created matches Some(x) ==> !float_is_nan(x),
        _ => true,
    }
}

/// Not going after is transitive for comparable values.
pub proof fn lemma_not_after_trans(a: RunScalars, b: RunScalars, c: RunScalars, sort: SortState)
    requires
        orderable(a, sort.column),
        orderable(b, sort.column),
        orderable(c, sort.column),
        !goes_after(a, b, sort),
        !goes_after(b, c, sort),
    ensures
        !goes_after(a, c, sort),
{
    lemma_text_rank_trans(a.name@, b.name@, c.name@);
    lemma_text_rank_trans(c.name@, b.name@, a.name@);
    lemma_text_rank_flip(a.name@, b.name@);
    lemma_text_rank_flip(b.name@, c.name@);
    lemma_text_rank_flip(a.name@, c.name@);
    let sa = status_text(a.status);
    let sb = status_text(b.status);
    let sc = status_text(c.status);
    lemma_text_rank_trans(sa, sb, sc);
    lemma_text_rank_trans(sc, sb, sa);
    lemma_text_rank_flip(sa, sb);
    lemma_text_rank_flip(sb, sc);
    lemma_text_rank_flip(sa, sc);
}

/// Order of two texts.
fn text_order_exec(a: &str, b: &str) -> (r: Ordering)
    ensures
        r == text_order(a@, b@),
{
    let k = text_compare(a, b);
    if k < 0 {
        Ordering::Less
    } else if k > 0 {
        Ordering::Greater
    } else {
        Ordering::Equal
    }
}

/// Order of two `i64` values.
fn i64_compare(a: i64, b: i64) -> (r: Ordering)
    ensures
        r == i64_order(a, b),
{
    if a < b {
        Ordering::Less
    } else if a > b {
        Ordering::Greater
    } else {
        Ordering::Equal
    }
}

/// Order of optional integers: a missing value comes first.
pub fn cmp_opt_i64(a: Option<i64>, b: Option<i64>) -> (r: Ordering)
    ensures
        r == opt_i64_order(a, b),
{
    match (a, b) {
        (None, None) => Ordering::Equal,
        (None, Some(_)) => Ordering::Less,
        (Some(_), None) => Ordering::Greater,
        (Some(x), Some(y)) => i64_compare(x, y),
    }
}

/// Order of optional floats: a missing value comes first; a NaN ties.
fn cmp_opt_f64(a: Option<FloatBits>, b: Option<FloatBits>) -> (r: Ordering)
    ensures
        r == opt_f64_order(a, b),
{
    match (a, b) {
        (None, None) => Ordering::Equal,
        (None, Some(_)) => Ordering::Less,
        (Some(_), None) => Ordering::Greater,
        (Some(x), Some(y)) => {
            if is_nan_bits(x) || is_nan_bits(y) {
                Ordering::Equal
            } else if float_below(x, y) {
                Ordering::Less
            } else if float_below(y, x) {
                Ordering::Greater
            } else {
                Ordering::Equal
            }
        },
    }
}

/// Order of two runs under a sort state.
fn order_runs(a: &RunScalars, b: &RunScalars, sort: SortState) -> (r: Ordering)
    ensures
        r == run_order(*a, *b, sort),
{
    let o = match sort.column {
        SortColumn::Name => text_order_exec(a.name.as_str(), b.name.as_str()),
        SortColumn::Best => cmp_opt_f64(a.best, b.best),
        SortColumn::Epoch => cmp_opt_i64(a.last_epoch, b.last_epoch),
        SortColumn::Status => {
            let x = match &a.status {
                Some(s) => s.as_str(),
                None => "",
            };
            let y = match &b.status {
                Some(s) => s.as_str(),
                None => "",
            };
            proof {
                reveal_strlit("");
            }
            text_order_exec(x, y)
        },
        SortColumn::Created => cmp_opt_f64(a.created, b.created),
    };
    match sort.direction {
        SortDirection::Asc => o,
        SortDirection::Desc => match o {
            Ordering::Less => Ordering::Greater,
            Ordering::Equal => Ordering::Equal,
            Ordering::Greater => Ordering::Less,
        },
    }
}

/// Whether the sort state puts `a` after `b`.
pub fn runs_out_of_order(a: &RunScalars, b: &RunScalars, sort: SortState) -> (r: bool)
    ensures
        r == goes_after(*a, *b, sort),
{
    matches!(order_runs(a, b, sort), Ordering::Greater)
}

} // verus!
