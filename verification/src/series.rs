//! Per-run metric time series.
//!
//! Values are IEEE-754 binary64 bit patterns ([`FloatBits`]); a value counts
//! as finite when its exponent field is not all ones.
use vstd::prelude::*;
use crate::model::FloatBits;
use crate::seqs::{first_match, lemma_first_match_at, lemma_first_match_none, lemma_first_match_props};
use crate::text::str_eq;

verus! {

/// Downsampled metric columns aligned to `epochs`.
#[derive(Debug, Clone, PartialEq, Default)]
pub struct RunSeries {
    pub pod: String,
    pub name: String,
    pub epochs: Vec<i64>,
    /// Metric column name and its values, one entry per name.
    pub metrics: Vec<(String, Vec<FloatBits>)>,
}

/// Whether the binary64 value with these bits is finite (not NaN or infinite).
pub open spec fn finite_bits(b: FloatBits) -> bool {
    (b >> 52u64) & 0x7ffu64 != 0x7ffu64
}

/// Whether the binary64 value with these bits is finite.
pub fn is_finite_bits(b: FloatBits) -> (r: bool)
    ensures
        r == finite_bits(b),
{
    (b >> 52u64) & 0x7ffu64 != 0x7ffu64
}


/// Whether the binary64 value with these bits is a NaN.
pub open spec fn float_is_nan(b: FloatBits) -> bool {
    (b & 0x7fff_ffff_ffff_ffffu64) > 0x7ff0_0000_0000_0000u64
}

/// Magnitude bits of a binary64 value (all but the sign).
pub open spec fn float_magnitude(b: FloatBits) -> int {
    (b & 0x7fff_ffff_ffff_ffffu64) as int
}

/// An integer that orders binary64 values that are not NaN as their numeric
/// values are ordered (both zeros map to 0).
pub open spec fn float_key(b: FloatBits) -> int {
    if (b >> 63u64) == 1u64 {
        -float_magnitude(b)
    } else {
        float_magnitude(b)
    }
}

/// Whether the binary64 value with these bits is a NaN.
pub fn is_nan_bits(b: FloatBits) -> (r: bool)
    ensures
        r == float_is_nan(b),
{
    (b & 0x7fff_ffff_ffff_ffffu64) > 0x7ff0_0000_0000_0000u64
}

/// Whether `a` lies below `b` in the order of [`float_key`].
pub fn float_below(a: FloatBits, b: FloatBits) -> (r: bool)
    ensures
        r == (float_key(a) < float_key(b)),
{
    let ma = a & 0x7fff_ffff_ffff_ffffu64;
    let mb = b & 0x7fff_ffff_ffff_ffffu64;
    let na = (a >> 63u64) == 1u64;
    let nb = (b >> 63u64) == 1u64;
    if !na && !nb {
        ma < mb
    } else if na && nb {
        mb < ma
    } else if na {
        !(ma == 0 && mb == 0)
    } else {
        false
    }
}

/// Entries named `key`.
pub open spec fn metric_named(key: Seq<char>) -> spec_fn((String, Vec<FloatBits>)) -> bool {
    |e: (String, Vec<FloatBits>)| e.0@ == key
}

/// The values of the column named `key`, empty when there is none.
pub open spec fn column(metrics: Seq<(String, Vec<FloatBits>)>, key: Seq<char>) -> Seq<FloatBits> {
    match first_match(metrics, metric_named(key)) {
        Some(i) => metrics[i].1@,
        None => Seq::empty(),
    }
}

/// The last finite value of `s`.
pub open spec fn last_finite(s: Seq<FloatBits>) -> Option<FloatBits>
    decreases s.len(),
{
    if s.len() == 0 {
        None
    } else if finite_bits(s.last()) {
        Some(s.last())
    } else {
        last_finite(s.drop_last())
    }
}

/// Distance between an epoch and the target.
pub open spec fn epoch_distance(e: i64, target: i64) -> int {
    let d = e - target;
    if d < 0 { -d } else { d }
}

/// Every distance to the target is representable as an `i64`.
pub open spec fn distances_fit(epochs: Seq<i64>, target: i64) -> bool {
    forall|j: int| 0 <= j < epochs.len() ==> i64::MIN < #[trigger] epochs[j] - target <= i64::MAX
}

/// `b` is the first index at which the distance to the target is smallest.
pub open spec fn is_nearest(epochs: Seq<i64>, target: i64, b: int) -> bool {
    &&& 0 <= b < epochs.len()
    &&& forall|j: int| 0 <= j < b ==> epoch_distance(#[trigger] epochs[j], target) > epoch_distance(epochs[b], target)
    &&& forall|j: int| b <= j < epochs.len() ==> epoch_distance(#[trigger] epochs[j], target) >= epoch_distance(epochs[b], target)
}

impl RunSeries {
    /// Values of the column named `key`; empty when there is no such column.
    pub fn nums(&self, key: &str) -> (r: &[FloatBits])
        ensures
            r@ == column(self.metrics@, key@),
    {
        let ghost p = metric_named(key@);
        let mut i: usize = 0;
        while i < self.metrics.len()
            invariant
                i <= self.metrics.len(),
                p == metric_named(key@),
                forall|j: int| 0 <= j < i ==> !p(#[trigger] self.metrics@[j]),
            decreases self.metrics.len() - i,
        {
            if str_eq(self.metrics[i].0.as_str(), key) {
                proof {
                    lemma_first_match_at(self.metrics@, p, i as int);
                }
                return self.metrics[i].1.as_slice();
            }
            i = i + 1;
        }
        proof {
            lemma_first_match_none(self.metrics@, p);
        }
        &[]
    }

    /// Last finite value of the column named `key`.
    pub fn latest(&self, key: &str) -> (r: Option<FloatBits>)
        ensures
            r == last_finite(column(self.metrics@, key@)),
    {
        series_latest(self.nums(key))
    }

    /// Value of `key` at the probe whose epoch is nearest `epoch`, when finite.
    /// Without an epoch axis or values, the latest finite value.
    pub fn value_at_epoch(&self, key: &str, epoch: i64) -> (r: Option<FloatBits>)
        requires
            distances_fit(self.epochs@, epoch),
        ensures
            ({
                let vals = column(self.metrics@, key@);
                if self.epochs@.len() == 0 || vals.len() == 0 {
                    r == last_finite(vals)
                } else {
                    exists|b: int|
                        #![trigger is_nearest(self.epochs@, epoch, b)]
                        is_nearest(self.epochs@, epoch, b) && r == (if b < vals.len() && finite_bits(vals[b]) {
                            Some(vals[b])
                        } else {
                            None
                        })
                }
            }),
    {
        let vals = self.nums(key);
        if self.epochs.len() == 0 || vals.len() == 0 {
            return series_latest(vals);
        }
        let i = match nearest_epoch_index(self.epochs.as_slice(), epoch) {
            Some(i) => i,
            None => return None,
        };
        assert(is_nearest(self.epochs@, epoch, i as int));
        if i < vals.len() && is_finite_bits(vals[i]) {
            Some(vals[i])
        } else {
            None
        }
    }
}

/// The last finite value of `values`.
pub fn series_latest(values: &[FloatBits]) -> (r: Option<FloatBits>)
    ensures
        r == last_finite(values@),
{
    let mut k: usize = values.len();
    assert(values@.take(k as int) =~= values@);
    while k > 0
        invariant
            k <= values.len(),
            last_finite(values@) == last_finite(values@.take(k as int)),
        decreases k,
    {
        let ghost t = values@.take(k as int);
        assert(t.drop_last() =~= values@.take(k - 1));
        assert(t.last() == values@[k - 1]);
        if is_finite_bits(values[k - 1]) {
            return Some(values[k - 1]);
        }
        k = k - 1;
    }
    None
}

/// Index of the first epoch nearest `target`; `None` when there are no epochs.
pub fn nearest_epoch_index(epochs: &[i64], target: i64) -> (r: Option<usize>)
    requires
        distances_fit(epochs@, target),
    ensures
        epochs@.len() == 0 <==> r is None,
        r matches Some(b) ==> is_nearest(epochs@, target, b as int),
{
    if epochs.len() == 0 {
        return None;
    }
    let mut best: usize = 0;
    let mut best_d: i64 = i64::MAX;
    let mut i: usize = 0;
    while i < epochs.len()
        invariant
            i <= epochs.len(),
            epochs@.len() > 0,
            distances_fit(epochs@, target),
            best < epochs.len(),
            i == 0 ==> best == 0 && best_d == i64::MAX,
            i > 0 ==> best < i && best_d == epoch_distance(epochs@[best as int], target),
            forall|j: int| 0 <= j < i ==> epoch_distance(#[trigger] epochs@[j], target) >= best_d,
            forall|j: int| 0 <= j < best ==> epoch_distance(#[trigger] epochs@[j], target) > best_d,
        decreases epochs.len() - i,
    {
        let e = epochs[i];
        assert(i64::MIN < epochs@[i as int] - target <= i64::MAX);
        let diff = e - target;
        let d = if diff < 0 { -diff } else { diff };
        if d < best_d {
            best_d = d;
            best = i;
        }
        i = i + 1;
    }
    Some(best)
}

/// One element of an array field of a series answer, when it is a number:
/// its reading on the epoch axis and its value as binary64 bits.
#[derive(Debug, Clone, Copy, PartialEq, Eq, Structural)]
pub struct SeriesNumber {
    pub epoch: i64,
    pub value: FloatBits,
}

/// A field of a series answer: a string, an array (`None` for an element that
/// is not a number), or any other value.
#[derive(Debug, Clone, PartialEq)]
pub enum SeriesField {
    Text(String),
    Array(Vec<Option<SeriesNumber>>),
    Other,
}

/// Epoch readings of the numeric elements, in order.
pub open spec fn epochs_of(items: Seq<Option<SeriesNumber>>) -> Seq<i64>
    decreases items.len(),
{
    if items.len() == 0 {
        Seq::empty()
    } else {
        let prev = epochs_of(items.drop_last());
        match items.last() {
            Some(n) => prev.push(n.epoch),
            None => prev,
        }
    }
}

/// Values of the numeric elements, in order.
pub open spec fn values_of(items: Seq<Option<SeriesNumber>>) -> Seq<FloatBits>
    decreases items.len(),
{
    if items.len() == 0 {
        Seq::empty()
    } else {
        let prev = values_of(items.drop_last());
        match items.last() {
            Some(n) => prev.push(n.value),
            None => prev,
        }
    }
}

/// A metric column by its name and values.
pub type ColumnView = (Seq<char>, Seq<FloatBits>);

/// The metric columns as names and values.
pub open spec fn metric_views(ms: Seq<(String, Vec<FloatBits>)>) -> Seq<ColumnView> {
    ms.map_values(|e: (String, Vec<FloatBits>)| (e.0@, e.1@))
}

/// Columns named `key`.
pub open spec fn column_named(key: Seq<char>) -> spec_fn(ColumnView) -> bool {
    |e: ColumnView| e.0 == key
}

/// Sets the column `key` to `vals`: in place when it exists, else appended.
pub open spec fn put_column(ms: Seq<ColumnView>, key: Seq<char>, vals: Seq<FloatBits>) -> Seq<ColumnView> {
    match first_match(ms, column_named(key)) {
        Some(i) => ms.update(i, (key, vals)),
        None => ms.push((key, vals)),
    }
}

/// A series as read so far: pod, name, epochs and columns.
pub type SeriesView = (Seq<char>, Seq<char>, Seq<i64>, Seq<ColumnView>);

/// The series after one more field; `None` once `pod` or `name` held
/// something other than a string. `epochs` takes the epoch readings of an
/// array (nothing from any other value); `epoch` and `n_series` are skipped;
/// any other name becomes a column when it holds an array with a number.
pub open spec fn apply_field(st: Option<SeriesView>, f: (String, SeriesField)) -> Option<SeriesView> {
    match st {
        None => None,
        Some(v) => {
            let k = f.0@;
            if k == "pod"@ {
                match f.1 {
                    SeriesField::Text(t) => Some((t@, v.1, v.2, v.3)),
                    _ => None,
                }
            } else if k == "name"@ {
                match f.1 {
                    SeriesField::Text(t) => Some((v.0, t@, v.2, v.3)),
                    _ => None,
                }
            } else if k == "epochs"@ {
                match f.1 {
                    SeriesField::Array(items) => Some((v.0, v.1, epochs_of(items@), v.3)),
                    _ => Some((v.0, v.1, Seq::empty(), v.3)),
                }
            } else if k == "epoch"@ || k == "n_series"@ {
                st
            } else {
                match f.1 {
                    SeriesField::Array(items) => if values_of(items@).len() > 0 {
                        Some((v.0, v.1, v.2, put_column(v.3, k, values_of(items@))))
                    } else {
                        st
                    },
                    _ => st,
                }
            }
        },
    }
}

/// The series that a series answer's fields, in order, describe.
pub open spec fn series_view(fields: Seq<(String, SeriesField)>) -> Option<SeriesView>
    decreases fields.len(),
{
    if fields.len() == 0 {
        Some((Seq::empty(), Seq::empty(), Seq::empty(), Seq::empty()))
    } else {
        apply_field(series_view(fields.drop_last()), fields.last())
    }
}

/// No two columns share a name.
pub open spec fn distinct_columns(ms: Seq<ColumnView>) -> bool {
    forall|i: int, j: int| 0 <= i < j < ms.len() ==> #[trigger] ms[i].0 != #[trigger] ms[j].0
}

/// Epoch readings of the numeric elements of `items`.
fn epochs_from(items: &[Option<SeriesNumber>]) -> (r: Vec<i64>)
    ensures
        r@ == epochs_of(items@),
{
    let mut out: Vec<i64> = Vec::new();
    let mut i: usize = 0;
    while i < items.len()
        invariant
            i <= items.len(),
            out@ == epochs_of(items@.take(i as int)),
        decreases items.len() - i,
    {
        assert(items@.take(i + 1).drop_last() =~= items@.take(i as int));
        if let Some(n) = items[i] {
            out.push(n.epoch);
        }
        i = i + 1;
    }
    assert(items@.take(items.len() as int) =~= items@);
    out
}

/// Values of the numeric elements of `items`.
fn values_from(items: &[Option<SeriesNumber>]) -> (r: Vec<FloatBits>)
    ensures
        r@ == values_of(items@),
{
    let mut out: Vec<FloatBits> = Vec::new();
    let mut i: usize = 0;
    while i < items.len()
        invariant
            i <= items.len(),
            out@ == values_of(items@.take(i as int)),
        decreases items.len() - i,
    {
        assert(items@.take(i + 1).drop_last() =~= items@.take(i as int));
        if let Some(n) = items[i] {
            out.push(n.value);
        }
        i = i + 1;
    }
    assert(items@.take(items.len() as int) =~= items@);
    out
}

/// Sets column `key` of `ms` to `vals` (see [`put_column`]).
fn put_metric(ms: &mut Vec<(String, Vec<FloatBits>)>, key: String, vals: Vec<FloatBits>)
    ensures
        metric_views(final(ms)@) == put_column(metric_views(old(ms)@), key@, vals@),
{
    let ghost views = metric_views(ms@);
    let ghost p = column_named(key@);
    let mut i: usize = 0;
    while i < ms.len()
        invariant
            i <= ms.len(),
            views == metric_views(ms@),
            views == metric_views(old(ms)@),
            p == column_named(key@),
            forall|j: int| 0 <= j < i ==> !p(#[trigger] views[j]),
        decreases ms.len() - i,
    {
        if str_eq(ms[i].0.as_str(), key.as_str()) {
            proof {
                lemma_first_match_at(views, p, i as int);
            }
            let ghost kv = key@;
            let ghost vv = vals@;
            ms.set(i, (key, vals));
            assert(metric_views(ms@) =~= views.update(i as int, (kv, vv)));
            return;
        }
        i = i + 1;
    }
    proof {
        lemma_first_match_none(views, p);
    }
    let ghost kv = key@;
    let ghost vv = vals@;
    ms.push((key, vals));
    assert(metric_views(ms@) =~= views.push((kv, vv)));
}

/// The series that a series answer's fields describe (see [`series_view`]);
/// `None` when `pod` or `name` is not a string.
pub fn series_from_fields(fields: &[(String, SeriesField)]) -> (r: Option<RunSeries>)
    ensures
        match series_view(fields@) {
            None => r is None,
            Some(v) => r matches Some(s) && s.pod@ == v.0 && s.name@ == v.1 && s.epochs@ == v.2
                && metric_views(s.metrics@) == v.3,
        },
{
    let mut pod = String::new();
    let mut name = String::new();
    let mut epochs: Vec<i64> = Vec::new();
    let mut metrics: Vec<(String, Vec<FloatBits>)> = Vec::new();
    let mut i: usize = 0;
    assert(metric_views(metrics@) =~= Seq::<ColumnView>::empty());
    while i < fields.len()
        invariant
            i <= fields.len(),
            series_view(fields@.take(i as int)) == Some(
                (pod@, name@, epochs@, metric_views(metrics@)),
            ),
        decreases fields.len() - i,
    {
        assert(fields@.take(i + 1).drop_last() =~= fields@.take(i as int));
        assert(fields@.take(i + 1).last() == fields@[i as int]);
        let k = fields[i].0.as_str();
        if str_eq(k, "pod") {
            match &fields[i].1 {
                SeriesField::Text(t) => {
                    pod = t.clone();
                },
                _ => {
                    proof {
                        lemma_series_view_fails(fields@, i as int);
                    }
                    return None;
                },
            }
        } else if str_eq(k, "name") {
            match &fields[i].1 {
                SeriesField::Text(t) => {
                    name = t.clone();
                },
                _ => {
                    proof {
                        reveal_strlit("pod");
                        reveal_strlit("name");
                        lemma_series_view_fails(fields@, i as int);
                    }
                    return None;
                },
            }
        } else if str_eq(k, "epochs") {
            match &fields[i].1 {
                SeriesField::Array(items) => {
                    epochs = epochs_from(items.as_slice());
                },
                _ => {
                    epochs = Vec::new();
                },
            }
        } else if str_eq(k, "epoch") || str_eq(k, "n_series") {
        } else {
            match &fields[i].1 {
                SeriesField::Array(items) => {
                    let vals = values_from(items.as_slice());
                    if vals.len() > 0 {
                        put_metric(&mut metrics, fields[i].0.clone(), vals);
                    }
                },
                _ => {},
            }
        }
        i = i + 1;
    }
    assert(fields@.take(fields.len() as int) =~= fields@);
    Some(RunSeries { pod, name, epochs, metrics })
}

/// Once a field ends the reading with `None`, so does every longer prefix.
proof fn lemma_series_view_fails(fields: Seq<(String, SeriesField)>, i: int)
    requires
        0 <= i < fields.len(),
        series_view(fields.take(i + 1)) is None,
    ensures
        series_view(fields) is None,
    decreases fields.len() - i,
{
    if i + 1 < fields.len() {
        assert(fields.take(i + 2).drop_last() =~= fields.take(i + 1));
        lemma_series_view_fails(fields, i + 1);
    } else {
        assert(fields.take(i + 1) =~= fields);
    }
}

/// A series read from any fields has each column name once.
pub proof fn lemma_series_columns_distinct(fields: Seq<(String, SeriesField)>)
    ensures
        series_view(fields) matches Some(v) ==> distinct_columns(v.3),
    decreases fields.len(),
{
    if fields.len() > 0 {
        lemma_series_columns_distinct(fields.drop_last());
        match series_view(fields.drop_last()) {
            Some(v) => {
                let f = fields.last();
                let k = f.0@;
                match f.1 {
                    SeriesField::Array(items) => {
                        lemma_first_match_props(v.3, column_named(k));
                    },
                    _ => {},
                }
            },
            None => {},
        }
    }
}

} // verus!
