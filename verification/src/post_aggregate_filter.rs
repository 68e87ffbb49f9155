//! The DogStatsD post-aggregate transform: drops the scalar series that histogram aggregation
//! generates when their names are on the filterlist (or, when that is empty, the legacy
//! blocklist). Only list entries shaped like `<metric>.<aggregate suffix>` are its concern.

use vstd::prelude::*;

use crate::filterlist::{Blocklist, EffectiveFilterlist};
use crate::prefix_filter::bumped;
use crate::text::{
    chars_end_with, chars_of, decimal, decimal_string, is_suffix_of, owned, push_char, push_str, views,
};

verus! {

/// The suffix of the series generated for a percentile, such as `95percentile`.
pub open spec fn percentile_suffix_spec(points: nat) -> Seq<char> {
    decimal(points) + "percentile"@
}

/// Returns the suffix of the series generated for a percentile given in hundredths, such as
/// `95percentile` for 95.
pub fn percentile_suffix(points: u32) -> (s: String)
    ensures
        s@ == percentile_suffix_spec(points as nat),
{
    let mut s = decimal_string(points as u64);
    push_str(&mut s, "percentile");
    s
}

/// Whether `value` names a series generated with one of `suffixes`: it ends with a suffix that a
/// `.` precedes.
pub open spec fn targets_aggregate(suffixes: Seq<Seq<char>>, value: Seq<char>) -> bool {
    exists|i: int|
        0 <= i < suffixes.len() && is_suffix_of(#[trigger] suffixes[i], value) && value.len()
            > suffixes[i].len() && value[value.len() - suffixes[i].len() - 1] == '.'
}

/// The entries of `values` that name generated series, in order.
pub open spec fn histogram_entries(suffixes: Seq<Seq<char>>, values: Seq<Seq<char>>) -> Seq<
    Seq<char>,
>
    decreases values.len(),
{
    if values.len() == 0 {
        Seq::empty()
    } else {
        let rest = histogram_entries(suffixes, values.drop_last());
        if targets_aggregate(suffixes, values.last()) {
            rest.push(values.last())
        } else {
            rest
        }
    }
}

/// The aggregate and percentile suffixes histogram aggregation appends to metric names.
#[derive(Clone, Debug, PartialEq)]
pub struct HistogramSuffixes {
    values: Vec<String>,
}

impl HistogramSuffixes {
    /// The suffixes.
    pub closed spec fn suffixes(&self) -> Seq<Seq<char>> {
        views(self.values@)
    }

    /// Builds the suffixes: each aggregate name, then `<n>percentile` for each percentile given in
    /// hundredths.
    pub fn from_configuration(aggregates: &Vec<String>, percentile_points: &Vec<u32>) -> (r: Self)
        ensures
            r.suffixes().len() == aggregates@.len() + percentile_points@.len(),
            forall|i: int| 0 <= i < aggregates@.len() ==> #[trigger] r.suffixes()[i] == aggregates@[i]@,
            forall|i: int|
                0 <= i < percentile_points@.len() ==> r.suffixes()[aggregates@.len() + i]
                    == percentile_suffix_spec(#[trigger] percentile_points@[i] as nat),
    {
        let mut values: Vec<String> = aggregates.clone();
        let n = aggregates.len();
        let mut i: usize = 0;
        while i < percentile_points.len()
            invariant
                n == aggregates@.len(),
                i <= percentile_points.len(),
                values@.len() == n + i,
                forall|j: int| 0 <= j < n ==> #[trigger] values@[j]@ == aggregates@[j]@,
                forall|j: int|
                    0 <= j < i ==> values@[n + j]@ == percentile_suffix_spec(
                        #[trigger] percentile_points@[j] as nat,
                    ),
            decreases percentile_points.len() - i,
        {
            values.push(percentile_suffix(percentile_points[i]));
            i = i + 1;
        }
        HistogramSuffixes { values }
    }

    /// Returns whether the list entry `value` names a generated series.
    pub fn contains_filter_entry(&self, value: &str) -> (r: bool)
        ensures
            r == targets_aggregate(self.suffixes(), value@),
    {
        let v = chars_of(value);
        let mut i: usize = 0;
        while i < self.values.len()
            invariant
                v@ == value@,
                i <= self.values.len(),
                forall|j: int|
                    0 <= j < i ==> !(is_suffix_of(#[trigger] self.suffixes()[j], value@)
                        && value@.len() > self.suffixes()[j].len() && value@[value@.len()
                        - self.suffixes()[j].len() - 1] == '.'),
            decreases self.values.len() - i,
        {
            let s = chars_of(self.values[i].as_str());
            assert(self.suffixes()[i as int] == s@);
            if chars_end_with(&v, &s) && v.len() > s.len() && v[v.len() - s.len() - 1] == '.' {
                return true;
            }
            i = i + 1;
        }
        false
    }
}

/// The kinds of metric values.
#[derive(Clone, Copy, Debug, PartialEq, Eq)]
pub enum MetricKind {
    /// A counter.
    Counter,
    /// A rate.
    Rate,
    /// A gauge.
    Gauge,
    /// A set of unique values.
    UniqueSet,
    /// A distribution sketch.
    Distribution,
    /// A histogram.
    Histogram,
}

/// Whether a kind is a scalar series (rather than a sketch).
pub open spec fn is_scalar_series(kind: MetricKind) -> bool {
    match kind {
        MetricKind::Counter | MetricKind::Rate | MetricKind::Gauge | MetricKind::UniqueSet => true,
        _ => false,
    }
}

/// Returns whether a kind is a scalar series.
pub fn is_scalar_series_metric(kind: MetricKind) -> (r: bool)
    ensures
        r == is_scalar_series(kind),
{
    match kind {
        MetricKind::Counter | MetricKind::Rate | MetricKind::Gauge | MetricKind::UniqueSet => true,
        _ => false,
    }
}

/// A metric as the transform sees it: its name and the kind of its values.
#[derive(Debug, PartialEq)]
pub struct AggregateMetric {
    /// The metric name.
    pub name: String,
    /// The kind of its values.
    pub kind: MetricKind,
}

impl Clone for AggregateMetric {
    fn clone(&self) -> (r: Self)
        ensures
            r == *self,
    {
        AggregateMetric { name: self.name.clone(), kind: self.kind }
    }
}

impl AggregateMetric {
    /// Creates a metric.
    pub fn new(name: &str, kind: MetricKind) -> (m: Self)
        ensures
            m.name@ == name@,
            m.kind == kind,
    {
        AggregateMetric { name: owned(name), kind }
    }
}

/// The metrics of `buffer` that `drop` does not remove, in order.
pub open spec fn kept_metrics(buffer: Seq<AggregateMetric>, drop: spec_fn(AggregateMetric) -> bool) -> Seq<
    AggregateMetric,
>
    decreases buffer.len(),
{
    if buffer.len() == 0 {
        Seq::empty()
    } else {
        let rest = kept_metrics(buffer.drop_last(), drop);
        if drop(buffer.last()) {
            rest
        } else {
            rest.push(buffer.last())
        }
    }
}

/// A counter after `n` increments, wrapping at the top of its range.
pub open spec fn bumped_n(c: u64, n: nat) -> u64
    decreases n,
{
    if n == 0 {
        c
    } else {
        bumped(bumped_n(c, (n - 1) as nat))
    }
}

/// The post-aggregate filter transform.
#[derive(Clone, Debug)]
pub struct DogStatsDPostAggregateFilter {
    matcher: Blocklist,
    effective_filterlist: EffectiveFilterlist,
    histogram_suffixes: HistogramSuffixes,
    filtered_metrics: u64,
}

impl DogStatsDPostAggregateFilter {
    /// The matcher series names are checked against.
    pub closed spec fn matcher(&self) -> Blocklist {
        self.matcher
    }

    /// The filterlist and blocklist the matcher is derived from.
    pub closed spec fn lists(&self) -> EffectiveFilterlist {
        self.effective_filterlist
    }

    /// The generated-series suffixes.
    pub closed spec fn suffixes(&self) -> Seq<Seq<char>> {
        self.histogram_suffixes.suffixes()
    }

    /// The number of series dropped.
    pub closed spec fn filtered(&self) -> u64 {
        self.filtered_metrics
    }

    /// The matcher is built from the generated-series entries of the list in force.
    pub open spec fn matcher_in_sync(&self) -> bool {
        &&& self.matcher().entries() == histogram_entries(self.suffixes(), self.lists().effective())
        &&& self.matcher().prefix_mode() == self.lists().effective_prefix()
    }

    /// Whether the transform drops `m`.
    pub open spec fn drops(&self, m: AggregateMetric) -> bool {
        is_scalar_series(m.kind) && self.matcher().spec_contains(m.name@)
    }

    /// Creates the transform with its matcher derived from the lists.
    pub fn new(effective_filterlist: EffectiveFilterlist, histogram_suffixes: HistogramSuffixes) -> (f: Self)
        ensures
            f.lists() == effective_filterlist,
            f.suffixes() == histogram_suffixes.suffixes(),
            f.filtered() == 0,
            f.matcher_in_sync(),
    {
        let mut f = DogStatsDPostAggregateFilter {
            matcher: Blocklist::empty(),
            effective_filterlist,
            histogram_suffixes,
            filtered_metrics: 0,
        };
        f.sync_matcher();
        f
    }

    /// Returns the number of series dropped.
    pub fn filtered_metrics(&self) -> (n: u64)
        ensures
            n == self.filtered(),
    {
        self.filtered_metrics
    }

    /// Rebuilds the matcher from the generated-series entries of the list in force.
    pub fn sync_matcher(&mut self)
        ensures
            final(self).lists() == old(self).lists(),
            final(self).suffixes() == old(self).suffixes(),
            final(self).filtered() == old(self).filtered(),
            final(self).matcher_in_sync(),
    {
        let (values, match_prefix) = self.effective_filterlist.effective_values();
        let ghost vals = views(values@);
        let mut selected: Vec<String> = Vec::new();
        let mut i: usize = 0;
        while i < values.len()
            invariant
                vals == views(values@),
                i <= values.len(),
                views(selected@) == histogram_entries(self.suffixes(), vals.take(i as int)),
            decreases values.len() - i,
        {
            assert(vals.take(i + 1).drop_last() =~= vals.take(i as int));
            assert(vals.take(i + 1).last() == values@[i as int]@);
            if self.histogram_suffixes.contains_filter_entry(values[i].as_str()) {
                selected.push(values[i].clone());
                assert(views(selected@) =~= histogram_entries(self.suffixes(), vals.take(i as int)).push(
                    values@[i as int]@,
                ));
            }
            i = i + 1;
        }
        assert(vals.take(values.len() as int) =~= vals);
        self.matcher = Blocklist::new(selected, match_prefix);
    }

    /// Returns whether the transform drops `metric`: a scalar series whose name the matcher
    /// matches.
    pub fn should_filter_metric(&self, metric: &AggregateMetric) -> (r: bool)
        ensures
            r == self.drops(*metric),
    {
        is_scalar_series_metric(metric.kind) && self.matcher.contains(metric.name.as_str())
    }

    /// Removes the dropped metrics from `buffer`, keeping the order of the rest, and counts them.
    pub fn transform_buffer(&mut self, buffer: &mut Vec<AggregateMetric>)
        ensures
            final(buffer)@ == kept_metrics(old(buffer)@, |m: AggregateMetric| old(self).drops(m)),
            final(self).filtered() == bumped_n(
                old(self).filtered(),
                (old(buffer)@.len() - final(buffer)@.len()) as nat,
            ),
            final(self).matcher() == old(self).matcher(),
            final(self).lists() == old(self).lists(),
            final(self).suffixes() == old(self).suffixes(),
    {
        let ghost input = buffer@;
        let ghost drop = |m: AggregateMetric| self.drops(m);
        let ghost start = self.filtered_metrics;
        let mut count = self.filtered_metrics;
        let mut kept: Vec<AggregateMetric> = Vec::new();
        let mut i: usize = 0;
        while i < buffer.len()
            invariant
                buffer@ == input,
                drop == (|m: AggregateMetric| self.drops(m)),
                i <= buffer.len(),
                kept@ == kept_metrics(input.take(i as int), drop),
                kept@.len() <= i,
                count == bumped_n(start, (i - kept@.len()) as nat),
            decreases buffer.len() - i,
        {
            assert(input.take(i + 1).drop_last() =~= input.take(i as int));
            assert(input.take(i + 1).last() == input[i as int]);
            if self.should_filter_metric(&buffer[i]) {
                count = bumped_n_step(count, Ghost(start), Ghost((i - kept@.len()) as nat));
            } else {
                kept.push(buffer[i].clone());
            }
            i = i + 1;
        }
        assert(input.take(input.len() as int) =~= input);
        self.filtered_metrics = count;
        *buffer = kept;
    }

    /// Replaces the filterlist and rebuilds the matcher.
    pub fn update_metric_filterlist(&mut self, metric_filterlist: Vec<String>)
        ensures
            final(self).lists().filterlist() == views(metric_filterlist@),
            final(self).lists().filterlist_prefix() == old(self).lists().filterlist_prefix(),
            final(self).lists().blocklist() == old(self).lists().blocklist(),
            final(self).lists().blocklist_prefix() == old(self).lists().blocklist_prefix(),
            final(self).suffixes() == old(self).suffixes(),
            final(self).filtered() == old(self).filtered(),
            final(self).matcher_in_sync(),
    {
        self.effective_filterlist.set_metric_filterlist(metric_filterlist);
        self.sync_matcher();
    }

    /// Replaces the legacy blocklist and rebuilds the matcher.
    pub fn update_metric_blocklist(&mut self, metric_blocklist: Vec<String>)
        ensures
            final(self).lists().filterlist() == old(self).lists().filterlist(),
            final(self).lists().filterlist_prefix() == old(self).lists().filterlist_prefix(),
            final(self).lists().blocklist() == views(metric_blocklist@),
            final(self).lists().blocklist_prefix() == old(self).lists().blocklist_prefix(),
            final(self).suffixes() == old(self).suffixes(),
            final(self).filtered() == old(self).filtered(),
            final(self).matcher_in_sync(),
    {
        self.effective_filterlist.set_metric_blocklist(metric_blocklist);
        self.sync_matcher();
    }

    /// Sets the filterlist prefix mode and rebuilds the matcher.
    pub fn update_metric_filterlist_match_prefix(&mut self, match_prefix: bool)
        ensures
            final(self).lists().filterlist() == old(self).lists().filterlist(),
            final(self).lists().filterlist_prefix() == match_prefix,
            final(self).lists().blocklist() == old(self).lists().blocklist(),
            final(self).lists().blocklist_prefix() == old(self).lists().blocklist_prefix(),
            final(self).suffixes() == old(self).suffixes(),
            final(self).filtered() == old(self).filtered(),
            final(self).matcher_in_sync(),
    {
        self.effective_filterlist.set_metric_filterlist_match_prefix(match_prefix);
        self.sync_matcher();
    }

    /// Sets the blocklist prefix mode and rebuilds the matcher.
    pub fn update_metric_blocklist_match_prefix(&mut self, match_prefix: bool)
        ensures
            final(self).lists().filterlist() == old(self).lists().filterlist(),
            final(self).lists().filterlist_prefix() == old(self).lists().filterlist_prefix(),
            final(self).lists().blocklist() == old(self).lists().blocklist(),
            final(self).lists().blocklist_prefix() == match_prefix,
            final(self).suffixes() == old(self).suffixes(),
            final(self).filtered() == old(self).filtered(),
            final(self).matcher_in_sync(),
    {
        self.effective_filterlist.set_metric_blocklist_match_prefix(match_prefix);
        self.sync_matcher();
    }
}

fn bumped_n_step(c: u64, Ghost(start): Ghost<u64>, Ghost(n): Ghost<nat>) -> (r: u64)
    requires
        c == bumped_n(start, n),
    ensures
        r == bumped_n(start, n + 1),
{
    if c < u64::MAX {
        c + 1
    } else {
        0
    }
}

} // verus!
