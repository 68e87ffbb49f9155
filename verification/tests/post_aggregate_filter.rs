use adp_config::filterlist::EffectiveFilterlist;
use adp_config::post_aggregate_filter::{
    percentile_suffix, AggregateMetric, DogStatsDPostAggregateFilter, HistogramSuffixes, MetricKind,
};

fn strings(items: &[&str]) -> Vec<String> {
    items.iter().map(|s| s.to_string()).collect()
}

// Percentiles are configured as quantiles; their series are named by the rounded hundredths.
fn points(percentiles: &[&str]) -> Vec<u32> {
    percentiles
        .iter()
        .map(|p| {
            let q: f64 = p.parse().unwrap();
            assert!((0.0..=1.0).contains(&q));
            (q * 100.0 + 0.5) as u32
        })
        .collect()
}

fn filter_with(
    metric_filterlist: &[&str], metric_filterlist_match_prefix: bool, metric_blocklist: &[&str],
    metric_blocklist_match_prefix: bool, histogram_aggregates: &[&str], histogram_percentiles: &[&str],
) -> DogStatsDPostAggregateFilter {
    let suffixes = HistogramSuffixes::from_configuration(&strings(histogram_aggregates), &points(histogram_percentiles));
    let mut filter = DogStatsDPostAggregateFilter::new(
        EffectiveFilterlist::new(
            strings(metric_filterlist),
            metric_filterlist_match_prefix,
            strings(metric_blocklist),
            metric_blocklist_match_prefix,
        ),
        suffixes,
    );
    filter.sync_matcher();
    filter
}

fn noop_filter(
    metric_filterlist: &[&str], metric_filterlist_match_prefix: bool, metric_blocklist: &[&str],
    metric_blocklist_match_prefix: bool,
) -> DogStatsDPostAggregateFilter {
    filter_with(
        metric_filterlist,
        metric_filterlist_match_prefix,
        metric_blocklist,
        metric_blocklist_match_prefix,
        &["max", "median", "avg", "count"],
        &["0.95"],
    )
}

fn gauge(name: &str) -> AggregateMetric {
    AggregateMetric::new(name, MetricKind::Gauge)
}

fn filter_metric_names(filter: &mut DogStatsDPostAggregateFilter, metrics: Vec<AggregateMetric>) -> Vec<String> {
    let mut buffer = metrics;
    filter.transform_buffer(&mut buffer);
    let mut names: Vec<String> = buffer.into_iter().map(|m| m.name).collect();
    names.sort();
    names
}

#[test]
fn exact_match_filters_only_configured_histogram_aggregate_names() {
    let mut filter = noop_filter(&["request.duration.max"], false, &[], false);
    let names = filter_metric_names(
        &mut filter,
        vec![gauge("request.duration.max"), gauge("request.duration.avg"), gauge("request.duration")],
    );
    assert_eq!(names, vec!["request.duration", "request.duration.avg"]);
}

#[test]
fn prefix_match_uses_only_histogram_specific_filter_entries() {
    let mut filter = noop_filter(&["request.duration", "db.query.max"], true, &[], false);
    let names = filter_metric_names(
        &mut filter,
        vec![gauge("request.duration.max"), gauge("db.query.max"), gauge("db.query.max.extra")],
    );
    assert_eq!(names, vec!["request.duration.max"]);
}

#[test]
fn non_histogram_filterlist_entries_are_ignored() {
    let mut filter = noop_filter(&["custom.metric"], false, &[], false);
    let names = filter_metric_names(&mut filter, vec![gauge("custom.metric"), gauge("custom.metric.max")]);
    assert_eq!(names, vec!["custom.metric", "custom.metric.max"]);
}

#[test]
fn histogram_filter_subset_matches_agent_suffix_selection() {
    let filter = filter_with(
        &[
            "foo",
            "bar",
            "baz",
            "foomax",
            "foo.avg",
            "foo.max",
            "foo.count",
            "baz.73percentile",
            "bar.50percentile",
            "bar.22percentile",
            "count",
        ],
        false,
        &[],
        false,
        &["avg", "max", "median"],
        &["0.73", "0.22"],
    );

    assert!(filter.should_filter_metric(&gauge("foo.avg")));
    assert!(filter.should_filter_metric(&gauge("foo.max")));
    assert!(filter.should_filter_metric(&gauge("baz.73percentile")));
    assert!(filter.should_filter_metric(&gauge("bar.22percentile")));
    assert!(!filter.should_filter_metric(&gauge("foo.count")));
    assert!(!filter.should_filter_metric(&gauge("bar.50percentile")));
    assert!(!filter.should_filter_metric(&gauge("foomax")));
}

#[test]
fn filters_percentile_suffixes_like_aggregate_configuration() {
    let mut filter = filter_with(
        &["request.duration.95percentile", "request.duration.30percentile"],
        false,
        &[],
        false,
        &[],
        &["0.95", "0.299"],
    );
    let names = filter_metric_names(
        &mut filter,
        vec![
            gauge("request.duration.95percentile"),
            gauge("request.duration.30percentile"),
            gauge("request.duration.29percentile"),
        ],
    );
    assert_eq!(names, vec!["request.duration.29percentile"]);
}

#[test]
fn sketch_metrics_are_not_filtered() {
    let mut filter = noop_filter(
        &["distribution.duration.max", "histogram.duration.max", "gauge.duration.max"],
        false,
        &[],
        false,
    );
    let names = filter_metric_names(
        &mut filter,
        vec![
            AggregateMetric::new("distribution.duration.max", MetricKind::Distribution),
            AggregateMetric::new("histogram.duration.max", MetricKind::Histogram),
            gauge("gauge.duration.max"),
        ],
    );
    assert_eq!(names, vec!["distribution.duration.max", "histogram.duration.max"]);
}

#[test]
fn runtime_updates_rebuild_the_effective_matcher() {
    let mut filter = noop_filter(&["request.duration.max"], false, &[], false);

    assert!(filter.should_filter_metric(&gauge("request.duration.max")));
    assert!(!filter.should_filter_metric(&gauge("request.duration.avg")));

    filter.update_metric_filterlist(strings(&["request.duration.avg"]));

    assert!(!filter.should_filter_metric(&gauge("request.duration.max")));
    assert!(filter.should_filter_metric(&gauge("request.duration.avg")));
}

#[test]
fn falls_back_to_legacy_blocklist_only_when_filterlist_is_empty() {
    let filter = noop_filter(&[], false, &["legacy.duration.max"], false);
    assert!(filter.should_filter_metric(&gauge("legacy.duration.max")));

    let filter = noop_filter(&["preferred.duration.max"], false, &["legacy.duration.max"], false);
    assert!(filter.should_filter_metric(&gauge("preferred.duration.max")));
    assert!(!filter.should_filter_metric(&gauge("legacy.duration.max")));
}

#[test]
fn telemetry_counts_filtered_metrics() {
    let mut filter = filter_with(
        &["request.duration.max", "request.duration.avg"],
        false,
        &[],
        false,
        &["max", "avg"],
        &[],
    );
    let names = filter_metric_names(
        &mut filter,
        vec![gauge("request.duration.max"), gauge("request.duration.avg"), gauge("request.duration.count")],
    );
    assert_eq!(names, vec!["request.duration.count"]);
    assert_eq!(filter.filtered_metrics(), 2);
}

#[test]
fn percentile_suffixes_name_hundredths() {
    assert_eq!(percentile_suffix(95), "95percentile");
    assert_eq!(percentile_suffix(0), "0percentile");
    assert_eq!(percentile_suffix(100), "100percentile");
}

#[test]
fn counters_and_sets_are_scalar_series_too() {
    let mut filter = noop_filter(&["a.max", "b.max", "c.max"], false, &[], false);
    let names = filter_metric_names(
        &mut filter,
        vec![
            AggregateMetric::new("a.max", MetricKind::Counter),
            AggregateMetric::new("b.max", MetricKind::Rate),
            AggregateMetric::new("c.max", MetricKind::UniqueSet),
        ],
    );
    assert!(names.is_empty());
    assert_eq!(filter.filtered_metrics(), 3);
}
