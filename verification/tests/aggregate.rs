use build_monitor::aggregate::{aggregate, classify, summarize, unretrieved_count};
use build_monitor::status::{AggregationSummary, BuildRecord, BuildStatus, VisualState};

fn retrieved(statuses: &[BuildStatus]) -> Vec<BuildRecord> {
    statuses.iter().map(|s| BuildRecord::fetched(*s)).collect()
}

fn state_of(statuses: &[BuildStatus]) -> VisualState {
    aggregate(&retrieved(statuses)).0
}

#[test]
fn empty_is_unreachable() {
    let (state, summary) = aggregate(&[]);
    assert_eq!(state, VisualState::Unreachable);
    assert_eq!(
        summary,
        AggregationSummary { total: 0, succeeded: 0, failed: 0, indeterminate: 0 }
    );
}

#[test]
fn single_success_is_healthy() {
    assert_eq!(state_of(&[BuildStatus::Success]), VisualState::Healthy);
}

#[test]
fn single_failure_is_unhealthy() {
    assert_eq!(state_of(&[BuildStatus::Failure]), VisualState::Unhealthy);
}

#[test]
fn equal_successes_and_failures_are_unhealthy() {
    assert_eq!(
        state_of(&[BuildStatus::Success, BuildStatus::Failure]),
        VisualState::Unhealthy
    );
    assert_eq!(
        state_of(&[
            BuildStatus::Failure,
            BuildStatus::Success,
            BuildStatus::Success,
            BuildStatus::Failure
        ]),
        VisualState::Unhealthy
    );
}

#[test]
fn more_successes_than_failures_are_degraded() {
    assert_eq!(
        state_of(&[BuildStatus::Success, BuildStatus::Failure, BuildStatus::Success]),
        VisualState::Degraded
    );
}

#[test]
fn more_failures_than_successes_are_unhealthy() {
    assert_eq!(
        state_of(&[BuildStatus::Failure, BuildStatus::Failure, BuildStatus::Success]),
        VisualState::Unhealthy
    );
}

#[test]
fn two_building_are_ambiguous() {
    assert_eq!(
        state_of(&[BuildStatus::Building, BuildStatus::Building]),
        VisualState::Ambiguous
    );
}

#[test]
fn no_success_and_mostly_indeterminate_is_ambiguous() {
    assert_eq!(
        state_of(&[BuildStatus::Failure, BuildStatus::Building, BuildStatus::Unknown]),
        VisualState::Ambiguous
    );
}

#[test]
fn no_success_and_as_many_failures_as_unknowns_is_unhealthy() {
    assert_eq!(
        state_of(&[BuildStatus::Failure, BuildStatus::Building]),
        VisualState::Unhealthy
    );
}

#[test]
fn successes_that_do_not_outnumber_unknowns_are_degraded() {
    assert_eq!(
        state_of(&[BuildStatus::Success, BuildStatus::Building]),
        VisualState::Degraded
    );
    assert_eq!(
        state_of(&[BuildStatus::Success, BuildStatus::Unstable, BuildStatus::Unknown]),
        VisualState::Degraded
    );
    assert_eq!(
        state_of(&[BuildStatus::Success, BuildStatus::Success, BuildStatus::Building]),
        VisualState::Healthy
    );
}

#[test]
fn unstable_counts_as_indeterminate() {
    let (state, summary) = aggregate(&retrieved(&[BuildStatus::Unstable]));
    assert_eq!(state, VisualState::Ambiguous);
    assert_eq!(
        summary,
        AggregationSummary { total: 1, succeeded: 0, failed: 0, indeterminate: 1 }
    );
}

#[test]
fn all_unretrieved_is_unreachable() {
    let records = vec![BuildRecord::unretrieved(), BuildRecord::unretrieved()];
    let (state, summary) = aggregate(&records);
    assert_eq!(state, VisualState::Unreachable);
    assert_eq!(
        summary,
        AggregationSummary { total: 2, succeeded: 0, failed: 0, indeterminate: 2 }
    );
}

#[test]
fn unretrieved_success_does_not_count_as_success() {
    let records = vec![BuildRecord { status: BuildStatus::Success, retrieved: false }];
    let (state, summary) = aggregate(&records);
    assert_eq!(state, VisualState::Unreachable);
    assert_eq!(summary.succeeded, 0);
    assert_eq!(summary.indeterminate, 1);
}

#[test]
fn one_unretrieved_among_successes() {
    let records = vec![
        BuildRecord::fetched(BuildStatus::Success),
        BuildRecord::unretrieved(),
        BuildRecord::fetched(BuildStatus::Success),
    ];
    let (state, summary) = aggregate(&records);
    assert_eq!(state, VisualState::Healthy);
    assert_eq!(
        summary,
        AggregationSummary { total: 3, succeeded: 2, failed: 0, indeterminate: 1 }
    );
    assert_eq!(unretrieved_count(&records), 1);
}

#[test]
fn summary_counts_each_record_once() {
    let all = [
        BuildStatus::Success,
        BuildStatus::Failure,
        BuildStatus::Unstable,
        BuildStatus::Building,
        BuildStatus::Unknown,
    ];
    let mut records = Vec::new();
    for (i, status) in all.iter().cycle().take(37).enumerate() {
        records.push(BuildRecord { status: *status, retrieved: i % 3 != 0 });
        let summary = summarize(&records);
        assert_eq!(summary.total, records.len());
        assert_eq!(
            summary.succeeded + summary.failed + summary.indeterminate,
            summary.total
        );
        assert_eq!(aggregate(&records).1, summary);
    }
    let summary = summarize(&records);
    assert_eq!(
        summary,
        AggregationSummary { total: 37, succeeded: 5, failed: 5, indeterminate: 27 }
    );
}

#[test]
fn classification_follows_the_table() {
    let summary = |total, succeeded, failed, indeterminate| AggregationSummary {
        total,
        succeeded,
        failed,
        indeterminate,
    };
    assert_eq!(classify(&summary(0, 0, 0, 0), 0), VisualState::Unreachable);
    assert_eq!(classify(&summary(4, 0, 0, 4), 4), VisualState::Unreachable);
    assert_eq!(classify(&summary(4, 0, 0, 4), 3), VisualState::Ambiguous);
    assert_eq!(classify(&summary(4, 0, 1, 3), 0), VisualState::Ambiguous);
    assert_eq!(classify(&summary(4, 0, 2, 2), 0), VisualState::Unhealthy);
    assert_eq!(classify(&summary(4, 3, 0, 1), 1), VisualState::Healthy);
    assert_eq!(classify(&summary(4, 2, 0, 2), 0), VisualState::Degraded);
    assert_eq!(classify(&summary(4, 2, 1, 1), 0), VisualState::Degraded);
    assert_eq!(classify(&summary(4, 2, 2, 0), 0), VisualState::Unhealthy);
    assert_eq!(classify(&summary(4, 1, 3, 0), 0), VisualState::Unhealthy);
}

#[test]
fn never_mixed_and_healthy_only_with_majority() {
    let all = [
        BuildStatus::Success,
        BuildStatus::Failure,
        BuildStatus::Unstable,
        BuildStatus::Building,
        BuildStatus::Unknown,
    ];
    for a in all.iter() {
        for b in all.iter() {
            for c in all.iter() {
                for missing in 0..2 {
                    let mut records = retrieved(&[*a, *b, *c]);
                    records[0].retrieved = missing == 0;
                    let (state, summary) = aggregate(&records);
                    assert_ne!(state, VisualState::Mixed);
                    assert_eq!(
                        state == VisualState::Healthy,
                        summary.failed == 0 && summary.succeeded > summary.indeterminate
                    );
                }
            }
        }
    }
}

#[test]
fn single_record_is_a_three_way_switch() {
    assert_eq!(state_of(&[BuildStatus::Success]), VisualState::Healthy);
    assert_eq!(state_of(&[BuildStatus::Failure]), VisualState::Unhealthy);
    assert_eq!(state_of(&[BuildStatus::Unknown]), VisualState::Ambiguous);
    assert_eq!(state_of(&[BuildStatus::Unstable]), VisualState::Ambiguous);
    assert_eq!(state_of(&[BuildStatus::Building]), VisualState::Ambiguous);
    assert_eq!(aggregate(&[BuildRecord::unretrieved()]).0, VisualState::Unreachable);
}
