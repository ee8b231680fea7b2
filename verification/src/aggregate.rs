//! Aggregation of the per-item results of one poll cycle into one visual
//! state and its summary counts.

use vstd::prelude::*;
use crate::status::{AggregationSummary, BuildRecord, BuildStatus, VisualState};

verus! {

/// Number of records that confirm a success.
pub open spec fn count_succeeded(records: Seq<BuildRecord>) -> nat {
    records.filter(|r: BuildRecord| r.is_success()).len()
}

/// Number of records that confirm a failure.
pub open spec fn count_failed(records: Seq<BuildRecord>) -> nat {
    records.filter(|r: BuildRecord| r.is_failure()).len()
}

/// Number of records that confirm neither: building, unstable and unknown
/// statuses, and every record that could not be retrieved.
pub open spec fn count_indeterminate(records: Seq<BuildRecord>) -> nat {
    records.filter(|r: BuildRecord| r.is_indeterminate()).len()
}

/// Number of records whose status could not be retrieved.
pub open spec fn count_unretrieved(records: Seq<BuildRecord>) -> nat {
    records.filter(|r: BuildRecord| !r.retrieved).len()
}

/// The decision table, over unbounded counts. The first matching rule wins:
///
/// 1. nothing was polled, or nothing could be retrieved: `Unreachable`;
/// 2. no confirmed success: `Ambiguous` when the indeterminate results
///    outnumber the failures or there is no failure at all, else `Unhealthy`;
/// 3. successes and no failure: `Healthy` when the successes outnumber the
///    indeterminate results, else `Degraded`;
/// 4. successes and failures: `Degraded` when the successes outnumber the
///    failures, else `Unhealthy`.
pub open spec fn state_of_counts(
    total: int,
    succeeded: int,
    failed: int,
    indeterminate: int,
    unretrieved: int,
) -> VisualState {
    if total <= 0 || unretrieved >= total {
        VisualState::Unreachable
    } else if succeeded <= 0 {
        if indeterminate > failed || failed <= 0 {
            VisualState::Ambiguous
        } else {
            VisualState::Unhealthy
        }
    } else if failed <= 0 {
        if succeeded > indeterminate {
            VisualState::Healthy
        } else {
            VisualState::Degraded
        }
    } else if succeeded > failed {
        VisualState::Degraded
    } else {
        VisualState::Unhealthy
    }
}

/// The visual state that a sequence of records stands for.
pub open spec fn state_of(records: Seq<BuildRecord>) -> VisualState {
    state_of_counts(
        records.len() as int,
        count_succeeded(records) as int,
        count_failed(records) as int,
        count_indeterminate(records) as int,
        count_unretrieved(records) as int,
    )
}

/// The summary of `records`: how many there are, and how many of each class.
pub open spec fn summary_of(records: Seq<BuildRecord>) -> AggregationSummary {
    AggregationSummary {
        total: records.len() as usize,
        succeeded: count_succeeded(records) as usize,
        failed: count_failed(records) as usize,
        indeterminate: count_indeterminate(records) as usize,
    }
}

/// Whether `summary` holds exactly the counts of `records`.
pub open spec fn summarizes(summary: AggregationSummary, records: Seq<BuildRecord>) -> bool {
    &&& summary.total == records.len()
    &&& summary.succeeded == count_succeeded(records)
    &&& summary.failed == count_failed(records)
    &&& summary.indeterminate == count_indeterminate(records)
}

/// Every record is counted in exactly one class: the three counts add up to
/// the number of records, and the unretrieved ones are all indeterminate.
pub proof fn counts_partition(records: Seq<BuildRecord>)
    ensures
        count_succeeded(records) + count_failed(records) + count_indeterminate(records)
            == records.len(),
        count_unretrieved(records) <= count_indeterminate(records),
    decreases records.len(),
{
    reveal(Seq::filter);
    if records.len() > 0 {
        counts_partition(records.drop_last());
    }
}

/// Counts the records of one poll cycle by class.
pub fn summarize(records: &[BuildRecord]) -> (summary: AggregationSummary)
    ensures
        summary == summary_of(records@),
        summarizes(summary, records@),
        summary.balanced(),
{
    let mut succeeded: usize = 0;
    let mut failed: usize = 0;
    let mut indeterminate: usize = 0;
    let mut i: usize = 0;
    while i < records.len()
        invariant
            i <= records.len(),
            succeeded == count_succeeded(records@.take(i as int)),
            failed == count_failed(records@.take(i as int)),
            indeterminate == count_indeterminate(records@.take(i as int)),
            succeeded + failed + indeterminate == i,
        decreases records.len() - i,
    {
        let record = records[i];
        proof {
            let seen = records@.take(i as int);
            assert(records@.take(i + 1) =~= seen.push(record));
            seen.lemma_filter_len_push(|r: BuildRecord| r.is_success(), record);
            seen.lemma_filter_len_push(|r: BuildRecord| r.is_failure(), record);
            seen.lemma_filter_len_push(|r: BuildRecord| r.is_indeterminate(), record);
        }
        if record.retrieved && record.status == BuildStatus::Success {
            succeeded = succeeded + 1;
        } else if record.retrieved && record.status == BuildStatus::Failure {
            failed = failed + 1;
        } else {
            indeterminate = indeterminate + 1;
        }
        i = i + 1;
    }
    assert(records@.take(i as int) =~= records@);
    AggregationSummary { total: records.len(), succeeded, failed, indeterminate }
}

/// Counts the records whose status could not be retrieved.
pub fn unretrieved_count(records: &[BuildRecord]) -> (n: usize)
    ensures
        n == count_unretrieved(records@),
        n <= records@.len(),
{
    let mut n: usize = 0;
    let mut i: usize = 0;
    while i < records.len()
        invariant
            i <= records.len(),
            n == count_unretrieved(records@.take(i as int)),
            n <= i,
        decreases records.len() - i,
    {
        let record = records[i];
        proof {
            let seen = records@.take(i as int);
            assert(records@.take(i + 1) =~= seen.push(record));
            seen.lemma_filter_len_push(|r: BuildRecord| !r.retrieved, record);
        }
        if !record.retrieved {
            n = n + 1;
        }
        i = i + 1;
    }
    assert(records@.take(i as int) =~= records@);
    n
}

/// Applies the decision table to a summary and the number of records that
/// could not be retrieved.
pub fn classify(summary: &AggregationSummary, unretrieved: usize) -> (state: VisualState)
    ensures
        state == state_of_counts(
            summary.total as int,
            summary.succeeded as int,
            summary.failed as int,
            summary.indeterminate as int,
            unretrieved as int,
        ),
{
    if summary.total == 0 || unretrieved >= summary.total {
        VisualState::Unreachable
    } else if summary.succeeded == 0 {
        if summary.indeterminate > summary.failed || summary.failed == 0 {
            VisualState::Ambiguous
        } else {
            VisualState::Unhealthy
        }
    } else if summary.failed == 0 {
        if summary.succeeded > summary.indeterminate {
            VisualState::Healthy
        } else {
            VisualState::Degraded
        }
    } else if summary.succeeded > summary.failed {
        VisualState::Degraded
    } else {
        VisualState::Unhealthy
    }
}

/// Aggregates the records of one poll cycle: the visual state they stand for,
/// and the counts behind it. Total: the empty sequence is `Unreachable`.
pub fn aggregate(records: &[BuildRecord]) -> (result: (VisualState, AggregationSummary))
    ensures
        result.0 == state_of(records@),
        result.1 == summary_of(records@),
        summarizes(result.1, records@),
        result.1.balanced(),
{
    let summary = summarize(records);
    let unretrieved = unretrieved_count(records);
    (classify(&summary, unretrieved), summary)
}

/// What a provider with a single build reports: a three-way switch. An
/// unretrieved status is `Unreachable`, a success `Healthy`, a failure
/// `Unhealthy`, and anything else `Ambiguous`.
pub open spec fn state_of_single(record: BuildRecord) -> VisualState {
    if !record.retrieved {
        VisualState::Unreachable
    } else {
        match record.status {
            BuildStatus::Success => VisualState::Healthy,
            BuildStatus::Failure => VisualState::Unhealthy,
            _ => VisualState::Ambiguous,
        }
    }
}

/// The decision table applied to a single record is the three-way switch.
pub proof fn single_record_is_three_way_switch(record: BuildRecord)
    ensures
        state_of(seq![record]) == state_of_single(record),
{
    let s = seq![record];
    let none = Seq::<BuildRecord>::empty();
    assert(s =~= none.push(record));
    none.lemma_filter_len_push(|r: BuildRecord| r.is_success(), record);
    none.lemma_filter_len_push(|r: BuildRecord| r.is_failure(), record);
    none.lemma_filter_len_push(|r: BuildRecord| r.is_indeterminate(), record);
    none.lemma_filter_len_push(|r: BuildRecord| !r.retrieved, record);
    none.lemma_filter_len(|r: BuildRecord| r.is_success());
    none.lemma_filter_len(|r: BuildRecord| r.is_failure());
    none.lemma_filter_len(|r: BuildRecord| r.is_indeterminate());
    none.lemma_filter_len(|r: BuildRecord| !r.retrieved);
}

/// Indeterminate results are never promoted: records are `Healthy` exactly
/// when there is no confirmed failure and the confirmed successes outnumber
/// everything that is indeterminate.
pub proof fn healthy_iff_successes_outnumber_unknowns(records: Seq<BuildRecord>)
    ensures
        state_of(records) == VisualState::Healthy <==> count_failed(records) == 0
            && count_succeeded(records) > count_indeterminate(records),
{
    counts_partition(records);
}

/// Records are `Unreachable` exactly when there are none, or none of them
/// could be retrieved.
pub proof fn unreachable_iff_nothing_retrieved(records: Seq<BuildRecord>)
    ensures
        state_of(records) == VisualState::Unreachable <==> count_unretrieved(records)
            == records.len(),
{
    counts_partition(records);
}

/// Confirmed failures dominate only as the majority signal: records are
/// `Unhealthy` exactly when something was retrieved, there is a confirmed
/// failure, the successes do not outnumber the failures, and, where nothing
/// succeeded, the indeterminate results do not outnumber the failures either.
pub proof fn unhealthy_iff_failures_dominate(records: Seq<BuildRecord>)
    ensures
        state_of(records) == VisualState::Unhealthy <==> {
            &&& count_unretrieved(records) < records.len()
            &&& count_failed(records) > 0
            &&& count_succeeded(records) <= count_failed(records)
            &&& count_succeeded(records) == 0 ==> count_indeterminate(records) <= count_failed(
                records,
            )
        },
{
    counts_partition(records);
}

/// The table is exhaustive over its five outcomes: it never yields `Mixed`.
pub proof fn never_mixed(records: Seq<BuildRecord>)
    ensures
        state_of(records) != VisualState::Mixed,
{
}

} // verus!
