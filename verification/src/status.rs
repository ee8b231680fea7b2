//! The shared vocabulary: what a provider reports about one build, and the
//! coarse health classification shown for one provider.

use vstd::prelude::*;

verus! {

/// The outcome a provider reports for one build item.
#[derive(Clone, Copy, Debug, PartialEq, Eq, Structural)]
pub enum BuildStatus {
    Success,
    Failure,
    Unstable,
    Building,
    Unknown,
}

/// One build item as seen in one poll cycle.
///
/// `retrieved` is `false` when the status could not be fetched; such a record
/// still counts toward the aggregate, as an indeterminate outcome, whatever
/// its `status` field holds.
#[derive(Clone, Copy, Debug, PartialEq, Eq, Structural)]
pub struct BuildRecord {
    pub status: BuildStatus,
    pub retrieved: bool,
}

impl BuildRecord {
    /// A retrieved record confirms a success.
    pub open spec fn is_success(self) -> bool {
        self.retrieved && self.status == BuildStatus::Success
    }

    /// A retrieved record confirms a failure.
    pub open spec fn is_failure(self) -> bool {
        self.retrieved && self.status == BuildStatus::Failure
    }

    /// Neither a confirmed success nor a confirmed failure.
    pub open spec fn is_indeterminate(self) -> bool {
        !self.is_success() && !self.is_failure()
    }

    /// The record of an item whose status was fetched.
    pub fn fetched(status: BuildStatus) -> (r: BuildRecord)
        ensures
            r == (BuildRecord { status, retrieved: true }),
    {
        BuildRecord { status, retrieved: true }
    }

    /// The record of an item whose status could not be fetched.
    pub fn unretrieved() -> (r: BuildRecord)
        ensures
            r == (BuildRecord { status: BuildStatus::Unknown, retrieved: false }),
            r.is_indeterminate(),
    {
        BuildRecord { status: BuildStatus::Unknown, retrieved: false }
    }
}

/// Counts over the records of one poll cycle.
///
/// Every record falls in exactly one of the three classes, so a summary
/// computed from records is balanced (see [`AggregationSummary::balanced`]).
#[derive(Clone, Copy, Debug, PartialEq, Eq, Structural)]
pub struct AggregationSummary {
    pub total: usize,
    pub succeeded: usize,
    pub failed: usize,
    pub indeterminate: usize,
}

impl AggregationSummary {
    /// The three classes add up to the total.
    pub open spec fn balanced(self) -> bool {
        self.succeeded + self.failed + self.indeterminate == self.total
    }
}

/// The coarse health classification emitted for one provider.
///
/// `Mixed` is part of the vocabulary that signal emitters understand; the
/// aggregation table itself ranks confirmed passes against confirmed failures
/// and never yields it.
#[derive(Clone, Copy, Debug, PartialEq, Eq, Structural)]
pub enum VisualState {
    Healthy,
    Degraded,
    Unhealthy,
    Mixed,
    Unreachable,
    Ambiguous,
}

} // verus!
