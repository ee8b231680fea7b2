//! The poll cycle of one provider as a state machine: fetch, emit, sleep, and
//! again, until the shutdown signal is seen.
//!
//! The worker decides; its caller acts. The caller performs the action that a
//! step returns (the fetch, the emission, the sleep) and reports back with
//! the matching event.

use vstd::prelude::*;
use crate::aggregate::{aggregate, state_of, summary_of};
use crate::poller::{millis_of_seconds, next_interval, next_interval_of, now_millis};
use crate::source::{absorb, polled_hint, polled_records, FetchError, Poll};
use crate::status::{AggregationSummary, VisualState};
use crate::supervisor::ShutdownSignal;

verus! {

/// Where a worker stands in its cycle.
#[derive(Clone, Copy, Debug, PartialEq, Eq, Structural)]
pub enum WorkerPhase {
    /// Waiting for the source client's answer.
    Polling,
    /// Waiting for the signal emitter.
    Emitting,
    /// Waiting for the poll interval to pass.
    Sleeping,
    /// Done: the worker body returns normally.
    Stopped,
}

/// What the caller reports back to the worker.
#[derive(Debug)]
pub enum WorkerEvent {
    /// The source client answered, or failed, at time `now`.
    Fetched { outcome: Result<Poll, FetchError>, now: u64 },
    /// The signal emitter was called. Whether the state was `delivered` makes
    /// no difference: an emission is not retried, the next cycle corrects it.
    Emitted { delivered: bool },
    /// The poll interval has passed.
    Woke,
}

/// What the caller does next.
#[derive(Clone, Copy, Debug, PartialEq, Eq, Structural)]
pub enum WorkerAction {
    /// Ask the source client for the provider's builds.
    Fetch,
    /// Show `state` on the signal emitter; `summary` holds the counts behind
    /// it.
    Emit { state: VisualState, summary: AggregationSummary },
    /// Sleep for this many milliseconds.
    Sleep(u64),
    /// Show the shutting-down signal, switch the emitter off, and return.
    ShutDown,
    /// Nothing: the event was not the one that the worker waits for.
    Ignore,
}

/// The worker of one provider.
///
/// `interval` is the current poll interval and `floor` the configured one,
/// which it starts from and never goes below. Only an `adaptive` worker
/// follows the provider's rate-limit hints.
#[derive(Clone, Copy, Debug, PartialEq, Eq, Structural)]
pub struct SourceWorker {
    pub phase: WorkerPhase,
    pub interval: u64,
    pub floor: u64,
    pub adaptive: bool,
}

impl SourceWorker {
    /// The poll interval is not below the configured one.
    pub open spec fn wf(self) -> bool {
        self.interval >= self.floor
    }

    /// A worker at the start of its first cycle.
    pub open spec fn fresh(interval: u64, adaptive: bool) -> SourceWorker {
        SourceWorker { phase: WorkerPhase::Polling, interval, floor: interval, adaptive }
    }

    /// Whether `event` is the one that the worker waits for.
    pub open spec fn awaits(self, event: WorkerEvent) -> bool {
        match (self.phase, event) {
            (WorkerPhase::Polling, WorkerEvent::Fetched { .. }) => true,
            (WorkerPhase::Emitting, WorkerEvent::Emitted { .. }) => true,
            (WorkerPhase::Sleeping, WorkerEvent::Woke) => true,
            _ => false,
        }
    }

    /// Whether the time matters for what a fetch does to the worker: only an
    /// adaptive worker looks at it, and only where a hint came.
    pub open spec fn needs_clock(self, outcome: Result<Poll, FetchError>) -> bool {
        self.adaptive && polled_hint(outcome) is Some
    }

    /// The worker after `event`, where `raised` says whether the shutdown
    /// signal is raised.
    pub open spec fn after(self, event: WorkerEvent, raised: bool) -> SourceWorker {
        match (self.phase, event) {
            (WorkerPhase::Polling, WorkerEvent::Fetched { outcome, now }) => SourceWorker {
                phase: WorkerPhase::Emitting,
                interval: if self.adaptive {
                    next_interval_of(self.interval, polled_hint(outcome), now, self.floor) as u64
                } else {
                    self.interval
                },
                ..self
            },
            (WorkerPhase::Emitting, WorkerEvent::Emitted { .. }) => SourceWorker {
                phase: WorkerPhase::Sleeping,
                ..self
            },
            (WorkerPhase::Sleeping, WorkerEvent::Woke) => SourceWorker {
                phase: if raised {
                    WorkerPhase::Stopped
                } else {
                    WorkerPhase::Polling
                },
                ..self
            },
            _ => self,
        }
    }

    /// The action that answers `event`.
    pub open spec fn action_for(self, event: WorkerEvent, raised: bool) -> WorkerAction {
        match (self.phase, event) {
            (WorkerPhase::Polling, WorkerEvent::Fetched { outcome, now }) => WorkerAction::Emit {
                state: state_of(polled_records(outcome)),
                summary: summary_of(polled_records(outcome)),
            },
            (WorkerPhase::Emitting, WorkerEvent::Emitted { .. }) => WorkerAction::Sleep(
                self.interval,
            ),
            (WorkerPhase::Sleeping, WorkerEvent::Woke) => if raised {
                WorkerAction::ShutDown
            } else {
                WorkerAction::Fetch
            },
            _ => WorkerAction::Ignore,
        }
    }

    /// A worker at the start of its first cycle: it waits for the answer to
    /// its first fetch, and polls at the configured interval.
    pub fn new(interval: u64, adaptive: bool) -> (worker: SourceWorker)
        ensures
            worker == SourceWorker::fresh(interval, adaptive),
            worker.wf(),
    {
        SourceWorker { phase: WorkerPhase::Polling, interval, floor: interval, adaptive }
    }

    /// Starts over after a failure of the body: nothing is carried over, and
    /// the poll interval is back at the configured one.
    pub fn restart(&mut self)
        ensures
            *final(self) == SourceWorker::fresh(old(self).floor, old(self).adaptive),
            final(self).wf(),
    {
        self.phase = WorkerPhase::Polling;
        self.interval = self.floor;
    }

    /// Whether the worker has stopped.
    pub fn is_stopped(&self) -> (b: bool)
        ensures
            b == (self.phase == WorkerPhase::Stopped),
    {
        match self.phase {
            WorkerPhase::Stopped => true,
            _ => false,
        }
    }

    /// Makes the event that reports a fetch. The system clock is read only
    /// where the time matters; elsewhere the event holds time zero.
    pub fn fetched(&self, outcome: Result<Poll, FetchError>) -> (event: WorkerEvent)
        ensures
            event matches WorkerEvent::Fetched { outcome: reported, now } && reported == outcome
                && if self.needs_clock(outcome) {
                exists|seconds: i64| now == #[trigger] millis_of_seconds(seconds)
            } else {
                now == 0
            },
    {
        let hinted = match &outcome {
            Ok(poll) => poll.hint.is_some(),
            Err(_) => false,
        };
        let now: u64 = if self.adaptive && hinted {
            now_millis()
        } else {
            0
        };
        WorkerEvent::Fetched { outcome, now }
    }

    /// One step of the cycle.
    ///
    /// - `Polling`, on `Fetched`: the records are aggregated (a failed fetch
    ///   counts as no record at all), an adaptive worker takes its next
    ///   interval from the hint, and the state is to be emitted.
    /// - `Emitting`, on `Emitted`: the worker is to sleep for its interval.
    /// - `Sleeping`, on `Woke`: with the shutdown signal raised the worker
    ///   stops, after the shutting-down signal; else it is to fetch again.
    /// - Any other event is ignored, and so is every event once stopped.
    pub fn step(&mut self, event: WorkerEvent, signal: &ShutdownSignal) -> (action: WorkerAction)
        ensures
            *final(self) == old(self).after(event, signal.is_raised()),
            action == old(self).action_for(event, signal.is_raised()),
            old(self).wf() ==> final(self).wf(),
    {
        match (self.phase, event) {
            (WorkerPhase::Polling, WorkerEvent::Fetched { outcome, now }) => {
                let poll = absorb(outcome);
                let (state, summary) = aggregate(poll.records.as_slice());
                if self.adaptive {
                    self.interval = next_interval(self.interval, poll.hint, now, self.floor);
                }
                self.phase = WorkerPhase::Emitting;
                WorkerAction::Emit { state, summary }
            },
            (WorkerPhase::Emitting, WorkerEvent::Emitted { .. }) => {
                self.phase = WorkerPhase::Sleeping;
                WorkerAction::Sleep(self.interval)
            },
            (WorkerPhase::Sleeping, WorkerEvent::Woke) => {
                if signal.raised() {
                    self.phase = WorkerPhase::Stopped;
                    WorkerAction::ShutDown
                } else {
                    self.phase = WorkerPhase::Polling;
                    WorkerAction::Fetch
                }
            },
            _ => WorkerAction::Ignore,
        }
    }
}

/// Within a worker the cycle is strictly sequential: the event that it waits
/// for moves it from `Polling` to `Emitting`, from there to `Sleeping`, and
/// from there back to `Polling` or, with the signal raised, to `Stopped`.
pub proof fn cycle_is_sequential(worker: SourceWorker, event: WorkerEvent, raised: bool)
    requires
        worker.awaits(event),
    ensures
        worker.after(event, raised).phase == match worker.phase {
            WorkerPhase::Polling => WorkerPhase::Emitting,
            WorkerPhase::Emitting => WorkerPhase::Sleeping,
            _ => if raised {
                WorkerPhase::Stopped
            } else {
                WorkerPhase::Polling
            },
        },
{
}

/// `Stopped` is terminal: no event moves a stopped worker or makes it act.
pub proof fn stopped_is_terminal(worker: SourceWorker, event: WorkerEvent, raised: bool)
    requires
        worker.phase == WorkerPhase::Stopped,
    ensures
        worker.after(event, raised) == worker,
        worker.action_for(event, raised) == WorkerAction::Ignore,
{
}

/// Once the shutdown signal is raised every worker stops within one cycle:
/// wherever it stands, it has stopped by the third event that it waits for,
/// which is at the latest the end of its current sleep.
pub proof fn raised_signal_stops_within_one_cycle(
    worker: SourceWorker,
    first: WorkerEvent,
    second: WorkerEvent,
    third: WorkerEvent,
)
    requires
        worker.awaits(first),
        worker.after(first, true).phase != WorkerPhase::Stopped ==> worker.after(
            first,
            true,
        ).awaits(second),
        worker.after(first, true).after(second, true).phase != WorkerPhase::Stopped
            ==> worker.after(first, true).after(second, true).awaits(third),
    ensures
        worker.after(first, true).after(second, true).after(third, true).phase
            == WorkerPhase::Stopped,
{
}

/// The poll interval never drops below the configured one: a step keeps a
/// worker well formed, whatever the provider hints at.
pub proof fn interval_stays_above_floor(worker: SourceWorker, event: WorkerEvent, raised: bool)
    requires
        worker.wf(),
    ensures
        worker.after(event, raised).wf(),
        worker.after(event, raised).floor == worker.floor,
        worker.after(event, raised).adaptive == worker.adaptive,
{
    if let WorkerEvent::Fetched { outcome, now } = event {
        crate::poller::next_interval_in_range(
            worker.interval,
            polled_hint(outcome),
            now,
            worker.floor,
        );
    }
}

/// Where the clock is not needed the time makes no difference to the step.
pub proof fn time_matters_only_with_a_hint(
    worker: SourceWorker,
    outcome: Result<Poll, FetchError>,
    first: u64,
    second: u64,
    raised: bool,
)
    requires
        !worker.needs_clock(outcome),
    ensures
        worker.after(WorkerEvent::Fetched { outcome, now: first }, raised) == worker.after(
            WorkerEvent::Fetched { outcome, now: second },
            raised,
        ),
        worker.action_for(WorkerEvent::Fetched { outcome, now: first }, raised)
            == worker.action_for(WorkerEvent::Fetched { outcome, now: second }, raised),
{
}

/// A worker that does not adapt keeps its interval for good.
pub proof fn fixed_interval_is_kept(worker: SourceWorker, event: WorkerEvent, raised: bool)
    requires
        !worker.adaptive,
    ensures
        worker.after(event, raised).interval == worker.interval,
{
}

} // verus!
