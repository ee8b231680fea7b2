//! The decisions of the worker supervisor: a failure budget shared by all
//! workers, a shutdown signal that is raised once and never lowered, and the
//! step that says, for each thing that happens to a supervised worker body,
//! what the supervisor does next.
//!
//! Running the body, isolating its failure and holding the shared state
//! under a lock are the caller's part; what to do is decided here.

use vstd::prelude::*;

verus! {

/// How many abnormal terminations were seen, over all workers, and how many
/// are tolerated. The budget is exceeded once `count > threshold`.
#[derive(Clone, Copy, Debug, PartialEq, Eq, Structural)]
pub struct FailureBudget {
    pub count: u32,
    pub threshold: u32,
}

impl FailureBudget {
    /// More failures were recorded than are tolerated.
    pub open spec fn exceeded(self) -> bool {
        self.count > self.threshold
    }

    /// The budget after one more failure.
    pub open spec fn after_failure(self) -> FailureBudget {
        FailureBudget { count: (self.count + 1) as u32, threshold: self.threshold }
    }

    /// A budget with nothing recorded yet.
    pub fn new(threshold: u32) -> (budget: FailureBudget)
        ensures
            budget == (FailureBudget { count: 0, threshold }),
            !budget.exceeded(),
    {
        FailureBudget { count: 0, threshold }
    }

    /// Whether more failures were recorded than are tolerated.
    pub fn is_exceeded(&self) -> (b: bool)
        ensures
            b == self.exceeded(),
    {
        self.count > self.threshold
    }

    /// Records one abnormal termination.
    pub fn record_failure(&mut self)
        requires
            old(self).count < u32::MAX,
        ensures
            *final(self) == old(self).after_failure(),
            final(self).count == old(self).count + 1,
            final(self).threshold == old(self).threshold,
    {
        self.count = self.count + 1;
    }
}

/// The process-wide request to stop. It starts lowered, is raised by the
/// supervisor or by an interrupt, and is never lowered again: there is no
/// operation that does so.
#[derive(Clone, Copy, Debug)]
pub struct ShutdownSignal {
    raised: bool,
}

impl ShutdownSignal {
    /// Whether a stop was requested.
    pub closed spec fn is_raised(self) -> bool {
        self.raised
    }

    /// A signal that nobody has raised yet.
    pub fn new() -> (signal: ShutdownSignal)
        ensures
            !signal.is_raised(),
    {
        ShutdownSignal { raised: false }
    }

    /// Requests the stop. Raising a raised signal changes nothing.
    pub fn raise(&mut self)
        ensures
            final(self).is_raised(),
            old(self).is_raised() ==> *final(self) == *old(self),
    {
        self.raised = true;
    }

    /// Whether a stop was requested.
    pub fn raised(&self) -> (b: bool)
        ensures
            b == self.is_raised(),
    {
        self.raised
    }
}

/// What happened to a supervised worker body.
#[derive(Clone, Copy, Debug, PartialEq, Eq, Structural)]
pub enum SupervisorEvent {
    /// The worker is about to run its body for the first time.
    Started,
    /// The body returned normally: the worker chose to stop.
    BodyReturned,
    /// The body terminated abnormally.
    BodyFailed,
}

/// What the supervisor does next with the worker.
#[derive(Clone, Copy, Debug, PartialEq, Eq, Structural)]
pub enum SupervisorAction {
    /// Run the body, inside the failure-isolating boundary.
    RunBody,
    /// The worker stopped cleanly; end its loop.
    Finish,
    /// The budget is exceeded: the shutdown signal was raised; end the
    /// worker's loop and report a fatal error for it.
    Halt,
}

/// The budget after `event`: only an abnormal termination counts.
pub open spec fn budget_after(budget: FailureBudget, event: SupervisorEvent) -> FailureBudget {
    match event {
        SupervisorEvent::BodyFailed => budget.after_failure(),
        _ => budget,
    }
}

/// The action that answers `event`: a body that returned ends the worker;
/// otherwise the body is run, again or for the first time, unless the budget,
/// with this failure counted, is exceeded.
pub open spec fn action_after(budget: FailureBudget, event: SupervisorEvent) -> SupervisorAction {
    match event {
        SupervisorEvent::BodyReturned => SupervisorAction::Finish,
        _ => if budget_after(budget, event).exceeded() {
            SupervisorAction::Halt
        } else {
            SupervisorAction::RunBody
        },
    }
}

/// Whether the shutdown signal is raised after `event`: it stays raised, and
/// it is raised when the answer is `Halt`.
pub open spec fn raised_after(budget: FailureBudget, raised: bool, event: SupervisorEvent) -> bool {
    raised || action_after(budget, event) == SupervisorAction::Halt
}

/// One step of supervision. Counts the failure if `event` is one, then checks
/// the budget: if it is exceeded the shutdown signal is raised, for every
/// worker, and the answer is `Halt`.
pub fn supervise(
    budget: &mut FailureBudget,
    signal: &mut ShutdownSignal,
    event: SupervisorEvent,
) -> (action: SupervisorAction)
    requires
        event == SupervisorEvent::BodyFailed ==> old(budget).count < u32::MAX,
    ensures
        *final(budget) == budget_after(*old(budget), event),
        action == action_after(*old(budget), event),
        final(signal).is_raised() == raised_after(
            *old(budget),
            old(signal).is_raised(),
            event,
        ),
        event == SupervisorEvent::BodyReturned ==> *final(budget) == *old(budget),
        event == SupervisorEvent::BodyReturned ==> *final(signal) == *old(signal),
{
    match event {
        SupervisorEvent::BodyReturned => SupervisorAction::Finish,
        SupervisorEvent::Started => check(budget, signal),
        SupervisorEvent::BodyFailed => {
            budget.record_failure();
            check(budget, signal)
        },
    }
}

/// The step where the shared state cannot be had, because the lock that
/// guards it is broken: nothing is counted and nothing checked. A body that
/// returned ends the worker; otherwise the body is run.
pub fn supervise_unlocked(event: SupervisorEvent) -> (action: SupervisorAction)
    ensures
        action == match event {
            SupervisorEvent::BodyReturned => SupervisorAction::Finish,
            _ => SupervisorAction::RunBody,
        },
{
    match event {
        SupervisorEvent::BodyReturned => SupervisorAction::Finish,
        _ => SupervisorAction::RunBody,
    }
}

/// The budget check that precedes every run of the body.
fn check(budget: &FailureBudget, signal: &mut ShutdownSignal) -> (action: SupervisorAction)
    ensures
        action == if budget.exceeded() {
            SupervisorAction::Halt
        } else {
            SupervisorAction::RunBody
        },
        final(signal).is_raised() == (old(signal).is_raised() || budget.exceeded()),
        !budget.exceeded() ==> *final(signal) == *old(signal),
{
    if budget.is_exceeded() {
        signal.raise();
        SupervisorAction::Halt
    } else {
        SupervisorAction::RunBody
    }
}

/// The budget after a sequence of events, in the order in which the
/// supervisor saw them, whichever workers they came from.
pub open spec fn budget_after_all(budget: FailureBudget, events: Seq<SupervisorEvent>)
    -> FailureBudget
    decreases events.len(),
{
    if events.len() == 0 {
        budget
    } else {
        budget_after(budget_after_all(budget, events.drop_last()), events.last())
    }
}

/// The number of abnormal terminations among `events`.
pub open spec fn failures_in(events: Seq<SupervisorEvent>) -> nat {
    events.filter(|e: SupervisorEvent| e == SupervisorEvent::BodyFailed).len()
}

/// A worker whose body returns normally never touches the budget, and the
/// supervisor ends its loop without raising the signal.
pub proof fn normal_return_costs_nothing(budget: FailureBudget, raised: bool)
    ensures
        budget_after(budget, SupervisorEvent::BodyReturned) == budget,
        action_after(budget, SupervisorEvent::BodyReturned) == SupervisorAction::Finish,
        raised_after(budget, raised, SupervisorEvent::BodyReturned) == raised,
{
}

/// No update is lost: however the events of the workers interleave, the count
/// grows by exactly the number of abnormal terminations among them, and the
/// threshold stays.
pub proof fn count_is_exact(budget: FailureBudget, events: Seq<SupervisorEvent>)
    requires
        budget.count + failures_in(events) <= u32::MAX,
    ensures
        budget_after_all(budget, events).count == budget.count + failures_in(events),
        budget_after_all(budget, events).threshold == budget.threshold,
    decreases events.len(),
{
    if events.len() > 0 {
        let earlier = events.drop_last();
        assert(events =~= earlier.push(events.last()));
        earlier.lemma_filter_len_push(
            |e: SupervisorEvent| e == SupervisorEvent::BodyFailed,
            events.last(),
        );
        count_is_exact(budget, earlier);
    }
}

/// The events among `events` that came from `worker`, in their order, where
/// `schedule` names for each event the worker that it came from.
pub open spec fn events_of(
    events: Seq<SupervisorEvent>,
    schedule: Seq<nat>,
    worker: nat,
) -> Seq<SupervisorEvent>
    decreases events.len(),
{
    if events.len() == 0 || schedule.len() != events.len() {
        Seq::empty()
    } else {
        let earlier = events_of(events.drop_last(), schedule.drop_last(), worker);
        if schedule.last() == worker {
            earlier.push(events.last())
        } else {
            earlier
        }
    }
}

/// The abnormal terminations of the first `workers` workers, added up worker
/// by worker.
pub open spec fn failures_by_worker(
    events: Seq<SupervisorEvent>,
    schedule: Seq<nat>,
    workers: nat,
) -> nat
    decreases workers,
{
    if workers == 0 {
        0
    } else {
        failures_by_worker(events, schedule, (workers - 1) as nat) + failures_in(
            events_of(events, schedule, (workers - 1) as nat),
        )
    }
}

/// One more event adds one to the sum over the workers if it is a failure of
/// one of them, and nothing otherwise.
proof fn one_more_event(
    earlier: Seq<SupervisorEvent>,
    turns: Seq<nat>,
    event: SupervisorEvent,
    worker: nat,
    workers: nat,
)
    requires
        turns.len() == earlier.len(),
    ensures
        failures_by_worker(earlier.push(event), turns.push(worker), workers) == failures_by_worker(
            earlier,
            turns,
            workers,
        ) + if worker < workers && event == SupervisorEvent::BodyFailed {
            1nat
        } else {
            0nat
        },
    decreases workers,
{
    if workers > 0 {
        let last = (workers - 1) as nat;
        one_more_event(earlier, turns, event, worker, last);
        assert(earlier.push(event).drop_last() =~= earlier);
        assert(turns.push(worker).drop_last() =~= turns);
        events_of(earlier, turns, last).lemma_filter_len_push(
            |e: SupervisorEvent| e == SupervisorEvent::BodyFailed,
            event,
        );
    }
}

/// With any number of workers sharing the budget, and however their events
/// take turns, the count grows by the sum of what each worker's body failed:
/// no failure of any worker is lost, and none is counted twice.
pub proof fn count_is_sum_over_workers(
    budget: FailureBudget,
    events: Seq<SupervisorEvent>,
    schedule: Seq<nat>,
    workers: nat,
)
    requires
        schedule.len() == events.len(),
        forall|i: int| 0 <= i < schedule.len() ==> schedule[i] < workers,
        budget.count + failures_in(events) <= u32::MAX,
    ensures
        failures_in(events) == failures_by_worker(events, schedule, workers),
        budget_after_all(budget, events).count == budget.count + failures_by_worker(
            events,
            schedule,
            workers,
        ),
    decreases events.len(),
{
    count_is_exact(budget, events);
    if events.len() == 0 {
        nothing_failed_yet(events, schedule, workers);
    } else {
        let earlier = events.drop_last();
        let turns = schedule.drop_last();
        assert(events =~= earlier.push(events.last()));
        assert(schedule =~= turns.push(schedule.last()));
        earlier.lemma_filter_len_push(
            |e: SupervisorEvent| e == SupervisorEvent::BodyFailed,
            events.last(),
        );
        count_is_sum_over_workers(budget, earlier, turns, workers);
        one_more_event(earlier, turns, events.last(), schedule.last(), workers);
    }
}

/// Before any event no worker has failed.
proof fn nothing_failed_yet(events: Seq<SupervisorEvent>, schedule: Seq<nat>, workers: nat)
    requires
        events.len() == 0,
    ensures
        failures_by_worker(events, schedule, workers) == 0,
        failures_in(events) == 0,
    decreases workers,
{
    events.lemma_filter_len(|e: SupervisorEvent| e == SupervisorEvent::BodyFailed);
    if workers > 0 {
        let last = (workers - 1) as nat;
        nothing_failed_yet(events, schedule, last);
        events_of(events, schedule, last).lemma_filter_len(
            |e: SupervisorEvent| e == SupervisorEvent::BodyFailed,
        );
    }
}

/// The events that the supervisor of one worker sees when the body fails
/// `failures` times in a row: the start, then one failure after the other.
pub open spec fn failing_run(failures: nat) -> Seq<SupervisorEvent>
    decreases failures,
{
    if failures == 0 {
        seq![SupervisorEvent::Started]
    } else {
        failing_run((failures - 1) as nat).push(SupervisorEvent::BodyFailed)
    }
}

/// A body that always fails is restarted until the budget is used up: with a
/// fresh budget, the answer to each of the first `threshold` failures is to
/// run the body again and the shutdown signal stays as it is, and the answer
/// to failure number `threshold + 1` is `Halt`, which raises the signal.
pub proof fn halts_after_threshold_plus_one_failures(threshold: u32, failures: nat)
    requires
        threshold < u32::MAX,
        failures <= threshold + 1,
    ensures
        budget_after_all(FailureBudget { count: 0, threshold }, failing_run(failures))
            == (FailureBudget { count: failures as u32, threshold }),
        failures >= 1 ==> action_after(
            budget_after_all(
                FailureBudget { count: 0, threshold },
                failing_run((failures - 1) as nat),
            ),
            SupervisorEvent::BodyFailed,
        ) == if failures == threshold + 1 {
            SupervisorAction::Halt
        } else {
            SupervisorAction::RunBody
        },
        failures >= 1 ==> raised_after(
            budget_after_all(
                FailureBudget { count: 0, threshold },
                failing_run((failures - 1) as nat),
            ),
            false,
            SupervisorEvent::BodyFailed,
        ) == (failures == threshold + 1),
        !raised_after(FailureBudget { count: 0, threshold }, false, SupervisorEvent::Started),
    decreases failures,
{
    let fresh = FailureBudget { count: 0, threshold };
    if failures == 0 {
        let start = seq![SupervisorEvent::Started];
        assert(start.drop_last() =~= Seq::<SupervisorEvent>::empty());
        assert(budget_after_all(fresh, start.drop_last()) == fresh);
        assert(start.last() == SupervisorEvent::Started);
    } else {
        let before = failing_run((failures - 1) as nat);
        halts_after_threshold_plus_one_failures(threshold, (failures - 1) as nat);
        let run = failing_run(failures);
        assert(run.drop_last() =~= before);
        assert(run.last() == SupervisorEvent::BodyFailed);
    }
}

} // verus!
