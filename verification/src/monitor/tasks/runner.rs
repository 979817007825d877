//! The task of one monitor: build the probe, then survey, record and wait,
//! turn after turn, until shutdown.

use crate::models::{
    current_time, Monitor, MonitorStatus, RepositoryError, RepositoryErrorView, StatusView,
    Timestamp,
};
use crate::monitor::tasks::{TaskError, TaskErrorView};
use std::time::Duration;
use vstd::prelude::*;

verus! {

/// Where a monitor's task stands. `Surveying`, `Persisting` and `Waiting`
/// together form the probing loop.
#[derive(Clone, Copy, Debug, PartialEq, Eq, Structural)]
pub enum RunnerPhase {
    /// The probe is being built.
    Constructing,
    /// The build failed and the failure is being recorded.
    ReportingFailure,
    /// A survey of the target is under way.
    Surveying,
    /// The status of the last survey is being written.
    Persisting,
    /// The task sleeps until the next survey is due or shutdown is signalled.
    Waiting,
    /// The task has ended; nothing further happens.
    Terminated,
}

impl RunnerPhase {
    pub open spec fn looping(self) -> bool {
        self is Surveying || self is Persisting || self is Waiting
    }

    pub fn is_looping(&self) -> (r: bool)
        ensures
            r == self.looping(),
    {
        match self {
            RunnerPhase::Surveying | RunnerPhase::Persisting | RunnerPhase::Waiting => true,
            _ => false,
        }
    }
}

/// What happened outside the task since its last action.
#[derive(Debug, PartialEq, Eq)]
pub enum RunnerEvent {
    /// The probe was built.
    Constructed,
    /// The probe could not be built.
    ConstructionFailed(TaskError),
    /// A survey ended: with the status it observed, or with the reason why it
    /// could not observe one.
    Surveyed(Result<MonitorStatus, String>),
    /// The write of the last status ended.
    Persisted(Result<(), RepositoryError>),
    /// The check interval has passed.
    IntervalElapsed,
    /// Shutdown was signalled during the wait.
    ShutdownSignalled,
}

/// Mathematical value of a [`RunnerEvent`].
pub ghost enum EventView {
    Constructed,
    ConstructionFailed(TaskErrorView),
    Surveyed(Result<StatusView, Seq<char>>),
    Persisted(Result<(), RepositoryErrorView>),
    IntervalElapsed,
    ShutdownSignalled,
}

impl View for RunnerEvent {
    type V = EventView;

    open spec fn view(&self) -> EventView {
        match *self {
            RunnerEvent::Constructed => EventView::Constructed,
            RunnerEvent::ConstructionFailed(error) => EventView::ConstructionFailed(error@),
            RunnerEvent::Surveyed(outcome) => EventView::Surveyed(
                match outcome {
                    Ok(status) => Ok(status@),
                    Err(reason) => Err(reason@),
                },
            ),
            RunnerEvent::Persisted(outcome) => EventView::Persisted(
                match outcome {
                    Ok(_) => Ok(()),
                    Err(error) => Err(error@),
                },
            ),
            RunnerEvent::IntervalElapsed => EventView::IntervalElapsed,
            RunnerEvent::ShutdownSignalled => EventView::ShutdownSignalled,
        }
    }
}

/// What the task asks its driver to do next.
#[derive(Debug, PartialEq, Eq)]
pub enum RunnerAction {
    /// Survey the target and report back with `Surveyed`.
    Survey,
    /// Append `status` to the history of `monitor_name` and report back with
    /// `Persisted`.
    Persist { monitor_name: String, status: MonitorStatus },
    /// Sleep for `interval` unless shutdown is signalled first; report back
    /// with `IntervalElapsed` or `ShutdownSignalled`.
    Wait { interval: Duration },
    /// The task is over, with this result.
    Finish(Result<(), TaskError>),
    /// The event was not awaited: nothing to do.
    Idle,
}

/// Mathematical value of a [`RunnerAction`].
pub ghost enum ActionView {
    Survey,
    Persist { monitor_name: Seq<char>, status: StatusView },
    Wait { interval: Duration },
    Finish(Result<(), TaskErrorView>),
    Idle,
}

impl View for RunnerAction {
    type V = ActionView;

    open spec fn view(&self) -> ActionView {
        match *self {
            RunnerAction::Survey => ActionView::Survey,
            RunnerAction::Persist { monitor_name, status } => ActionView::Persist {
                monitor_name: monitor_name@,
                status: status@,
            },
            RunnerAction::Wait { interval } => ActionView::Wait { interval },
            RunnerAction::Finish(result) => ActionView::Finish(
                match result {
                    Ok(_) => Ok(()),
                    Err(error) => Err(error@),
                },
            ),
            RunnerAction::Idle => ActionView::Idle,
        }
    }
}

/// Mathematical value of a [`TaskRunner`].
pub ghost struct RunnerView {
    pub monitor_name: Seq<char>,
    pub interval: Duration,
    pub phase: RunnerPhase,
    /// The construction failure that is being recorded.
    pub failure: Option<TaskErrorView>,
}

impl RunnerView {
    pub open spec fn at(self, phase: RunnerPhase) -> RunnerView {
        RunnerView {
            monitor_name: self.monitor_name,
            interval: self.interval,
            phase,
            failure: self.failure,
        }
    }

    pub open spec fn failing_with(self, error: TaskErrorView) -> RunnerView {
        RunnerView {
            monitor_name: self.monitor_name,
            interval: self.interval,
            phase: RunnerPhase::ReportingFailure,
            failure: Some(error),
        }
    }

    pub open spec fn ended(self) -> RunnerView {
        RunnerView {
            monitor_name: self.monitor_name,
            interval: self.interval,
            phase: RunnerPhase::Terminated,
            failure: None,
        }
    }

    pub open spec fn persist(self, status: StatusView) -> ActionView {
        ActionView::Persist { monitor_name: self.monitor_name, status }
    }

    /// A failure is held exactly while it is being recorded.
    pub open spec fn consistent(self) -> bool {
        self.phase is ReportingFailure ==> self.failure is Some
    }

    /// The transition rule of a monitor's task: the state after `event` has
    /// been handled at time `now`, and the action asked of the driver.
    ///
    /// A task whose probe could not be built ends with the construction
    /// error, whether or not the write of its `Down` status succeeded. A
    /// survey that reports `Unknown` has observed nothing: nothing is written
    /// for it, and the task waits for the next turn.
    pub open spec fn step(self, event: EventView, now: Timestamp) -> (RunnerView, ActionView) {
        match (self.phase, event) {
            (RunnerPhase::Constructing, EventView::Constructed) => (
                self.at(RunnerPhase::Surveying),
                ActionView::Survey,
            ),
            (RunnerPhase::Constructing, EventView::ConstructionFailed(error)) => (
                self.failing_with(error),
                self.persist(StatusView::Down { checked_at: now, error_reason: error.message() }),
            ),
            (RunnerPhase::ReportingFailure, EventView::Persisted(_)) => (
                self.ended(),
                ActionView::Finish(Err(self.failure.unwrap())),
            ),
            (RunnerPhase::Surveying, EventView::Surveyed(Ok(StatusView::Unknown))) => (
                self.at(RunnerPhase::Waiting),
                ActionView::Wait { interval: self.interval },
            ),
            (RunnerPhase::Surveying, EventView::Surveyed(Ok(status))) => (
                self.at(RunnerPhase::Persisting),
                self.persist(status),
            ),
            (RunnerPhase::Surveying, EventView::Surveyed(Err(reason))) => (
                self.at(RunnerPhase::Persisting),
                self.persist(StatusView::Down { checked_at: now, error_reason: reason }),
            ),
            (RunnerPhase::Persisting, EventView::Persisted(_)) => (
                self.at(RunnerPhase::Waiting),
                ActionView::Wait { interval: self.interval },
            ),
            (RunnerPhase::Waiting, EventView::IntervalElapsed) => (
                self.at(RunnerPhase::Surveying),
                ActionView::Survey,
            ),
            (RunnerPhase::Waiting, EventView::ShutdownSignalled) => (
                self.ended(),
                ActionView::Finish(Ok(())),
            ),
            _ => (self, ActionView::Idle),
        }
    }
}

/// One event of a run, with the time at which it is handled.
pub type TimedEvent = (EventView, Timestamp);

/// The status that is recorded for the outcome of a survey that ended at
/// `now`: the observed status, or `Down` with the reason of the failure.
pub open spec fn status_of_survey(outcome: Result<StatusView, Seq<char>>, now: Timestamp) -> StatusView {
    match outcome {
        Ok(status) => status,
        Err(reason) => StatusView::Down { checked_at: now, error_reason: reason },
    }
}

/// The statuses that are written for a survey that ended at `now` with
/// `outcome`: its status, or nothing where it reports `Unknown`.
pub open spec fn written_for_survey(outcome: Result<StatusView, Seq<char>>, now: Timestamp) -> Seq<
    StatusView,
> {
    if outcome == Ok::<StatusView, Seq<char>>(StatusView::Unknown) {
        Seq::empty()
    } else {
        seq![status_of_survey(outcome, now)]
    }
}

impl RunnerView {
    /// The state after `events` were handled one after the other.
    pub open spec fn run(self, events: Seq<TimedEvent>) -> RunnerView
        decreases events.len(),
    {
        if events.len() == 0 {
            self
        } else {
            self.run(events.drop_last()).step(events.last().0, events.last().1).0
        }
    }

    /// The statuses that the task asked to have written while `events` were
    /// handled, in the order in which it asked.
    pub open spec fn persisted(self, events: Seq<TimedEvent>) -> Seq<StatusView>
        decreases events.len(),
    {
        if events.len() == 0 {
            Seq::empty()
        } else {
            let before = self.persisted(events.drop_last());
            match self.run(events.drop_last()).step(events.last().0, events.last().1).1 {
                ActionView::Persist { status, .. } => before.push(status),
                _ => before,
            }
        }
    }

    /// The events of one turn of the probing loop: the survey ends at `now`
    /// with `outcome`, the write of its status ends with `written`, and the
    /// interval passes. Where the survey reports `Unknown` there is no write.
    pub open spec fn cycle(
        outcome: Result<StatusView, Seq<char>>,
        written: Result<(), RepositoryErrorView>,
        now: Timestamp,
    ) -> Seq<TimedEvent> {
        if outcome == Ok::<StatusView, Seq<char>>(StatusView::Unknown) {
            seq![(EventView::Surveyed(outcome), now), (EventView::IntervalElapsed, now)]
        } else {
            seq![
                (EventView::Surveyed(outcome), now),
                (EventView::Persisted(written), now),
                (EventView::IntervalElapsed, now),
            ]
        }
    }
}

/// Handling events one batch after the other is handling them all.
pub proof fn lemma_run_in_parts(runner: RunnerView, first: Seq<TimedEvent>, second: Seq<TimedEvent>)
    ensures
        runner.run(first + second) == runner.run(first).run(second),
        runner.persisted(first + second) == runner.persisted(first) + runner.run(first).persisted(
            second,
        ),
    decreases second.len(),
{
    if second.len() == 0 {
        assert(first + second =~= first);
        assert(runner.persisted(first) + Seq::<StatusView>::empty() =~= runner.persisted(first));
    } else {
        let all = first + second;
        assert(all.drop_last() =~= first + second.drop_last());
        assert(all.last() == second.last());
        lemma_run_in_parts(runner, first, second.drop_last());
        let front = runner.persisted(first) + runner.run(first).persisted(second.drop_last());
        match runner.run(all.drop_last()).step(all.last().0, all.last().1).1 {
            ActionView::Persist { status, .. } => {
                assert(front.push(status) =~= runner.persisted(first) + runner.run(
                    first,
                ).persisted(second.drop_last()).push(status));
            },
            _ => {},
        }
    }
}

/// A task whose probe cannot be built never enters the probing loop, and
/// exactly one status is written for it, whatever happens afterwards: `Down`,
/// with the text of the construction error and the time of the failure.
pub proof fn lemma_failed_construction_is_recorded_once(
    runner: RunnerView,
    error: TaskErrorView,
    events: Seq<TimedEvent>,
)
    requires
        runner.phase is Constructing,
        events.len() > 0,
        events[0].0 == EventView::ConstructionFailed(error),
    ensures
        runner.run(events).phase is ReportingFailure || runner.run(events).phase is Terminated,
        !runner.run(events).phase.looping(),
        runner.run(events).consistent(),
        runner.persisted(events) == seq![
            StatusView::Down { checked_at: events[0].1, error_reason: error.message() },
        ],
    decreases events.len(),
{
    let front = events.drop_last();
    if events.len() == 1 {
        assert(front.len() == 0);
        assert(events.last() == events[0]);
        assert(runner.run(front) == runner);
        assert(runner.persisted(front) =~= Seq::<StatusView>::empty());
        assert(runner.persisted(events) =~= seq![
            StatusView::Down { checked_at: events[0].1, error_reason: error.message() },
        ]);
    } else {
        assert(front[0] == events[0]);
        lemma_failed_construction_is_recorded_once(runner, error, front);
    }
}

/// A task whose probe cannot be built ends with the construction error as
/// soon as the write of its one status has returned, whether the write
/// succeeded or failed.
pub proof fn lemma_failed_construction_ends_in_error(
    runner: RunnerView,
    error: TaskErrorView,
    written: Result<(), RepositoryErrorView>,
    failed_at: Timestamp,
    written_at: Timestamp,
)
    requires
        runner.phase is Constructing,
    ensures
        ({
            let reporting = runner.step(EventView::ConstructionFailed(error), failed_at).0;
            let (end, action) = reporting.step(EventView::Persisted(written), written_at);
            &&& end.phase is Terminated
            &&& action == ActionView::Finish(Err(error))
        }),
{
}

/// One turn of the probing loop asks for the write of the status of its
/// survey and for no other, and leaves the task ready for the next survey.
/// A write that fails does not stop the loop, and `Unknown` is not written.
pub proof fn lemma_cycle_records_survey(
    runner: RunnerView,
    outcome: Result<StatusView, Seq<char>>,
    written: Result<(), RepositoryErrorView>,
    now: Timestamp,
)
    requires
        runner.phase is Surveying,
    ensures
        runner.run(RunnerView::cycle(outcome, written, now)) == runner,
        runner.persisted(RunnerView::cycle(outcome, written, now)) == written_for_survey(
            outcome,
            now,
        ),
{
    let events = RunnerView::cycle(outcome, written, now);
    if outcome == Ok::<StatusView, Seq<char>>(StatusView::Unknown) {
        let one = events.drop_last();
        assert(one.drop_last().len() == 0);
        assert(one.last() == events[0]);
        assert(events.last() == events[1]);
        assert(runner.run(one.drop_last()) == runner);
        assert(runner.persisted(one.drop_last()) =~= Seq::<StatusView>::empty());
        assert(runner.run(one) == runner.at(RunnerPhase::Waiting));
        assert(runner.persisted(one) == runner.persisted(one.drop_last()));
        assert(runner.persisted(events) == runner.persisted(one));
    } else {
        let two = events.drop_last();
        let one = two.drop_last();
        assert(one.drop_last().len() == 0);
        assert(one.last() == events[0]);
        assert(two.last() == events[1]);
        assert(events.last() == events[2]);
        assert(runner.run(one.drop_last()) == runner);
        assert(runner.persisted(one.drop_last()) =~= Seq::<StatusView>::empty());
        assert(runner.run(one) == runner.at(RunnerPhase::Persisting));
        assert(runner.run(two) == runner.at(RunnerPhase::Waiting));
        assert(runner.persisted(one) =~= seq![status_of_survey(outcome, now)]);
        assert(runner.persisted(two) == runner.persisted(one));
        assert(runner.persisted(events) == runner.persisted(two));
    }
}

/// One survey of a run: its outcome, the outcome of the write of its status,
/// and the time at which it ended.
pub type Survey = (Result<StatusView, Seq<char>>, Result<(), RepositoryErrorView>, Timestamp);

/// The events of consecutive turns of the probing loop, one turn for each
/// survey.
pub open spec fn cycles(surveys: Seq<Survey>) -> Seq<TimedEvent>
    decreases surveys.len(),
{
    if surveys.len() == 0 {
        Seq::empty()
    } else {
        cycles(surveys.drop_last()) + RunnerView::cycle(
            surveys.last().0,
            surveys.last().1,
            surveys.last().2,
        )
    }
}

/// The statuses that are written for `surveys`, in the order of the surveys.
pub open spec fn written_for_surveys(surveys: Seq<Survey>) -> Seq<StatusView>
    decreases surveys.len(),
{
    if surveys.len() == 0 {
        Seq::empty()
    } else {
        written_for_surveys(surveys.drop_last()) + written_for_survey(
            surveys.last().0,
            surveys.last().2,
        )
    }
}

/// Statuses are written strictly in the order of the surveys: consecutive
/// turns of the probing loop write the status of each survey that observed
/// one, in the order in which the surveys ended, and nothing else.
pub proof fn lemma_statuses_follow_surveys(runner: RunnerView, surveys: Seq<Survey>)
    requires
        runner.phase is Surveying,
    ensures
        runner.run(cycles(surveys)) == runner,
        runner.persisted(cycles(surveys)) == written_for_surveys(surveys),
    decreases surveys.len(),
{
    if surveys.len() > 0 {
        let front = surveys.drop_last();
        let last = surveys.last();
        lemma_statuses_follow_surveys(runner, front);
        lemma_run_in_parts(runner, cycles(front), RunnerView::cycle(last.0, last.1, last.2));
        lemma_cycle_records_survey(runner, last.0, last.1, last.2);
    }
}

/// Where every survey observes a status, exactly one status is written for
/// each: as many statuses as surveys, in the same order.
pub proof fn lemma_one_status_for_each_survey(surveys: Seq<Survey>)
    requires
        forall|i: int|
            0 <= i < surveys.len() ==> (#[trigger] surveys[i]).0 != Ok::<StatusView, Seq<char>>(
                StatusView::Unknown,
            ),
    ensures
        written_for_surveys(surveys) == Seq::new(
            surveys.len(),
            |i: int| status_of_survey(surveys[i].0, surveys[i].2),
        ),
    decreases surveys.len(),
{
    let expected = Seq::new(surveys.len(), |i: int| status_of_survey(surveys[i].0, surveys[i].2));
    if surveys.len() == 0 {
        assert(written_for_surveys(surveys) =~= expected);
    } else {
        let front = surveys.drop_last();
        assert forall|i: int| 0 <= i < front.len() implies (#[trigger] front[i]).0 != Ok::<
            StatusView,
            Seq<char>,
        >(StatusView::Unknown) by {
            assert(front[i] == surveys[i]);
        }
        lemma_one_status_for_each_survey(front);
        assert(surveys.last() == surveys[surveys.len() - 1]);
        assert(written_for_surveys(surveys) =~= expected);
    }
}

/// Shutdown ends every waiting task at once and without error, however many
/// there are and however long their intervals.
pub proof fn lemma_shutdown_ends_waiting_tasks(runners: Seq<RunnerView>, now: Timestamp)
    requires
        forall|i: int| 0 <= i < runners.len() ==> (#[trigger] runners[i]).phase is Waiting,
    ensures
        forall|i: int|
            0 <= i < runners.len() ==> (#[trigger] runners[i]).step(
                EventView::ShutdownSignalled,
                now,
            ) == (runners[i].ended(), ActionView::Finish(Ok(()))),
{
}

/// A task that has ended stays ended: it asks for no further survey or
/// write.
pub proof fn lemma_terminated_is_final(runner: RunnerView, events: Seq<TimedEvent>)
    requires
        runner.phase is Terminated,
    ensures
        runner.run(events) == runner,
        runner.persisted(events) == Seq::<StatusView>::empty(),
    decreases events.len(),
{
    if events.len() > 0 {
        lemma_terminated_is_final(runner, events.drop_last());
    }
}

/// `Unknown` is never written: every status that a task asks to have
/// written is `Up` or `Down`, whatever the event.
pub proof fn lemma_unknown_is_never_written(runner: RunnerView, event: EventView, now: Timestamp)
    ensures
        match runner.step(event, now).1 {
            ActionView::Persist { status, .. } => !(status is Unknown),
            _ => true,
        },
{
}

/// The task of one monitor, as a state machine. Its driver performs each
/// action and hands back the event that the action led to.
#[derive(Debug)]
pub struct TaskRunner {
    monitor_name: String,
    interval: Duration,
    phase: RunnerPhase,
    failure: Option<TaskError>,
}

impl View for TaskRunner {
    type V = RunnerView;

    closed spec fn view(&self) -> RunnerView {
        RunnerView {
            monitor_name: self.monitor_name@,
            interval: self.interval,
            phase: self.phase,
            failure: match self.failure {
                Some(error) => Some(error@),
                None => None,
            },
        }
    }
}

/// The outcome of starting a task for `monitor`: a task in `Constructing`
/// that probes at the monitor's interval, or the configuration error that
/// keeps the monitor from running.
pub open spec fn monitor_task_spec(monitor: Monitor) -> Result<RunnerView, TaskErrorView> {
    match monitor.configuration {
        None => Err(TaskErrorView::ConfigurationNotSet),
        Some(cfg) => match cfg.check_interval {
            None => Err(TaskErrorView::CheckIntervalNotSet),
            Some(interval) => Ok(
                RunnerView {
                    monitor_name: monitor.name@,
                    interval,
                    phase: RunnerPhase::Constructing,
                    failure: None,
                },
            ),
        },
    }
}

/// Starts the task of `monitor`. A monitor without a check interval gets no
/// task, so none ever reaches the probing loop.
pub fn monitor_task(monitor: &Monitor) -> (r: Result<TaskRunner, TaskError>)
    ensures
        match monitor_task_spec(*monitor) {
            Ok(runner) => r is Ok && r->Ok_0@ == runner,
            Err(error) => r is Err && r->Err_0@ == error,
        },
{
    match &monitor.configuration {
        None => Err(TaskError::ConfigurationNotSet),
        Some(cfg) => match cfg.check_interval {
            None => Err(TaskError::CheckIntervalNotSet),
            Some(interval) => Ok(
                TaskRunner {
                    monitor_name: monitor.name.clone(),
                    interval,
                    phase: RunnerPhase::Constructing,
                    failure: None,
                },
            ),
        },
    }
}

impl TaskRunner {
    #[verifier::type_invariant]
    spec fn consistent(self) -> bool {
        self.phase is ReportingFailure ==> self.failure is Some
    }

    pub fn phase(&self) -> (r: RunnerPhase)
        ensures
            r == self@.phase,
    {
        self.phase
    }

    pub fn interval(&self) -> (r: Duration)
        ensures
            r == self@.interval,
    {
        self.interval
    }

    pub fn is_terminated(&self) -> (r: bool)
        ensures
            r == (self@.phase is Terminated),
    {
        match self.phase {
            RunnerPhase::Terminated => true,
            _ => false,
        }
    }

    /// Handles `event` at the time that the wall clock shows.
    pub fn step_now(&mut self, event: RunnerEvent) -> (action: RunnerAction)
        ensures
            exists|now: Timestamp| (final(self)@, action@) == old(self)@.step(event@, now),
    {
        let now = current_time();
        self.step(event, now)
    }

    /// Handles `event`, which arrived at time `now`.
    pub fn step(&mut self, event: RunnerEvent, now: Timestamp) -> (action: RunnerAction)
        ensures
            (final(self)@, action@) == old(self)@.step(event@, now),
            old(self)@.consistent(),
            final(self)@.consistent(),
    {
        proof {
            use_type_invariant(&*self);
        }
        match self.phase {
            RunnerPhase::Constructing => match event {
                RunnerEvent::Constructed => {
                    self.phase = RunnerPhase::Surveying;
                    RunnerAction::Survey
                },
                RunnerEvent::ConstructionFailed(error) => {
                    let reason = error.message();
                    self.failure = Some(error);
                    self.phase = RunnerPhase::ReportingFailure;
                    RunnerAction::Persist {
                        monitor_name: self.monitor_name.clone(),
                        status: MonitorStatus::Down { checked_at: now, error_reason: reason },
                    }
                },
                _ => RunnerAction::Idle,
            },
            RunnerPhase::ReportingFailure => match event {
                RunnerEvent::Persisted(_) => {
                    self.phase = RunnerPhase::Terminated;
                    let failure = match &self.failure {
                        Some(error) => Some(error.clone()),
                        None => None,
                    };
                    self.failure = None;
                    RunnerAction::Finish(Err(failure.unwrap()))
                },
                _ => RunnerAction::Idle,
            },
            RunnerPhase::Surveying => match event {
                RunnerEvent::Surveyed(Ok(MonitorStatus::Unknown)) => {
                    self.phase = RunnerPhase::Waiting;
                    RunnerAction::Wait { interval: self.interval }
                },
                RunnerEvent::Surveyed(outcome) => {
                    self.phase = RunnerPhase::Persisting;
                    let status = match outcome {
                        Ok(status) => status,
                        Err(reason) => MonitorStatus::Down { checked_at: now, error_reason: reason },
                    };
                    RunnerAction::Persist { monitor_name: self.monitor_name.clone(), status }
                },
                _ => RunnerAction::Idle,
            },
            RunnerPhase::Persisting => match event {
                RunnerEvent::Persisted(_) => {
                    self.phase = RunnerPhase::Waiting;
                    RunnerAction::Wait { interval: self.interval }
                },
                _ => RunnerAction::Idle,
            },
            RunnerPhase::Waiting => match event {
                RunnerEvent::IntervalElapsed => {
                    self.phase = RunnerPhase::Surveying;
                    RunnerAction::Survey
                },
                RunnerEvent::ShutdownSignalled => {
                    self.phase = RunnerPhase::Terminated;
                    self.failure = None;
                    RunnerAction::Finish(Ok(()))
                },
                _ => RunnerAction::Idle,
            },
            RunnerPhase::Terminated => RunnerAction::Idle,
        }
    }
}

} // verus!
