//! The supervisory loop: on a fixed cadence it discovers the monitors,
//! fills their open settings from the global configuration and has a task
//! scheduled for each; it gives up after too many failures in a row and
//! drains the tasks on shutdown.

pub mod discovery;
pub mod scheduler;
pub mod tasks;

use crate::config::duration_of_secs;
use crate::models::{Monitor, MonitorConfiguration};
use crate::monitor::scheduler::{
    lemma_ensure_is_idempotent, names_after, started, unresolved, MonitorScheduler, Scheduled,
    SHUTDOWN_TIMEOUT_SECS,
};
use crate::monitor::tasks::runner::monitor_task_spec;
use crate::names::views;
use std::time::Duration;
use vstd::prelude::*;

verus! {

/// The number of iterations that may fail in a row before the controller
/// gives up.
pub const MAX_CONSECUTIVE_FAILURES: u32 = 20;

/// The pause between two iterations, in seconds.
pub const ITERATION_INTERVAL_SECS: u64 = 5;

/// `monitor` with every setting that it leaves open filled from `global`.
pub open spec fn with_global_config(monitor: Monitor, global: MonitorConfiguration) -> Monitor {
    Monitor {
        name: monitor.name,
        current_status: monitor.current_status,
        api_version: monitor.api_version,
        kind: monitor.kind,
        configuration: Some(
            match monitor.configuration {
                Some(own) => own.merged(global),
                None => global,
            },
        ),
        spec: monitor.spec,
    }
}

/// Fills the settings that `monitor` leaves open from `global`. What the
/// monitor sets itself stays.
pub fn merge_global_config(monitor: Monitor, global: &MonitorConfiguration) -> (r: Monitor)
    ensures
        r == with_global_config(monitor, *global),
{
    let Monitor { name, current_status, api_version, kind, configuration, spec } = monitor;
    let configuration = match configuration {
        Some(own) => {
            let mut own = own;
            own.merge_with(global);
            own
        },
        None => global.clone(),
    };
    Monitor { name, current_status, api_version, kind, configuration: Some(configuration), spec }
}

/// Where the supervisory loop stands.
#[derive(Clone, Copy, Debug, PartialEq, Eq, Structural)]
pub enum ControllerPhase {
    /// An iteration runs: discovery, then scheduling.
    Iterating,
    /// The loop pauses until the next iteration is due or shutdown is
    /// signalled.
    Sleeping,
    /// Shutdown was signalled; the running tasks are being awaited.
    Draining,
    /// The loop has ended.
    Stopped,
}

/// How the wait for the running tasks ended.
#[derive(Clone, Copy, Debug, PartialEq, Eq, Structural)]
pub enum DrainOutcome {
    /// Every task ended in time.
    AllFinished,
    /// The timeout passed while tasks still ran.
    TimedOut,
}

/// What happened outside the loop since its last action.
#[derive(Debug, PartialEq, Eq)]
pub enum ControllerEvent<E> {
    IterationSucceeded,
    IterationFailed(E),
    IntervalElapsed,
    ShutdownSignalled,
    Drained(DrainOutcome),
}

/// What the loop asks its driver to do next.
#[derive(Debug, PartialEq, Eq)]
pub enum ControllerAction<E> {
    /// Run an iteration; report back with `IterationSucceeded` or
    /// `IterationFailed`.
    Iterate,
    /// Sleep for `interval` unless shutdown is signalled first; report back
    /// with `IntervalElapsed` or `ShutdownSignalled`.
    Wait { interval: Duration },
    /// Wait until the tasks of these monitors have ended, but no longer than
    /// `timeout`; report back with `Drained`.
    Drain { tasks: Vec<String>, timeout: Duration },
    /// The loop is over, with this result.
    Finish(Result<(), E>),
    /// The event was not awaited: nothing to do.
    Idle,
}

/// Mathematical value of a [`ControllerAction`].
pub ghost enum ControllerActionView<E> {
    Iterate,
    Wait { interval: Duration },
    Drain { tasks: Seq<Seq<char>>, timeout: Duration },
    Finish(Result<(), E>),
    Idle,
}

impl<E> View for ControllerAction<E> {
    type V = ControllerActionView<E>;

    open spec fn view(&self) -> ControllerActionView<E> {
        match *self {
            ControllerAction::Iterate => ControllerActionView::Iterate,
            ControllerAction::Wait { interval } => ControllerActionView::Wait { interval },
            ControllerAction::Drain { tasks, timeout } => ControllerActionView::Drain {
                tasks: views(tasks@),
                timeout,
            },
            ControllerAction::Finish(result) => ControllerActionView::Finish(result),
            ControllerAction::Idle => ControllerActionView::Idle,
        }
    }
}

/// Mathematical value of a [`MonitorController`].
pub ghost struct ControllerView {
    pub global_config: MonitorConfiguration,
    /// The names under which tasks run.
    pub tasks: Seq<Seq<char>>,
    /// The number of iterations that failed since the last one that
    /// succeeded.
    pub error_count: int,
    pub phase: ControllerPhase,
}

impl ControllerView {
    pub open spec fn moved(self, phase: ControllerPhase, error_count: int) -> ControllerView {
        ControllerView {
            global_config: self.global_config,
            tasks: self.tasks,
            error_count,
            phase,
        }
    }

    pub open spec fn pause<E>(self) -> ControllerActionView<E> {
        ControllerActionView::Wait { interval: duration_of_secs(ITERATION_INTERVAL_SECS) }
    }

    /// The failure count stays within its bound while the loop runs.
    pub open spec fn consistent(self) -> bool {
        &&& 0 <= self.error_count <= MAX_CONSECUTIVE_FAILURES + 1
        &&& !(self.phase is Stopped) ==> self.error_count <= MAX_CONSECUTIVE_FAILURES
    }

    /// The transition rule of the supervisory loop.
    pub open spec fn step<E>(self, event: ControllerEvent<E>) -> (
        ControllerView,
        ControllerActionView<E>,
    ) {
        match (self.phase, event) {
            (ControllerPhase::Iterating, ControllerEvent::IterationSucceeded) => (
                self.moved(ControllerPhase::Sleeping, 0),
                self.pause(),
            ),
            (ControllerPhase::Iterating, ControllerEvent::IterationFailed(error)) => if self.error_count
                + 1 > MAX_CONSECUTIVE_FAILURES {
                (
                    self.moved(ControllerPhase::Stopped, self.error_count + 1),
                    ControllerActionView::Finish(Err(error)),
                )
            } else {
                (self.moved(ControllerPhase::Sleeping, self.error_count + 1), self.pause())
            },
            (ControllerPhase::Sleeping, ControllerEvent::IntervalElapsed) => (
                self.moved(ControllerPhase::Iterating, self.error_count),
                ControllerActionView::Iterate,
            ),
            (ControllerPhase::Sleeping, ControllerEvent::ShutdownSignalled) => (
                ControllerView {
                    global_config: self.global_config,
                    tasks: Seq::empty(),
                    error_count: self.error_count,
                    phase: ControllerPhase::Draining,
                },
                ControllerActionView::Drain {
                    tasks: self.tasks,
                    timeout: duration_of_secs(SHUTDOWN_TIMEOUT_SECS),
                },
            ),
            (ControllerPhase::Draining, ControllerEvent::Drained(_)) => (
                self.moved(ControllerPhase::Stopped, self.error_count),
                ControllerActionView::Finish(Ok(())),
            ),
            _ => (self, ControllerActionView::Idle),
        }
    }

    /// The monitors that an iteration offers to the scheduler when it has
    /// discovered `monitors`: each with its open settings filled from the
    /// global configuration.
    pub open spec fn offered(self, monitors: Seq<Monitor>) -> Seq<Monitor> {
        monitors.map_values(|m: Monitor| with_global_config(m, self.global_config))
    }

    /// The monitors for which a task is started in an iteration that
    /// discovered `monitors`.
    pub open spec fn to_start(self, monitors: Seq<Monitor>) -> Seq<Monitor> {
        started(self.tasks, self.offered(monitors))
    }

    /// The state after an iteration that discovered `monitors`.
    pub open spec fn iterated(self, monitors: Seq<Monitor>) -> ControllerView {
        ControllerView {
            global_config: self.global_config,
            tasks: names_after(self.tasks, self.offered(monitors)),
            error_count: self.error_count,
            phase: self.phase,
        }
    }
}

/// The interval that a monitor sets itself is the one its task probes at,
/// whatever the global configuration says.
pub proof fn lemma_own_interval_wins(monitor: Monitor, global: MonitorConfiguration)
    requires
        monitor.interval() is Some,
    ensures
        with_global_config(monitor, global).interval() == monitor.interval(),
        monitor_task_spec(with_global_config(monitor, global)) is Ok,
        monitor_task_spec(with_global_config(monitor, global))->Ok_0.interval
            == monitor.interval()->Some_0,
{
}

/// A monitor that sets no interval is probed at the global one; where the
/// global configuration sets none either, the monitor gets no task.
pub proof fn lemma_global_interval_fills(monitor: Monitor, global: MonitorConfiguration)
    requires
        monitor.interval() is None,
    ensures
        with_global_config(monitor, global).interval() == global.check_interval,
        global.check_interval is Some ==> {
            &&& monitor_task_spec(with_global_config(monitor, global)) is Ok
            &&& monitor_task_spec(with_global_config(monitor, global))->Ok_0.interval
                == global.check_interval->Some_0
        },
        global.check_interval is None ==> monitor_task_spec(with_global_config(monitor, global))
            is Err,
{
}

/// An iteration that discovers the same monitors as the one before starts no
/// task: of two discoveries of one monitor, only the first starts its task.
pub proof fn lemma_iteration_is_idempotent(controller: ControllerView, monitors: Seq<Monitor>)
    ensures
        controller.iterated(monitors).to_start(monitors) == Seq::<Monitor>::empty(),
        controller.iterated(monitors).iterated(monitors) == controller.iterated(monitors),
{
    lemma_ensure_is_idempotent(controller.tasks, controller.offered(monitors));
}

/// The wait for the running tasks never keeps the loop from ending: whether
/// all tasks ended or the timeout passed, the loop stops without error. The
/// wait itself is bounded by `SHUTDOWN_TIMEOUT_SECS`.
pub proof fn lemma_drain_always_ends<E>(controller: ControllerView, outcome: DrainOutcome)
    requires
        controller.phase is Sleeping,
    ensures
        ({
            let (draining, drain) = controller.step::<E>(ControllerEvent::ShutdownSignalled);
            let (end, last) = draining.step::<E>(ControllerEvent::Drained(outcome));
            &&& drain == ControllerActionView::<E>::Drain {
                tasks: controller.tasks,
                timeout: duration_of_secs(SHUTDOWN_TIMEOUT_SECS),
            }
            &&& end.phase is Stopped
            &&& last == ControllerActionView::<E>::Finish(Ok(()))
        }),
{
}

/// The supervisory loop, as a state machine. It starts in `Iterating`; its
/// driver performs each action and hands back the event that the action led
/// to.
pub struct MonitorController {
    global_config: MonitorConfiguration,
    scheduler: MonitorScheduler,
    error_count: u32,
    phase: ControllerPhase,
}

impl View for MonitorController {
    type V = ControllerView;

    closed spec fn view(&self) -> ControllerView {
        ControllerView {
            global_config: self.global_config,
            tasks: self.scheduler.names(),
            error_count: self.error_count as int,
            phase: self.phase,
        }
    }
}

impl MonitorController {
    pub closed spec fn wf(&self) -> bool {
        self@.consistent() && self.scheduler.wf()
    }

    /// A controller with no task and no failure, about to run its first
    /// iteration, that fills open settings from `global_config`.
    pub fn new(global_config: MonitorConfiguration) -> (r: MonitorController)
        ensures
            r.wf(),
            r@ == (ControllerView {
                global_config,
                tasks: Seq::empty(),
                error_count: 0,
                phase: ControllerPhase::Iterating,
            }),
    {
        MonitorController {
            global_config,
            scheduler: MonitorScheduler::new(),
            error_count: 0,
            phase: ControllerPhase::Iterating,
        }
    }

    pub fn phase(&self) -> (r: ControllerPhase)
        ensures
            r == self@.phase,
    {
        self.phase
    }

    pub fn error_count(&self) -> (r: u32)
        ensures
            r == self@.error_count,
    {
        self.error_count
    }

    /// The scheduling half of an iteration: fills the open settings of each
    /// discovered monitor from the global configuration and offers them to
    /// the scheduler.
    pub fn run_iteration(&mut self, monitors: Vec<Monitor>) -> (r: Scheduled)
        requires
            old(self).wf(),
        ensures
            final(self).wf(),
            final(self)@ == old(self)@.iterated(monitors@),
            r.to_start@ == old(self)@.to_start(monitors@),
            r.unresolved@ == unresolved(old(self)@.offered(monitors@)),
    {
        let ghost discovered = monitors@;
        let ghost merged_all = self@.offered(discovered);
        let mut merged: Vec<Monitor> = Vec::new();
        for monitor in iter: monitors
            invariant
                iter.seq() == discovered,
                self@ == old(self)@,
                merged_all == self@.offered(discovered),
                merged@ == merged_all.take(iter.index() as int),
        {
            merged.push(merge_global_config(monitor, &self.global_config));
        }
        assert(merged@ =~= merged_all);
        self.scheduler.ensure_monitors_scheduled(merged)
    }

    /// Handles `event`.
    pub fn step<E>(&mut self, event: ControllerEvent<E>) -> (action: ControllerAction<E>)
        requires
            old(self).wf(),
        ensures
            final(self).wf(),
            (final(self)@, action@) == old(self)@.step(event),
            old(self)@.consistent(),
            final(self)@.consistent(),
    {
        match self.phase {
            ControllerPhase::Iterating => match event {
                ControllerEvent::IterationSucceeded => {
                    self.error_count = 0;
                    self.phase = ControllerPhase::Sleeping;
                    ControllerAction::Wait { interval: Duration::from_secs(ITERATION_INTERVAL_SECS) }
                },
                ControllerEvent::IterationFailed(error) => {
                    self.error_count = self.error_count + 1;
                    if self.error_count > MAX_CONSECUTIVE_FAILURES {
                        self.phase = ControllerPhase::Stopped;
                        ControllerAction::Finish(Err(error))
                    } else {
                        self.phase = ControllerPhase::Sleeping;
                        ControllerAction::Wait {
                            interval: Duration::from_secs(ITERATION_INTERVAL_SECS),
                        }
                    }
                },
                _ => ControllerAction::Idle,
            },
            ControllerPhase::Sleeping => match event {
                ControllerEvent::IntervalElapsed => {
                    self.phase = ControllerPhase::Iterating;
                    ControllerAction::Iterate
                },
                ControllerEvent::ShutdownSignalled => {
                    self.phase = ControllerPhase::Draining;
                    let tasks = self.scheduler.wait_for_shutdown();
                    ControllerAction::Drain {
                        tasks,
                        timeout: Duration::from_secs(SHUTDOWN_TIMEOUT_SECS),
                    }
                },
                _ => ControllerAction::Idle,
            },
            ControllerPhase::Draining => match event {
                ControllerEvent::Drained(_) => {
                    self.phase = ControllerPhase::Stopped;
                    ControllerAction::Finish(Ok(()))
                },
                _ => ControllerAction::Idle,
            },
            ControllerPhase::Stopped => ControllerAction::Idle,
        }
    }
}

} // verus!
