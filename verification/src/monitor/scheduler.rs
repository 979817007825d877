//! The scheduler: at most one task for each monitor name.

use crate::models::Monitor;
use crate::names::{lemma_pushed_name, views};
use vstd::hash_set::StringHashSet;
use vstd::prelude::*;

verus! {

/// The longest that shutdown waits for running tasks to end, in seconds.
pub const SHUTDOWN_TIMEOUT_SECS: u64 = 30;

/// Whether a task is started for `monitor` when the tasks named `names` run:
/// it must have a check interval, and no task may run under its name.
pub open spec fn schedulable(names: Seq<Seq<char>>, monitor: Monitor) -> bool {
    monitor.interval() is Some && !names.contains(monitor.name@)
}

/// The names under which tasks run after `monitors` were offered, one after
/// the other, to a scheduler whose tasks were named `names`.
pub open spec fn names_after(names: Seq<Seq<char>>, monitors: Seq<Monitor>) -> Seq<Seq<char>>
    decreases monitors.len(),
{
    if monitors.len() == 0 {
        names
    } else {
        let before = names_after(names, monitors.drop_last());
        if schedulable(before, monitors.last()) {
            before.push(monitors.last().name@)
        } else {
            before
        }
    }
}

/// The monitors for which a task is started when `monitors` are offered, one
/// after the other, to a scheduler whose tasks are named `names`.
pub open spec fn started(names: Seq<Seq<char>>, monitors: Seq<Monitor>) -> Seq<Monitor>
    decreases monitors.len(),
{
    if monitors.len() == 0 {
        Seq::empty()
    } else {
        let before = started(names, monitors.drop_last());
        if schedulable(names_after(names, monitors.drop_last()), monitors.last()) {
            before.push(monitors.last())
        } else {
            before
        }
    }
}

/// The names of those of `monitors` that have no check interval, in the
/// order given: for them no task can be started.
pub open spec fn unresolved(monitors: Seq<Monitor>) -> Seq<String>
    decreases monitors.len(),
{
    if monitors.len() == 0 {
        Seq::empty()
    } else if monitors.last().interval() is None {
        unresolved(monitors.drop_last()).push(monitors.last().name)
    } else {
        unresolved(monitors.drop_last())
    }
}

/// Offering monitors never gives two tasks one name.
pub proof fn lemma_names_stay_distinct(names: Seq<Seq<char>>, monitors: Seq<Monitor>)
    requires
        names.no_duplicates(),
    ensures
        names_after(names, monitors).no_duplicates(),
    decreases monitors.len(),
{
    if monitors.len() > 0 {
        lemma_names_stay_distinct(names, monitors.drop_last());
    }
}

/// A task that runs keeps running, whatever is offered.
pub proof fn lemma_names_are_kept(names: Seq<Seq<char>>, monitors: Seq<Monitor>, name: Seq<char>)
    requires
        names.contains(name),
    ensures
        names_after(names, monitors).contains(name),
    decreases monitors.len(),
{
    if monitors.len() > 0 {
        lemma_names_are_kept(names, monitors.drop_last(), name);
        let before = names_after(names, monitors.drop_last());
        let k = choose|k: int| 0 <= k < before.len() && before[k] == name;
        if schedulable(before, monitors.last()) {
            assert(before.push(monitors.last().name@)[k] == name);
        }
    }
}

/// After `monitors` were offered, a task runs under the name of each of them
/// that has a check interval.
pub proof fn lemma_offered_are_scheduled(names: Seq<Seq<char>>, monitors: Seq<Monitor>, i: int)
    requires
        0 <= i < monitors.len(),
        monitors[i].interval() is Some,
    ensures
        names_after(names, monitors).contains(monitors[i].name@),
    decreases monitors.len(),
{
    let before = names_after(names, monitors.drop_last());
    let last = monitors.last();
    if i == monitors.len() - 1 {
        if schedulable(before, last) {
            assert(before.push(last.name@)[before.len() as int] == last.name@);
        }
    } else {
        lemma_offered_are_scheduled(names, monitors.drop_last(), i);
        let k = choose|k: int| 0 <= k < before.len() && before[k] == monitors[i].name@;
        if schedulable(before, last) {
            assert(before.push(last.name@)[k] == monitors[i].name@);
        }
    }
}

/// The tasks that run after an offer are those that ran before and one for
/// each name of an offered monitor that has a check interval.
pub proof fn lemma_names_after_offer(names: Seq<Seq<char>>, monitors: Seq<Monitor>, name: Seq<char>)
    ensures
        names_after(names, monitors).contains(name) <==> (names.contains(name) || exists|j: int|
            0 <= j < monitors.len() && (#[trigger] monitors[j]).interval() is Some
                && monitors[j].name@ == name),
    decreases monitors.len(),
{
    if monitors.len() > 0 {
        let front = monitors.drop_last();
        let before = names_after(names, front);
        let after = names_after(names, monitors);
        let last = monitors.last();
        lemma_names_after_offer(names, front, name);
        if after.contains(name) && !names.contains(name) {
            if before.contains(name) {
                let j = choose|j: int|
                    0 <= j < front.len() && (#[trigger] front[j]).interval() is Some
                        && front[j].name@ == name;
                assert(monitors[j] == front[j]);
            } else {
                let k = choose|k: int| 0 <= k < after.len() && after[k] == name;
                assert(k == before.len());
                assert(monitors[monitors.len() - 1] == last);
            }
        }
        if names.contains(name) {
            lemma_names_are_kept(names, monitors, name);
        }
        if exists|j: int|
            0 <= j < monitors.len() && (#[trigger] monitors[j]).interval() is Some
                && monitors[j].name@ == name {
            let j = choose|j: int|
                0 <= j < monitors.len() && (#[trigger] monitors[j]).interval() is Some
                    && monitors[j].name@ == name;
            lemma_offered_are_scheduled(names, monitors, j);
        }
    }
}

/// Offering monitors whose tasks all run already starts nothing and changes
/// nothing.
pub proof fn lemma_nothing_new(names: Seq<Seq<char>>, monitors: Seq<Monitor>)
    requires
        forall|i: int|
            0 <= i < monitors.len() && monitors[i].interval() is Some ==> names.contains(
                #[trigger] monitors[i].name@,
            ),
    ensures
        started(names, monitors) == Seq::<Monitor>::empty(),
        names_after(names, monitors) == names,
    decreases monitors.len(),
{
    if monitors.len() > 0 {
        let front = monitors.drop_last();
        assert forall|i: int| 0 <= i < front.len() && front[i].interval() is Some implies names.contains(
            #[trigger] front[i].name@,
        ) by {
            assert(front[i] == monitors[i]);
        }
        lemma_nothing_new(names, front);
    }
}

/// Idempotence: when the same monitors are offered a second time, no task is
/// started and the set of running tasks stays as it is. So two offers of one
/// monitor start at most one task.
pub proof fn lemma_ensure_is_idempotent(names: Seq<Seq<char>>, monitors: Seq<Monitor>)
    ensures
        started(names_after(names, monitors), monitors) == Seq::<Monitor>::empty(),
        names_after(names_after(names, monitors), monitors) == names_after(names, monitors),
{
    let after = names_after(names, monitors);
    assert forall|i: int| 0 <= i < monitors.len() && monitors[i].interval() is Some implies after.contains(
        #[trigger] monitors[i].name@,
    ) by {
        lemma_offered_are_scheduled(names, monitors, i);
    }
    lemma_nothing_new(after, monitors);
}

/// Of two monitors with one name that are offered one after the other, in
/// one offer or in two, only the first gets a task.
pub proof fn lemma_same_name_starts_one_task(names: Seq<Seq<char>>, first: Monitor, second: Monitor)
    requires
        first.interval() is Some,
        first.name@ == second.name@,
        !names.contains(first.name@),
    ensures
        started(names, seq![first]) == seq![first],
        started(names_after(names, seq![first]), seq![second]) == Seq::<Monitor>::empty(),
        started(names, seq![first, second]) == seq![first],
{
    let one = seq![first];
    let other = seq![second];
    let both = seq![first, second];
    assert(both.drop_last() =~= one);
    assert(names_after(names, one.drop_last()) == names);
    assert(started(names, one.drop_last()) =~= Seq::<Monitor>::empty());
    assert(names.push(first.name@)[names.len() as int] == second.name@);
    assert(started(names_after(names, one), other.drop_last()) =~= Seq::<Monitor>::empty());
}

/// Every monitor for which a task is started has a check interval, and no
/// task ran under its name before.
pub proof fn lemma_started_are_new(names: Seq<Seq<char>>, monitors: Seq<Monitor>, k: int)
    requires
        0 <= k < started(names, monitors).len(),
    ensures
        started(names, monitors)[k].interval() is Some,
        !names.contains(started(names, monitors)[k].name@),
        names_after(names, monitors).contains(started(names, monitors)[k].name@),
    decreases monitors.len(),
{
    if monitors.len() > 0 {
        let front = monitors.drop_last();
        let before = names_after(names, front);
        let last = monitors.last();
        if k < started(names, front).len() {
            lemma_started_are_new(names, front, k);
            let name = started(names, front)[k].name@;
            let j = choose|j: int| 0 <= j < before.len() && before[j] == name;
            if schedulable(before, last) {
                assert(before.push(last.name@)[j] == name);
            }
        } else {
            assert(before.push(last.name@)[before.len() as int] == last.name@);
            if names.contains(last.name@) {
                lemma_names_are_kept(names, front, last.name@);
            }
        }
    }
}

/// What came of an offer of monitors to the scheduler.
#[derive(Debug, PartialEq)]
pub struct Scheduled {
    /// The monitors for which a task is to be started now, in the order
    /// given.
    pub to_start: Vec<Monitor>,
    /// The names of the monitors that cannot be scheduled because they have
    /// no check interval, in the order given.
    pub unresolved: Vec<String>,
}

/// Keeps track of the monitors whose task runs, by name: at most one task per
/// name, and a name that was taken stays taken.
pub struct MonitorScheduler {
    monitor_tasks: StringHashSet,
    /// The names in the order in which the tasks were started: a hash set
    /// cannot be walked in an order that is the same every time.
    started: Vec<String>,
}

impl MonitorScheduler {
    /// The names under which tasks run, in the order in which they were
    /// started.
    pub closed spec fn names(&self) -> Seq<Seq<char>> {
        views(self.started@)
    }

    /// No two tasks run under one name, and the names known are those
    /// listed.
    pub closed spec fn wf(&self) -> bool {
        &&& views(self.started@).no_duplicates()
        &&& forall|name: Seq<char>|
            views(self.started@).contains(name) <==> self.monitor_tasks@.contains(name)
    }

    /// No two tasks run under one name.
    pub proof fn lemma_names_are_distinct(&self)
        requires
            self.wf(),
        ensures
            self.names().no_duplicates(),
    {
    }

    pub fn new() -> (r: MonitorScheduler)
        ensures
            r.wf(),
            r.names() == Seq::<Seq<char>>::empty(),
    {
        let r = MonitorScheduler { monitor_tasks: StringHashSet::new(), started: Vec::new() };
        assert(r.names() =~= Seq::<Seq<char>>::empty());
        r
    }

    /// Whether a task runs under `name`.
    pub fn is_scheduled(&self, name: &String) -> (r: bool)
        requires
            self.wf(),
        ensures
            r == self.names().contains(name@),
    {
        self.monitor_tasks.contains(name.as_str())
    }

    /// The number of tasks that run.
    pub fn task_count(&self) -> (r: usize)
        ensures
            r == self.names().len(),
    {
        self.started.len()
    }

    /// Offers `monitors` to the scheduler, one after the other. A monitor
    /// whose task runs already is passed over. So is one without a check
    /// interval: it is reported as unresolved and can be offered again once
    /// it has one.
    pub fn ensure_monitors_scheduled(&mut self, monitors: Vec<Monitor>) -> (r: Scheduled)
        requires
            old(self).wf(),
        ensures
            final(self).wf(),
            r.to_start@ == started(old(self).names(), monitors@),
            r.unresolved@ == unresolved(monitors@),
            final(self).names() == names_after(old(self).names(), monitors@),
    {
        let ghost offered = monitors@;
        let ghost names = self.names();
        let mut to_start: Vec<Monitor> = Vec::new();
        let mut missing: Vec<String> = Vec::new();
        for monitor in iter: monitors
            invariant
                iter.seq() == offered,
                self.wf(),
                to_start@ == started(names, offered.take(iter.index() as int)),
                missing@ == unresolved(offered.take(iter.index() as int)),
                self.names() == names_after(names, offered.take(iter.index() as int)),
        {
            proof {
                let next = offered.take(iter.index() + 1);
                assert(next.drop_last() =~= offered.take(iter.index() as int));
            }
            if monitor.check_interval().is_none() {
                missing.push(monitor.name.clone());
            } else if !self.monitor_tasks.contains(monitor.name.as_str()) {
                let ghost before = views(self.started@);
                self.monitor_tasks.insert(monitor.name.clone());
                self.started.push(monitor.name.clone());
                proof {
                    lemma_pushed_name(before, monitor.name@);
                    assert(views(self.started@) =~= before.push(monitor.name@));
                }
                to_start.push(monitor);
            }
        }
        proof {
            assert(offered.take(offered.len() as int) =~= offered);
        }
        Scheduled { to_start, unresolved: missing }
    }

    /// Forgets every task and returns the names under which they ran, so that
    /// the caller can wait for them, for at most `SHUTDOWN_TIMEOUT_SECS`.
    pub fn wait_for_shutdown(&mut self) -> (drained: Vec<String>)
        ensures
            final(self).wf(),
            final(self).names() == Seq::<Seq<char>>::empty(),
            views(drained@) == old(self).names(),
    {
        let mut drained: Vec<String> = Vec::new();
        std::mem::swap(&mut self.started, &mut drained);
        self.monitor_tasks.clear();
        assert(self.names() =~= Seq::<Seq<char>>::empty());
        drained
    }
}

} // verus!
