//! Probe builders, the factory that holds them under their registration
//! names, and the errors of a monitor's task.

pub mod endpoint;
pub mod runner;

use crate::models::Monitor;
use crate::names::{lemma_pushed_name, views};
use vstd::hash_map::StringHashMap;
use vstd::prelude::*;
use vstd::string::StringExecFns;

verus! {

/// Why a monitor's task could not be built, started or finished.
#[derive(Debug, PartialEq, Eq)]
pub enum TaskError {
    /// No builder is registered under the monitor's registration name, which
    /// the error carries.
    UnknownMonitorType(String),
    /// The builder rejected the monitor; the text is the builder's own.
    Construction(String),
    /// The monitor has no configuration at all.
    ConfigurationNotSet,
    /// The monitor's configuration names no check interval.
    CheckIntervalNotSet,
}

/// Mathematical value of a [`TaskError`].
pub ghost enum TaskErrorView {
    UnknownMonitorType(Seq<char>),
    Construction(Seq<char>),
    ConfigurationNotSet,
    CheckIntervalNotSet,
}

impl TaskErrorView {
    /// The text of the error, as it is recorded in a `Down` status.
    pub open spec fn message(self) -> Seq<char> {
        match self {
            TaskErrorView::UnknownMonitorType(name) => "unknown monitor type: "@ + name,
            TaskErrorView::Construction(reason) => reason,
            TaskErrorView::ConfigurationNotSet => "configuration not set"@,
            TaskErrorView::CheckIntervalNotSet => "check_interval not set"@,
        }
    }
}

impl View for TaskError {
    type V = TaskErrorView;

    open spec fn view(&self) -> TaskErrorView {
        match *self {
            TaskError::UnknownMonitorType(name) => TaskErrorView::UnknownMonitorType(name@),
            TaskError::Construction(reason) => TaskErrorView::Construction(reason@),
            TaskError::ConfigurationNotSet => TaskErrorView::ConfigurationNotSet,
            TaskError::CheckIntervalNotSet => TaskErrorView::CheckIntervalNotSet,
        }
    }
}

impl Clone for TaskError {
    fn clone(&self) -> (r: TaskError)
        ensures
            r == *self,
    {
        match self {
            TaskError::UnknownMonitorType(name) => TaskError::UnknownMonitorType(name.clone()),
            TaskError::Construction(reason) => TaskError::Construction(reason.clone()),
            TaskError::ConfigurationNotSet => TaskError::ConfigurationNotSet,
            TaskError::CheckIntervalNotSet => TaskError::CheckIntervalNotSet,
        }
    }
}

impl TaskError {
    pub fn message(&self) -> (r: String)
        ensures
            r@ == self@.message(),
    {
        match self {
            TaskError::UnknownMonitorType(name) => {
                String::from_str("unknown monitor type: ").concat(name.as_str())
            },
            TaskError::Construction(reason) => reason.clone(),
            TaskError::ConfigurationNotSet => String::from_str("configuration not set"),
            TaskError::CheckIntervalNotSet => String::from_str("check_interval not set"),
        }
    }
}

/// The key under which a builder is registered and a monitor is looked up.
pub open spec fn registration_name(kind: Seq<char>, api_version: Seq<char>) -> Seq<char> {
    kind + "/"@ + api_version
}

/// Turns what a builder returned into the outcome of constructing the task:
/// the task itself, or a construction error with the builder's text.
pub fn construction_result<T>(built: Result<T, String>) -> (r: Result<T, TaskError>)
    ensures
        r == construction_result_spec(built),
{
    match built {
        Ok(task) => Ok(task),
        Err(reason) => Err(TaskError::Construction(reason)),
    }
}

pub open spec fn construction_result_spec<T>(built: Result<T, String>) -> Result<T, TaskError> {
    match built {
        Ok(task) => Ok(task),
        Err(reason) => Err(TaskError::Construction(reason)),
    }
}

/// A family of probes: it names the kind and version of the monitors it
/// serves and builds the task of one such monitor.
pub trait TaskBuilder {
    /// What a survey of the target is run on.
    type Task;

    fn get_api_version(&self) -> String;

    fn get_kind(&self) -> String;

    /// Builds the task from the monitor's `spec`, or says why it cannot.
    fn build(&self, monitor: &Monitor) -> Result<Self::Task, String>;
}

/// `name` is a registration name that `builder` gives itself: the kind and
/// the version that it can report, joined.
pub open spec fn names_itself<B: TaskBuilder>(builder: B, name: Seq<char>) -> bool {
    exists|kind: String, api_version: String|
        call_ensures(B::get_kind, (&builder,), kind) && call_ensures(
            B::get_api_version,
            (&builder,),
            api_version,
        ) && name == registration_name(kind@, api_version@)
}

/// `after` holds the registrations `before` and each of `builders`,
/// registered in turn under a name that it gives itself.
pub open spec fn registered_in_turn<B: TaskBuilder>(
    before: Map<Seq<char>, B>,
    builders: Seq<B>,
    after: Map<Seq<char>, B>,
) -> bool
    decreases builders.len(),
{
    if builders.len() == 0 {
        after == before
    } else {
        exists|middle: Map<Seq<char>, B>, name: Seq<char>|
            registered_in_turn(before, builders.drop_last(), middle) && names_itself(
                builders.last(),
                name,
            ) && after == middle.insert(name, builders.last())
    }
}

/// The builders of the process, each under its registration name.
#[verifier::reject_recursive_types(B)]
pub struct TaskFactory<B: TaskBuilder> {
    registrations: StringHashMap<B>,
    /// The registration names in the order in which they were first used:
    /// a hash map cannot be walked in an order that is the same every time.
    names: Vec<String>,
}

impl<B: TaskBuilder> TaskFactory<B> {
    /// The registration names, in the order in which they were first used.
    pub closed spec fn registered_names(&self) -> Seq<Seq<char>> {
        views(self.names@)
    }

    /// The builder registered under each name.
    pub closed spec fn registrations(&self) -> Map<Seq<char>, B> {
        self.registrations@
    }

    /// The names listed are those that have a builder, each once.
    pub closed spec fn wf(&self) -> bool {
        &&& views(self.names@).no_duplicates()
        &&& forall|name: Seq<char>|
            views(self.names@).contains(name) <==> self.registrations@.dom().contains(name)
    }

    pub fn new() -> (r: TaskFactory<B>)
        ensures
            r.wf(),
            r.registrations() == Map::<Seq<char>, B>::empty(),
    {
        TaskFactory { registrations: StringHashMap::new(), names: Vec::new() }
    }

    pub fn monitor_registration_name(monitor: &Monitor) -> (r: String)
        ensures
            r@ == registration_name(monitor.kind@, monitor.api_version@),
    {
        monitor.kind.clone().concat("/").concat(monitor.api_version.as_str())
    }

    /// Asks `builder` for its kind and version and joins them.
    pub fn builder_registration_name(builder: &B) -> (r: String)
        ensures
            names_itself(*builder, r@),
    {
        let kind = builder.get_kind();
        let api_version = builder.get_api_version();
        let name = kind.clone().concat("/").concat(api_version.as_str());
        assert(call_ensures(B::get_kind, (builder,), kind) && call_ensures(
            B::get_api_version,
            (builder,),
            api_version,
        ) && name@ == registration_name(kind@, api_version@));
        name
    }

    /// The names that have a builder, each once, in the order in which they
    /// were first used.
    pub fn list_registrations(&self) -> (r: Vec<String>)
        requires
            self.wf(),
        ensures
            views(r@) == self.registered_names(),
            views(r@).no_duplicates(),
            forall|name: Seq<char>|
                views(r@).contains(name) <==> self.registrations().dom().contains(name),
    {
        let mut r: Vec<String> = Vec::new();
        let mut i: usize = 0;
        while i < self.names.len()
            invariant
                i <= self.names.len(),
                views(r@) == views(self.names@).take(i as int),
            decreases self.names.len() - i,
        {
            let ghost listed = views(r@);
            r.push(self.names[i].clone());
            assert(views(r@) =~= listed.push(self.names[i as int]@));
            assert(views(r@) =~= views(self.names@).take(i + 1));
            i += 1;
        }
        assert(views(self.names@).take(i as int) =~= views(self.names@));
        r
    }

    /// Registers `builder` under `name`. A builder that stood there before is
    /// replaced.
    pub fn register_as(&mut self, name: String, builder: B)
        requires
            old(self).wf(),
        ensures
            final(self).wf(),
            final(self).registrations() == old(self).registrations().insert(name@, builder),
    {
        let ghost key = name@;
        let ghost before = views(self.names@);
        let known = self.registrations.contains_key(name.as_str());
        if !known {
            self.names.push(name.clone());
        }
        self.registrations.insert(name, builder);
        proof {
            let after = views(self.names@);
            if known {
                assert(after == before);
            } else {
                lemma_pushed_name(before, key);
                assert(after =~= before.push(key));
            }
            assert forall|k: Seq<char>|
                after.contains(k) <==> self.registrations@.dom().contains(k) by {
                assert(old(self).registrations@.dom().contains(k) <==> before.contains(k));
            }
        }
    }

    /// Registers `builder` under the name that it gives itself. A builder
    /// that stood there before is replaced.
    pub fn register(&mut self, builder: B)
        requires
            old(self).wf(),
        ensures
            final(self).wf(),
            exists|name: Seq<char>|
                names_itself(builder, name) && final(self).registrations() == old(
                    self,
                ).registrations().insert(name, builder),
    {
        let name = Self::builder_registration_name(&builder);
        self.register_as(name, builder);
    }

    /// Registers each of `builders` in turn, so that of two with one name the
    /// later stays.
    pub fn bulk_register(&mut self, builders: Vec<B>)
        requires
            old(self).wf(),
        ensures
            final(self).wf(),
            registered_in_turn(old(self).registrations(), builders@, final(self).registrations()),
    {
        let ghost all = builders@;
        let ghost start = self.registrations();
        for builder in iter: builders
            invariant
                iter.seq() == all,
                self.wf(),
                registered_in_turn(start, all.take(iter.index() as int), self.registrations()),
        {
            let ghost middle = self.registrations();
            self.register(builder);
            proof {
                let next = all.take(iter.index() + 1);
                assert(next.drop_last() =~= all.take(iter.index() as int));
                assert(next.last() == builder);
                let name = choose|name: Seq<char>|
                    names_itself(builder, name) && self.registrations() == middle.insert(
                        name,
                        builder,
                    );
                assert(registered_in_turn(start, next.drop_last(), middle) && names_itself(
                    next.last(),
                    name,
                ) && self.registrations() == middle.insert(name, next.last()));
            }
        }
        assert(all.take(all.len() as int) =~= all);
    }

    /// The builder that serves `monitor`, or the error that names the
    /// registration name under which none was found.
    pub fn lookup(&self, monitor: &Monitor) -> (r: Result<&B, TaskError>)
        ensures
            match r {
                Ok(builder) => {
                    let name = registration_name(monitor.kind@, monitor.api_version@);
                    self.registrations().dom().contains(name) && *builder
                        == self.registrations()[name]
                },
                Err(error) => {
                    let name = registration_name(monitor.kind@, monitor.api_version@);
                    !self.registrations().dom().contains(name) && error@
                        == TaskErrorView::UnknownMonitorType(name)
                },
            },
    {
        let name = Self::monitor_registration_name(monitor);
        match self.registrations.get(name.as_str()) {
            Some(builder) => Ok(builder),
            None => Err(TaskError::UnknownMonitorType(name)),
        }
    }

    /// Builds the task of `monitor` with the builder registered for its kind
    /// and version. Without such a builder the error names the registration
    /// name that was looked up; with one, the outcome is what that builder
    /// makes of the monitor.
    pub fn construct_task(&self, monitor: &Monitor) -> (r: Result<B::Task, TaskError>)
        ensures
            ({
                let name = registration_name(monitor.kind@, monitor.api_version@);
                if self.registrations().dom().contains(name) {
                    exists|built: Result<B::Task, String>|
                        call_ensures(B::build, (&self.registrations()[name], monitor), built) && r
                            == construction_result_spec(built)
                } else {
                    r is Err && r->Err_0@ == TaskErrorView::UnknownMonitorType(name)
                }
            }),
    {
        match self.lookup(monitor) {
            Ok(builder) => {
                let built = builder.build(monitor);
                construction_result(built)
            },
            Err(error) => Err(error),
        }
    }
}

} // verus!
