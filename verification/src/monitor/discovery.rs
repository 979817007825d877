//! Discovery: every declared monitor that is not persisted yet is created,
//! then the persisted monitors are read back.

use crate::config::MonitorBase;
use crate::extensions::MappingCloneExt;
use crate::models::{Monitor, RepositoryError};
use vstd::prelude::*;

verus! {

/// Why a discovery run ended without a monitor set.
#[derive(Debug, PartialEq, Eq)]
pub enum DiscoveryError {
    /// The declared monitor definitions could not be read; the text says why.
    Declarations(String),
    /// A monitor could not be looked up, created or listed.
    Repository(RepositoryError),
}

/// What is to happen to one declared monitor.
#[derive(Debug, PartialEq)]
pub enum Upsert {
    /// It is persisted already and stays as it is.
    Keep,
    /// It is not persisted yet: create this monitor.
    Create(Monitor),
    /// The lookup failed: give up with this error.
    Abort(RepositoryError),
}

/// The fate of the declared monitor `cfg`, given what the lookup of its name
/// among the persisted monitors returned.
pub open spec fn upsert_spec(cfg: MonitorBase, lookup: Result<Monitor, RepositoryError>) -> Upsert {
    match lookup {
        Ok(_) => Upsert::Keep,
        Err(RepositoryError::NotFound(_)) => Upsert::Create(cfg.mapped()),
        Err(error) => Upsert::Abort(error),
    }
}

/// Decides what to do with the declared monitor `cfg` once the lookup of its
/// name has returned `lookup`: a monitor that is found is never updated, one
/// that is not found is created, and any other failure ends the run.
pub fn upsert_monitor_from_file_config(
    cfg: &MonitorBase,
    lookup: Result<Monitor, RepositoryError>,
) -> (r: Upsert)
    ensures
        r == upsert_spec(*cfg, lookup),
{
    match lookup {
        Ok(_) => Upsert::Keep,
        Err(RepositoryError::NotFound(_)) => Upsert::Create(cfg.object_map_clone()),
        Err(error) => Upsert::Abort(error),
    }
}

/// What a repository that holds `store`, each monitor under its name, answers
/// when `name` is looked up.
pub open spec fn lookup_in(store: Map<Seq<char>, Monitor>, name: String) -> Result<
    Monitor,
    RepositoryError,
> {
    if store.dom().contains(name@) {
        Ok(store[name@])
    } else {
        Err(RepositoryError::NotFound(name))
    }
}

/// The monitors that the repository holds after the `declared` monitors were
/// reconciled with `store` one after the other, every lookup answered from the
/// store and every creation carried out.
pub open spec fn reconciled(store: Map<Seq<char>, Monitor>, declared: Seq<MonitorBase>) -> Map<
    Seq<char>,
    Monitor,
>
    decreases declared.len(),
{
    if declared.len() == 0 {
        store
    } else {
        let before = reconciled(store, declared.drop_last());
        match upsert_spec(declared.last(), lookup_in(before, declared.last().name)) {
            Upsert::Create(monitor) => before.insert(monitor.name@, monitor),
            _ => before,
        }
    }
}

/// The monitors that are created while the `declared` monitors are
/// reconciled with `store`, in the order of their creation.
pub open spec fn created(store: Map<Seq<char>, Monitor>, declared: Seq<MonitorBase>) -> Seq<
    Monitor,
>
    decreases declared.len(),
{
    if declared.len() == 0 {
        Seq::empty()
    } else {
        let before = reconciled(store, declared.drop_last());
        match upsert_spec(declared.last(), lookup_in(before, declared.last().name)) {
            Upsert::Create(monitor) => created(store, declared.drop_last()).push(monitor),
            _ => created(store, declared.drop_last()),
        }
    }
}

/// Reconciling removes no monitor.
pub proof fn lemma_persisted_stay(
    store: Map<Seq<char>, Monitor>,
    declared: Seq<MonitorBase>,
    name: Seq<char>,
)
    requires
        store.dom().contains(name),
    ensures
        reconciled(store, declared).dom().contains(name),
    decreases declared.len(),
{
    if declared.len() > 0 {
        lemma_persisted_stay(store, declared.drop_last(), name);
    }
}

/// After reconciling, every declared monitor is persisted.
pub proof fn lemma_declared_are_persisted(
    store: Map<Seq<char>, Monitor>,
    declared: Seq<MonitorBase>,
    i: int,
)
    requires
        0 <= i < declared.len(),
    ensures
        reconciled(store, declared).dom().contains(declared[i].name@),
    decreases declared.len(),
{
    if i < declared.len() - 1 {
        lemma_declared_are_persisted(store, declared.drop_last(), i);
    }
}

/// After reconciling, the repository holds a monitor under the names it held
/// one under before and under the name of every declared monitor.
pub proof fn lemma_reconciled_names(
    store: Map<Seq<char>, Monitor>,
    declared: Seq<MonitorBase>,
    name: Seq<char>,
)
    ensures
        reconciled(store, declared).dom().contains(name) <==> (store.dom().contains(name)
            || exists|i: int| 0 <= i < declared.len() && (#[trigger] declared[i]).name@ == name),
    decreases declared.len(),
{
    if declared.len() > 0 {
        let front = declared.drop_last();
        lemma_reconciled_names(store, front, name);
        if reconciled(store, declared).dom().contains(name) && !store.dom().contains(name) {
            if reconciled(store, front).dom().contains(name) {
                let i = choose|i: int| 0 <= i < front.len() && (#[trigger] front[i]).name@ == name;
                assert(declared[i] == front[i]);
            } else {
                assert(declared[declared.len() - 1].name@ == name);
            }
        }
        if store.dom().contains(name) {
            lemma_persisted_stay(store, declared, name);
        }
        if exists|i: int| 0 <= i < declared.len() && (#[trigger] declared[i]).name@ == name {
            let i = choose|i: int| 0 <= i < declared.len() && (#[trigger] declared[i]).name@ == name;
            lemma_declared_are_persisted(store, declared, i);
        }
    }
}

/// Where every declared monitor is persisted already, reconciling creates
/// nothing and leaves the repository as it is.
pub proof fn lemma_nothing_to_create(store: Map<Seq<char>, Monitor>, declared: Seq<MonitorBase>)
    requires
        forall|i: int| 0 <= i < declared.len() ==> store.dom().contains(#[trigger] declared[i].name@),
    ensures
        created(store, declared) == Seq::<Monitor>::empty(),
        reconciled(store, declared) == store,
    decreases declared.len(),
{
    if declared.len() > 0 {
        let front = declared.drop_last();
        assert forall|i: int| 0 <= i < front.len() implies store.dom().contains(
            #[trigger] front[i].name@,
        ) by {
            assert(front[i] == declared[i]);
        }
        lemma_nothing_to_create(store, front);
        assert(declared.last() == declared[declared.len() - 1]);
    }
}

/// A second discovery over the same declared monitors creates nothing: every
/// declared monitor was persisted by the first.
pub proof fn lemma_second_discovery_creates_nothing(
    store: Map<Seq<char>, Monitor>,
    declared: Seq<MonitorBase>,
)
    ensures
        created(reconciled(store, declared), declared) == Seq::<Monitor>::empty(),
        reconciled(reconciled(store, declared), declared) == reconciled(store, declared),
{
    let after = reconciled(store, declared);
    assert forall|i: int| 0 <= i < declared.len() implies after.dom().contains(
        #[trigger] declared[i].name@,
    ) by {
        lemma_declared_are_persisted(store, declared, i);
    }
    lemma_nothing_to_create(after, declared);
}

/// Every monitor that is created was declared, was not persisted before, and
/// is persisted afterwards.
pub proof fn lemma_created_were_missing(
    store: Map<Seq<char>, Monitor>,
    declared: Seq<MonitorBase>,
    k: int,
)
    requires
        0 <= k < created(store, declared).len(),
    ensures
        !store.dom().contains(created(store, declared)[k].name@),
        reconciled(store, declared).dom().contains(created(store, declared)[k].name@),
        exists|i: int|
            0 <= i < declared.len() && created(store, declared)[k] == (
            #[trigger] declared[i]).mapped(),
    decreases declared.len(),
{
    if declared.len() > 0 {
        let front = declared.drop_last();
        if k < created(store, front).len() {
            lemma_created_were_missing(store, front, k);
            let i = choose|i: int|
                0 <= i < front.len() && created(store, front)[k] == (#[trigger] front[i]).mapped();
            assert(declared[i] == front[i]);
        } else {
            let last = declared.last();
            assert(created(store, declared)[k] == last.mapped());
            assert(last == declared[declared.len() - 1]);
            if store.dom().contains(last.name@) {
                lemma_persisted_stay(store, front, last.name@);
            }
        }
    }
}

/// No monitor is created twice: the monitors created in one discovery have
/// distinct names.
pub proof fn lemma_created_once(
    store: Map<Seq<char>, Monitor>,
    declared: Seq<MonitorBase>,
    j: int,
    k: int,
)
    requires
        0 <= j < k < created(store, declared).len(),
    ensures
        created(store, declared)[j].name@ != created(store, declared)[k].name@,
    decreases declared.len(),
{
    if declared.len() > 0 {
        let front = declared.drop_last();
        if k < created(store, front).len() {
            lemma_created_once(store, front, j, k);
        } else {
            lemma_created_were_missing(store, front, j);
        }
    }
}

/// Where a discovery run stands.
#[derive(Clone, Copy, Debug, PartialEq, Eq, Structural)]
pub enum DiscoveryPhase {
    /// The declared definitions are being read.
    Reading,
    /// A declared monitor is being looked up among the persisted ones.
    Reconciling,
    /// A declared monitor that was not found is being created.
    Creating,
    /// The persisted monitors are being read back.
    Listing,
    /// The run is over.
    Done,
}

/// What happened outside the run since its last action.
#[derive(Debug, PartialEq)]
pub enum DiscoveryEvent {
    /// The declared definitions were read, or the reason why they were not.
    Declared(Result<Vec<MonitorBase>, String>),
    /// The lookup of the current declared monitor returned.
    Found(Result<Monitor, RepositoryError>),
    /// The creation of the current declared monitor returned.
    Created(Result<(), RepositoryError>),
    /// The persisted monitors were read back.
    Listed(Result<Vec<Monitor>, RepositoryError>),
}

/// What the run asks its driver to do next.
#[derive(Debug, PartialEq)]
pub enum DiscoveryAction {
    /// Look up the persisted monitor of this name; report back with `Found`.
    Lookup(String),
    /// Persist this monitor; report back with `Created`.
    Create(Monitor),
    /// Read all persisted monitors; report back with `Listed`.
    List,
    /// The run is over, with this result.
    Finish(Result<Vec<Monitor>, DiscoveryError>),
    /// The event was not awaited: nothing to do.
    Idle,
}

/// Mathematical value of a [`MonitorDiscovery`].
pub ghost struct DiscoveryView {
    /// The declared monitors of this run.
    pub declared: Seq<MonitorBase>,
    /// The position of the declared monitor that is being reconciled.
    pub next: int,
    pub phase: DiscoveryPhase,
}

impl DiscoveryView {
    pub open spec fn done(self) -> DiscoveryView {
        DiscoveryView { declared: self.declared, next: self.next, phase: DiscoveryPhase::Done }
    }

    /// The state and action with which the run turns to the declared monitor
    /// at `position`, or to the read-back when none is left.
    pub open spec fn turn_to(self, position: int) -> (DiscoveryView, DiscoveryAction) {
        if position < self.declared.len() {
            (
                DiscoveryView {
                    declared: self.declared,
                    next: position,
                    phase: DiscoveryPhase::Reconciling,
                },
                DiscoveryAction::Lookup(self.declared[position].name),
            )
        } else {
            (
                DiscoveryView {
                    declared: self.declared,
                    next: position,
                    phase: DiscoveryPhase::Listing,
                },
                DiscoveryAction::List,
            )
        }
    }

    pub open spec fn fail(self, error: DiscoveryError) -> (DiscoveryView, DiscoveryAction) {
        (self.done(), DiscoveryAction::Finish(Err(error)))
    }

    /// The position lies within the declared monitors while one of them is
    /// being reconciled.
    pub open spec fn consistent(self) -> bool {
        &&& 0 <= self.next
        &&& (self.phase is Reconciling || self.phase is Creating) ==> self.next
            < self.declared.len()
    }

    /// The transition rule of a discovery run.
    pub open spec fn step(self, event: DiscoveryEvent) -> (DiscoveryView, DiscoveryAction) {
        match (self.phase, event) {
            (DiscoveryPhase::Reading, DiscoveryEvent::Declared(Ok(declared))) => DiscoveryView {
                declared: declared@,
                next: 0,
                phase: self.phase,
            }.turn_to(0),
            (DiscoveryPhase::Reading, DiscoveryEvent::Declared(Err(reason))) => self.fail(
                DiscoveryError::Declarations(reason),
            ),
            (DiscoveryPhase::Reconciling, DiscoveryEvent::Found(lookup)) => match upsert_spec(
                self.declared[self.next],
                lookup,
            ) {
                Upsert::Keep => self.turn_to(self.next + 1),
                Upsert::Create(monitor) => (
                    DiscoveryView {
                        declared: self.declared,
                        next: self.next,
                        phase: DiscoveryPhase::Creating,
                    },
                    DiscoveryAction::Create(monitor),
                ),
                Upsert::Abort(error) => self.fail(DiscoveryError::Repository(error)),
            },
            (DiscoveryPhase::Creating, DiscoveryEvent::Created(Ok(_))) => self.turn_to(
                self.next + 1,
            ),
            (DiscoveryPhase::Creating, DiscoveryEvent::Created(Err(error))) => self.fail(
                DiscoveryError::Repository(error),
            ),
            (DiscoveryPhase::Listing, DiscoveryEvent::Listed(Ok(monitors))) => (
                self.done(),
                DiscoveryAction::Finish(Ok(monitors)),
            ),
            (DiscoveryPhase::Listing, DiscoveryEvent::Listed(Err(error))) => self.fail(
                DiscoveryError::Repository(error),
            ),
            _ => (self, DiscoveryAction::Idle),
        }
    }
}

impl DiscoveryView {
    /// The monitors that the run asks to create from here on, when it is
    /// driven against a repository that holds `store`, answers every lookup
    /// from it and carries out every creation.
    pub open spec fn creates(self, store: Map<Seq<char>, Monitor>) -> Seq<Monitor>
        decreases self.declared.len() - self.next,
    {
        if self.phase is Reconciling && 0 <= self.next < self.declared.len() {
            let answer = lookup_in(store, self.declared[self.next].name);
            let (looked, action) = self.step(DiscoveryEvent::Found(answer));
            match action {
                DiscoveryAction::Create(monitor) => seq![monitor] + looked.step(
                    DiscoveryEvent::Created(Ok(())),
                ).0.creates(store.insert(monitor.name@, monitor)),
                _ => looked.creates(store),
            }
        } else {
            Seq::empty()
        }
    }
}

/// A run that stands at a declared monitor, after those before it were
/// reconciled, goes on to create what remains to be created.
pub proof fn lemma_run_creates_the_rest(
    run: DiscoveryView,
    store: Map<Seq<char>, Monitor>,
)
    requires
        0 <= run.next <= run.declared.len(),
        run.next < run.declared.len() ==> run.phase is Reconciling,
    ensures
        created(store, run.declared.take(run.next)) + run.creates(
            reconciled(store, run.declared.take(run.next)),
        ) == created(store, run.declared),
    decreases run.declared.len() - run.next,
{
    let done = run.declared.take(run.next);
    let held = reconciled(store, done);
    if run.next == run.declared.len() {
        assert(done =~= run.declared);
        assert(created(store, done) + Seq::<Monitor>::empty() =~= created(store, done));
    } else {
        let here = run.declared[run.next];
        let more = run.declared.take(run.next + 1);
        assert(more.drop_last() =~= done);
        assert(more.last() == here);
        let (looked, action) = run.step(DiscoveryEvent::Found(lookup_in(held, here.name)));
        let rest = run.turn_to(run.next + 1).0;
        assert(rest.declared.take(rest.next) =~= more);
        match action {
            DiscoveryAction::Create(monitor) => {
                assert(looked.step(DiscoveryEvent::Created(Ok(()))).0 == rest);
                lemma_run_creates_the_rest(rest, store);
                assert(created(store, done) + (seq![monitor] + rest.creates(
                    held.insert(monitor.name@, monitor),
                )) =~= created(store, done).push(monitor) + rest.creates(
                    held.insert(monitor.name@, monitor),
                ));
            },
            _ => {
                assert(looked == rest);
                lemma_run_creates_the_rest(rest, store);
            },
        }
    }
}

/// A discovery run creates each declared monitor that the repository lacks,
/// once; a second run over the same declared monitors, against what the
/// first left behind, creates nothing.
pub proof fn lemma_discovery_creates_once(
    declared: Seq<MonitorBase>,
    store: Map<Seq<char>, Monitor>,
)
    ensures
        ({
            let run = DiscoveryView { declared, next: 0, phase: DiscoveryPhase::Reading }.turn_to(
                0,
            ).0;
            &&& run.creates(store) == created(store, declared)
            &&& run.creates(reconciled(store, declared)) == Seq::<Monitor>::empty()
            &&& forall|j: int, k: int|
                0 <= j < k < run.creates(store).len() ==> run.creates(store)[j].name@
                    != run.creates(store)[k].name@
        }),
{
    let run = DiscoveryView { declared, next: 0, phase: DiscoveryPhase::Reading }.turn_to(0).0;
    assert(declared.take(0) =~= Seq::<MonitorBase>::empty());
    lemma_run_creates_the_rest(run, store);
    assert(Seq::<Monitor>::empty() + run.creates(store) =~= run.creates(store));
    let after = reconciled(store, declared);
    lemma_run_creates_the_rest(run, after);
    assert(Seq::<Monitor>::empty() + run.creates(after) =~= run.creates(after));
    lemma_second_discovery_creates_nothing(store, declared);
    assert forall|j: int, k: int| 0 <= j < k < run.creates(store).len() implies run.creates(
        store,
    )[j].name@ != run.creates(store)[k].name@ by {
        lemma_created_once(store, declared, j, k);
    }
}

/// One run of discovery, as a state machine: every declared monitor that is
/// not persisted yet is created, then the persisted monitors are read back.
/// Its driver reads the declared definitions first and reports them with
/// `Declared`; from then on it performs each action and hands back the event
/// that the action led to.
#[derive(Debug)]
pub struct MonitorDiscovery {
    declared: Vec<MonitorBase>,
    next: usize,
    phase: DiscoveryPhase,
}

impl View for MonitorDiscovery {
    type V = DiscoveryView;

    closed spec fn view(&self) -> DiscoveryView {
        DiscoveryView { declared: self.declared@, next: self.next as int, phase: self.phase }
    }
}

impl MonitorDiscovery {
    #[verifier::type_invariant]
    spec fn consistent(self) -> bool {
        (self.phase is Reconciling || self.phase is Creating) ==> self.next < self.declared.len()
    }

    pub fn new() -> (r: MonitorDiscovery)
        ensures
            r@ == (DiscoveryView {
                declared: Seq::empty(),
                next: 0,
                phase: DiscoveryPhase::Reading,
            }),
    {
        MonitorDiscovery { declared: Vec::new(), next: 0, phase: DiscoveryPhase::Reading }
    }

    pub fn phase(&self) -> (r: DiscoveryPhase)
        ensures
            r == self@.phase,
    {
        self.phase
    }

    fn turn_to(&mut self, position: usize) -> (action: DiscoveryAction)
        requires
            position <= old(self).declared.len(),
        ensures
            (final(self)@, action) == old(self)@.turn_to(position as int),
    {
        if position < self.declared.len() {
            self.next = position;
            self.phase = DiscoveryPhase::Reconciling;
            DiscoveryAction::Lookup(self.declared[position].name.clone())
        } else {
            self.phase = DiscoveryPhase::Listing;
            self.next = position;
            DiscoveryAction::List
        }
    }

    /// Handles `event`.
    pub fn discover(&mut self, event: DiscoveryEvent) -> (action: DiscoveryAction)
        ensures
            (final(self)@, action) == old(self)@.step(event),
            old(self)@.consistent(),
            final(self)@.consistent(),
    {
        proof {
            use_type_invariant(&*self);
        }
        match self.phase {
            DiscoveryPhase::Reading => match event {
                DiscoveryEvent::Declared(Ok(declared)) => {
                    self.declared = declared;
                    self.turn_to(0)
                },
                DiscoveryEvent::Declared(Err(reason)) => {
                    self.phase = DiscoveryPhase::Done;
                    DiscoveryAction::Finish(Err(DiscoveryError::Declarations(reason)))
                },
                _ => DiscoveryAction::Idle,
            },
            DiscoveryPhase::Reconciling => match event {
                DiscoveryEvent::Found(lookup) => {
                    match upsert_monitor_from_file_config(&self.declared[self.next], lookup) {
                        Upsert::Keep => {
                            let position = self.next + 1;
                            self.turn_to(position)
                        },
                        Upsert::Create(monitor) => {
                            self.phase = DiscoveryPhase::Creating;
                            DiscoveryAction::Create(monitor)
                        },
                        Upsert::Abort(error) => {
                            self.phase = DiscoveryPhase::Done;
                            DiscoveryAction::Finish(Err(DiscoveryError::Repository(error)))
                        },
                    }
                },
                _ => DiscoveryAction::Idle,
            },
            DiscoveryPhase::Creating => match event {
                DiscoveryEvent::Created(Ok(_)) => {
                    let position = self.next + 1;
                    self.turn_to(position)
                },
                DiscoveryEvent::Created(Err(error)) => {
                    self.phase = DiscoveryPhase::Done;
                    DiscoveryAction::Finish(Err(DiscoveryError::Repository(error)))
                },
                _ => DiscoveryAction::Idle,
            },
            DiscoveryPhase::Listing => match event {
                DiscoveryEvent::Listed(Ok(monitors)) => {
                    self.phase = DiscoveryPhase::Done;
                    DiscoveryAction::Finish(Ok(monitors))
                },
                DiscoveryEvent::Listed(Err(error)) => {
                    self.phase = DiscoveryPhase::Done;
                    DiscoveryAction::Finish(Err(DiscoveryError::Repository(error)))
                },
                _ => DiscoveryAction::Idle,
            },
            DiscoveryPhase::Done => DiscoveryAction::Idle,
        }
    }
}

} // verus!
