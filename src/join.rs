//! The fail-together join over the node's four concurrent units.
//!
//! Every unit is awaited to its end; the node's result is the first failure
//! in the order the units finished, or success when none failed.
use vstd::prelude::*;

verus! {

/// One of the four units that a running node supervises.
#[derive(Clone, Copy, Debug, PartialEq, Eq, Structural)]
pub enum Unit {
    ExecuteSettle,
    TransactionIngress,
    ExecutionBackground,
    ApiServices,
}

/// How a unit ended.
#[derive(Debug)]
pub enum UnitOutcome<E> {
    /// It returned success.
    Completed,
    /// It returned an error.
    Failed(E),
    /// It panicked, or could not be joined.
    Panicked,
}

/// The failure that a join reports, naming the unit it came from.
#[derive(Debug)]
pub enum JoinFailure<E> {
    Failed(Unit, E),
    Panicked(Unit),
}

/// The failure, if any, that one completion carries.
pub open spec fn failure_of<E>(entry: (Unit, UnitOutcome<E>)) -> Option<JoinFailure<E>> {
    match entry.1 {
        UnitOutcome::Completed => None,
        UnitOutcome::Failed(e) => Some(JoinFailure::Failed(entry.0, e)),
        UnitOutcome::Panicked => Some(JoinFailure::Panicked(entry.0)),
    }
}

/// The first failure of a completion log, in completion order.
pub open spec fn first_failure<E>(log: Seq<(Unit, UnitOutcome<E>)>) -> Option<JoinFailure<E>>
    decreases log.len(),
{
    if log.len() == 0 {
        None
    } else {
        match first_failure(log.drop_last()) {
            Some(f) => Some(f),
            None => failure_of(log.last()),
        }
    }
}

/// The units that appear in a completion log.
pub open spec fn units_of<E>(log: Seq<(Unit, UnitOutcome<E>)>) -> Set<Unit>
    decreases log.len(),
{
    if log.len() == 0 {
        Set::empty()
    } else {
        units_of(log.drop_last()).insert(log.last().0)
    }
}

/// Whether every unit appears in a completion log.
pub open spec fn all_finished<E>(log: Seq<(Unit, UnitOutcome<E>)>) -> bool {
    &&& units_of(log).contains(Unit::ExecuteSettle)
    &&& units_of(log).contains(Unit::TransactionIngress)
    &&& units_of(log).contains(Unit::ExecutionBackground)
    &&& units_of(log).contains(Unit::ApiServices)
}

/// What the join has decided after a completion log: nothing while a unit is
/// still running, else the first failure, or success.
pub open spec fn join_result<E>(log: Seq<(Unit, UnitOutcome<E>)>) -> Option<
    Result<(), JoinFailure<E>>,
> {
    if !all_finished(log) {
        None
    } else {
        match first_failure(log) {
            Some(f) => Some(Err(f)),
            None => Some(Ok(())),
        }
    }
}

/// Collects the completions of the four units.
pub struct Supervisor<E> {
    execute_settle_done: bool,
    ingress_done: bool,
    background_done: bool,
    services_done: bool,
    failure: Option<JoinFailure<E>>,
    log: Ghost<Seq<(Unit, UnitOutcome<E>)>>,
}

impl<E> Supervisor<E> {
    /// The completions recorded so far, in order.
    pub closed spec fn log(&self) -> Seq<(Unit, UnitOutcome<E>)> {
        self.log@
    }

    pub closed spec fn wf(&self) -> bool {
        &&& self.execute_settle_done == units_of(self.log@).contains(Unit::ExecuteSettle)
        &&& self.ingress_done == units_of(self.log@).contains(Unit::TransactionIngress)
        &&& self.background_done == units_of(self.log@).contains(Unit::ExecutionBackground)
        &&& self.services_done == units_of(self.log@).contains(Unit::ApiServices)
        &&& self.failure == first_failure(self.log@)
    }

    /// A supervisor before any unit has finished.
    pub fn new() -> (r: Supervisor<E>)
        ensures
            r.wf(),
            r.log() == Seq::<(Unit, UnitOutcome<E>)>::empty(),
    {
        Supervisor {
            execute_settle_done: false,
            ingress_done: false,
            background_done: false,
            services_done: false,
            failure: None,
            log: Ghost(Seq::empty()),
        }
    }

    /// Whether `unit` has finished.
    pub fn is_finished(&self, unit: Unit) -> (r: bool)
        requires
            self.wf(),
        ensures
            r == units_of(self.log()).contains(unit),
    {
        match unit {
            Unit::ExecuteSettle => self.execute_settle_done,
            Unit::TransactionIngress => self.ingress_done,
            Unit::ExecutionBackground => self.background_done,
            Unit::ApiServices => self.services_done,
        }
    }

    /// Records that `unit` ended with `outcome`.
    pub fn record(&mut self, unit: Unit, outcome: UnitOutcome<E>)
        requires
            old(self).wf(),
            !units_of(old(self).log()).contains(unit),
        ensures
            final(self).wf(),
            final(self).log() == old(self).log().push((unit, outcome)),
    {
        let ghost entry = (unit, outcome);
        proof {
            let l = self.log@.push(entry);
            assert(l.drop_last() =~= self.log@);
        }
        self.log = Ghost(self.log@.push(entry));
        match unit {
            Unit::ExecuteSettle => self.execute_settle_done = true,
            Unit::TransactionIngress => self.ingress_done = true,
            Unit::ExecutionBackground => self.background_done = true,
            Unit::ApiServices => self.services_done = true,
        }
        if self.failure.is_none() {
            self.failure = match outcome {
                UnitOutcome::Completed => None,
                UnitOutcome::Failed(e) => Some(JoinFailure::Failed(unit, e)),
                UnitOutcome::Panicked => Some(JoinFailure::Panicked(unit)),
            };
        }
    }

    /// Whether every unit has finished.
    pub fn is_complete(&self) -> (r: bool)
        requires
            self.wf(),
        ensures
            r == all_finished(self.log()),
    {
        self.execute_settle_done && self.ingress_done && self.background_done
            && self.services_done
    }

    /// The node's result once every unit has finished, else `None`.
    pub fn result(self) -> (r: Option<Result<(), JoinFailure<E>>>)
        requires
            self.wf(),
        ensures
            r == join_result(self.log()),
    {
        if self.execute_settle_done && self.ingress_done && self.background_done
            && self.services_done {
            match self.failure {
                Some(f) => Some(Err(f)),
                None => Some(Ok(())),
            }
        } else {
            None
        }
    }
}

/// The first failure of two logs one after the other is that of the first
/// log, if it has one, else that of the second.
pub proof fn lemma_first_failure_append<E>(
    a: Seq<(Unit, UnitOutcome<E>)>,
    b: Seq<(Unit, UnitOutcome<E>)>,
)
    ensures
        first_failure(a + b) == match first_failure(a) {
            Some(f) => Some(f),
            None => first_failure(b),
        },
    decreases b.len(),
{
    if b.len() == 0 {
        assert(a + b =~= a);
    } else {
        lemma_first_failure_append(a, b.drop_last());
        assert((a + b).drop_last() =~= a + b.drop_last());
        assert((a + b).last() == b.last());
    }
}

/// Fail-together: when the ingress unit fails with `e` before any other unit
/// has failed, the join reports no result while some unit still runs, and
/// reports exactly that failure once all have finished, whatever the units
/// that end after it return.
pub proof fn lemma_ingress_failure_fails_together<E>(
    before: Seq<(Unit, UnitOutcome<E>)>,
    e: E,
    after: Seq<(Unit, UnitOutcome<E>)>,
)
    requires
        first_failure(before) is None,
    ensures
        ({
            let log = before.push((Unit::TransactionIngress, UnitOutcome::Failed(e))) + after;
            &&& !all_finished(log) ==> join_result(log) is None
            &&& all_finished(log) ==> join_result(log) == Some(
                Err::<(), JoinFailure<E>>(JoinFailure::Failed(Unit::TransactionIngress, e)),
            )
        }),
{
    let x = (Unit::TransactionIngress, UnitOutcome::Failed(e));
    let p = before.push(x);
    assert(p.drop_last() =~= before);
    lemma_first_failure_append(p, after);
}

} // verus!
