//! The repeated stateful invoker: drive a stateful unit of work a fixed
//! number of times, sequentially, on the calling thread.

use vstd::prelude::*;
use crate::counter::Counter;

verus! {

/// The counter value after invoking a unit of work `count` times, starting
/// from counter value `start`.
pub open spec fn counter_after(start: nat, count: nat) -> nat {
    start + count
}

/// The values a unit of work reports over `count` invocations, starting from
/// counter value `start`: `start + 1, start + 2, ..., start + count`, in order.
pub open spec fn reports_from(start: nat, count: nat) -> Seq<u64> {
    Seq::new(count, |i: int| (start + 1 + i) as u64)
}

/// A stateful unit of work: a callable value that exclusively owns a counter.
/// Each invocation adds one to the counter and reports the new value as its
/// observable side effect.
pub trait UnitOfWork: Sized {
    /// The current value of the captured counter.
    spec fn counter(&self) -> nat;

    /// The values reported so far, one per invocation, in invocation order.
    spec fn emitted(&self) -> Seq<u64>;

    /// Perform the unit of work once: add one to the captured counter and
    /// report the new counter value.
    fn invoke(&mut self)
        requires
            old(self).counter() < u64::MAX as nat,
        ensures
            final(self).counter() == old(self).counter() + 1,
            final(self).emitted() == old(self).emitted().push(
                (old(self).counter() + 1) as u64,
            ),
    ;
}

/// Add one to the state and report the new value.
pub fn inner_state_hello(state_holder: &mut u64) -> (reported: u64)
    requires
        *old(state_holder) < u64::MAX,
    ensures
        *final(state_holder) == *old(state_holder) + 1,
        reported == *final(state_holder),
{
    *state_holder = *state_holder + 1;
    *state_holder
}

/// A unit of work backed by a [`Counter`]: each invocation increments the
/// counter and records the new value as the reported side effect.
pub struct HelloUnit {
    counter: Counter,
    reported: Vec<u64>,
}

impl HelloUnit {
    /// A fresh unit of work: counter at zero, nothing reported yet.
    pub fn new() -> (unit: HelloUnit)
        ensures
            unit.counter() == 0,
            unit.emitted() == Seq::<u64>::empty(),
    {
        HelloUnit { counter: Counter::new(), reported: Vec::new() }
    }

    /// The current value of the captured counter.
    pub fn counter_value(&self) -> (v: u64)
        ensures
            v as nat == self.counter(),
    {
        self.counter.value()
    }

    /// The values reported so far, in invocation order.
    pub fn reports(&self) -> (r: &Vec<u64>)
        ensures
            r@ == self.emitted(),
    {
        &self.reported
    }

    /// Give up the unit of work and keep only the reported values.
    pub fn into_reports(self) -> (r: Vec<u64>)
        ensures
            r@ == self.emitted(),
    {
        self.reported
    }
}

impl UnitOfWork for HelloUnit {
    closed spec fn counter(&self) -> nat {
        self.counter@
    }

    closed spec fn emitted(&self) -> Seq<u64> {
        self.reported@
    }

    fn invoke(&mut self) {
        self.counter.increment();
        let v = self.counter.value();
        self.reported.push(v);
    }
}

/// Invoke the unit of work exactly `count` times, sequentially and in order,
/// on the calling thread. The invoker holds exclusive mutable access to the
/// unit of work for the whole sequence; a count of zero means the unit of
/// work is never invoked.
pub fn repeat_function_mutable<W: UnitOfWork>(work: &mut W, count: u8)
    requires
        old(work).counter() + count as nat <= u64::MAX as nat,
    ensures
        final(work).counter() == counter_after(old(work).counter(), count as nat),
        final(work).emitted() == old(work).emitted() + reports_from(
            old(work).counter(),
            count as nat,
        ),
{
    let mut i: u8 = 0;
    while i < count
        invariant
            i <= count,
            old(work).counter() + count as nat <= u64::MAX as nat,
            work.counter() == old(work).counter() + i as nat,
            work.emitted() == old(work).emitted() + reports_from(
                old(work).counter(),
                i as nat,
            ),
        decreases count - i,
    {
        work.invoke();
        i = i + 1;
        proof {
            assert(work.emitted() =~= old(work).emitted() + reports_from(
                old(work).counter(),
                i as nat,
            ));
        }
    }
}

/// Run a fresh [`HelloUnit`] through a local loop that calls
/// [`inner_state_hello`] directly, `count` times, and return the reported
/// values.
pub fn run_hello_local(count: u64) -> (r: Vec<u64>)
    ensures
        r@ == reports_from(0, count as nat),
{
    let mut state: u64 = 0;
    let mut out: Vec<u64> = Vec::new();
    let mut i: u64 = 0;
    while i < count
        invariant
            i <= count,
            state == i,
            out@ == reports_from(0, i as nat),
        decreases count - i,
    {
        let v = inner_state_hello(&mut state);
        out.push(v);
        i = i + 1;
        proof {
            assert(out@ =~= reports_from(0, i as nat));
        }
    }
    out
}

/// Run a fresh [`HelloUnit`] through the generic invoker, `count` times, and
/// return the reported values.
pub fn run_hello_invoker(count: u8) -> (r: Vec<u64>)
    ensures
        r@ == reports_from(0, count as nat),
{
    let mut unit = HelloUnit::new();
    repeat_function_mutable(&mut unit, count);
    proof {
        assert(unit.emitted() =~= reports_from(0, count as nat));
    }
    unit.into_reports()
}

/// A run from a fresh counter leaves the counter equal to the repeat count.
pub proof fn lemma_fresh_counter_after(count: nat)
    ensures
        counter_after(0, count) == count,
{
}

/// A run from a fresh counter reports exactly `1, 2, ..., count`, in that
/// order; in particular the unit of work is invoked exactly `count` times.
pub proof fn lemma_fresh_reports(count: nat)
    requires
        count <= u64::MAX as nat,
    ensures
        reports_from(0, count).len() == count,
        forall|i: int| 0 <= i < count ==> reports_from(0, count)[i] == i + 1,
{
}

/// A repeat count of zero means zero invocations: nothing is reported and the
/// counter keeps its value.
pub proof fn lemma_zero_count(start: nat)
    ensures
        counter_after(start, 0) == start,
        reports_from(start, 0) == Seq::<u64>::empty(),
{
    assert(reports_from(start, 0) =~= Seq::<u64>::empty());
}

/// Two independently constructed units of work, invoked separately, never
/// observe each other's counts: each final counter is a function of that
/// unit's own fresh start and its own repeat count alone.
pub proof fn lemma_units_independent(n: nat, m: nat)
    ensures
        counter_after(0, n) == n,
        counter_after(0, m) == m,
        n != m ==> counter_after(0, n) != counter_after(0, m),
{
}

} // verus!
