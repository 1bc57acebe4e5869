//! The counter session: an owned handle over one active, started counter
//! configuration, torn down exactly once.
//!
//! A session holds the ordered list of requested event identifiers, the
//! parallel native-encoded list, a buffer of one signed 64-bit accumulator
//! per event, and the lock guard that serializes all hardware access for the
//! session's whole active lifetime. Its states follow the facility's own
//! machine: started on construction, sampled by [`CounterSet::read`] and
//! [`CounterSet::accum`], and stopped exactly once by [`CounterSet::stop`],
//! which releases the lock on every path. The native calls themselves are the
//! embedding program's; it feeds each call's status — and for the sampling
//! calls the values the hardware delivered — into the verified transitions
//! here, which decide what the buffer, the result and the lock become.

use vstd::prelude::*;

use crate::events::Counter;
use crate::events::encode_events;
use crate::events::spec_code;
use crate::lock::CounterLock;
use crate::lock::LockGuard;
use crate::status::CounterError;
use crate::status::PAPI_OK;

verus! {

/// What one read does to the accumulator buffer: the hardware sample simply
/// replaces it — reading does not reset the hardware's own accumulation, and
/// the buffer keeps no history of its own.
pub open spec fn spec_read(values: Seq<i64>, sample: Seq<i64>) -> Seq<i64> {
    sample
}

/// What one accumulate does to the buffer: the hardware's current deltas are
/// added entry by entry, so the buffer holds a running total across calls.
pub open spec fn spec_accum(values: Seq<i64>, deltas: Seq<i64>) -> Seq<i64>
    recommends
        values.len() == deltas.len(),
        forall|i: int| #![trigger values[i], deltas[i]]
            0 <= i < values.len() ==> i64::MIN <= values[i] + deltas[i] <= i64::MAX,
{
    Seq::new(values.len(), |i: int| (values[i] + deltas[i]) as i64)
}

/// The all-zero buffer a fresh session starts from.
pub open spec fn spec_zero_values(n: nat) -> Seq<i64> {
    Seq::new(n, |i: int| 0i64)
}

/// One active counting configuration on the hardware facility.
pub struct CounterSet {
    counters: Vec<Counter>,
    raw_counters: Vec<u32>,
    values: Vec<i64>,
    lock: LockGuard,
}

impl CounterSet {
    /// The requested event identifiers, in order.
    pub closed spec fn spec_counters(&self) -> Seq<Counter> {
        self.counters@
    }

    /// The accumulator buffer, one entry per requested event.
    pub closed spec fn spec_values(&self) -> Seq<i64> {
        self.values@
    }

    /// The session's internal invariant: the native-encoded list and the
    /// buffer run parallel to the requested identifiers, and the encoded list
    /// is their exact translation.
    pub closed spec fn wf(&self) -> bool {
        &&& self.counters@.len() > 0
        &&& self.raw_counters@.len() == self.counters@.len()
        &&& self.values@.len() == self.counters@.len()
        &&& forall|i: int|
            0 <= i < self.counters@.len() ==> self.raw_counters@[i] == spec_code(
                self.counters@[i],
            )
    }

    /// Builds the session once the lock is acquired and the native "start
    /// counting" call has been issued for these events: on the success
    /// sentinel, a well-formed session owning the guard, with the requested
    /// identifiers and a zeroed buffer, the lock left as it was; on any other
    /// status the guard is released — the lock ends free — and the failure
    /// carries that status.
    pub fn new(
        lock: &mut CounterLock,
        guard: LockGuard,
        counters: &Vec<Counter>,
        start_status: i32,
    ) -> (r: Result<CounterSet, CounterError>)
        requires
            counters@.len() > 0,
        ensures
            start_status == PAPI_OK ==> {
                &&& r matches Ok(s)
                &&& s.wf()
                &&& s.spec_counters() == counters@
                &&& s.spec_values() == spec_zero_values(counters@.len())
                &&& *final(lock) == *old(lock)
            },
            start_status != PAPI_OK ==> {
                &&& r matches Err(e)
                &&& e.status == start_status
                &&& !final(lock).is_held()
            },
    {
        if start_status != PAPI_OK {
            lock.release(guard);
            return Err(CounterError { status: start_status });
        }
        let raw_counters = encode_events(counters);
        let mut requested: Vec<Counter> = Vec::new();
        let mut values: Vec<i64> = Vec::new();
        let mut k: usize = 0;
        while k < counters.len()
            invariant
                k <= counters@.len(),
                requested@ == counters@.subrange(0, k as int),
                values@.len() == k,
                forall|i: int| 0 <= i < k ==> values@[i] == 0i64,
            decreases counters@.len() - k,
        {
            requested.push(counters[k]);
            values.push(0i64);
            k = k + 1;
        }
        proof {
            assert(requested@ == counters@);
            assert(values@ =~= spec_zero_values(counters@.len()));
        }
        Ok(CounterSet { counters: requested, raw_counters, values, lock: guard })
    }

    /// Applies one native "read counters" call: on the success sentinel the
    /// sample the hardware wrote replaces the buffer and a copy of it is
    /// returned; on any other status nothing changes and the failure carries
    /// that status. Reading does not reset the hardware's accumulation.
    pub fn read(&mut self, read_status: i32, sample: &Vec<i64>) -> (r: Result<
        Vec<i64>,
        CounterError,
    >)
        requires
            old(self).wf(),
            sample@.len() == old(self).spec_values().len(),
        ensures
            final(self).wf(),
            final(self).spec_counters() == old(self).spec_counters(),
            read_status == PAPI_OK ==> {
                &&& final(self).spec_values() == spec_read(old(self).spec_values(), sample@)
                &&& r matches Ok(v) && v@ == final(self).spec_values()
            },
            read_status != PAPI_OK ==> {
                &&& *final(self) == *old(self)
                &&& r matches Err(e) && e.status == read_status
            },
    {
        if read_status != PAPI_OK {
            return Err(CounterError { status: read_status });
        }
        self.values = copy_values(sample);
        Ok(copy_values(&self.values))
    }

    /// Applies one native "accumulate counters" call: on the success sentinel
    /// the hardware's current deltas are added into the buffer entry by entry
    /// — the buffer holds a running total across calls — and a copy of the
    /// updated buffer is returned; on any other status nothing changes and
    /// the failure carries that status.
    pub fn accum(&mut self, accum_status: i32, deltas: &Vec<i64>) -> (r: Result<
        Vec<i64>,
        CounterError,
    >)
        requires
            old(self).wf(),
            deltas@.len() == old(self).spec_values().len(),
            accum_status == PAPI_OK ==> forall|i: int|
                #![trigger old(self).spec_values()[i], deltas@[i]]
                0 <= i < old(self).spec_values().len() ==> i64::MIN <= old(self).spec_values()[i]
                    + deltas@[i] <= i64::MAX,
        ensures
            final(self).wf(),
            final(self).spec_counters() == old(self).spec_counters(),
            accum_status == PAPI_OK ==> {
                &&& final(self).spec_values() == spec_accum(old(self).spec_values(), deltas@)
                &&& r matches Ok(v) && v@ == final(self).spec_values()
            },
            accum_status != PAPI_OK ==> {
                &&& *final(self) == *old(self)
                &&& r matches Err(e) && e.status == accum_status
            },
    {
        if accum_status != PAPI_OK {
            return Err(CounterError { status: accum_status });
        }
        let ghost values0 = self.values@;
        let mut k: usize = 0;
        while k < self.values.len()
            invariant
                k <= values0.len(),
                self.values@.len() == values0.len(),
                deltas@.len() == values0.len(),
                forall|i: int|
                    #![trigger values0[i], deltas@[i]]
                    0 <= i < values0.len() ==> i64::MIN <= values0[i] + deltas@[i] <= i64::MAX,
                forall|i: int|
                    #![trigger self.values@[i]]
                    0 <= i < k ==> self.values@[i] == values0[i] + deltas@[i],
                forall|i: int| k <= i < values0.len() ==> self.values@[i] == values0[i],
                self.counters == old(self).counters,
                self.raw_counters == old(self).raw_counters,
                self.lock == old(self).lock,
            decreases values0.len() - k,
        {
            proof {
                assert(self.values@[k as int] == values0[k as int]);
                assert(i64::MIN <= values0[k as int] + deltas@[k as int] <= i64::MAX);
            }
            let sum: i64 = self.values[k] + deltas[k];
            self.values.set(k, sum);
            k = k + 1;
        }
        proof {
            assert(self.values@ =~= spec_accum(values0, deltas@));
        }
        Ok(copy_values(&self.values))
    }

    /// Tears the session down after the native "stop counters" call was
    /// issued: the guard is released on every path — the lock always ends
    /// free — and the status maps to success exactly on the success sentinel,
    /// any other value becoming a failure that carries it. A session is
    /// consumed here; a new measurement needs a new session.
    pub fn stop(self, lock: &mut CounterLock, stop_status: i32) -> (r: Result<(), CounterError>)
        ensures
            !final(lock).is_held(),
            r is Ok <==> stop_status == PAPI_OK,
            r matches Err(e) ==> e.status == stop_status,
    {
        let CounterSet { counters: _, raw_counters: _, values: _, lock: guard } = self;
        lock.release(guard);
        crate::status::check_status(stop_status)
    }

    /// The requested event identifiers, in order.
    pub fn counters(&self) -> (r: &Vec<Counter>)
        ensures
            r@ == self.spec_counters(),
    {
        &self.counters
    }

    /// The native-encoded identifier list, parallel to the requested one.
    pub fn raw_counters(&self) -> (r: &Vec<u32>)
        requires
            self.wf(),
        ensures
            r@.len() == self.spec_counters().len(),
            forall|i: int|
                0 <= i < self.spec_counters().len() ==> r@[i] == spec_code(self.spec_counters()[i]),
    {
        &self.raw_counters
    }
}

/// An exact copy of a buffer of accumulator values.
fn copy_values(v: &Vec<i64>) -> (r: Vec<i64>)
    ensures
        r@ == v@,
{
    let mut r: Vec<i64> = Vec::new();
    let mut k: usize = 0;
    while k < v.len()
        invariant
            k <= v@.len(),
            r@ == v@.subrange(0, k as int),
        decreases v@.len() - k,
    {
        r.push(v[k]);
        k = k + 1;
    }
    proof {
        assert(r@ == v@);
    }
    r
}

/// Read idempotence: reading twice with no intervening workload — the
/// hardware delivers the same sample — returns what the first read did and
/// leaves the buffer exactly where the first read left it.
pub proof fn lemma_read_idempotent(values: Seq<i64>, sample: Seq<i64>)
    ensures
        spec_read(spec_read(values, sample), sample) == spec_read(values, sample),
{
}

/// Reads never decrease: when the hardware's totals have not decreased
/// between two consecutive reads — as for monotonic counters — no entry of
/// the second result is below the first.
pub proof fn lemma_read_monotone(values: Seq<i64>, first: Seq<i64>, second: Seq<i64>)
    requires
        first.len() == second.len(),
        forall|i: int| 0 <= i < first.len() ==> first[i] <= second[i],
    ensures
        forall|i: int|
            0 <= i < first.len() ==> spec_read(values, first)[i] <= spec_read(
                spec_read(values, first),
                second,
            )[i],
{
}

/// Accumulate additivity: accumulating twice, with one workload's deltas and
/// then another's, yields a second buffer that exceeds the first by exactly
/// the second workload's deltas — so for non-negative deltas, as monotonic
/// counters deliver, the totals never decrease.
pub proof fn lemma_accum_additive(values: Seq<i64>, d1: Seq<i64>, d2: Seq<i64>)
    requires
        values.len() == d1.len(),
        values.len() == d2.len(),
        forall|i: int| #![trigger values[i], d1[i]]
            0 <= i < values.len() ==> i64::MIN <= values[i] + d1[i] <= i64::MAX,
        forall|i: int| #![trigger values[i], d1[i], d2[i]]
            0 <= i < values.len() ==> i64::MIN <= values[i] + d1[i] + d2[i] <= i64::MAX,
    ensures
        forall|i: int|
            0 <= i < values.len() ==> #[trigger] spec_accum(spec_accum(values, d1), d2)[i] == values[i]
                + d1[i] + d2[i],
        forall|i: int|
            0 <= i < values.len() ==> spec_accum(spec_accum(values, d1), d2)[i] == spec_accum(
                values,
                d1,
            )[i] + d2[i],
        forall|i: int|
            0 <= i < values.len() && 0 <= d2[i] ==> spec_accum(values, d1)[i] <= spec_accum(
                spec_accum(values, d1),
                d2,
            )[i],
{
}

} // verus!
