//! Cycle counts and the measurement operations of the harness contract:
//! turning counter readings into timestamps, taking saturating deltas, and
//! accumulating deltas by addition.

use vstd::prelude::*;

use crate::format::CyclesPerByteFormatter;

verus! {

/// A cycle count: a hardware counter timestamp, or a non-negative delta
/// between two timestamps, in raw processor ticks. No unit conversion is
/// ever applied to it.
#[derive(Clone, Copy, Debug, PartialEq, Eq, Structural)]
pub struct CycleCount {
    ticks: u64,
}

impl View for CycleCount {
    type V = nat;

    closed spec fn view(&self) -> nat {
        self.ticks as nat
    }
}

/// The delta between a start reading and a later end reading: their
/// difference when the counter moved forward, and zero when it appears to
/// have gone backward (a counter reset, or a migration between cores with
/// unsynchronized counters). Clamping is deliberate: a backward step is
/// suppressed silently rather than wrapping or signaling an error.
pub open spec fn delta_of(started: nat, ended: nat) -> nat {
    if ended >= started {
        (ended - started) as nat
    } else {
        0
    }
}

/// The combination of two accumulated cycle counts: their arithmetic sum.
pub open spec fn sum_of(a: nat, b: nat) -> nat {
    a + b
}

/// Turns a raw counter register reading into a cycle count timestamp.
pub fn now(reading: u64) -> (t: CycleCount)
    ensures
        t@ == reading,
{
    CycleCount { ticks: reading }
}

impl CycleCount {
    /// The raw number of ticks this count stands for.
    pub fn ticks(&self) -> (n: u64)
        ensures
            n == self@,
    {
        self.ticks
    }
}

/// The clock-cycle measurement strategy: a stateless adapter whose every
/// operation is a pure function of its arguments and the caller's counter
/// readings.
pub struct CyclesPerByte;

impl CyclesPerByte {
    /// Begins a timed section at the given counter reading.
    pub fn start(&self, reading: u64) -> (t: CycleCount)
        ensures
            t@ == reading,
    {
        now(reading)
    }

    /// Ends a timed section at the given counter reading: the elapsed cycles
    /// since `started`, floored at zero if the counter went backward.
    pub fn end(&self, started: CycleCount, reading: u64) -> (v: CycleCount)
        ensures
            v@ == delta_of(started@, reading as nat),
    {
        if reading >= started.ticks {
            CycleCount { ticks: reading - started.ticks }
        } else {
            CycleCount { ticks: 0 }
        }
    }

    /// Accumulates two deltas into their sum. The sum must fit in 64 bits:
    /// keeping iteration counts low enough for that is the caller's duty.
    pub fn add(&self, v1: &CycleCount, v2: &CycleCount) -> (v: CycleCount)
        requires
            v1@ + v2@ <= u64::MAX,
        ensures
            v@ == sum_of(v1@, v2@),
    {
        CycleCount { ticks: v1.ticks + v2.ticks }
    }

    /// The additive identity for accumulation.
    pub fn zero(&self) -> (v: CycleCount)
        ensures
            v@ == 0,
    {
        CycleCount { ticks: 0 }
    }

    /// The value formatter that renders this strategy's results. The
    /// formatter carries no state, so a fresh instance is as good as a
    /// shared one.
    pub fn formatter(&self) -> (f: CyclesPerByteFormatter)
        ensures
            f == CyclesPerByteFormatter,
    {
        CyclesPerByteFormatter
    }
}

/// Law: a delta between a start reading `t1` and an end reading `t2` is the
/// true difference `t2 - t1` when the counter did not go backward, and is
/// clamped to zero when it did.
pub proof fn lemma_delta_clamps(t1: nat, t2: nat)
    ensures
        t1 <= t2 ==> delta_of(t1, t2) == t2 - t1,
        t2 < t1 ==> delta_of(t1, t2) == 0,
{
}

/// Law: accumulating cycle counts is commutative.
pub proof fn lemma_sum_commutes(a: nat, b: nat)
    ensures
        sum_of(a, b) == sum_of(b, a),
{
}

/// Law: accumulating cycle counts is associative.
pub proof fn lemma_sum_associates(a: nat, b: nat, c: nat)
    ensures
        sum_of(sum_of(a, b), c) == sum_of(a, sum_of(b, c)),
{
}

/// Law: zero is the identity element for accumulation.
pub proof fn lemma_sum_identity(v: nat)
    ensures
        sum_of(v, 0) == v,
{
}

} // verus!
