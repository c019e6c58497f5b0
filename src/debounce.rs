//! Coalescing bursts of mount notifications into single sweeps.

use vstd::prelude::*;

verus! {

/// Least gap, in nanoseconds, between two mount events that both start a sweep.
pub const DEBOUNCE_NANOS: u64 = 1_000_000_000;

/// Whether a mount event at time `t` starts a sweep, given the time of the
/// last event that did.
pub open spec fn triggers(last: Option<u64>, t: u64) -> bool {
    match last {
        None => true,
        Some(l) => t > l && t - l > DEBOUNCE_NANOS,
    }
}

/// The debounce gate of the mount watcher: idle until a first matching event,
/// then armed with the time of the last event that started a sweep.
#[derive(Debug)]
pub struct Debouncer {
    last: Option<u64>,
}

impl Debouncer {
    /// Time, in nanoseconds on a monotonic clock, of the last event that
    /// started a sweep.
    pub closed spec fn last_trigger(&self) -> Option<u64> {
        self.last
    }

    /// An idle gate.
    pub fn new() -> (r: Debouncer)
        ensures
            r.last_trigger() is None,
    {
        Debouncer { last: None }
    }

    /// Takes a matching mount event at time `t` and tells whether it starts a sweep.
    pub fn on_event(&mut self, t: u64) -> (r: bool)
        ensures
            r == triggers(old(self).last_trigger(), t),
            final(self).last_trigger() == if r {
                Some(t)
            } else {
                old(self).last_trigger()
            },
    {
        let fire = match self.last {
            None => true,
            Some(l) => t > l && t - l > DEBOUNCE_NANOS,
        };
        if fire {
            self.last = Some(t);
        }
        fire
    }
}

/// Two matching events at `t1 <= t2`, seen by an idle gate: the first always
/// starts a sweep, and the second starts another one exactly when it comes more
/// than a second after the first.
pub proof fn lemma_debounce(t1: u64, t2: u64)
    requires
        t1 <= t2,
    ensures
        triggers(None, t1),
        triggers(Some(t1), t2) <==> t2 - t1 > DEBOUNCE_NANOS,
{
}

/// Whether the watched mount point is among the points a mount event reports
/// as newly mounted.
pub fn mount_matches(mounted: &Vec<String>, mount_point: &String) -> (r: bool)
    ensures
        r == exists|i: int| 0 <= i < mounted.len() && mounted[i]@ == mount_point@,
{
    let mut i: usize = 0;
    while i < mounted.len()
        invariant
            i <= mounted.len(),
            forall|j: int| 0 <= j < i ==> mounted[j]@ != mount_point@,
        decreases mounted.len() - i,
    {
        if mounted[i] == *mount_point {
            return true;
        }
        i = i + 1;
    }
    false
}

} // verus!
