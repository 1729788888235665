//! Admission control: a counter of live connections, bounded by
//! `MAX_CONNECTIONS`. A connection is admitted exactly when the count
//! is below the limit; its handler releases the slot exactly once
//! when it finishes, whatever its exit path.

use vstd::prelude::*;
use crate::MAX_CONNECTIONS;

verus! {

/// Whether a gate counting `count` live connections admits one more.
pub open spec fn spec_admits(count: nat) -> bool {
    count < MAX_CONNECTIONS
}

/// The count of live connections, kept within capacity.
pub struct ConnectionGate {
    active: usize,
}

impl ConnectionGate {
    /// The number of connections currently admitted.
    pub closed spec fn active_count(&self) -> nat {
        self.active as nat
    }

    /// The count never passes the capacity.
    pub open spec fn wf(&self) -> bool {
        self.active_count() <= MAX_CONNECTIONS
    }

    /// A gate with no admitted connections.
    pub fn new() -> (g: ConnectionGate)
        ensures
            g.wf(),
            g.active_count() == 0,
    {
        ConnectionGate { active: 0 }
    }

    /// Admit a connection when capacity allows. Admission happens
    /// exactly when the count was below `MAX_CONNECTIONS`; a rejected
    /// connection leaves the count unchanged.
    pub fn try_admit(&mut self) -> (admitted: bool)
        requires
            old(self).wf(),
        ensures
            final(self).wf(),
            admitted == spec_admits(old(self).active_count()),
            admitted ==> final(self).active_count() == old(self).active_count() + 1,
            !admitted ==> final(self).active_count() == old(self).active_count(),
    {
        if self.active < MAX_CONNECTIONS {
            self.active = self.active + 1;
            true
        } else {
            false
        }
    }

    /// How many connections are currently admitted.
    pub fn active(&self) -> (n: usize)
        ensures
            n == self.active_count(),
    {
        self.active
    }

    /// Release the slot of a finished connection.
    pub fn release(&mut self)
        requires
            old(self).wf(),
            old(self).active_count() > 0,
        ensures
            final(self).wf(),
            final(self).active_count() == old(self).active_count() - 1,
    {
        self.active = self.active - 1;
    }
}

/// The count after `n` admission attempts against an initially idle
/// gate, while no connection finishes.
pub open spec fn spec_count_after(n: nat) -> nat
    decreases n,
{
    if n == 0 {
        0
    } else {
        let c = spec_count_after((n - 1) as nat);
        if spec_admits(c) {
            c + 1
        } else {
            c
        }
    }
}

/// Capacity law: while no connection finishes, the first
/// `MAX_CONNECTIONS` arrivals are all admitted, and every arrival
/// after that is turned away.
pub proof fn lemma_admission_capacity(n: nat)
    ensures
        n <= MAX_CONNECTIONS ==> spec_count_after(n) == n,
        n < MAX_CONNECTIONS ==> spec_admits(spec_count_after(n)),
        n >= MAX_CONNECTIONS ==> spec_count_after(n) == MAX_CONNECTIONS && !spec_admits(
            spec_count_after(n),
        ),
    decreases n,
{
    if n > 0 {
        lemma_admission_capacity((n - 1) as nat);
    }
}

} // verus!
