//! The debounce gate: one mutual-exclusion flag per project.
//!
//! A gate collapses a burst of near-simultaneous notifications for one
//! project into at most one concurrent redeploy action. Acquisition is a
//! check-and-set with no window in which two callers can both observe
//! "free"; release must follow every successful acquisition.

use vstd::prelude::*;
use vstd::pervasive::VecAdditionalExecFns;

verus! {

/// One flag per project, indexed like the project list it was built for.
/// `true` means a redeploy action for that project is in flight.
pub struct GateMap {
    pub held: Vec<bool>,
}

impl GateMap {
    /// A map of `n` gates, all free.
    pub fn new(n: usize) -> (g: GateMap)
        ensures
            g.held@.len() == n,
            forall|i: int| 0 <= i < n ==> !g.held@[i],
    {
        let mut held: Vec<bool> = Vec::new();
        let mut k: usize = 0;
        while k < n
            invariant
                k <= n,
                held@.len() == k,
                forall|i: int| 0 <= i < k ==> !held@[i],
            decreases n - k,
        {
            held.push(false);
            k += 1;
        }
        GateMap { held }
    }

    /// The number of gates.
    pub fn len(&self) -> (n: usize)
        ensures
            n == self.held@.len(),
    {
        self.held.len()
    }

    /// If gate `i` is free, takes it and reports success; if it is already
    /// held, reports failure and changes nothing.
    pub fn try_acquire(&mut self, i: usize) -> (ok: bool)
        requires
            i < old(self).held@.len(),
        ensures
            ok == !old(self).held@[i as int],
            ok ==> final(self).held@ == old(self).held@.update(i as int, true),
            !ok ==> final(self).held@ == old(self).held@,
    {
        if self.held[i] {
            false
        } else {
            self.held.set(i, true);
            true
        }
    }

    /// Frees gate `i`. Called exactly once per successful `try_acquire`,
    /// on every exit path of the action it guarded.
    pub fn release(&mut self, i: usize)
        requires
            i < old(self).held@.len(),
            old(self).held@[i as int],
        ensures
            final(self).held@ == old(self).held@.update(i as int, false),
    {
        self.held.set(i, false);
    }
}

} // verus!
