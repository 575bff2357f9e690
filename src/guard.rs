//! A scoped cleanup guard: the one rollback path of a multi-step transaction.
use vstd::prelude::*;
use crate::gate::{cancelled, CommandState, ScanMode};

verus! {

/// Holds the rollback of a gate reservation. While armed, firing it cancels the
/// gate in its mode; once defused it does nothing. Firing consumes the guard, so
/// the rollback runs at most once.
#[derive(Debug)]
pub struct CleanupGuard {
    pub armed: bool,
    pub mode: ScanMode,
}

impl CleanupGuard {
    /// An armed guard whose rollback cancels the claim in `mode`.
    pub fn new(mode: ScanMode) -> (r: CleanupGuard)
        ensures
            r.armed,
            r.mode == mode,
    {
        CleanupGuard { armed: true, mode }
    }

    /// A guard that guards nothing.
    pub fn disarmed(mode: ScanMode) -> (r: CleanupGuard)
        ensures
            !r.armed,
            r.mode == mode,
    {
        CleanupGuard { armed: false, mode }
    }

    /// Suppresses the rollback: the last step of a transaction that succeeded.
    /// There is no way back to armed.
    pub fn defuse(&mut self)
        ensures
            !final(self).armed,
            final(self).mode == old(self).mode,
    {
        self.armed = false;
    }

    /// Runs the rollback if the guard is still armed: the exit path on an error or
    /// on cancellation. Returns whether it ran.
    pub fn fire(self, gate: &mut CommandState) -> (r: bool)
        ensures
            r == self.armed,
            final(gate).state == if self.armed {
                cancelled(old(gate).state, self.mode)
            } else {
                old(gate).state
            },
    {
        if self.armed {
            gate.cancel(self.mode);
            true
        } else {
            false
        }
    }
}

} // verus!
