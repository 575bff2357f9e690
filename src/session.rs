//! The handle of an active scan, and its advisory deadline.
use vstd::prelude::*;
use crate::gate::{cancelled, CommandState, ScanMode};

verus! {

/// The deadline of a scan that starts at tick `now` and lasts `timeout` ticks: none
/// for a zero timeout, else the sum, held at the last representable instant.
pub open spec fn deadline_of(now: u64, timeout: u64) -> Option<u64> {
    if timeout == 0 {
        None
    } else if now + timeout <= u64::MAX {
        Some((now + timeout) as u64)
    } else {
        Some(u64::MAX)
    }
}

/// Relies on embassy_time::Instant::now: the current tick of the monotonic clock.
/// Nothing is known of its value.
#[verifier::external_body]
fn now_ticks() -> (r: u64) {
    embassy_time::Instant::now().as_ticks()
}

/// Relies on embassy_time::Instant::saturating_add: the sum of the ticks, or the
/// largest instant when the sum does not fit.
#[verifier::external_body]
fn instant_saturating_add(at: u64, ticks: u64) -> (r: u64)
    ensures
        at + ticks <= u64::MAX ==> r == at + ticks,
        at + ticks > u64::MAX ==> r == u64::MAX,
{
    embassy_time::Instant::from_ticks(at).saturating_add(embassy_time::Duration::from_ticks(ticks)).as_ticks()
}

/// The absolute deadline of a scan started at `now` with the given timeout, in
/// clock ticks. A zero timeout means the scan runs until it is stopped.
pub fn deadline_from(now: u64, timeout: u64) -> (r: Option<u64>)
    ensures
        r == deadline_of(now, timeout),
{
    if timeout == 0 {
        None
    } else {
        Some(instant_saturating_add(now, timeout))
    }
}

/// The deadline of a scan that starts now; what the clock reads is not known
/// here, only that a zero timeout gives none.
pub fn deadline_after(timeout: u64) -> (r: Option<u64>)
    ensures
        timeout == 0 <==> r is None,
        exists|now: u64| r == deadline_of(now, timeout),
{
    let now = now_ticks();
    let r = deadline_from(now, timeout);
    assert(r == deadline_of(now, timeout));
    r
}

/// The effect of one release on a session and on its gate, as a pair.
pub open spec fn released(s: ScanSession, g: crate::gate::GateState) -> (ScanSession, crate::gate::GateState) {
    if s.done {
        (s, g)
    } else {
        (ScanSession { done: true, ..s }, cancelled(g, s.mode))
    }
}

/// Represents "scanning is enabled". Created only by a transaction that succeeded,
/// it keeps the claim held until it is released, which happens once: the first
/// release cancels the claim in the session's mode, any later one does nothing.
/// The deadline is advisory: nothing disables the scan when it passes, a caller
/// polls it and stops the scan.
#[derive(Debug)]
pub struct ScanSession {
    pub mode: ScanMode,
    pub deadline: Option<u64>,
    pub done: bool,
}

impl ScanSession {
    /// A live session of the given mode and deadline.
    pub fn new(mode: ScanMode, deadline: Option<u64>) -> (r: ScanSession)
        ensures
            r.mode == mode,
            r.deadline == deadline,
            !r.done,
    {
        ScanSession { mode, deadline, done: false }
    }

    /// When the scan is meant to end, in clock ticks, if ever.
    pub fn deadline(&self) -> (r: Option<u64>)
        ensures
            r == self.deadline,
    {
        self.deadline
    }

    /// Whether the session's release has already run.
    pub fn is_done(&self) -> (r: bool)
        ensures
            r == self.done,
    {
        self.done
    }

    /// Whether the deadline has passed at tick `now`.
    pub fn is_expired(&self, now: u64) -> (r: bool)
        ensures
            r == match self.deadline {
                Some(d) => now >= d,
                None => false,
            },
    {
        match self.deadline {
            Some(d) => now >= d,
            None => false,
        }
    }

    /// Releases the session: on an explicit stop and on drop alike. Only the first
    /// call cancels the claim; it returns whether this call did.
    pub fn release(&mut self, gate: &mut CommandState) -> (r: bool)
        ensures
            r == !old(self).done,
            (*final(self), final(gate).state) == released(*old(self), old(gate).state),
    {
        if self.done {
            false
        } else {
            gate.cancel(self.mode);
            self.done = true;
            true
        }
    }
}

} // verus!
