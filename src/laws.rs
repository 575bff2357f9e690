//! The laws that the claim, the transactions and the sessions obey together.
use vstd::prelude::*;
use crate::gate::{
    acquires, cancelled, finished, pending_disable, requested, settled, GateState, ScanMode,
};
use crate::sequencer::{abandoned, Phase, ScanTransaction};
use crate::session::{deadline_of, released, ScanSession};

verus! {

/// Two requests never both acquire the claim: after any request, the next one
/// finds it taken. While anything holds the claim a request changes nothing, so a
/// transaction that has not acquired it issues no command. Only a settled
/// release or a finish makes a held gate acquirable again.
pub proof fn mutual_exclusion(g: GateState, m: ScanMode)
    ensures
        !acquires(requested(g)),
        g != GateState::Idle ==> !acquires(g) && requested(g) == g,
        !acquires(cancelled(GateState::Held, m)),
        acquires(settled(cancelled(GateState::Held, m))),
        acquires(finished(GateState::Held)),
{
}

/// Abandoning a transaction at any point between its steps leaves no lasting
/// hold: once the pending release settles the claim is free. One in flight asks
/// for the disable command of its own mode; one still waiting leaves the claim as
/// it found it.
pub proof fn cancellation_safety(t: ScanTransaction, g: GateState)
    requires
        t.wf(),
        t.phase == Phase::Running ==> g == GateState::Held,
    ensures
        t.phase == Phase::Running ==> settled(abandoned(t, g)) == GateState::Idle
            && pending_disable(abandoned(t, g)) == Some(t.mode),
        t.phase == Phase::Waiting ==> abandoned(t, g) == g,
{
}

/// The session and gate after `n` releases of `s` on `g`.
pub open spec fn release_times(s: ScanSession, g: GateState, n: nat) -> (ScanSession, GateState)
    decreases n,
{
    if n == 0 {
        (s, g)
    } else {
        let (s2, g2) = released(s, g);
        release_times(s2, g2, (n - 1) as nat)
    }
}

/// How many of `n` releases of `s` on `g` actually run the release action.
pub open spec fn release_fired(s: ScanSession, g: GateState, n: nat) -> nat
    decreases n,
{
    if n == 0 {
        0
    } else {
        let (s2, g2) = released(s, g);
        (if s.done { 0nat } else { 1nat }) + release_fired(s2, g2, (n - 1) as nat)
    }
}

/// A session that is released any number of times, whether by an explicit stop,
/// by being dropped, or both, runs its release action exactly once, and leaves
/// its held gate waiting for exactly the disable command of its mode.
pub proof fn exactly_once_release(s: ScanSession, g: GateState, n: nat)
    requires
        !s.done,
        g == GateState::Held,
        n >= 1,
    ensures
        release_fired(s, g, n) == 1,
        release_times(s, g, n).0.done,
        release_times(s, g, n).1 == GateState::Releasing(s.mode),
    decreases n,
{
    let (s2, g2) = released(s, g);
    lemma_release_done(s2, g2, (n - 1) as nat);
}

/// Releasing a session that is already released changes nothing and fires nothing.
proof fn lemma_release_done(s: ScanSession, g: GateState, n: nat)
    requires
        s.done,
    ensures
        release_fired(s, g, n) == 0,
        release_times(s, g, n) == (s, g),
    decreases n,
{
    if n > 0 {
        lemma_release_done(s, g, (n - 1) as nat);
    }
}

/// A stop issued while nothing scans leaves the claim free, whether its disable
/// command succeeds or fails.
pub proof fn idempotent_stop(m: ScanMode)
    ensures
        acquires(GateState::Idle),
        finished(requested(GateState::Idle)) == GateState::Idle,
        settled(cancelled(requested(GateState::Idle), m)) == GateState::Idle,
{
}

/// A zero timeout gives no deadline; any other gives the start time plus the
/// timeout, where that sum is a representable instant.
pub proof fn deadline_computation(now: u64, timeout: u64)
    ensures
        timeout == 0 ==> deadline_of(now, timeout) is None,
        timeout > 0 && now + timeout <= u64::MAX ==> deadline_of(now, timeout) == Some(
            (now + timeout) as u64,
        ),
{
}

} // verus!
