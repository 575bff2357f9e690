//! The command state gate: the one claim on the radio's scan-enable state, and who holds it.
use vstd::prelude::*;

verus! {

/// Which enable bit a holder claimed, and so which disable command releases it.
#[derive(Clone, Copy, Debug, PartialEq, Eq, Structural)]
pub enum ScanMode {
    Legacy,
    Extended,
}

/// The three states of the claim.
#[derive(Clone, Copy, Debug, PartialEq, Eq, Structural)]
pub enum GateState {
    /// Nothing holds the claim: a transaction may acquire it.
    Idle,
    /// A transaction is in flight or a session is active.
    Held,
    /// The holder went away; the disable command of this mode is still to be issued.
    Releasing(ScanMode),
}

/// The state after a request: the claim is taken only when it is idle.
pub open spec fn requested(g: GateState) -> GateState {
    if g == GateState::Idle {
        GateState::Held
    } else {
        g
    }
}

/// Whether a request on `g` acquires the claim.
pub open spec fn acquires(g: GateState) -> bool {
    g == GateState::Idle
}

/// The state after a cancel in mode `m`: a held gate is marked for release, any
/// other state is left as it is.
pub open spec fn cancelled(g: GateState, m: ScanMode) -> GateState {
    if g == GateState::Held {
        GateState::Releasing(m)
    } else {
        g
    }
}

/// The disable command that settling `g` asks for, if any.
pub open spec fn pending_disable(g: GateState) -> Option<ScanMode> {
    match g {
        GateState::Releasing(m) => Some(m),
        _ => None,
    }
}

/// The state after the pending release has been carried out.
pub open spec fn settled(g: GateState) -> GateState {
    match g {
        GateState::Releasing(_) => GateState::Idle,
        _ => g,
    }
}

/// The state after a holder gives the claim back with nothing left to disable.
pub open spec fn finished(g: GateState) -> GateState {
    if g == GateState::Held {
        GateState::Idle
    } else {
        g
    }
}

/// Per-radio exclusion over the scan-enable state. Not reentrant: a second request
/// while the claim is held does not acquire it, and the caller waits.
#[derive(Debug)]
pub struct CommandState {
    pub state: GateState,
}

impl CommandState {
    /// A free gate.
    pub fn new() -> (r: CommandState)
        ensures
            r.state == GateState::Idle,
    {
        CommandState { state: GateState::Idle }
    }

    /// True while a transaction holds the claim, a session is active, or a release
    /// is still pending.
    pub fn is_requested(&self) -> (r: bool)
        ensures
            r == (self.state != GateState::Idle),
    {
        match self.state {
            GateState::Idle => false,
            _ => true,
        }
    }

    /// Tries to acquire the claim. Returns false, changing nothing, when it is not
    /// idle: the caller then waits and tries again.
    pub fn try_request(&mut self) -> (r: bool)
        ensures
            r == acquires(old(self).state),
            final(self).state == requested(old(self).state),
    {
        match self.state {
            GateState::Idle => {
                self.state = GateState::Held;
                true
            },
            _ => false,
        }
    }

    /// Releases a held gate, recording which disable command must follow. A no-op
    /// on a gate that is not held.
    pub fn cancel(&mut self, mode: ScanMode)
        ensures
            final(self).state == cancelled(old(self).state, mode),
    {
        match self.state {
            GateState::Held => {
                self.state = GateState::Releasing(mode);
            },
            _ => {},
        }
    }

    /// Completes a pending release: returns the mode whose disable command is to be
    /// issued, and frees the claim. Returns None, changing nothing, when no release
    /// is pending.
    pub fn settle(&mut self) -> (r: Option<ScanMode>)
        ensures
            r == pending_disable(old(self).state),
            final(self).state == settled(old(self).state),
    {
        match self.state {
            GateState::Releasing(m) => {
                self.state = GateState::Idle;
                Some(m)
            },
            _ => None,
        }
    }

    /// Gives a held gate back when the holder has already left the controller
    /// disabled, so that no disable command is pending.
    pub fn finish(&mut self)
        ensures
            final(self).state == finished(old(self).state),
    {
        match self.state {
            GateState::Held => {
                self.state = GateState::Idle;
            },
            _ => {},
        }
    }
}

} // verus!
