//! The scan transactions: the ordered commands that start or stop a scan, run
//! under the claim with a cleanup guard.
use vstd::prelude::*;
use crate::config::{
    copy_addresses, filter_policy, filter_policy_of, own_kind_of, public_addr_kind, stage_of, Command,
    ScanConfig, Stage, SyncParams,
};
use crate::gate::{acquires, cancelled, finished, requested, CommandState, GateState, ScanMode};
use crate::guard::CleanupGuard;
use crate::session::{deadline_after, deadline_of, ScanSession};

verus! {

/// The kind of scan a transaction starts.
#[derive(Clone, Copy, Debug, PartialEq, Eq)]
pub enum ScanKind {
    Legacy,
    Extended,
    /// Extended scanning, then a sync to a periodic advertising train.
    Periodic(SyncParams),
}

/// The enable bit a scan kind claims.
pub open spec fn mode_of(kind: ScanKind) -> ScanMode {
    match kind {
        ScanKind::Legacy => ScanMode::Legacy,
        _ => ScanMode::Extended,
    }
}

/// The parameter command of a scan start.
pub open spec fn params_command(kind: ScanKind, c: ScanConfig, own: u8) -> Command {
    match kind {
        ScanKind::Legacy => Command::SetScanParams {
            active: c.active,
            interval: c.interval,
            window: c.window,
            own_addr_kind: own,
            filter: filter_policy_of(c.filter_accept_list@),
        },
        _ => Command::SetExtScanParams {
            own_addr_kind: own,
            filter: filter_policy_of(c.filter_accept_list@),
            phys: c.phys,
            active: c.active,
            interval: c.interval,
            window: c.window,
        },
    }
}

/// The enable command of a scan start. Legacy scanning filters duplicates;
/// extended scanning reports them, scanning for `window` in every `interval`.
pub open spec fn enable_command(kind: ScanKind, c: ScanConfig) -> Command {
    match kind {
        ScanKind::Legacy => Command::SetScanEnable { enable: true, filter_duplicates: true },
        _ => Command::SetExtScanEnable {
            enable: true,
            filter_duplicates: false,
            duration: c.window,
            period: c.interval,
        },
    }
}

/// The disable command of a mode.
pub open spec fn disable_command(mode: ScanMode) -> Command {
    match mode {
        ScanMode::Legacy => Command::SetScanEnable { enable: false, filter_duplicates: false },
        ScanMode::Extended => Command::SetExtScanEnable {
            enable: false,
            filter_duplicates: false,
            duration: 0,
            period: 0,
        },
    }
}

/// The commands that start a scan, in the order they must be issued: accept list,
/// parameters, enable, and for a periodic scan the sync, which the controller
/// only accepts once scanning is on.
pub open spec fn is_start_plan(cmds: Seq<Command>, kind: ScanKind, c: ScanConfig, own: u8) -> bool {
    &&& cmds.len() == if kind is Periodic { 4int } else { 3int }
    &&& cmds[0] matches Command::SetAcceptFilter { addresses } && addresses@ == c.filter_accept_list@
    &&& cmds[1] == params_command(kind, c, own)
    &&& cmds[2] == enable_command(kind, c)
    &&& kind matches ScanKind::Periodic(p) ==> cmds[3] == (Command::CreatePeriodicSync { params: p })
}

/// The ordered commands that start a scan of `kind` with configuration `c`.
pub fn start_plan(kind: ScanKind, c: &ScanConfig, own: u8) -> (r: Vec<Command>)
    ensures
        is_start_plan(r@, kind, *c, own),
{
    let filter = filter_policy(&c.filter_accept_list);
    let mut cmds: Vec<Command> = Vec::new();
    cmds.push(Command::SetAcceptFilter { addresses: copy_addresses(&c.filter_accept_list) });
    match kind {
        ScanKind::Legacy => {
            cmds.push(Command::SetScanParams {
                active: c.active,
                interval: c.interval,
                window: c.window,
                own_addr_kind: own,
                filter,
            });
            cmds.push(Command::SetScanEnable { enable: true, filter_duplicates: true });
        },
        _ => {
            cmds.push(Command::SetExtScanParams {
                own_addr_kind: own,
                filter,
                phys: c.phys,
                active: c.active,
                interval: c.interval,
                window: c.window,
            });
            cmds.push(Command::SetExtScanEnable {
                enable: true,
                filter_duplicates: false,
                duration: c.window,
                period: c.interval,
            });
        },
    }
    match kind {
        ScanKind::Periodic(p) => {
            cmds.push(Command::CreatePeriodicSync { params: p });
        },
        _ => {},
    }
    cmds
}

/// The disable command of a mode.
pub fn disable_for(mode: ScanMode) -> (r: Command)
    ensures
        r == disable_command(mode),
{
    match mode {
        ScanMode::Legacy => Command::SetScanEnable { enable: false, filter_duplicates: false },
        ScanMode::Extended => Command::SetExtScanEnable {
            enable: false,
            filter_duplicates: false,
            duration: 0,
            period: 0,
        },
    }
}

/// Where a transaction stands.
#[derive(Clone, Copy, Debug, PartialEq, Eq, Structural)]
pub enum Phase {
    /// Waiting for the claim; no command has been issued.
    Waiting,
    /// Holding the claim, with `next` the command in flight.
    Running,
    /// Every command succeeded.
    Complete,
}

/// The claim after abandoning `t`: only a transaction in flight has something to
/// undo.
pub open spec fn abandoned(t: ScanTransaction, g: GateState) -> GateState {
    if t.phase == Phase::Running {
        cancelled(g, t.mode)
    } else {
        g
    }
}

/// What a successful transaction hands back.
#[derive(Debug)]
pub enum Outcome {
    /// Scanning is enabled; the session now holds the claim.
    Started(ScanSession),
    /// Scanning is disabled and the claim is free again.
    Stopped,
}

/// One run of ordered commands under the claim. The guard is armed from the moment
/// the claim is acquired until the last command succeeds; on a failure or an
/// abandonment before that it releases the claim.
#[derive(Debug)]
pub struct ScanTransaction {
    pub mode: ScanMode,
    pub commands: Vec<Command>,
    pub next: usize,
    pub phase: Phase,
    pub guard: CleanupGuard,
    pub timeout: u64,
    pub starts_session: bool,
}

impl ScanTransaction {
    /// The transaction's internal consistency.
    pub open spec fn wf(&self) -> bool {
        &&& self.commands@.len() > 0
        &&& self.guard.mode == self.mode
        &&& self.phase == Phase::Waiting ==> self.next == 0 && !self.guard.armed
        &&& self.phase == Phase::Running ==> self.next < self.commands@.len() && self.guard.armed
        &&& self.phase == Phase::Complete ==> self.next == self.commands@.len() && !self.guard.armed
    }

    /// A transaction that starts a scan of `kind`.
    pub fn start(kind: ScanKind, c: &ScanConfig, own: u8) -> (r: ScanTransaction)
        ensures
            r.wf(),
            r.phase == Phase::Waiting,
            r.mode == mode_of(kind),
            is_start_plan(r.commands@, kind, *c, own),
            r.timeout == c.timeout,
            r.starts_session,
    {
        let mode = match kind {
            ScanKind::Legacy => ScanMode::Legacy,
            _ => ScanMode::Extended,
        };
        ScanTransaction {
            mode,
            commands: start_plan(kind, c, own),
            next: 0,
            phase: Phase::Waiting,
            guard: CleanupGuard::disarmed(mode),
            timeout: c.timeout,
            starts_session: true,
        }
    }

    /// A transaction that disables scanning of `mode` and then frees the claim.
    pub fn stop(mode: ScanMode) -> (r: ScanTransaction)
        ensures
            r.wf(),
            r.phase == Phase::Waiting,
            r.mode == mode,
            r.commands@ == seq![disable_command(mode)],
            !r.starts_session,
    {
        ScanTransaction {
            mode,
            commands: vec![disable_for(mode)],
            next: 0,
            phase: Phase::Waiting,
            guard: CleanupGuard::disarmed(mode),
            timeout: 0,
            starts_session: false,
        }
    }

    /// Tries to acquire the claim. On success the guard is armed and the first
    /// command is due; otherwise nothing changes and the caller waits.
    pub fn poll_acquire(&mut self, gate: &mut CommandState) -> (r: bool)
        requires
            old(self).wf(),
            old(self).phase == Phase::Waiting,
        ensures
            r == acquires(old(gate).state),
            final(gate).state == requested(old(gate).state),
            final(self).wf(),
            final(self).mode == old(self).mode,
            final(self).commands@ == old(self).commands@,
            final(self).timeout == old(self).timeout,
            final(self).starts_session == old(self).starts_session,
            final(self).next == 0,
            final(self).phase == if r { Phase::Running } else { Phase::Waiting },
    {
        let got = gate.try_request();
        if got {
            self.guard = CleanupGuard::new(self.mode);
            self.phase = Phase::Running;
        }
        got
    }

    /// The command to issue now.
    pub fn current_command(&self) -> (r: &Command)
        requires
            self.wf(),
            self.phase == Phase::Running,
        ensures
            *r == self.commands@[self.next as int],
    {
        &self.commands[self.next]
    }

    /// Records that the command in flight succeeded. Returns None while commands
    /// remain. After the last one the guard is defused: a scan start hands the
    /// gate on to the returned session, whose deadline is computed from the
    /// timeout; a stop gives the claim back.
    pub fn command_succeeded(&mut self, gate: &mut CommandState) -> (r: Option<Outcome>)
        requires
            old(self).wf(),
            old(self).phase == Phase::Running,
        ensures
            final(self).wf(),
            final(self).mode == old(self).mode,
            final(self).commands@ == old(self).commands@,
            final(self).timeout == old(self).timeout,
            final(self).starts_session == old(self).starts_session,
            final(self).next == old(self).next + 1,
            old(self).next + 1 < old(self).commands@.len() ==> {
                &&& r is None
                &&& final(self).phase == Phase::Running
                &&& final(gate).state == old(gate).state
            },
            old(self).next + 1 == old(self).commands@.len() ==> {
                &&& final(self).phase == Phase::Complete
                &&& old(self).starts_session ==> {
                    &&& final(gate).state == old(gate).state
                    &&& r matches Some(Outcome::Started(s))
                    &&& s.mode == old(self).mode
                    &&& !s.done
                    &&& (old(self).timeout == 0 <==> s.deadline is None)
                    &&& exists|now: u64| s.deadline == deadline_of(now, old(self).timeout)
                }
                &&& !old(self).starts_session ==> {
                    &&& final(gate).state == finished(old(gate).state)
                    &&& r matches Some(Outcome::Stopped)
                }
            },
    {
        let len = self.commands.len();
        self.next = self.next + 1;
        if self.next < len {
            return None;
        }
        self.guard.defuse();
        self.phase = Phase::Complete;
        if self.starts_session {
            let deadline = deadline_after(self.timeout);
            Some(Outcome::Started(ScanSession::new(self.mode, deadline)))
        } else {
            gate.finish();
            Some(Outcome::Stopped)
        }
    }

    /// Records that the command in flight failed: the guard releases the claim and
    /// the layer that failed is returned.
    pub fn command_failed(self, gate: &mut CommandState) -> (r: Stage)
        requires
            self.wf(),
            self.phase == Phase::Running,
        ensures
            r == stage_of(self.commands@[self.next as int]),
            final(gate).state == cancelled(old(gate).state, self.mode),
    {
        let stage = self.commands[self.next].stage();
        let ScanTransaction { guard, .. } = self;
        guard.fire(gate);
        stage
    }

    /// Abandons the transaction at any point, as when its task is cancelled. A
    /// transaction still waiting leaves the claim alone; one in flight releases it;
    /// one that completed has nothing to undo.
    pub fn abandon(self, gate: &mut CommandState)
        requires
            self.wf(),
        ensures
            final(gate).state == abandoned(self, old(gate).state),
    {
        let ScanTransaction { guard, .. } = self;
        guard.fire(gate);
    }
}

/// The scanning side of one radio: its gate and its own address kind.
#[derive(Debug)]
pub struct Scanner {
    pub gate: CommandState,
    pub own_addr_kind: Option<u8>,
}

impl Scanner {
    /// A scanner over a radio's gate, with its configured own address kind.
    pub fn new(gate: CommandState, own_addr_kind: Option<u8>) -> (r: Scanner)
        ensures
            r.gate == gate,
            r.own_addr_kind == own_addr_kind,
    {
        Scanner { gate, own_addr_kind }
    }

    /// Gives the claim back.
    pub fn into_inner(self) -> (r: CommandState)
        ensures
            r == self.gate,
    {
        self.gate
    }

    /// The own address kind, public when none is configured.
    pub fn own_address_kind(&self) -> (r: u8)
        ensures
            r == own_kind_of(self.own_addr_kind),
    {
        match self.own_addr_kind {
            Some(k) => k,
            None => public_addr_kind(),
        }
    }

    /// A transaction that starts legacy scanning.
    pub fn scan(&self, config: &ScanConfig) -> (r: ScanTransaction)
        ensures
            r.wf(),
            r.phase == Phase::Waiting,
            r.mode == ScanMode::Legacy,
            is_start_plan(r.commands@, ScanKind::Legacy, *config, own_kind_of(self.own_addr_kind)),
            r.timeout == config.timeout,
            r.starts_session,
    {
        ScanTransaction::start(ScanKind::Legacy, config, self.own_address_kind())
    }

    /// A transaction that starts extended scanning.
    pub fn scan_ext(&self, config: &ScanConfig) -> (r: ScanTransaction)
        ensures
            r.wf(),
            r.phase == Phase::Waiting,
            r.mode == ScanMode::Extended,
            is_start_plan(r.commands@, ScanKind::Extended, *config, own_kind_of(self.own_addr_kind)),
            r.timeout == config.timeout,
            r.starts_session,
    {
        ScanTransaction::start(ScanKind::Extended, config, self.own_address_kind())
    }

    /// A transaction that starts extended scanning and then syncs to the periodic
    /// advertising train that `param` names. The accept list is applied as for any
    /// scan; a failed sync rolls the whole start back, as any failed step does.
    pub fn scan_periodic(&self, config: &ScanConfig, param: SyncParams) -> (r: ScanTransaction)
        ensures
            r.wf(),
            r.phase == Phase::Waiting,
            r.mode == ScanMode::Extended,
            is_start_plan(
                r.commands@,
                ScanKind::Periodic(param),
                *config,
                own_kind_of(self.own_addr_kind),
            ),
            r.timeout == config.timeout,
            r.starts_session,
    {
        ScanTransaction::start(ScanKind::Periodic(param), config, self.own_address_kind())
    }

    /// A transaction that disables extended scanning. Disabling what is already
    /// disabled has no effect on the controller.
    pub fn stop_ext_scan(&self) -> (r: ScanTransaction)
        ensures
            r.wf(),
            r.phase == Phase::Waiting,
            r.mode == ScanMode::Extended,
            r.commands@ == seq![disable_command(ScanMode::Extended)],
            !r.starts_session,
    {
        ScanTransaction::stop(ScanMode::Extended)
    }

    /// A transaction that disables legacy scanning; it leaves extended scanning
    /// alone.
    pub fn stop_scan(&self) -> (r: ScanTransaction)
        ensures
            r.wf(),
            r.phase == Phase::Waiting,
            r.mode == ScanMode::Legacy,
            r.commands@ == seq![disable_command(ScanMode::Legacy)],
            !r.starts_session,
    {
        ScanTransaction::stop(ScanMode::Legacy)
    }
}

} // verus!
