use scan_gate::config::{filter_policy, Address, Command, FilterPolicy, ScanConfig, Stage, SyncParams};
use scan_gate::gate::{CommandState, GateState, ScanMode};
use scan_gate::guard::CleanupGuard;
use scan_gate::sequencer::{disable_for, Outcome, Phase, ScanTransaction, Scanner};
use scan_gate::session::{deadline_after, deadline_from, ScanSession};

fn config(active: bool, interval: u64, window: u64, list: Vec<Address>, timeout: u64) -> ScanConfig {
    ScanConfig { active, interval, window, phys: 1, filter_accept_list: list, timeout }
}

fn addr(n: u8) -> Address {
    Address { kind: 0, addr: [n, 1, 2, 3, 4, 5] }
}

/// Runs a transaction to its end against a controller that fails the command at
/// index `fail_at`, recording every command issued.
fn drive(
    mut tx: ScanTransaction,
    gate: &mut CommandState,
    fail_at: Option<usize>,
    log: &mut Vec<Command>,
) -> Result<Outcome, Stage> {
    assert!(tx.poll_acquire(gate));
    let mut i: usize = 0;
    loop {
        log.push(tx.current_command().clone());
        if fail_at == Some(i) {
            return Err(tx.command_failed(gate));
        }
        if let Some(out) = tx.command_succeeded(gate) {
            return Ok(out);
        }
        i += 1;
    }
}

fn ext_config() -> ScanConfig {
    config(true, 100_000, 50_000, vec![], 0)
}

#[test]
fn extended_scan_end_to_end() {
    let mut scanner = Scanner::new(CommandState::new(), None);
    let tx = scanner.scan_ext(&ext_config());
    let mut log = Vec::new();
    let out = drive(tx, &mut scanner.gate, None, &mut log).unwrap();
    assert_eq!(
        log,
        vec![
            Command::SetAcceptFilter { addresses: vec![] },
            Command::SetExtScanParams {
                own_addr_kind: 0,
                filter: FilterPolicy::Unfiltered,
                phys: 1,
                active: true,
                interval: 100_000,
                window: 50_000,
            },
            Command::SetExtScanEnable { enable: true, filter_duplicates: false, duration: 50_000, period: 100_000 },
        ]
    );
    let mut session = match out {
        Outcome::Started(s) => s,
        Outcome::Stopped => panic!("a scan start returned no session"),
    };
    assert_eq!(session.deadline(), None);
    assert_eq!(scanner.gate.state, GateState::Held);
    assert!(session.release(&mut scanner.gate));
    let pending = scanner.gate.settle().unwrap();
    assert_eq!(
        disable_for(pending),
        Command::SetExtScanEnable { enable: false, filter_duplicates: false, duration: 0, period: 0 }
    );
    assert!(!scanner.gate.is_requested());
}

#[test]
fn extended_scan_enable_failure() {
    let mut scanner = Scanner::new(CommandState::new(), None);
    let tx = scanner.scan_ext(&ext_config());
    let mut log = Vec::new();
    let err = drive(tx, &mut scanner.gate, Some(2), &mut log).unwrap_err();
    assert_eq!(err, Stage::Enable);
    assert_eq!(log.len(), 3);
    assert_eq!(scanner.gate.state, GateState::Releasing(ScanMode::Extended));
    assert_eq!(scanner.gate.settle(), Some(ScanMode::Extended));
    assert_eq!(scanner.gate.state, GateState::Idle);
}

#[test]
fn each_failing_layer_is_reported() {
    let sync = SyncParams { options: 0, adv_sid: 3, adv_addr: addr(9), skip: 0, sync_timeout: 100, sync_cte_kind: 0 };
    let expected = [Stage::AcceptFilter, Stage::Parameters, Stage::Enable, Stage::PeriodicSync];
    for (i, stage) in expected.iter().enumerate() {
        let mut scanner = Scanner::new(CommandState::new(), None);
        let tx = scanner.scan_periodic(&ext_config(), sync);
        let mut log = Vec::new();
        let err = drive(tx, &mut scanner.gate, Some(i), &mut log).unwrap_err();
        assert_eq!(err, *stage);
        assert_eq!(log.len(), i + 1);
        assert!(scanner.gate.settle().is_some());
        assert!(!scanner.gate.is_requested());
    }
}

#[test]
fn legacy_scan_commands() {
    let mut scanner = Scanner::new(CommandState::new(), Some(1));
    let tx = scanner.scan(&config(false, 200_000, 20_000, vec![addr(7)], 0));
    assert_eq!(tx.mode, ScanMode::Legacy);
    let mut log = Vec::new();
    let out = drive(tx, &mut scanner.gate, None, &mut log).unwrap();
    assert_eq!(
        log,
        vec![
            Command::SetAcceptFilter { addresses: vec![addr(7)] },
            Command::SetScanParams {
                active: false,
                interval: 200_000,
                window: 20_000,
                own_addr_kind: 1,
                filter: FilterPolicy::Filtered,
            },
            Command::SetScanEnable { enable: true, filter_duplicates: true },
        ]
    );
    match out {
        Outcome::Started(s) => assert_eq!(s.mode, ScanMode::Legacy),
        Outcome::Stopped => panic!("a scan start returned no session"),
    }
}

#[test]
fn periodic_scan_syncs_after_enable() {
    let sync = SyncParams { options: 1, adv_sid: 2, adv_addr: addr(4), skip: 5, sync_timeout: 300, sync_cte_kind: 0 };
    let scanner = Scanner::new(CommandState::new(), None);
    let tx = scanner.scan_periodic(&ext_config(), sync);
    assert_eq!(tx.commands.len(), 4);
    assert!(matches!(tx.commands[2], Command::SetExtScanEnable { enable: true, .. }));
    assert_eq!(tx.commands[3], Command::CreatePeriodicSync { params: sync });
}

#[test]
fn second_start_waits_for_the_first() {
    let mut gate = CommandState::new();
    let scanner = Scanner::new(CommandState::new(), None);
    let mut first = scanner.scan_ext(&ext_config());
    let mut second = scanner.scan(&ext_config());
    assert!(first.poll_acquire(&mut gate));
    assert!(!second.poll_acquire(&mut gate));
    assert_eq!(second.phase, Phase::Waiting);
    first.abandon(&mut gate);
    assert!(!second.poll_acquire(&mut gate));
    assert_eq!(gate.settle(), Some(ScanMode::Extended));
    assert!(second.poll_acquire(&mut gate));
    assert_eq!(second.phase, Phase::Running);
}

#[test]
fn cancellation_at_every_step_frees_the_gate() {
    for steps in 0..3usize {
        let mut gate = CommandState::new();
        let scanner = Scanner::new(CommandState::new(), None);
        let mut tx = scanner.scan_ext(&ext_config());
        assert!(tx.poll_acquire(&mut gate));
        for _ in 0..steps {
            assert!(tx.command_succeeded(&mut gate).is_none());
        }
        tx.abandon(&mut gate);
        assert_eq!(gate.settle(), Some(ScanMode::Extended));
        assert_eq!(gate.state, GateState::Idle);
    }
}

#[test]
fn abandoning_a_waiting_transaction_leaves_the_holder_alone() {
    let mut gate = CommandState::new();
    assert!(gate.try_request());
    let scanner = Scanner::new(CommandState::new(), None);
    let mut tx = scanner.scan(&ext_config());
    assert!(!tx.poll_acquire(&mut gate));
    tx.abandon(&mut gate);
    assert_eq!(gate.state, GateState::Held);
}

#[test]
fn release_fires_exactly_once() {
    let mut gate = CommandState::new();
    assert!(gate.try_request());
    let mut session = ScanSession::new(ScanMode::Legacy, Some(10));
    assert!(session.release(&mut gate));
    assert!(!session.release(&mut gate));
    assert!(!session.release(&mut gate));
    assert!(session.is_done());
    assert_eq!(gate.settle(), Some(ScanMode::Legacy));
    assert_eq!(gate.settle(), None);
    assert_eq!(gate.state, GateState::Idle);
}

#[test]
fn stop_when_idle_keeps_gate_free() {
    let mut scanner = Scanner::new(CommandState::new(), None);
    let tx = scanner.stop_ext_scan();
    let mut log = Vec::new();
    let out = drive(tx, &mut scanner.gate, None, &mut log).unwrap();
    assert!(matches!(out, Outcome::Stopped));
    assert_eq!(log, vec![Command::SetExtScanEnable { enable: false, filter_duplicates: false, duration: 0, period: 0 }]);
    assert_eq!(scanner.gate.state, GateState::Idle);

    let tx = scanner.stop_scan();
    let mut log = Vec::new();
    assert!(matches!(drive(tx, &mut scanner.gate, None, &mut log).unwrap(), Outcome::Stopped));
    assert_eq!(log, vec![Command::SetScanEnable { enable: false, filter_duplicates: false }]);
    assert_eq!(scanner.into_inner().state, GateState::Idle);
}

#[test]
fn failed_stop_is_rolled_back() {
    let mut scanner = Scanner::new(CommandState::new(), None);
    let tx = scanner.stop_scan();
    let mut log = Vec::new();
    assert_eq!(drive(tx, &mut scanner.gate, Some(0), &mut log).unwrap_err(), Stage::Enable);
    assert_eq!(scanner.gate.settle(), Some(ScanMode::Legacy));
    assert!(!scanner.gate.is_requested());
}

#[test]
fn deadline_values() {
    assert_eq!(deadline_from(1_000, 0), None);
    assert_eq!(deadline_from(1_000, 250), Some(1_250));
    assert_eq!(deadline_from(u64::MAX - 1, 5), Some(u64::MAX));
    assert_eq!(deadline_after(0), None);
    assert!(deadline_after(500).unwrap() >= 500);
}

#[test]
fn session_deadline_comes_from_timeout() {
    let mut scanner = Scanner::new(CommandState::new(), None);
    let tx = scanner.scan(&config(true, 100_000, 50_000, vec![], 40_000));
    let mut log = Vec::new();
    match drive(tx, &mut scanner.gate, None, &mut log).unwrap() {
        Outcome::Started(s) => {
            let d = s.deadline().unwrap();
            assert!(d >= 40_000);
            assert!(!s.is_expired(d - 1));
            assert!(s.is_expired(d));
        }
        Outcome::Stopped => panic!("a scan start returned no session"),
    }
}

#[test]
fn filter_policy_follows_accept_list() {
    assert_eq!(filter_policy(&vec![]), FilterPolicy::Unfiltered);
    assert_eq!(filter_policy(&vec![addr(1), addr(2)]), FilterPolicy::Filtered);
}

#[test]
fn guard_runs_only_while_armed() {
    let mut gate = CommandState::new();
    assert!(gate.try_request());
    let mut g = CleanupGuard::new(ScanMode::Extended);
    g.defuse();
    assert!(!g.fire(&mut gate));
    assert_eq!(gate.state, GateState::Held);
    assert!(CleanupGuard::new(ScanMode::Legacy).fire(&mut gate));
    assert_eq!(gate.state, GateState::Releasing(ScanMode::Legacy));
    let mut free = CommandState::new();
    free.cancel(ScanMode::Extended);
    assert_eq!(free.state, GateState::Idle);
}

#[test]
fn into_inner_returns_the_gate() {
    let mut gate = CommandState::new();
    assert!(gate.try_request());
    let scanner = Scanner::new(gate, Some(1));
    assert_eq!(scanner.own_address_kind(), 1);
    assert_eq!(scanner.into_inner().state, GateState::Held);
    assert_eq!(Scanner::new(CommandState::new(), None).own_address_kind(), 0);
}

#[test]
fn command_stages() {
    assert_eq!(Command::SetScanEnable { enable: true, filter_duplicates: true }.stage(), Stage::Enable);
    assert_eq!(Command::SetAcceptFilter { addresses: vec![] }.stage(), Stage::AcceptFilter);
    let mut tx = ScanTransaction::stop(ScanMode::Legacy);
    let mut gate = CommandState::new();
    assert!(tx.poll_acquire(&mut gate));
    assert_eq!(tx.current_command().stage(), Stage::Enable);
}
