use stellar_daemon::events::Event;
use stellar_daemon::server::crash::{backoff, CrashDecision, CrashHandler};
use stellar_daemon::server::install::InstallError;
use stellar_daemon::server::manager::Manager;
use stellar_daemon::server::server::Server;
use stellar_daemon::server::transfer::TransferError;
use stellar_daemon::server::power::{
    check_start_gate, decide_action, is_crash, next_state, stop_follow_up, Gates, PowerAction, PowerError, PowerEvent, PowerMachine,
    PowerPlan, ProcessState,
};

fn open_gates() -> Gates {
    Gates { installing: false, transferring: false, suspended: false, restoring: false }
}

#[test]
fn transition_table() {
    let g = open_gates();
    let (offline, starting, running, stopping) =
        (ProcessState::Offline, ProcessState::Starting, ProcessState::Running, ProcessState::Stopping);
    assert_eq!(decide_action(offline, g, PowerAction::Start), Ok(PowerPlan::Start));
    for s in [starting, running, stopping] {
        assert_eq!(decide_action(s, g, PowerAction::Start), Err(PowerError::Conflict));
    }
    assert_eq!(decide_action(running, g, PowerAction::Stop), Ok(PowerPlan::Stop));
    assert_eq!(decide_action(offline, g, PowerAction::Stop), Err(PowerError::Conflict));
    assert_eq!(decide_action(starting, g, PowerAction::Stop), Err(PowerError::Conflict));
    assert_eq!(decide_action(running, g, PowerAction::Restart), Ok(PowerPlan::StopThenStart));
    assert_eq!(decide_action(offline, g, PowerAction::Restart), Ok(PowerPlan::Start));
    assert_eq!(decide_action(stopping, g, PowerAction::Restart), Err(PowerError::Conflict));
    assert_eq!(decide_action(offline, g, PowerAction::Kill), Err(PowerError::Conflict));
    for s in [starting, running, stopping] {
        assert_eq!(decide_action(s, g, PowerAction::Kill), Ok(PowerPlan::Kill));
    }
}

#[test]
fn start_is_gated() {
    let offline = ProcessState::Offline;
    let g = open_gates();
    assert_eq!(check_start_gate(g), None);
    assert_eq!(decide_action(offline, Gates { installing: true, ..g }, PowerAction::Start), Err(PowerError::Installing));
    assert_eq!(decide_action(offline, Gates { transferring: true, ..g }, PowerAction::Start), Err(PowerError::Transferring));
    assert_eq!(decide_action(offline, Gates { suspended: true, ..g }, PowerAction::Start), Err(PowerError::Suspended));
    assert_eq!(decide_action(offline, Gates { restoring: true, ..g }, PowerAction::Start), Err(PowerError::Restoring));
    assert_eq!(decide_action(offline, Gates { suspended: true, ..g }, PowerAction::Restart), Err(PowerError::Suspended));
    // stop and kill are not gated
    let all = Gates { installing: true, transferring: true, suspended: true, restoring: true };
    assert_eq!(decide_action(ProcessState::Running, all, PowerAction::Stop), Ok(PowerPlan::Stop));
    assert_eq!(decide_action(ProcessState::Running, all, PowerAction::Kill), Ok(PowerPlan::Kill));
}

#[test]
fn machine_serialises_actions_and_tracks_state() {
    let mut m = PowerMachine::new();
    assert_eq!(m.state(), ProcessState::Offline);
    assert_eq!(m.begin(open_gates(), PowerAction::Start), Ok(PowerPlan::Start));
    assert!(m.is_busy());
    assert_eq!(m.begin(open_gates(), PowerAction::Kill), Err(PowerError::Busy));
    assert_eq!(m.on_event(PowerEvent::StartIssued), ProcessState::Starting);
    assert_eq!(m.state(), ProcessState::Starting);
    assert_eq!(m.on_event(PowerEvent::Attached), ProcessState::Running);
    m.finish();
    assert!(!m.is_busy());
    assert_eq!(m.begin(open_gates(), PowerAction::Start), Err(PowerError::Conflict));
    assert!(!m.is_busy());
    assert_eq!(m.begin(open_gates(), PowerAction::Stop), Ok(PowerPlan::Stop));
    assert_eq!(m.on_event(PowerEvent::StopIssued), ProcessState::Stopping);
    assert_eq!(m.on_event(PowerEvent::Exited), ProcessState::Offline);
    m.finish();
    assert_eq!(m.state(), ProcessState::Offline);
    assert_eq!(next_state(PowerEvent::Exited), ProcessState::Offline);
}

#[test]
fn crash_is_an_exit_while_running_without_stop() {
    assert!(is_crash(ProcessState::Running, false));
    assert!(!is_crash(ProcessState::Running, true));
    assert!(!is_crash(ProcessState::Stopping, false));
    assert!(!is_crash(ProcessState::Offline, false));
}

#[test]
fn backoff_doubles_up_to_a_minute() {
    let delays: Vec<u64> = (0..9).map(backoff).collect();
    assert_eq!(delays, vec![1000, 2000, 4000, 8000, 16000, 32000, 60000, 60000, 60000]);
    assert_eq!(backoff(usize::MAX), 60000);
}

#[test]
fn crash_loop_gives_up_after_the_limit() {
    let mut h = CrashHandler::with_default_limit();
    for k in 0..5u64 {
        assert_eq!(h.on_crash(100_000 + k), CrashDecision::Restart { delay_ms: 1000 << k });
    }
    assert_eq!(h.on_crash(100_010), CrashDecision::Failed);
    assert_eq!(h.crashes_in_window(100_010), 5);
    // the window slides: a minute later the early crashes are forgotten
    assert_eq!(h.on_crash(160_002), CrashDecision::Restart { delay_ms: 4000 });
    assert_eq!(h.crashes_in_window(160_002), 3);
    h.reset();
    assert_eq!(h.on_crash(160_003), CrashDecision::Restart { delay_ms: 1000 });
}

#[test]
fn a_crash_per_day_never_gives_up() {
    let mut h = CrashHandler::new(1);
    for day in 0..10u64 {
        assert_eq!(h.on_crash(day * 86_400_000), CrashDecision::Restart { delay_ms: 1000 });
    }
    assert_eq!(h.on_crash(9 * 86_400_000 + 59_999), CrashDecision::Failed);
    assert_eq!(h.on_crash(9 * 86_400_000 + 60_000), CrashDecision::Restart { delay_ms: 1000 });
    let mut none = CrashHandler::new(0);
    assert_eq!(none.on_crash(5), CrashDecision::Failed);
}

#[test]
fn server_gates_start_while_flagged() {
    let mut server = Server::new("abc".to_string());
    assert_eq!(server.uuid(), "abc");
    assert_eq!(server.process_state(), ProcessState::Offline);
    assert!(matches!(server.begin_install(), Ok(Event::InstallStarted)));
    assert!(matches!(server.begin_install(), Err(InstallError::AlreadyInstalling)));
    assert_eq!(server.handle_power_action(PowerAction::Start), Err(PowerError::Installing));
    assert!(matches!(server.end_install(true), Event::InstallCompleted { successful: true }));
    server.set_suspended(true);
    assert_eq!(server.handle_power_action(PowerAction::Start), Err(PowerError::Suspended));
    server.set_suspended(false);
    server.set_restoring(true);
    assert_eq!(server.handle_power_action(PowerAction::Start), Err(PowerError::Restoring));
    server.set_restoring(false);
    assert_eq!(server.handle_power_action(PowerAction::Start), Ok(PowerPlan::Start));
    assert_eq!(server.handle_power_action(PowerAction::Kill), Err(PowerError::Busy));
    assert!(matches!(server.on_power_event(PowerEvent::StartIssued), Event::StateChange(ProcessState::Starting)));
    assert!(matches!(server.on_power_event(PowerEvent::Attached), Event::StateChange(ProcessState::Running)));
    server.finish_power_action();
    assert_eq!(server.process_state(), ProcessState::Running);
}

#[test]
fn server_transfers_only_when_offline() {
    let mut server = Server::new("abc".to_string());
    assert!(matches!(server.begin_transfer(), Ok(Event::TransferStarted)));
    assert!(server.gates().transferring);
    assert!(matches!(server.begin_transfer(), Err(TransferError::AlreadyTransferring)));
    assert_eq!(server.handle_power_action(PowerAction::Start), Err(PowerError::Transferring));
    assert!(matches!(server.cancel_transfer(), Some(Event::TransferCompleted { successful: false })));
    assert!(server.cancel_transfer().is_none());
    assert!(matches!(server.begin_transfer(), Ok(Event::TransferStarted)));
    assert!(matches!(server.end_transfer(false), Event::TransferCompleted { successful: false }));
    assert!(!server.gates().transferring);
    assert_eq!(server.handle_power_action(PowerAction::Start), Ok(PowerPlan::Start));
    server.on_power_event(PowerEvent::StartIssued);
    server.finish_power_action();
    assert!(matches!(server.begin_transfer(), Err(TransferError::ServerRunning)));
}

#[test]
fn a_stop_that_times_out_is_followed_by_a_kill() {
    assert_eq!(stop_follow_up(true), None);
    assert_eq!(stop_follow_up(false), Some(PowerPlan::Kill));
}

#[test]
fn manager_keeps_one_server_per_id() {
    let mut manager = Manager::new();
    assert!(manager.add(Server::new("a".to_string())));
    assert!(manager.add(Server::new("b".to_string())));
    assert!(!manager.add(Server::new("a".to_string())));
    assert_eq!(manager.count(), 2);
    assert_eq!(manager.get("b").unwrap().uuid(), "b");
    assert!(manager.get("c").is_none());
    let ids: Vec<String> = manager.all().iter().map(|s| s.uuid().clone()).collect();
    assert_eq!(ids, vec!["a".to_string(), "b".to_string()]);
    let mut a = manager.remove("a").unwrap();
    assert!(manager.get("a").is_none());
    assert!(manager.remove("a").is_none());
    assert_eq!(a.handle_power_action(PowerAction::Start), Ok(PowerPlan::Start));
    assert!(manager.add(a));
    assert!(manager.get("a").unwrap().gates() == open_gates());
}
