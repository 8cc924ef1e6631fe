use stellar_daemon::events::{
    event_channel, event_to_message, event_type_tag, get_channel, state_to_string, Channel, Event, NetworkStats,
    RedisMessage, Stats,
};
use stellar_daemon::router::handlers::api_error::{backup_error_kind, transfer_error_kind, ApiError, ApiErrorKind};
use stellar_daemon::router::handlers::backup::check_restore_allowed;
use stellar_daemon::router::handlers::upload::{claims_expired, upload_server, UploadClaims};
use stellar_daemon::filesystem::disk::DiskUsage;
use stellar_daemon::router::handlers::files::{disk_usage_response, entry_kind, join_root, EntryKind};
use stellar_daemon::router::handlers::plugins::{
    control_action, default_max_size, default_timeout, validate_download_url, validate_server_path,
};
use stellar_daemon::router::handlers::system::usage_centi_percent;
use stellar_daemon::server::backup::BackupError;
use stellar_daemon::server::power::{PowerAction, ProcessState};
use stellar_daemon::server::schedule::{
    backup_status_request, check_completion, completion_target, next_task, parse_action, parse_trigger_mode, plan_registration, plan_task,
    registration_for, schedule_continues, Awaited, Directive, Registration, Schedule, ScheduleRun, ScheduleTask,
    TaskAction, TaskOutcome,
    TaskStep, TriggerMode,
};
use stellar_daemon::server::schedule_status::{current_timestamp, ScheduleStatus, ScheduleStatusTracker};
use stellar_daemon::server::transfer::TransferError;
use stellar_daemon::text::{decimal_string, text_is};

fn task(action: &str, trigger_mode: &str, time_offset: u64, sequence: u32) -> ScheduleTask {
    ScheduleTask {
        id: format!("t{}", sequence),
        action: action.to_string(),
        payload: None,
        time_offset,
        sequence,
        trigger_mode: trigger_mode.to_string(),
    }
}

fn backup_completed(successful: bool) -> Event {
    Event::BackupCompleted { uuid: "b1".to_string(), successful, checksum: Some("ab".to_string()), size: 10 }
}

#[test]
fn actions_and_trigger_modes_are_parsed() {
    assert_eq!(parse_action("power_start"), Some(TaskAction::PowerStart));
    assert_eq!(parse_action("power_stop"), Some(TaskAction::PowerStop));
    assert_eq!(parse_action("power_restart"), Some(TaskAction::PowerRestart));
    assert_eq!(parse_action("backup"), Some(TaskAction::Backup));
    assert_eq!(parse_action("command"), Some(TaskAction::Command));
    assert_eq!(parse_action("Backup"), None);
    assert_eq!(parse_action(""), None);
    assert_eq!(parse_trigger_mode("TIME_DELAY"), Some(TriggerMode::TimeDelay));
    assert_eq!(parse_trigger_mode("ON_COMPLETION"), Some(TriggerMode::OnCompletion));
    assert_eq!(parse_trigger_mode("on_completion"), None);
}

#[test]
fn on_completion_backup_waits_for_backup_completed() {
    let step = plan_task(&task("backup", "ON_COMPLETION", 0, 1));
    assert_eq!(
        step,
        TaskStep::RunAndWait { action: TaskAction::Backup, awaited: Awaited::BackupCompleted, timeout_secs: 600 }
    );
    assert_eq!(check_completion(Awaited::BackupCompleted, &Event::BackupStarted { uuid: "b1".to_string() }), None);
    assert_eq!(check_completion(Awaited::BackupCompleted, &Event::StateChange(ProcessState::Running)), None);
    assert_eq!(check_completion(Awaited::BackupCompleted, &backup_completed(true)), Some(true));
    assert_eq!(check_completion(Awaited::BackupCompleted, &backup_completed(false)), Some(false));
    let report = backup_status_request(true, Some("ab".to_string()), 10);
    assert!(report.successful);
    assert_eq!(report.checksum.as_deref(), Some("ab"));
    assert_eq!(report.checksum_type.as_deref(), Some("sha256"));
    assert_eq!(report.size, 10);
    assert_eq!(backup_status_request(false, None, 0).checksum_type, None);
    assert!(schedule_continues(TaskAction::Backup, TaskOutcome::Succeeded));
    assert!(!schedule_continues(TaskAction::Backup, TaskOutcome::Failed));
    assert!(!schedule_continues(TaskAction::Backup, TaskOutcome::TimedOut));
}

#[test]
fn power_tasks_wait_for_their_state() {
    assert_eq!(completion_target(TaskAction::PowerStart), Awaited::State(ProcessState::Running));
    assert_eq!(completion_target(TaskAction::PowerRestart), Awaited::State(ProcessState::Running));
    assert_eq!(completion_target(TaskAction::PowerStop), Awaited::State(ProcessState::Offline));
    assert_eq!(completion_target(TaskAction::Command), Awaited::Nothing);
    let running = Awaited::State(ProcessState::Running);
    assert_eq!(check_completion(running, &Event::StateChange(ProcessState::Starting)), None);
    assert_eq!(check_completion(running, &Event::StateChange(ProcessState::Running)), Some(true));
    assert_eq!(check_completion(running, &backup_completed(true)), None);
    assert_eq!(check_completion(Awaited::Nothing, &Event::ServerSynced), None);
}

#[test]
fn task_steps_and_failure_policy() {
    assert_eq!(
        plan_task(&task("command", "TIME_DELAY", 30, 1)),
        TaskStep::RunAfterDelay { delay_secs: 30, action: TaskAction::Command }
    );
    assert_eq!(
        plan_task(&task("power_stop", "ON_COMPLETION", 30, 1)),
        TaskStep::RunAndWait {
            action: TaskAction::PowerStop,
            awaited: Awaited::State(ProcessState::Offline),
            timeout_secs: 600
        }
    );
    assert_eq!(plan_task(&task("command", "LATER", 0, 1)), TaskStep::Abort);
    assert_eq!(plan_task(&task("reboot", "TIME_DELAY", 0, 1)), TaskStep::Abort);
    assert!(schedule_continues(TaskAction::Command, TaskOutcome::Failed));
    assert!(schedule_continues(TaskAction::Command, TaskOutcome::TimedOut));
    assert!(!schedule_continues(TaskAction::PowerStart, TaskOutcome::Failed));
}

#[test]
fn tasks_run_in_ascending_sequence() {
    let tasks = vec![
        task("command", "TIME_DELAY", 0, 3),
        task("backup", "ON_COMPLETION", 0, 1),
        task("command", "TIME_DELAY", 0, 3),
        task("power_stop", "ON_COMPLETION", 0, 2),
    ];
    let mut done = vec![false; 4];
    let mut order = Vec::new();
    while let Some(i) = next_task(&tasks, &done) {
        order.push(i);
        done[i] = true;
    }
    assert_eq!(order, vec![1, 3, 0, 2]);
    assert_eq!(next_task(&Vec::new(), &Vec::new()), None);
}

#[test]
fn schedules_are_registered_by_cron_validity() {
    let schedule = |cron: &str, enabled: bool| Schedule {
        id: "nightly-a".to_string(),
        name: "nightly".to_string(),
        cron_expression: cron.to_string(),
        enabled,
        tasks: vec![],
    };
    assert_eq!(plan_registration(&schedule("0 3 * * *", true)), Registration::StoreAndRegister);
    assert_eq!(plan_registration(&schedule("0 3 * * *", false)), Registration::Store);
    assert_eq!(plan_registration(&schedule("not a cron", true)), Registration::Refuse);
    assert_eq!(plan_registration(&schedule("99 99 * * *", true)), Registration::Refuse);
    assert_eq!(registration_for(false, true), Registration::Refuse);
    assert_eq!(registration_for(true, true), Registration::StoreAndRegister);
    assert_eq!(registration_for(true, false), Registration::Store);
}

fn status(id: &str) -> ScheduleStatus {
    ScheduleStatus {
        id: id.to_string(),
        name: "nightly".to_string(),
        is_executing: false,
        executing_task_index: None,
        last_execution_time: None,
        next_execution_time: Some(99),
        enabled: true,
        last_result: None,
    }
}

#[test]
fn schedule_status_is_tracked() {
    let mut tracker = ScheduleStatusTracker::new();
    assert!(tracker.get_status("nightly-a").is_none());
    tracker.set_executing("nightly-a", 0);
    assert!(tracker.get_status("nightly-a").is_none());
    tracker.update_status("nightly-a".to_string(), status("nightly-a"));
    tracker.update_status("nightly-b".to_string(), status("nightly-b"));
    tracker.set_executing_at("nightly-a", 2, 1_700_000_000);
    {
        let s = tracker.get_status("nightly-a").unwrap();
        assert!(s.is_executing);
        assert_eq!(s.executing_task_index, Some(2));
        assert_eq!(s.last_execution_time, Some(1_700_000_000));
        assert_eq!(s.next_execution_time, Some(99));
    }
    assert!(!tracker.get_status("nightly-b").unwrap().is_executing);
    tracker.set_finished("nightly-a", true);
    {
        let s = tracker.get_status("nightly-a").unwrap();
        assert!(!s.is_executing);
        assert_eq!(s.executing_task_index, None);
        assert_eq!(s.last_result.as_deref(), Some("success"));
        assert_eq!(s.last_execution_time, Some(1_700_000_000));
    }
    tracker.set_finished("nightly-b", false);
    assert_eq!(tracker.get_status("nightly-b").unwrap().last_result.as_deref(), Some("failed"));
    tracker.set_executing("nightly-b", 1);
    assert_eq!(tracker.get_status("nightly-b").unwrap().executing_task_index, Some(1));
    assert_eq!(tracker.get_all_statuses().len(), 2);
    tracker.update_status("nightly-a".to_string(), status("nightly-a"));
    assert_eq!(tracker.get_all_statuses().len(), 2);
    assert_eq!(tracker.get_status("nightly-a").unwrap().last_result, None);
    tracker.clear();
    assert!(tracker.get_status("nightly-a").is_none());
    assert_eq!(tracker.get_all_statuses().len(), 0);
}

#[test]
fn events_map_to_channels() {
    assert_eq!(get_channel("stellar", "abc", Channel::State), "stellar:server:abc:state");
    assert_eq!(get_channel("stellar", "abc", Channel::Stats), "stellar:server:abc:stats");
    assert_eq!(get_channel("p", "1", Channel::Console), "p:server:1:console");
    assert_eq!(get_channel("p", "1", Channel::Install), "p:server:1:install");
    assert_eq!(get_channel("p", "1", Channel::Backup), "p:server:1:backup");
    assert_eq!(get_channel("p", "1", Channel::Schedule), "p:server:1:schedule");
    assert_eq!(event_channel(&Event::StateChange(ProcessState::Running)), Some(Channel::State));
    assert_eq!(event_channel(&Event::ConsoleOutput(vec![])), Some(Channel::Console));
    assert_eq!(event_channel(&Event::InstallStarted), Some(Channel::Install));
    assert_eq!(event_channel(&Event::InstallOutput(vec![])), Some(Channel::Install));
    assert_eq!(event_channel(&Event::InstallCompleted { successful: true }), Some(Channel::Install));
    assert_eq!(event_channel(&backup_completed(true)), Some(Channel::Backup));
    assert_eq!(
        event_channel(&Event::ScheduleExecuting { schedule_id: "s".to_string(), task_index: None }),
        Some(Channel::Schedule)
    );
    for quiet in [
        Event::BackupRestoreStarted { uuid: "b".to_string() },
        Event::BackupRestoreCompleted { uuid: "b".to_string(), successful: true },
        Event::TransferStarted,
        Event::TransferProgress { progress_centi: 5000 },
        Event::TransferCompleted { successful: true },
        Event::ServerSynced,
        Event::ConfigurationUpdated,
    ] {
        assert_eq!(event_channel(&quiet), None);
        assert_eq!(event_type_tag(&quiet), None);
        assert!(event_to_message(&"abc".to_string(), &quiet).is_none());
    }
    assert_eq!(event_type_tag(&Event::StateChange(ProcessState::Offline)), Some("state_change"));
    assert_eq!(event_type_tag(&backup_completed(true)), Some("backup_completed"));
    assert_eq!(event_type_tag(&Event::InstallOutput(vec![])), Some("install_output"));
    assert_eq!(state_to_string(ProcessState::Stopping), "stopping");
}

#[test]
fn events_become_messages() {
    let id = "abc".to_string();
    match event_to_message(&id, &Event::StateChange(ProcessState::Running)) {
        Some(RedisMessage::StateChange { server_id, state }) => {
            assert_eq!((server_id.as_str(), state.as_str()), ("abc", "running"));
        }
        other => panic!("unexpected {:?}", other),
    }
    match event_to_message(&id, &Event::ConsoleOutput(b"hi".to_vec())) {
        Some(RedisMessage::ConsoleOutput { server_id, output }) => {
            assert_eq!((server_id.as_str(), output.as_str()), ("abc", "hi"));
        }
        other => panic!("unexpected {:?}", other),
    }
    match event_to_message(&id, &backup_completed(false)) {
        Some(RedisMessage::BackupCompleted { server_id, backup_id, successful, checksum, size }) => {
            assert_eq!(server_id, "abc");
            assert_eq!(backup_id, "b1");
            assert!(!successful);
            assert_eq!(checksum.as_deref(), Some("ab"));
            assert_eq!(size, 10);
        }
        other => panic!("unexpected {:?}", other),
    }
    let stats = Stats {
        memory_bytes: 1,
        memory_limit_bytes: 2,
        cpu_absolute_milli: 80_000,
        network: NetworkStats { rx_bytes: 3, tx_bytes: 4 },
        uptime: 5,
        disk_bytes: 6,
        disk_limit_bytes: 7,
    };
    match event_to_message(&id, &Event::Stats(stats)) {
        Some(RedisMessage::Stats { server_id, stats: s }) => assert_eq!((server_id.as_str(), s), ("abc", stats)),
        other => panic!("unexpected {:?}", other),
    }
    match event_to_message(&id, &Event::ScheduleExecuting { schedule_id: "nightly-a".to_string(), task_index: Some(2) }) {
        Some(RedisMessage::ScheduleExecuting { schedule_id, task_index, .. }) => {
            assert_eq!((schedule_id.as_str(), task_index), ("nightly-a", Some(2)));
        }
        other => panic!("unexpected {:?}", other),
    }
}

#[test]
fn output_that_is_not_text_is_decoded_leniently() {
    match event_to_message(&"abc".to_string(), &Event::InstallOutput(vec![b'o', b'k', 0xff])) {
        Some(RedisMessage::InstallOutput { output, .. }) => assert_eq!(output, "ok\u{fffd}"),
        other => panic!("unexpected {:?}", other),
    }
}

#[test]
fn a_run_hands_out_tasks_until_one_fails() {
    let tasks = vec![
        task("command", "TIME_DELAY", 5, 2),
        task("backup", "ON_COMPLETION", 0, 1),
        task("power_start", "ON_COMPLETION", 0, 3),
    ];
    let mut run = ScheduleRun::start(tasks.len());
    assert_eq!(
        run.advance(&tasks, TaskOutcome::Succeeded),
        Directive::RunTask {
            index: 1,
            step: TaskStep::RunAndWait { action: TaskAction::Backup, awaited: Awaited::BackupCompleted, timeout_secs: 600 }
        }
    );
    assert_eq!(
        run.advance(&tasks, TaskOutcome::Succeeded),
        Directive::RunTask { index: 0, step: TaskStep::RunAfterDelay { delay_secs: 5, action: TaskAction::Command } }
    );
    // a failed command does not end the run
    assert!(matches!(run.advance(&tasks, TaskOutcome::Failed), Directive::RunTask { index: 2, .. }));
    assert_eq!(run.advance(&tasks, TaskOutcome::Succeeded), Directive::Finish { successful: true });

    let mut failing = ScheduleRun::start(tasks.len());
    assert!(matches!(failing.advance(&tasks, TaskOutcome::Succeeded), Directive::RunTask { index: 1, .. }));
    assert_eq!(failing.advance(&tasks, TaskOutcome::TimedOut), Directive::Finish { successful: false });

    let odd = vec![task("reboot", "TIME_DELAY", 0, 1)];
    assert_eq!(ScheduleRun::start(1).advance(&odd, TaskOutcome::Succeeded), Directive::Finish { successful: false });
    assert_eq!(ScheduleRun::start(0).advance(&Vec::new(), TaskOutcome::Failed), Directive::Finish { successful: true });
}

#[test]
fn download_urls_and_server_paths_are_validated() {
    assert!(validate_download_url("https://cdn.example.com/plugin.jar").is_ok());
    assert_eq!(validate_download_url("http://cdn.example.com/x").unwrap_err().kind, ApiErrorKind::BadRequest);
    assert_eq!(
        validate_download_url("http://cdn.example.com/x").unwrap_err().message,
        "Only HTTPS downloads are allowed"
    );
    for url in [
        "https://localhost/x",
        "https://127.0.0.1/x",
        "https://0.0.0.0/x",
        "https://192.168.1.5/x",
        "https://10.0.0.1/x",
        "https://172.16.0.1/x",
        "https://example.com/v10.2/x",
    ] {
        let err = validate_download_url(url).unwrap_err();
        assert_eq!(err.message, "Downloads from private networks are not allowed");
        assert_eq!(err.status_code(), 400);
    }
    assert!(validate_server_path("plugins/a.jar").is_ok());
    assert!(validate_server_path("").is_ok());
    assert!(validate_server_path("../a").is_err());
    assert!(validate_server_path("a/..b").is_err());
    assert!(validate_server_path("/etc/passwd").is_err());
    assert_eq!(default_max_size(), 5 * 1024 * 1024 * 1024);
    assert_eq!(default_timeout(), 30000);
    assert_eq!(control_action("start"), Some(PowerAction::Start));
    assert_eq!(control_action("stop"), Some(PowerAction::Stop));
    assert_eq!(control_action("restart"), Some(PowerAction::Restart));
    assert_eq!(control_action("kill"), Some(PowerAction::Kill));
    assert_eq!(control_action("pause"), None);
}

#[test]
fn errors_map_to_http_statuses() {
    assert_eq!(transfer_error_kind(&TransferError::ServerRunning), ApiErrorKind::Conflict);
    assert_eq!(transfer_error_kind(&TransferError::AlreadyTransferring), ApiErrorKind::Conflict);
    assert_eq!(transfer_error_kind(&TransferError::ChecksumMismatch), ApiErrorKind::BadRequest);
    assert_eq!(transfer_error_kind(&TransferError::Http("x".to_string())), ApiErrorKind::Internal);
    assert_eq!(backup_error_kind(&BackupError::NotFound("b".to_string())), ApiErrorKind::NotFound);
    assert_eq!(backup_error_kind(&BackupError::ServerRunning), ApiErrorKind::Conflict);
    assert_eq!(backup_error_kind(&BackupError::Io("x".to_string())), ApiErrorKind::Internal);
    let statuses: Vec<u16> = [
        ApiErrorKind::BadRequest,
        ApiErrorKind::Forbidden,
        ApiErrorKind::NotFound,
        ApiErrorKind::Conflict,
        ApiErrorKind::Internal,
    ]
    .iter()
    .map(|k| ApiError { kind: *k, message: String::new() }.status_code())
    .collect();
    assert_eq!(statuses, vec![400, 403, 404, 409, 500]);
}

#[test]
fn restore_and_upload_requests() {
    assert!(check_restore_allowed(ProcessState::Offline).is_ok());
    let err = check_restore_allowed(ProcessState::Running).unwrap_err();
    assert_eq!(err.status_code(), 400);
    assert_eq!(err.message, "Server must be stopped before restoring a backup");
    assert_eq!(upload_server(Some("a".to_string()), Some("b".to_string())).unwrap(), "a");
    assert_eq!(upload_server(None, Some("b".to_string())).unwrap(), "b");
    assert_eq!(upload_server(None, None).unwrap_err().kind, ApiErrorKind::BadRequest);
    let claims = UploadClaims { server_uuid: "a".to_string(), directory: None, exp: 100 };
    assert!(claims_expired(&claims, 101));
    assert!(!claims_expired(&claims, 100));
}

#[test]
fn file_requests() {
    assert_eq!(entry_kind("file"), Some(EntryKind::File));
    assert_eq!(entry_kind("directory"), Some(EntryKind::Directory));
    assert_eq!(entry_kind("symlink"), None);
    assert_eq!(join_root("/mods", "a.jar"), "/mods/a.jar");
    assert_eq!(join_root("/mods//", "a.jar"), "/mods/a.jar");
    assert_eq!(join_root("", "a.jar"), "a.jar");
    assert_eq!(join_root("/", "a.jar"), "/a.jar");
    assert!(DiskUsage::new(90, 100).has_space_for(10));
    assert!(!DiskUsage::new(90, 100).has_space_for(11));
    assert!(DiskUsage::new(u64::MAX, 0).has_space_for(u64::MAX));
    assert!(!DiskUsage::new(u64::MAX, u64::MAX).has_space_for(1));
    assert_eq!(DiskUsage::calculate(&vec![1, 2, 3]), Some(6));
    assert_eq!(DiskUsage::calculate(&Vec::new()), Some(0));
    assert_eq!(DiskUsage::calculate(&vec![u64::MAX, 1]), None);
    let response = disk_usage_response(DiskUsage::new(5, 10));
    assert_eq!((response.used_bytes, response.limit_bytes, response.path.as_str()), (5, 10, "/"));
    assert_eq!(usage_centi_percent(1, 3), 3333);
    assert_eq!(usage_centi_percent(5, 0), 0);
}

#[test]
fn numbers_as_text() {
    assert_eq!(decimal_string(0), "0");
    assert_eq!(decimal_string(8080), "8080");
    assert_eq!(decimal_string(u64::MAX), "18446744073709551615");
    assert!(text_is("a", "a"));
    assert!(!text_is("a", "A"));
}

#[test]
fn timestamps_are_whole_seconds_of_the_clock() {
    let before = std::time::SystemTime::now().duration_since(std::time::UNIX_EPOCH).unwrap().as_secs();
    let now = current_timestamp();
    let after = std::time::SystemTime::now().duration_since(std::time::UNIX_EPOCH).unwrap().as_secs();
    assert!(before <= now && now <= after);
    assert!(now <= u64::MAX / 1000);
}
