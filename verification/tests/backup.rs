use stellar_daemon::checksum::{calculate_checksum, checksum_matches};
use stellar_daemon::server::backup::{
    any_pattern_matches, backup_file_name, backup_info, backup_result, backup_uuid_of, compression_level,
    destination_is_safe, entry_is_safe, is_ignored, tally, BackupCompressionLevel, ExtractionReport,
};
use stellar_daemon::rate_limiter::WriteAccount;
use stellar_daemon::router::handlers::transfer::{
    announced_checksum, archive_response, cancelled_response, received_response, should_upload, transfer_id_of,
    transfer_status,
};
use stellar_daemon::server::power::ProcessState;
use stellar_daemon::server::transfer::{
    authorization_header, check_transfer_allowed, progress_centi, progress_due, receive_plan, receive_result,
    transfer_archive_name, transfer_archive_result, upload_headers, upload_succeeded, upload_url, ReceivePlan, TransferError,
    TransferLock,
};

const EMPTY_SHA256: &str = "e3b0c44298fc1c149afbf4c8996fb92427ae41e4649b934ca495991b7852b855";
const ABC_SHA256: &str = "ba7816bf8f01cfea414140de5dae2223b00361a396177a9cb410ff61f20015ad";

#[test]
fn checksum_is_lowercase_hex_sha256() {
    assert_eq!(calculate_checksum(b""), EMPTY_SHA256);
    assert_eq!(calculate_checksum(b"abc"), ABC_SHA256);
    assert!(checksum_matches(b"abc", &ABC_SHA256.to_string()));
    assert!(!checksum_matches(b"abd", &ABC_SHA256.to_string()));
    assert!(!checksum_matches(b"abc", &ABC_SHA256.to_uppercase()));
}

#[test]
fn backup_result_describes_the_written_file() {
    let r = backup_result("/backups/s/b.tar.gz".to_string(), b"abc");
    assert_eq!(r.path, "/backups/s/b.tar.gz");
    assert_eq!(r.size, 3);
    assert_eq!(r.checksum, ABC_SHA256);
    let t = transfer_archive_result("/tmp/t.tar.gz".to_string(), b"");
    assert_eq!((t.size, t.checksum.as_str()), (0, EMPTY_SHA256));
}

#[test]
fn backup_names_and_listing() {
    assert_eq!(backup_file_name("1234-abcd"), "1234-abcd.tar.gz");
    assert_eq!(backup_uuid_of("1234-abcd.tar.gz"), Some("1234-abcd".to_string()));
    assert_eq!(backup_uuid_of(".tar.gz"), Some(String::new()));
    assert_eq!(backup_uuid_of("1234.tar"), None);
    assert_eq!(backup_uuid_of("1234.gz"), None);
    assert_eq!(backup_uuid_of("1234.tar.gz.part"), None);
    assert_eq!(backup_uuid_of("tar.gz"), None);
    assert_eq!(backup_uuid_of("bäckup.tar.gz"), Some("bäckup".to_string()));
    let info = backup_info("b1.tar.gz", 10, Some(1_700_000_000)).unwrap();
    assert_eq!((info.uuid.as_str(), info.size, info.created_at), ("b1", 10, 1_700_000_000));
    assert_eq!(backup_info("b1.tar.gz", 10, None).unwrap().created_at, 0);
    assert!(backup_info("notes.txt", 10, None).is_none());
    assert_eq!(compression_level(BackupCompressionLevel::Fast), 1);
    assert_eq!(compression_level(BackupCompressionLevel::Default), 6);
    assert_eq!(compression_level(BackupCompressionLevel::Best), 9);
}

#[test]
fn ignore_patterns_are_globs() {
    let patterns = vec!["*.log".to_string(), "cache/*".to_string(), "a[".to_string()];
    assert!(is_ignored(&patterns, "server.log"));
    assert!(is_ignored(&patterns, "cache/chunk.bin"));
    assert!(!is_ignored(&patterns, "world/level.dat"));
    assert!(!is_ignored(&patterns, "a["));
    assert!(!is_ignored(&Vec::new(), "server.log"));
    assert!(any_pattern_matches(&vec![None, Some(false), Some(true)]));
    assert!(!any_pattern_matches(&vec![None, Some(false)]));
}

#[test]
fn zip_slip_entries_are_rejected_and_counted() {
    assert!(!entry_is_safe(b"../../etc/passwd"));
    assert!(!entry_is_safe(b"/etc/passwd"));
    assert!(!entry_is_safe(b"a/../b"));
    assert!(!entry_is_safe(b"a/.."));
    assert!(!entry_is_safe(b".."));
    assert!(entry_is_safe(b"world/level.dat"));
    assert!(entry_is_safe(b"a..b/c"));
    assert!(entry_is_safe(b"..a/b.."));
    assert!(entry_is_safe(b".../x"));
    assert!(entry_is_safe(b""));
    assert!(destination_is_safe(b"/srv/data", b"/srv/data/world", false));
    assert!(!destination_is_safe(b"/srv/data", b"/srv/data2/world", false));
    assert!(!destination_is_safe(b"/srv/data", b"/etc", false));
    assert!(!destination_is_safe(b"/srv/data", b"/srv/data", false));
    assert!(destination_is_safe(b"/srv/data", b"/srv/data", true));
    assert!(!destination_is_safe(b"/srv/data", b"/srv", true));

    let mut report = ExtractionReport::new();
    for entry in [&b"../../etc/passwd"[..], &b"world/level.dat"[..]] {
        report = report.record(entry_is_safe(entry), true);
    }
    report = report.record(true, false);
    assert_eq!((report.entries, report.extracted, report.rejected), (3, 1, 2));
    let only = ExtractionReport::new().record(entry_is_safe(b"../../etc/passwd"), destination_is_safe(b"/srv/data", b"/etc", false));
    assert_eq!((only.extracted, only.rejected), (0, 1));
}

#[test]
fn transfer_requests() {
    assert_eq!(transfer_archive_name("t-1"), "transfer-t-1.tar.gz");
    assert_eq!(upload_url("https://node2:8080", "abc"), "https://node2:8080/api/servers/abc/transfer/receive");
    assert_eq!(authorization_header("tok"), "Bearer tok");
    let headers: Vec<(String, String)> = [
        ("Authorization", "Bearer tok"),
        ("Content-Type", "application/octet-stream"),
        ("X-Transfer-Id", "t-1"),
        ("X-Transfer-Checksum", "abcd"),
    ]
    .iter()
    .map(|(k, v)| (k.to_string(), v.to_string()))
    .collect();
    assert_eq!(upload_headers("tok", "t-1", "abcd"), headers);
    assert!(upload_succeeded(200));
    assert!(upload_succeeded(299));
    assert!(!upload_succeeded(199));
    assert!(!upload_succeeded(300));
    assert!(!upload_succeeded(404));
}

#[test]
fn transfer_progress_every_hundred_files() {
    assert!(progress_due(100, 250));
    assert!(progress_due(200, 250));
    assert!(progress_due(250, 250));
    assert!(!progress_due(101, 250));
    assert!(progress_due(0, 250));
    assert_eq!(progress_centi(100, 250), 4000);
    assert_eq!(progress_centi(250, 250), 10000);
    assert_eq!(progress_centi(1, 3), 3333);
    assert_eq!(progress_centi(0, 0), 10000);
    assert_eq!(progress_centi(u64::MAX, 1), u64::MAX as u128 * 10000);
}

#[test]
fn transfer_needs_an_offline_server_and_a_free_lock() {
    assert!(check_transfer_allowed(ProcessState::Offline, false).is_ok());
    assert!(matches!(check_transfer_allowed(ProcessState::Running, false), Err(TransferError::ServerRunning)));
    assert!(matches!(check_transfer_allowed(ProcessState::Starting, true), Err(TransferError::AlreadyTransferring)));
    assert_eq!(transfer_id_of(Some("t-9")), "t-9");
    assert_eq!(transfer_id_of(None), "unknown");
    assert_eq!(announced_checksum(None), "");
    assert_eq!(announced_checksum(Some("ab")), "ab");
    assert!(should_upload("https://node2"));
    assert!(!should_upload(""));
    let created = archive_response(transfer_archive_result("/tmp/t".to_string(), b"abc"), false);
    assert_eq!(created.message, "Transfer archive created");
    assert_eq!((created.checksum.as_deref(), created.size), (Some(ABC_SHA256), Some(3)));
    assert_eq!(
        archive_response(transfer_archive_result("/tmp/t".to_string(), b"abc"), true).message,
        "Transfer archive uploaded successfully"
    );
    assert_eq!(received_response().message, "Transfer received and extracted successfully");
    assert_eq!(cancelled_response().message, "Transfer cancelled");
    assert!(transfer_status(true).is_transferring);
    assert!(matches!(check_transfer_allowed(ProcessState::Offline, true), Err(TransferError::AlreadyTransferring)));
    let mut lock = TransferLock::new();
    assert!(lock.try_acquire());
    assert!(!lock.try_acquire());
    lock.release();
    assert!(lock.try_acquire());
}

#[test]
fn receive_rejects_a_checksum_mismatch() {
    let good = ABC_SHA256.to_string();
    assert_eq!(receive_plan(b"abc", &good, true), ReceivePlan::Extract { truncate: true });
    assert_eq!(receive_plan(b"abc", &good, false), ReceivePlan::Extract { truncate: false });
    assert_eq!(receive_plan(b"abx", &good, true), ReceivePlan::Reject);
    assert_eq!(receive_plan(b"abc", &String::new(), true), ReceivePlan::Reject);
    assert!(matches!(receive_result(ReceivePlan::Reject), Err(TransferError::ChecksumMismatch)));
    assert!(matches!(receive_result(ReceivePlan::Extract { truncate: true }), Ok(true)));
}

#[test]
fn extraction_counts_add_up() {
    let report = tally(&vec![(true, true), (false, false), (true, false), (true, true)]);
    assert_eq!((report.entries, report.extracted, report.rejected), (4, 2, 2));
    assert_eq!(report.extracted, report.entries - report.rejected);
    assert_eq!(tally(&Vec::new()), ExtractionReport::new());
}

#[test]
fn archive_writes_are_accounted_not_blocked() {
    let mut account = WriteAccount::new_at(1, 0).unwrap();
    assert!(account.account_at(1_000_000, 0));
    assert!(!account.account_at(100_000, 10));
    assert!(account.account_at(48_576, 20));
    assert!(account.account_at(1_048_576, 1_000));
    assert_eq!(account.bytes_written(), 1_000_000 + 100_000 + 48_576 + 1_048_576);
    assert_eq!(account.writes_over_limit(), 1);
    assert!(WriteAccount::new_at(u64::MAX, 0).is_none());
}
