//! Cross-node transfers: archive naming, the upload request, progress
//! reporting and the checksum gate on the receiving side.

use vstd::prelude::*;
use vstd::string::StringExecFns;
use crate::checksum::{calculate_checksum, checksum_matches, checksum_of};
use crate::server::power::ProcessState;

verus! {

/// The result of creating a transfer archive.
#[derive(Debug, Clone)]
pub struct TransferArchiveResult {
    pub path: String,
    pub size: u64,
    pub checksum: String,
}

/// Transfer errors.
#[derive(Debug, Clone)]
pub enum TransferError {
    Io(String),
    ServerRunning,
    AlreadyTransferring,
    Http(String),
    Archive(String),
    InvalidPath(String),
    ChecksumMismatch,
    Other(String),
}

/// Configuration of one transfer.
#[derive(Debug, Clone)]
pub struct TransferConfig {
    pub transfer_id: String,
    pub server_uuid: String,
    pub target_url: String,
    pub target_token: String,
}

/// The file name of a transfer archive: `transfer-{id}.tar.gz`.
pub open spec fn archive_name(transfer_id: Seq<char>) -> Seq<char> {
    "transfer-"@ + transfer_id + ".tar.gz"@
}

/// The receive endpoint on the target node.
pub open spec fn receive_url(target_url: Seq<char>, server_uuid: Seq<char>) -> Seq<char> {
    target_url + "/api/servers/"@ + server_uuid + "/transfer/receive"@
}

/// The file name of a transfer archive.
pub fn transfer_archive_name(transfer_id: &str) -> (name: String)
    ensures
        name@ == archive_name(transfer_id@),
{
    let mut name = String::from_str("transfer-");
    name.append(transfer_id);
    name.append(".tar.gz");
    name
}

/// The URL the archive is posted to.
pub fn upload_url(target_url: &str, server_uuid: &str) -> (url: String)
    ensures
        url@ == receive_url(target_url@, server_uuid@),
{
    let mut url = String::from_str(target_url);
    url.append("/api/servers/");
    url.append(server_uuid);
    url.append("/transfer/receive");
    url
}

/// The value of the `Authorization` header: `Bearer {token}`.
pub fn authorization_header(target_token: &str) -> (value: String)
    ensures
        value@ == "Bearer "@ + target_token@,
{
    let mut value = String::from_str("Bearer ");
    value.append(target_token);
    value
}

/// The headers of the upload request, in order: authorization, content type,
/// transfer id, checksum.
pub open spec fn upload_headers_of(
    target_token: Seq<char>,
    transfer_id: Seq<char>,
    checksum: Seq<char>,
) -> Seq<(Seq<char>, Seq<char>)> {
    seq![
        ("Authorization"@, "Bearer "@ + target_token),
        ("Content-Type"@, "application/octet-stream"@),
        ("X-Transfer-Id"@, transfer_id),
        ("X-Transfer-Checksum"@, checksum),
    ]
}

/// The headers of the upload request.
pub fn upload_headers(target_token: &str, transfer_id: &str, checksum: &str) -> (headers: Vec<
    (String, String),
>)
    ensures
        crate::text::pairs_view(headers@) == upload_headers_of(
            target_token@,
            transfer_id@,
            checksum@,
        ),
{
    let mut headers: Vec<(String, String)> = Vec::new();
    headers.push((String::from_str("Authorization"), authorization_header(target_token)));
    headers.push((String::from_str("Content-Type"), String::from_str("application/octet-stream")));
    headers.push((String::from_str("X-Transfer-Id"), String::from_str(transfer_id)));
    headers.push((String::from_str("X-Transfer-Checksum"), String::from_str(checksum)));
    assert(crate::text::pairs_view(headers@) =~= upload_headers_of(
        target_token@,
        transfer_id@,
        checksum@,
    ));
    headers
}

/// Whether an HTTP status is a success (2xx).
pub fn upload_succeeded(status: u16) -> (ok: bool)
    ensures
        ok == (200 <= status < 300),
{
    200 <= status && status < 300
}

/// Whether progress is reported after `files_processed` of `total_files`:
/// every hundredth file and the last one.
pub fn progress_due(files_processed: u64, total_files: u64) -> (due: bool)
    ensures
        due == (files_processed % 100 == 0 || files_processed == total_files),
{
    files_processed % 100 == 0 || files_processed == total_files
}

/// Progress in hundredths of a percent: the share of files processed, rounded
/// down; complete when there is no file at all.
pub open spec fn progress_of(files_processed: u64, total_files: u64) -> int {
    if total_files > 0 {
        files_processed * 10000 / (total_files as int)
    } else {
        10000
    }
}

/// Progress in hundredths of a percent.
pub fn progress_centi(files_processed: u64, total_files: u64) -> (p: u128)
    ensures
        p == progress_of(files_processed, total_files),
{
    if total_files > 0 {
        (files_processed as u128) * 10000 / (total_files as u128)
    } else {
        10000
    }
}

/// The result of a transfer archive whose file holds `archive`.
pub fn transfer_archive_result(path: String, archive: &[u8]) -> (r: TransferArchiveResult)
    ensures
        r.path == path,
        r.size == archive@.len(),
        r.checksum@ == checksum_of(archive@),
{
    TransferArchiveResult { path, size: archive.len() as u64, checksum: calculate_checksum(archive) }
}

/// Why a transfer may not start, if it may not: a transfer is already under
/// way, or else the server is not offline.
pub open spec fn transfer_gate(state: ProcessState, transferring: bool) -> Option<TransferError> {
    if transferring {
        Some(TransferError::AlreadyTransferring)
    } else if state != ProcessState::Offline {
        Some(TransferError::ServerRunning)
    } else {
        None
    }
}

/// Admits a transfer only for an offline server that is not being transferred.
pub fn check_transfer_allowed(state: ProcessState, transferring: bool) -> (r: Result<(), TransferError>)
    ensures
        match r {
            Ok(_) => state == ProcessState::Offline && !transferring,
            Err(TransferError::ServerRunning) => state != ProcessState::Offline && !transferring,
            Err(TransferError::AlreadyTransferring) => transferring,
            Err(_) => false,
        },
{
    if transferring {
        return Err(TransferError::AlreadyTransferring);
    }
    match state {
        ProcessState::Offline => Ok(()),
        _ => Err(TransferError::ServerRunning),
    }
}

/// The transfer lock of one server: a flag that is set at most once at a time.
pub struct TransferLock {
    held: bool,
}

impl TransferLock {
    /// Whether a transfer holds the lock.
    pub closed spec fn is_held(&self) -> bool {
        self.held
    }

    /// A free lock.
    pub fn new() -> (l: Self)
        ensures
            !l.is_held(),
    {
        TransferLock { held: false }
    }

    /// Takes the lock if it is free.
    pub fn try_acquire(&mut self) -> (taken: bool)
        ensures
            taken == !old(self).is_held(),
            final(self).is_held(),
    {
        if self.held {
            false
        } else {
            self.held = true;
            true
        }
    }

    /// Frees the lock.
    pub fn release(&mut self)
        ensures
            !final(self).is_held(),
    {
        self.held = false;
    }
}

/// What the receiving side does with an upload.
#[derive(Debug, Clone, Copy, PartialEq, Eq, Structural)]
pub enum ReceivePlan {
    /// The checksum does not match: remove the temporary file and touch
    /// nothing in the data directory.
    Reject,
    /// The checksum matches: empty the data directory first if asked, then
    /// extract.
    Extract { truncate: bool },
}

/// Decides what to do with a received archive: it is extracted exactly when
/// its SHA-256 equals the checksum announced in the header.
pub fn receive_plan(archive_data: &[u8], expected_checksum: &String, truncate: bool) -> (plan:
    ReceivePlan)
    ensures
        plan == if checksum_of(archive_data@) == expected_checksum@ {
            ReceivePlan::Extract { truncate }
        } else {
            ReceivePlan::Reject
        },
{
    if checksum_matches(archive_data, expected_checksum) {
        ReceivePlan::Extract { truncate }
    } else {
        ReceivePlan::Reject
    }
}

/// The error a plan stands for: a rejected upload is a checksum mismatch.
pub fn receive_result(plan: ReceivePlan) -> (r: Result<bool, TransferError>)
    ensures
        match plan {
            ReceivePlan::Reject => r == Err::<bool, TransferError>(TransferError::ChecksumMismatch),
            ReceivePlan::Extract { truncate } => r == Ok::<bool, TransferError>(truncate),
        },
{
    match plan {
        ReceivePlan::Reject => Err(TransferError::ChecksumMismatch),
        ReceivePlan::Extract { truncate } => Ok(truncate),
    }
}

} // verus!
