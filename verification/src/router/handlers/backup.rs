//! Backup endpoints.

use vstd::prelude::*;
use crate::router::handlers::api_error::{ApiError, ApiErrorKind};
use crate::server::power::ProcessState;

verus! {

/// The backups of a server.
#[derive(Debug, Clone)]
pub struct BackupListResponse {
    pub backups: Vec<BackupInfo>,
}

/// One backup as listed to the client.
#[derive(Debug, Clone)]
pub struct BackupInfo {
    pub uuid: String,
    pub size: u64,
    pub created_at: u64,
}

/// A request to create a backup.
#[derive(Debug, Clone)]
pub struct CreateBackupRequest {
    pub uuid: String,
    pub ignore: Vec<String>,
}

/// The outcome of creating a backup.
#[derive(Debug, Clone)]
pub struct CreateBackupResponse {
    pub success: bool,
    pub checksum: Option<String>,
    pub size: u64,
}

/// A request to restore a backup.
#[derive(Debug, Clone)]
pub struct RestoreBackupRequest {
    pub uuid: String,
    pub truncate: bool,
}

/// Admits a restore only for a server that is offline; for any other state
/// the request is a bad request.
pub fn check_restore_allowed(state: ProcessState) -> (r: Result<(), ApiError>)
    ensures
        r.is_ok() == (state == ProcessState::Offline),
        r.is_err() ==> r.unwrap_err().kind == ApiErrorKind::BadRequest && r.unwrap_err().message@
            == "Server must be stopped before restoring a backup"@,
{
    match state {
        ProcessState::Offline => Ok(()),
        _ => Err(ApiError::bad_request("Server must be stopped before restoring a backup")),
    }
}

/// The listing entry for a backup found on disk.
pub fn list_entry(info: crate::server::backup::BackupInfo) -> (r: BackupInfo)
    ensures
        r.uuid == info.uuid,
        r.size == info.size,
        r.created_at == info.created_at,
{
    BackupInfo { uuid: info.uuid, size: info.size, created_at: info.created_at }
}

/// The response to a backup that was created.
pub fn created(result: crate::server::backup::BackupResult) -> (r: CreateBackupResponse)
    ensures
        r.success,
        r.checksum == Some(result.checksum),
        r.size == result.size,
{
    CreateBackupResponse { success: true, checksum: Some(result.checksum), size: result.size }
}

} // verus!
