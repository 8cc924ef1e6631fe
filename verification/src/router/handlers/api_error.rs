//! Errors as they are surfaced over HTTP.

use vstd::prelude::*;
use crate::server::backup::BackupError;
use crate::server::transfer::TransferError;

verus! {

/// The kinds of error an endpoint reports.
#[derive(Debug, Clone, Copy, PartialEq, Eq, Structural)]
pub enum ApiErrorKind {
    BadRequest,
    Forbidden,
    NotFound,
    Conflict,
    Internal,
}

/// An error with the message sent to the client.
#[derive(Debug, Clone)]
pub struct ApiError {
    pub kind: ApiErrorKind,
    pub message: String,
}

/// The HTTP status of an error kind.
pub open spec fn status_of(kind: ApiErrorKind) -> u16 {
    match kind {
        ApiErrorKind::BadRequest => 400,
        ApiErrorKind::Forbidden => 403,
        ApiErrorKind::NotFound => 404,
        ApiErrorKind::Conflict => 409,
        ApiErrorKind::Internal => 500,
    }
}

impl ApiError {
    /// A validation error.
    pub fn bad_request(message: &str) -> (e: Self)
        ensures
            e.kind == ApiErrorKind::BadRequest,
            e.message@ == message@,
    {
        ApiError { kind: ApiErrorKind::BadRequest, message: message.to_owned() }
    }

    /// The HTTP status the error is sent with.
    pub fn status_code(&self) -> (code: u16)
        ensures
            code == status_of(self.kind),
    {
        match self.kind {
            ApiErrorKind::BadRequest => 400,
            ApiErrorKind::Forbidden => 403,
            ApiErrorKind::NotFound => 404,
            ApiErrorKind::Conflict => 409,
            ApiErrorKind::Internal => 500,
        }
    }
}

/// How a transfer error is surfaced: wrong state is a conflict, a checksum
/// mismatch a bad request, everything else an internal error.
pub fn transfer_error_kind(err: &TransferError) -> (kind: ApiErrorKind)
    ensures
        kind == match *err {
            TransferError::ServerRunning => ApiErrorKind::Conflict,
            TransferError::AlreadyTransferring => ApiErrorKind::Conflict,
            TransferError::ChecksumMismatch => ApiErrorKind::BadRequest,
            _ => ApiErrorKind::Internal,
        },
{
    match err {
        TransferError::ServerRunning => ApiErrorKind::Conflict,
        TransferError::AlreadyTransferring => ApiErrorKind::Conflict,
        TransferError::ChecksumMismatch => ApiErrorKind::BadRequest,
        _ => ApiErrorKind::Internal,
    }
}

/// How a backup error is surfaced: a missing backup is not found, a running
/// server a conflict, a bad path a bad request, everything else internal.
pub fn backup_error_kind(err: &BackupError) -> (kind: ApiErrorKind)
    ensures
        kind == match *err {
            BackupError::NotFound(_) => ApiErrorKind::NotFound,
            BackupError::ServerRunning => ApiErrorKind::Conflict,
            BackupError::InvalidPath(_) => ApiErrorKind::BadRequest,
            _ => ApiErrorKind::Internal,
        },
{
    match err {
        BackupError::NotFound(_) => ApiErrorKind::NotFound,
        BackupError::ServerRunning => ApiErrorKind::Conflict,
        BackupError::InvalidPath(_) => ApiErrorKind::BadRequest,
        _ => ApiErrorKind::Internal,
    }
}

} // verus!
