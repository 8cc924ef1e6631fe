//! Transfer endpoints.

use vstd::prelude::*;
use vstd::string::{StrSliceExecFns, StringExecFns};
use crate::server::transfer::TransferArchiveResult;

verus! {

#[derive(Debug, Clone)]
pub struct InitiateTransferRequest {
    pub transfer_id: String,
    pub target_url: String,
    pub target_token: String,
}

#[derive(Debug, Clone)]
pub struct TransferResponse {
    pub success: bool,
    pub message: String,
    pub checksum: Option<String>,
    pub size: Option<u64>,
}

#[derive(Debug, Clone, Copy, PartialEq, Eq, Structural)]
pub struct TransferStatusResponse {
    pub is_transferring: bool,
}

/// The transfer id of an upload: the header's value, or `unknown`.
pub fn transfer_id_of(header: Option<&str>) -> (id: String)
    ensures
        id@ == match header {
            Some(h) => h@,
            None => "unknown"@,
        },
{
    match header {
        Some(h) => String::from_str(h),
        None => String::from_str("unknown"),
    }
}

/// The checksum an upload announces: the header's value, or the empty text,
/// which no archive matches.
pub fn announced_checksum(header: Option<&str>) -> (sum: String)
    ensures
        sum@ == match header {
            Some(h) => h@,
            None => Seq::<char>::empty(),
        },
{
    match header {
        Some(h) => String::from_str(h),
        None => String::new(),
    }
}

/// Whether the archive is uploaded after it was created: only to a target.
pub fn should_upload(target_url: &str) -> (r: bool)
    ensures
        r == (target_url@.len() > 0),
{
    target_url.unicode_len() > 0
}

/// The response to an archive that was created, and uploaded if asked.
pub fn archive_response(result: TransferArchiveResult, uploaded: bool) -> (r: TransferResponse)
    ensures
        r.success,
        r.message@ == if uploaded {
            "Transfer archive uploaded successfully"@
        } else {
            "Transfer archive created"@
        },
        r.checksum == Some(result.checksum),
        r.size == Some(result.size),
{
    TransferResponse {
        success: true,
        message: if uploaded {
            String::from_str("Transfer archive uploaded successfully")
        } else {
            String::from_str("Transfer archive created")
        },
        checksum: Some(result.checksum),
        size: Some(result.size),
    }
}

/// The response to an upload that was received and extracted.
pub fn received_response() -> (r: TransferResponse)
    ensures
        r.success,
        r.message@ == "Transfer received and extracted successfully"@,
        r.checksum.is_none(),
        r.size.is_none(),
{
    TransferResponse {
        success: true,
        message: String::from_str("Transfer received and extracted successfully"),
        checksum: None,
        size: None,
    }
}

/// The response to a cancelled transfer.
pub fn cancelled_response() -> (r: TransferResponse)
    ensures
        r.success,
        r.message@ == "Transfer cancelled"@,
        r.checksum.is_none(),
        r.size.is_none(),
{
    TransferResponse {
        success: true,
        message: String::from_str("Transfer cancelled"),
        checksum: None,
        size: None,
    }
}

/// The status response for a server.
pub fn transfer_status(is_transferring: bool) -> (r: TransferStatusResponse)
    ensures
        r.is_transferring == is_transferring,
{
    TransferStatusResponse { is_transferring }
}

} // verus!
