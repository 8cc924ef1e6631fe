//! Plugin endpoints.

use vstd::prelude::*;
use vstd::string::StringSliceAdditionalSpecFns;
use crate::bytes::{contains, has_subslice, starts_with};
use crate::router::handlers::api_error::{ApiError, ApiErrorKind};
use crate::server::power::PowerAction;
use crate::text::text_is;

verus! {

#[derive(Debug, Clone)]
pub struct PluginDownloadRequest {
    pub url: String,
    pub dest_path: String,
    pub directory: Option<String>,
    pub decompress: bool,
    pub headers: Vec<(String, String)>,
    pub max_size: u64,
}

#[derive(Debug, Clone)]
pub struct PluginWriteRequest {
    pub path: String,
    pub content: String,
    pub append: bool,
    pub mode: Option<String>,
}

#[derive(Debug, Clone)]
pub struct PluginDeleteRequest {
    pub path: String,
    pub recursive: bool,
}

#[derive(Debug, Clone)]
pub struct PluginBackupRequest {
    pub name: String,
    pub description: Option<String>,
}

#[derive(Debug, Clone)]
pub struct PluginServerControlRequest {
    pub action: String,
    pub timeout: u64,
    pub force: bool,
}

#[derive(Debug, Clone)]
pub struct PluginCommandRequest {
    pub command: String,
    pub timeout: u64,
}

#[derive(Debug, Clone)]
pub struct PluginBackupResponse {
    pub success: bool,
    pub backup_id: String,
    pub name: String,
    pub size_bytes: Option<u64>,
}

/// The default download limit: five gibibytes.
pub fn default_max_size() -> (n: u64)
    ensures
        n == 5368709120,
{
    5 * 1024 * 1024 * 1024
}

/// The default timeout of a plugin request: thirty seconds, in milliseconds.
pub fn default_timeout() -> (n: u64)
    ensures
        n == 30000,
{
    30000
}

/// Whether a URL names a host on a private network or this machine.
pub open spec fn names_private_host(url: Seq<u8>) -> bool {
    has_subslice(url, "localhost".spec_bytes()) || has_subslice(url, "127.0.0.1".spec_bytes())
        || has_subslice(url, "0.0.0.0".spec_bytes()) || has_subslice(url, "192.168.".spec_bytes())
        || has_subslice(url, "10.".spec_bytes()) || has_subslice(url, "172.16.".spec_bytes())
}

/// Whether a download URL is acceptable: HTTPS, and not a private host.
pub open spec fn download_url_ok(url: Seq<u8>) -> bool {
    "https://".spec_bytes().is_prefix_of(url) && !names_private_host(url)
}

/// Accepts HTTPS URLs that name no private host; anything else is a bad
/// request.
pub fn validate_download_url(url: &str) -> (r: Result<(), ApiError>)
    ensures
        r.is_ok() == download_url_ok(url.spec_bytes()),
        r.is_err() ==> r.unwrap_err().kind == ApiErrorKind::BadRequest && r.unwrap_err().message@
            == if "https://".spec_bytes().is_prefix_of(url.spec_bytes()) {
            "Downloads from private networks are not allowed"@
        } else {
            "Only HTTPS downloads are allowed"@
        },
{
    let u = url.as_bytes();
    if !starts_with(u, "https://".as_bytes()) {
        return Err(ApiError::bad_request("Only HTTPS downloads are allowed"));
    }
    if contains(u, "localhost".as_bytes()) || contains(u, "127.0.0.1".as_bytes()) || contains(
        u,
        "0.0.0.0".as_bytes(),
    ) || contains(u, "192.168.".as_bytes()) || contains(u, "10.".as_bytes()) || contains(
        u,
        "172.16.".as_bytes(),
    ) {
        return Err(ApiError::bad_request("Downloads from private networks are not allowed"));
    }
    Ok(())
}

/// Whether a server path is acceptable: relative, and without `..` anywhere.
pub open spec fn server_path_ok(path: Seq<u8>) -> bool {
    !has_subslice(path, "..".spec_bytes()) && !"/".spec_bytes().is_prefix_of(path)
}

/// Accepts relative paths that hold no `..`; anything else is a bad request.
pub fn validate_server_path(path: &str) -> (r: Result<(), ApiError>)
    ensures
        r.is_ok() == server_path_ok(path.spec_bytes()),
        r.is_err() ==> r.unwrap_err().kind == ApiErrorKind::BadRequest && r.unwrap_err().message@
            == "Invalid path: directory traversal not allowed"@,
{
    let p = path.as_bytes();
    if contains(p, "..".as_bytes()) || starts_with(p, "/".as_bytes()) {
        return Err(ApiError::bad_request("Invalid path: directory traversal not allowed"));
    }
    Ok(())
}

/// The file mode a request names: a number in octal that fits 32 bits.
pub fn parse_file_mode(mode: &str) -> (r: Option<u32>)
    ensures
        match r {
            Some(m) => crate::numbers::number_of(mode.spec_bytes(), 8, u32::MAX as int) == Some(
                m as u64,
            ),
            None => crate::numbers::number_of(mode.spec_bytes(), 8, u32::MAX as int).is_none(),
        },
{
    match crate::numbers::parse_number(mode.as_bytes(), 8, 4294967295) {
        Some(m) => Some(m as u32),
        None => None,
    }
}

/// Whether a download is refused for its size: the announced length exceeds
/// the limit of the request.
pub fn download_too_large(content_length: Option<u64>, max_size: u64) -> (r: bool)
    ensures
        r == (content_length.is_some() && content_length.unwrap() > max_size),
{
    match content_length {
        Some(n) => n > max_size,
        None => false,
    }
}

/// The power action a control request names.
pub fn control_action(action: &str) -> (r: Option<PowerAction>)
    ensures
        r == if action@ == "start"@ {
            Some(PowerAction::Start)
        } else if action@ == "stop"@ {
            Some(PowerAction::Stop)
        } else if action@ == "restart"@ {
            Some(PowerAction::Restart)
        } else if action@ == "kill"@ {
            Some(PowerAction::Kill)
        } else {
            None
        },
{
    if text_is(action, "start") {
        Some(PowerAction::Start)
    } else if text_is(action, "stop") {
        Some(PowerAction::Stop)
    } else if text_is(action, "restart") {
        Some(PowerAction::Restart)
    } else if text_is(action, "kill") {
        Some(PowerAction::Kill)
    } else {
        None
    }
}

} // verus!
