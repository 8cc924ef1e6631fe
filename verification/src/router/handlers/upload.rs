//! Upload endpoints.

use vstd::prelude::*;
use crate::router::handlers::api_error::{ApiError, ApiErrorKind};

verus! {

#[derive(Debug, Clone)]
pub struct UploadFileQuery {
    pub token: Option<String>,
    pub server: Option<String>,
    pub directory: String,
}

#[derive(Debug, Clone)]
pub struct UploadClaims {
    pub server_uuid: String,
    pub directory: Option<String>,
    pub exp: usize,
}

#[derive(Debug, Clone)]
pub struct AuthenticatedUploadQuery {
    pub directory: String,
}

/// The server an upload goes to: the one the token's claims name, else the
/// one the query names; without either the request is a bad request.
pub fn upload_server(claimed: Option<String>, requested: Option<String>) -> (r: Result<String, ApiError>)
    ensures
        match (claimed, requested) {
            (Some(c), _) => r.is_ok() && r.unwrap() == c,
            (None, Some(q)) => r.is_ok() && r.unwrap() == q,
            (None, None) => r.is_err() && r.unwrap_err().kind == ApiErrorKind::BadRequest,
        },
{
    match claimed {
        Some(c) => Ok(c),
        None => match requested {
            Some(q) => Ok(q),
            None => Err(ApiError::bad_request("Either 'token' or 'server' parameter required")),
        },
    }
}

/// Whether the claims of a verified token have expired at `now` (seconds).
pub fn claims_expired(claims: &UploadClaims, now: usize) -> (r: bool)
    ensures
        r == (claims.exp < now),
{
    claims.exp < now
}

} // verus!
