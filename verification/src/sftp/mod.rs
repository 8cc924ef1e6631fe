//! SFTP version 3 request handling over a sandboxed per-server filesystem.

pub mod handler;
pub mod handles;
pub mod request;
pub mod wire;
