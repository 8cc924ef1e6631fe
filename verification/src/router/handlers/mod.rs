//! One module per group of endpoints.

pub mod api_error;
pub mod backup;
pub mod files;
pub mod plugins;
pub mod system;
pub mod transfer;
pub mod upload;
