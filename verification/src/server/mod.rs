//! Server lifecycle: power state, crash recovery, backups, transfers and schedules.

pub mod backup;
pub mod crash;
pub mod install;
pub mod manager;
pub mod power;
pub mod schedule;
pub mod schedule_status;
pub mod server;
pub mod transfer;
