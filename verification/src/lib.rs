//! Core logic of a per-node game-server control daemon.
//!
//! The daemon manages game servers that run as containers on one host. This
//! library holds its rules and data structures, each with a contract that is
//! proved: the power state machine and crash recovery of a server, the event
//! types and their published form, the statistics pipeline, the backup and
//! transfer rules with their checksum and path-escape checks, the schedule
//! executor's decisions, and the SFTP packet handling. Reading files, talking
//! to the container runtime and serving HTTP are left to the caller, which
//! hands plain values in and acts on what comes back.


pub mod bytes;
pub mod checksum;
pub mod desktop;
pub mod events;
pub mod filesystem;
pub mod keyed;
pub mod numbers;
pub mod path;
pub mod rate_limiter;
pub mod router;
pub mod server;
pub mod sftp;
pub mod stats;
pub mod stats_buffer;
pub mod system;
pub mod text;
