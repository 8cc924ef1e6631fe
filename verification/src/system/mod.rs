//! Host-level helpers: resource monitoring, buffers and the console sink.

pub mod buffer_pool;
pub mod sink;
pub mod system_monitor;
