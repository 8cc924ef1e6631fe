//! Support for running the stack as a desktop bundle.

pub mod config;
