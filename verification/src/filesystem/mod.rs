//! Filesystem support: the directory listing cache, disk quota and access rules.

pub mod cache;
pub mod disk;
pub mod rules;
