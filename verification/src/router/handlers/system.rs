//! System endpoints.

use vstd::prelude::*;

verus! {

#[derive(Debug, Clone)]
pub struct SystemInfo {
    pub version: String,
    pub architecture: String,
    pub cpu_count: usize,
    pub kernel_version: String,
    pub os: String,
    pub server_count: usize,
}

#[derive(Debug, Clone)]
pub struct OsInfo {
    pub name: String,
    pub version: String,
    pub arch: String,
}

/// Use in hundredths of a percent: `used` of `total`, rounded down; zero for
/// an empty total.
pub fn usage_centi_percent(used: u64, total: u64) -> (p: u128)
    ensures
        p == if total == 0 {
            0
        } else {
            used * 10000 / (total as int)
        },
{
    if total == 0 {
        0
    } else {
        (used as u128) * 10000 / (total as u128)
    }
}

} // verus!
