//! CPU usage and RAM statistics.

use vstd::prelude::*;

use crate::figure::Figure;

verus! {

/// CPU and RAM usage statistics.
pub struct SystemData {
    /// Overall CPU usage as a percentage (0 to 100).
    pub cpu_usage: Figure,
    /// Used RAM in gigabytes (units of 1024^3 bytes).
    pub ram_used_gb: Figure,
    /// Total RAM in gigabytes (units of 1024^3 bytes).
    pub ram_total_gb: Figure,
    /// RAM usage as a percentage (0 to 100).
    pub ram_percentage: Figure,
}

} // verus!
