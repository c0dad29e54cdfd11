//! System-wide memory figures.
use vstd::prelude::*;
use crate::error::{Adapter, StatsError};
use crate::gpu::{kib_to_bytes, GPUUsage};
use crate::host::host_memory_kib;

verus! {

/// System memory, in bytes.
#[derive(Clone, Copy, Debug, PartialEq, Eq, Structural)]
pub struct MemoryData {
    pub total_memory: u64,
    pub free_memory: u64,
    /// Total minus free, 0 when the host reports more free than total memory.
    pub used_memory: u64,
}

pub struct MemoryUsage;

pub open spec fn memory_spec(total_kib: u64, free_kib: u64) -> MemoryData {
    let total = kib_to_bytes(total_kib);
    let free = kib_to_bytes(free_kib);
    MemoryData {
        total_memory: total,
        free_memory: free,
        used_memory: if free <= total { (total - free) as u64 } else { 0 },
    }
}

impl MemoryUsage {
    /// The record for a host reporting `total_kib` and `free_kib` KiB.
    pub fn memory_info_from(total_kib: u64, free_kib: u64) -> (r: MemoryData)
        ensures
            r == memory_spec(total_kib, free_kib),
    {
        let total = GPUUsage::kib_to_bytes(total_kib);
        let free = GPUUsage::kib_to_bytes(free_kib);
        MemoryData {
            total_memory: total,
            free_memory: free,
            used_memory: if free <= total { total - free } else { 0 },
        }
    }

    /// Collects the host's memory record.
    pub fn get_system_memory_info() -> (r: Result<MemoryData, StatsError>)
        ensures
            r matches Ok(m) ==> exists|t: u64, f: u64| m == #[trigger] memory_spec(t, f),
            r matches Err(e) ==> e == StatsError::QueryFailed(Adapter::HostMemory),
    {
        match host_memory_kib() {
            Ok((total_kib, free_kib)) => Ok(Self::memory_info_from(total_kib, free_kib)),
            Err(_) => Err(StatsError::QueryFailed(Adapter::HostMemory)),
        }
    }
}

} // verus!
