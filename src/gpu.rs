//! Accelerator records and the memory estimation used where the platform
//! exposes no direct used/free counter.
use vstd::prelude::*;
use crate::error::{Adapter, StatsError};
use crate::host::{host_macos_version, host_memory_kib};
use crate::text::major_version;

verus! {

/// PCI vendor identifier reported for integrated accelerators on ARM hosts.
pub const APPLE_VENDOR_ID: u32 = 4203;

/// First OS major version whose device API reports an architecture name.
pub const FIRST_ARCHITECTURE_VERSION: u8 = 14;

/// `major.minor.build.revision`; all zero when unknown.
#[derive(Clone, Copy, Debug, PartialEq, Eq, Structural)]
pub struct DriverVersionData {
    pub major: u32,
    pub minor: u32,
    pub build: u32,
    pub revision: u32,
}

/// One accelerator. Memory figures are in bytes. On unified-memory hosts
/// `free_memory` is the host's free memory: the accelerator shares that pool
/// and has no counter of its own, so the figure is an approximation.
#[derive(Clone, Debug, PartialEq, Eq)]
pub struct GPUData {
    pub name: String,
    pub architecture: String,
    pub vendor_id: u32,
    pub total_memory: u64,
    pub free_memory: u64,
    pub used_memory: u64,
    pub has_unified_memory: bool,
    pub is_integrated: bool,
    pub adapter_index: u32,
    pub driver_version: DriverVersionData,
    /// Set when free memory exceeded the total and `used_memory` was clamped to 0.
    pub used_memory_clamped: bool,
}

/// Facts read from the default accelerator device.
pub struct GpuReport {
    /// The device's name; `None` when there is no default device.
    pub device_name: Option<String>,
    /// The device's architecture name, when the device API can report it.
    pub device_architecture: Option<String>,
    /// Whether the host CPU is the unified-memory-capable ARM architecture.
    pub on_arm: bool,
    /// Major version of the host OS, 0 when unknown.
    pub os_major: u8,
    /// The device's recommended maximum working-set size, in bytes.
    pub working_set: u64,
    /// The device's unified-memory capability; only asked on ARM hosts.
    pub unified_flag: Option<bool>,
    /// The device's currently allocated size; only asked when memory is not unified.
    pub allocated: Option<u64>,
}

/// Bytes used, and whether the figure had to be clamped.
#[derive(Clone, Copy, Debug, PartialEq, Eq, Structural)]
pub struct MemoryEstimate {
    pub used: u64,
    pub clamped: bool,
}

pub struct GPUUsage;

pub open spec fn arch_query_spec(os_major: u8, on_arm: bool) -> bool {
    os_major >= FIRST_ARCHITECTURE_VERSION && on_arm
}

pub open spec fn architecture_spec(os_major: u8, on_arm: bool, device: Option<Seq<char>>) -> Seq<char> {
    if os_major >= FIRST_ARCHITECTURE_VERSION {
        if on_arm {
            match device {
                Some(a) => a,
                None => "Unknown"@,
            }
        } else {
            "Intel"@
        }
    } else {
        "Unknown"@
    }
}

pub open spec fn unified_error_spec(on_arm: bool, flag: Option<bool>) -> Option<StatsError> {
    if on_arm && flag is None {
        Some(StatsError::QueryFailed(Adapter::GpuDevice))
    } else {
        None
    }
}

pub open spec fn unified_spec(on_arm: bool, flag: Option<bool>) -> bool {
    on_arm && flag == Some(true)
}

pub open spec fn kib_to_bytes(kib: u64) -> u64 {
    if kib * 1024 <= u64::MAX {
        (kib * 1024) as u64
    } else {
        u64::MAX
    }
}

pub open spec fn free_error_spec(unified: bool, host_free: Option<u64>, allocated: Option<u64>) -> Option<StatsError> {
    if unified && host_free is None {
        Some(StatsError::QueryFailed(Adapter::HostMemory))
    } else if !unified && allocated is None {
        Some(StatsError::QueryFailed(Adapter::GpuDevice))
    } else {
        None
    }
}

/// Free bytes: the host's free memory when unified, else total minus allocated (at least 0).
pub open spec fn free_spec(total: u64, unified: bool, host_free: Option<u64>, allocated: Option<u64>) -> u64 {
    if unified {
        host_free.unwrap_or(0)
    } else if allocated.unwrap_or(0) <= total {
        (total - allocated.unwrap_or(0)) as u64
    } else {
        0
    }
}

pub open spec fn estimate_spec(total: u64, free: u64) -> MemoryEstimate {
    if free > total {
        MemoryEstimate { used: 0, clamped: true }
    } else {
        MemoryEstimate { used: (total - free) as u64, clamped: false }
    }
}

/// The first failure that the device's facts give, before any host memory query.
pub open spec fn report_error_spec(r: GpuReport) -> Option<StatsError> {
    if r.device_name is None {
        Some(StatsError::QueryFailed(Adapter::GpuDevice))
    } else if r.working_set == 0 {
        Some(StatsError::QueryFailed(Adapter::WorkingSetSize))
    } else if unified_error_spec(r.on_arm, r.unified_flag) is Some {
        unified_error_spec(r.on_arm, r.unified_flag)
    } else if !unified_spec(r.on_arm, r.unified_flag) && r.allocated is None {
        Some(StatsError::QueryFailed(Adapter::GpuDevice))
    } else {
        None
    }
}

/// Every failure of record assembly, given the host's free memory reading.
pub open spec fn gpu_error_spec(r: GpuReport, host_free: Option<u64>) -> Option<StatsError> {
    if report_error_spec(r) is Some {
        report_error_spec(r)
    } else {
        free_error_spec(unified_spec(r.on_arm, r.unified_flag), host_free, r.allocated)
    }
}

pub open spec fn opt_view(s: Option<String>) -> Option<Seq<char>> {
    match s {
        Some(x) => Some(x@),
        None => None,
    }
}

/// The record assembled from a device report and the host's free memory reading.
pub open spec fn gpu_record_spec(g: GPUData, r: GpuReport, host_free: Option<u64>) -> bool {
    let unified = unified_spec(r.on_arm, r.unified_flag);
    let total = r.working_set;
    let free = free_spec(total, unified, host_free, r.allocated);
    &&& opt_view(r.device_name) == Some(g.name@)
    &&& g.architecture@ == architecture_spec(r.os_major, r.on_arm, opt_view(r.device_architecture))
    &&& g.vendor_id == (if r.on_arm { APPLE_VENDOR_ID } else { 0 })
    &&& g.total_memory == total
    &&& g.free_memory == free
    &&& g.used_memory == estimate_spec(total, free).used
    &&& g.used_memory_clamped == estimate_spec(total, free).clamped
    &&& g.has_unified_memory == unified
    &&& g.is_integrated == r.on_arm
    &&& g.adapter_index == 0
    &&& g.driver_version == (DriverVersionData { major: 0, minor: 0, build: 0, revision: 0 })
}

/// In every assembled record, used plus free memory is the total unless the
/// used figure was clamped; without unified memory it is never clamped, so
/// the sum is exact there.
pub proof fn lemma_gpu_memory_adds_up(g: GPUData, r: GpuReport, host_free: Option<u64>)
    requires
        gpu_record_spec(g, r, host_free),
    ensures
        !g.used_memory_clamped ==> g.used_memory + g.free_memory == g.total_memory,
        !g.has_unified_memory ==> !g.used_memory_clamped,
{
}

/// In every assembled record, the used figure is clamped exactly when free
/// memory exceeds the total, and the clamp is recorded: it reads 0 and the
/// record's flag is set.
pub proof fn lemma_gpu_clamp_is_flagged(g: GPUData, r: GpuReport, host_free: Option<u64>)
    requires
        gpu_record_spec(g, r, host_free),
    ensures
        g.used_memory_clamped <==> g.free_memory > g.total_memory,
        g.used_memory_clamped ==> g.used_memory == 0,
{
}

/// With unified memory, free memory is the host's free memory, whatever the
/// device's allocation counter says.
pub proof fn lemma_unified_free_is_host_free(g: GPUData, r: GpuReport, host_free: u64)
    requires
        gpu_record_spec(g, r, Some(host_free)),
        g.has_unified_memory,
    ensures
        g.free_memory == host_free,
{
}

impl GPUUsage {
    /// Whether the device API can be asked for an architecture name.
    pub fn architecture_query_supported(os_major: u8, on_arm: bool) -> (r: bool)
        ensures
            r == arch_query_spec(os_major, on_arm),
    {
        os_major >= FIRST_ARCHITECTURE_VERSION && on_arm
    }

    /// The host OS's major version, 0 when it is not macOS or cannot be read.
    pub fn os_major_version() -> (r: u8) {
        match host_macos_version() {
            Some(v) => major_version(v.as_str()),
            None => 0,
        }
    }

    /// Total accelerator memory: the working-set ceiling, which is never validly 0.
    pub fn total_gpu_memory(working_set: u64) -> (r: Result<u64, StatsError>)
        ensures
            working_set == 0 ==> r == Err::<u64, StatsError>(StatsError::QueryFailed(Adapter::WorkingSetSize)),
            working_set != 0 ==> r == Ok::<u64, StatsError>(working_set),
    {
        if working_set == 0 {
            Err(StatsError::QueryFailed(Adapter::WorkingSetSize))
        } else {
            Ok(working_set)
        }
    }

    /// Unified memory needs both an ARM host and the device's own report;
    /// the device flag is not consulted on other hosts.
    pub fn has_unified_memory(on_arm: bool, flag: Option<bool>) -> (r: Result<bool, StatsError>)
        ensures
            unified_error_spec(on_arm, flag) matches Some(e) ==> r == Err::<bool, StatsError>(e),
            unified_error_spec(on_arm, flag) is None ==> r == Ok::<bool, StatsError>(unified_spec(on_arm, flag)),
    {
        if on_arm {
            match flag {
                Some(u) => Ok(u),
                None => Err(StatsError::QueryFailed(Adapter::GpuDevice)),
            }
        } else {
            Ok(false)
        }
    }

    /// Bytes in `kib` KiB, saturating at the largest `u64`.
    pub fn kib_to_bytes(kib: u64) -> (r: u64)
        ensures
            r == kib_to_bytes(kib),
    {
        if kib <= u64::MAX / 1024 {
            kib * 1024
        } else {
            u64::MAX
        }
    }

    /// Free accelerator memory from the host's free bytes (unified) or the allocated size.
    pub fn free_memory_from(total: u64, unified: bool, host_free: Option<u64>, allocated: Option<u64>) -> (r: Result<u64, StatsError>)
        ensures
            free_error_spec(unified, host_free, allocated) matches Some(e) ==> r == Err::<u64, StatsError>(e),
            free_error_spec(unified, host_free, allocated) is None ==> r == Ok::<u64, StatsError>(free_spec(total, unified, host_free, allocated)),
    {
        if unified {
            match host_free {
                Some(bytes) => Ok(bytes),
                None => Err(StatsError::QueryFailed(Adapter::HostMemory)),
            }
        } else {
            match allocated {
                Some(a) => {
                    if a <= total {
                        Ok(total - a)
                    } else {
                        Ok(0)
                    }
                },
                None => Err(StatsError::QueryFailed(Adapter::GpuDevice)),
            }
        }
    }

    /// Free accelerator memory; on unified hosts this reads the host's free memory.
    pub fn current_gpu_memory_free(total: u64, unified: bool, allocated: Option<u64>) -> (r: Result<u64, StatsError>)
        ensures
            !unified ==> r == Self::free_memory_from_spec(total, unified, allocated),
            unified ==> (r is Err ==> r == Err::<u64, StatsError>(StatsError::QueryFailed(Adapter::HostMemory))),
            unified ==> (r matches Ok(f) ==> exists|kib: u64| f == kib_to_bytes(kib)),
    {
        if unified {
            match host_memory_kib() {
                Ok((_, kib)) => Self::free_memory_from(total, unified, Some(Self::kib_to_bytes(kib)), allocated),
                Err(_) => Err(StatsError::QueryFailed(Adapter::HostMemory)),
            }
        } else {
            Self::free_memory_from(total, unified, None, allocated)
        }
    }

    pub open spec fn free_memory_from_spec(total: u64, unified: bool, allocated: Option<u64>) -> Result<u64, StatsError> {
        match free_error_spec(unified, None, allocated) {
            Some(e) => Err(e),
            None => Ok(free_spec(total, unified, None, allocated)),
        }
    }

    /// Used memory as total minus free; clamped to 0, and flagged, when free exceeds total.
    pub fn current_gpu_memory_usage(total: u64, free: u64) -> (r: MemoryEstimate)
        ensures
            r == estimate_spec(total, free),
    {
        if free > total {
            MemoryEstimate { used: 0, clamped: true }
        } else {
            MemoryEstimate { used: total - free, clamped: false }
        }
    }

    fn architecture_name(report: &GpuReport) -> (r: String)
        ensures
            r@ == architecture_spec(report.os_major, report.on_arm, opt_view(report.device_architecture)),
    {
        if Self::architecture_query_supported(report.os_major, report.on_arm) {
            match &report.device_architecture {
                Some(a) => a.clone(),
                None => String::from_str("Unknown"),
            }
        } else if report.os_major >= FIRST_ARCHITECTURE_VERSION {
            String::from_str("Intel")
        } else {
            String::from_str("Unknown")
        }
    }

    /// Assembles the record for one device from its facts and the host's free
    /// memory in bytes, which is used only when memory is unified.
    pub fn gpu_info_from(report: &GpuReport, host_free: Option<u64>) -> (r: Result<GPUData, StatsError>)
        ensures
            gpu_error_spec(*report, host_free) matches Some(e) ==> r == Err::<GPUData, StatsError>(e),
            gpu_error_spec(*report, host_free) is None ==> (r matches Ok(g) && gpu_record_spec(g, *report, host_free)),
    {
        let name = match &report.device_name {
            Some(n) => n.clone(),
            None => return Err(StatsError::QueryFailed(Adapter::GpuDevice)),
        };
        let total = match Self::total_gpu_memory(report.working_set) {
            Ok(t) => t,
            Err(e) => return Err(e),
        };
        let unified = match Self::has_unified_memory(report.on_arm, report.unified_flag) {
            Ok(u) => u,
            Err(e) => return Err(e),
        };
        if !unified && report.allocated.is_none() {
            return Err(StatsError::QueryFailed(Adapter::GpuDevice));
        }
        let free = match Self::free_memory_from(total, unified, host_free, report.allocated) {
            Ok(f) => f,
            Err(e) => return Err(e),
        };
        let estimate = Self::current_gpu_memory_usage(total, free);
        let architecture = Self::architecture_name(report);
        Ok(GPUData {
            name,
            architecture,
            vendor_id: if report.on_arm { APPLE_VENDOR_ID } else { 0 },
            total_memory: total,
            free_memory: free,
            used_memory: estimate.used,
            has_unified_memory: unified,
            is_integrated: report.on_arm,
            adapter_index: 0,
            driver_version: DriverVersionData { major: 0, minor: 0, build: 0, revision: 0 },
            used_memory_clamped: estimate.clamped,
        })
    }

    /// Assembles the record for the default device, reading the host's free
    /// memory only when the device shares it.
    pub fn get_gpu_info(report: &GpuReport) -> (r: Result<GPUData, StatsError>)
        ensures
            report_error_spec(*report) matches Some(e) ==> r == Err::<GPUData, StatsError>(e),
            report_error_spec(*report) is None && !unified_spec(report.on_arm, report.unified_flag)
                ==> (r matches Ok(g) && gpu_record_spec(g, *report, None)),
            r matches Ok(g) ==> exists|host_free: Option<u64>| gpu_record_spec(g, *report, host_free),
            unified_spec(report.on_arm, report.unified_flag) ==> (r matches Ok(g) ==> exists|kib: u64|
                gpu_record_spec(g, *report, Some(#[trigger] kib_to_bytes(kib)))),
            r matches Err(e) ==> Some(e) == report_error_spec(*report) || (e == StatsError::QueryFailed(
                Adapter::HostMemory) && unified_spec(report.on_arm, report.unified_flag)),
    {
        let shares_host_memory = match Self::has_unified_memory(report.on_arm, report.unified_flag) {
            Ok(u) => u,
            Err(_) => false,
        };
        let ghost mut kib_read: u64 = 0;
        let host_free = if shares_host_memory && report.device_name.is_some() && report.working_set != 0 {
            match host_memory_kib() {
                Ok((_, kib)) => {
                    proof {
                        kib_read = kib;
                    }
                    Some(Self::kib_to_bytes(kib))
                },
                Err(_) => None,
            }
        } else {
            None
        };
        let r = Self::gpu_info_from(report, host_free);
        if let Ok(g) = &r {
            assert(gpu_record_spec(*g, *report, host_free));
            proof {
                if unified_spec(report.on_arm, report.unified_flag) {
                    assert(host_free == Some(kib_to_bytes(kib_read)));
                    assert(gpu_record_spec(*g, *report, Some(kib_to_bytes(kib_read))));
                }
            }
        }
        r
    }

    /// One record per discovered accelerator; the default device is the only one.
    pub fn get_gpus_list(report: &GpuReport) -> (r: Result<Vec<GPUData>, StatsError>)
        ensures
            report_error_spec(*report) matches Some(e) ==> r == Err::<Vec<GPUData>, StatsError>(e),
            report_error_spec(*report) is None && !unified_spec(report.on_arm, report.unified_flag)
                ==> (r matches Ok(v) && v@.len() == 1 && gpu_record_spec(v@[0], *report, None)),
            r matches Ok(v) ==> v@.len() == 1 && exists|host_free: Option<u64>| gpu_record_spec(v@[0], *report, host_free),
            unified_spec(report.on_arm, report.unified_flag) ==> (r matches Ok(v) ==> exists|kib: u64|
                gpu_record_spec(v@[0], *report, Some(#[trigger] kib_to_bytes(kib)))),
            r matches Err(e) ==> Some(e) == report_error_spec(*report) || (e == StatsError::QueryFailed(
                Adapter::HostMemory) && unified_spec(report.on_arm, report.unified_flag)),
    {
        let mut results: Vec<GPUData> = Vec::new();
        match Self::get_gpu_info(report) {
            Ok(g) => {
                let ghost record = g;
                results.push(g);
                assert(results@[0] == record);
                let ghost host_free = choose|h: Option<u64>| gpu_record_spec(record, *report, h);
                assert(gpu_record_spec(results@[0], *report, host_free));
                proof {
                    if unified_spec(report.on_arm, report.unified_flag) {
                        let kib = choose|k: u64| gpu_record_spec(record, *report, Some(#[trigger] kib_to_bytes(k)));
                        assert(gpu_record_spec(results@[0], *report, Some(kib_to_bytes(kib))));
                    }
                }
                Ok(results)
            },
            Err(e) => Err(e),
        }
    }

}

} // verus!
