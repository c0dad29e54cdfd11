use sys_stats::{Adapter, DriverVersionData, GPUUsage, GpuReport, MemoryEstimate, StatsError};

fn report(on_arm: bool, unified_flag: Option<bool>, allocated: Option<u64>) -> GpuReport {
    GpuReport {
        device_name: Some("Test GPU".to_string()),
        device_architecture: Some("applegpu_g13g".to_string()),
        on_arm,
        os_major: 14,
        working_set: 8_000_000_000,
        unified_flag,
        allocated,
    }
}

#[test]
fn discrete_memory_from_allocation() {
    let g = GPUUsage::gpu_info_from(&report(false, None, Some(2_000_000_000)), None).unwrap();
    assert_eq!(g.total_memory, 8_000_000_000);
    assert_eq!(g.free_memory, 6_000_000_000);
    assert_eq!(g.used_memory, 2_000_000_000);
    assert!(!g.has_unified_memory);
    assert!(!g.used_memory_clamped);
    assert_eq!(g.used_memory + g.free_memory, g.total_memory);
}

#[test]
fn unified_free_is_host_free() {
    let g = GPUUsage::gpu_info_from(&report(true, Some(true), Some(7_000_000_000)), Some(1_500_000_000)).unwrap();
    assert_eq!(g.free_memory, 1_500_000_000);
    assert_eq!(g.used_memory, 6_500_000_000);
    assert!(g.has_unified_memory);
    assert!(g.is_integrated);
    assert_eq!(g.vendor_id, 4203);
}

#[test]
fn unified_free_above_total_is_clamped_and_flagged() {
    let g = GPUUsage::gpu_info_from(&report(true, Some(true), None), Some(9_000_000_000)).unwrap();
    assert_eq!(g.free_memory, 9_000_000_000);
    assert_eq!(g.used_memory, 0);
    assert!(g.used_memory_clamped);
}

#[test]
fn allocation_above_total_gives_no_free_memory() {
    let g = GPUUsage::gpu_info_from(&report(false, None, Some(9_000_000_000)), None).unwrap();
    assert_eq!(g.free_memory, 0);
    assert_eq!(g.used_memory, 8_000_000_000);
}

#[test]
fn arm_device_without_unified_memory_uses_allocation() {
    let g = GPUUsage::gpu_info_from(&report(true, Some(false), Some(1_000)), Some(5)).unwrap();
    assert!(!g.has_unified_memory);
    assert_eq!(g.free_memory, 8_000_000_000 - 1_000);
}

#[test]
fn record_defaults() {
    let g = GPUUsage::gpu_info_from(&report(false, None, Some(0)), None).unwrap();
    assert_eq!(g.name, "Test GPU");
    assert_eq!(g.vendor_id, 0);
    assert!(!g.is_integrated);
    assert_eq!(g.adapter_index, 0);
    assert_eq!(g.driver_version, DriverVersionData { major: 0, minor: 0, build: 0, revision: 0 });
}

#[test]
fn architecture_names() {
    let mut r = report(true, Some(true), None);
    assert_eq!(GPUUsage::gpu_info_from(&r, Some(1)).unwrap().architecture, "applegpu_g13g");
    r.device_architecture = None;
    assert_eq!(GPUUsage::gpu_info_from(&r, Some(1)).unwrap().architecture, "Unknown");
    r.os_major = 13;
    r.device_architecture = Some("applegpu_g13g".to_string());
    assert_eq!(GPUUsage::gpu_info_from(&r, Some(1)).unwrap().architecture, "Unknown");
    let mut r = report(false, None, Some(0));
    assert_eq!(GPUUsage::gpu_info_from(&r, None).unwrap().architecture, "Intel");
    r.os_major = 12;
    assert_eq!(GPUUsage::gpu_info_from(&r, None).unwrap().architecture, "Unknown");
}

#[test]
fn failures() {
    let mut r = report(false, None, Some(0));
    r.device_name = None;
    assert_eq!(GPUUsage::gpu_info_from(&r, None), Err(StatsError::QueryFailed(Adapter::GpuDevice)));
    let mut r = report(false, None, Some(0));
    r.working_set = 0;
    assert_eq!(GPUUsage::gpu_info_from(&r, None), Err(StatsError::QueryFailed(Adapter::WorkingSetSize)));
    let r = report(true, None, Some(0));
    assert_eq!(GPUUsage::gpu_info_from(&r, Some(1)), Err(StatsError::QueryFailed(Adapter::GpuDevice)));
    let r = report(false, None, None);
    assert_eq!(GPUUsage::gpu_info_from(&r, None), Err(StatsError::QueryFailed(Adapter::GpuDevice)));
    let r = report(true, Some(true), None);
    assert_eq!(GPUUsage::gpu_info_from(&r, None), Err(StatsError::QueryFailed(Adapter::HostMemory)));
}

#[test]
fn building_blocks() {
    assert_eq!(GPUUsage::total_gpu_memory(0), Err(StatsError::QueryFailed(Adapter::WorkingSetSize)));
    assert_eq!(GPUUsage::total_gpu_memory(42), Ok(42));
    assert_eq!(GPUUsage::has_unified_memory(false, None), Ok(false));
    assert_eq!(GPUUsage::has_unified_memory(false, Some(true)), Ok(false));
    assert_eq!(GPUUsage::has_unified_memory(true, Some(true)), Ok(true));
    assert_eq!(GPUUsage::has_unified_memory(true, None), Err(StatsError::QueryFailed(Adapter::GpuDevice)));
    assert_eq!(GPUUsage::current_gpu_memory_usage(10, 4), MemoryEstimate { used: 6, clamped: false });
    assert_eq!(GPUUsage::current_gpu_memory_usage(10, 11), MemoryEstimate { used: 0, clamped: true });
    assert_eq!(GPUUsage::current_gpu_memory_usage(10, 10), MemoryEstimate { used: 0, clamped: false });
    assert_eq!(GPUUsage::kib_to_bytes(2), 2048);
    assert_eq!(GPUUsage::kib_to_bytes(u64::MAX), u64::MAX);
    assert_eq!(GPUUsage::free_memory_from(10, false, None, Some(3)), Ok(7));
    assert_eq!(GPUUsage::free_memory_from(10, true, Some(3), Some(9)), Ok(3));
    assert!(GPUUsage::architecture_query_supported(14, true));
    assert!(!GPUUsage::architecture_query_supported(14, false));
    assert!(!GPUUsage::architecture_query_supported(13, true));
}

#[test]
fn discrete_list_has_one_record() {
    let v = GPUUsage::get_gpus_list(&report(false, None, Some(2_000_000_000))).unwrap();
    assert_eq!(v.len(), 1);
    assert_eq!(v[0].free_memory, 6_000_000_000);
}

#[test]
fn unified_record_on_this_host() {
    let g = GPUUsage::get_gpu_info(&report(true, Some(true), None)).unwrap();
    assert!(g.has_unified_memory);
    assert_eq!(g.free_memory % 1024, 0);
    if !g.used_memory_clamped {
        assert_eq!(g.used_memory + g.free_memory, g.total_memory);
    } else {
        assert_eq!(g.used_memory, 0);
    }
    let free = GPUUsage::current_gpu_memory_free(1, true, None).unwrap();
    assert!(free > 0);
}

#[test]
fn os_major_version_is_stable() {
    assert_eq!(GPUUsage::os_major_version(), GPUUsage::os_major_version());
}
