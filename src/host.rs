//! Host queries made through outside crates. Their results depend on the
//! machine, so nothing is promised of them beyond their types.
use vstd::prelude::*;

verus! {

#[verifier::external_type_specification]
#[verifier::external_body]
pub struct ExSysInfoError(sys_info::Error);

/// Relies on sys_info::cpu_num: the number of processors the host reports.
#[verifier::external_body]
pub(crate) fn host_cpu_count() -> (r: Result<u32, sys_info::Error>) {
    sys_info::cpu_num()
}

/// Relies on sys_info::mem_info: the host's total and free memory, in KiB.
#[verifier::external_body]
pub(crate) fn host_memory_kib() -> (r: Result<(u64, u64), sys_info::Error>) {
    sys_info::mem_info().map(|m| (m.total, m.free))
}

/// Relies on os_version::detect: the product version string when the host is macOS.
#[verifier::external_body]
pub(crate) fn host_macos_version() -> (r: Option<String>) {
    match os_version::detect() {
        Ok(os_version::OsVersion::MacOS(m)) => Some(m.version),
        _ => None,
    }
}

} // verus!
