use vstd::prelude::*;

verus! {

/// The native query or helper process that a failure comes from.
#[derive(Clone, Copy, Debug, PartialEq, Eq, Structural)]
pub enum Adapter {
    CoreCount,
    CpuName,
    GpuDevice,
    WorkingSetSize,
    HostMemory,
    BrandString,
}

/// Fatal failures of an aggregator call. Non-fatal conditions (unknown
/// architecture, clamped estimates, SoC lookup misses) are data, not errors.
#[derive(Clone, Copy, Debug, PartialEq, Eq, Structural)]
pub enum StatsError {
    /// The OS or device call itself reported failure.
    QueryFailed(Adapter),
    /// A helper process could not be launched, or its output was unusable.
    ProcessSpawnFailed(Adapter),
}

} // verus!
