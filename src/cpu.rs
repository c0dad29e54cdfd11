use vstd::prelude::*;
use crate::error::{Adapter, StatsError};
use crate::host::host_cpu_count;
use crate::text::{decode_lossy, lossy_text, second_line, second_line_spec, trim_text, trimmed};

verus! {

/// Processor architectures that the host can report.
#[derive(Clone, Copy, Debug, PartialEq, Eq, Structural)]
pub enum CpuArchitecture {
    X86,
    X64,
    Arm,
    Arm64,
    RiscV,
    Unknown,
}

/// The fixed table from the OS's processor-architecture code to an architecture.
pub open spec fn architecture_spec(code: u16) -> CpuArchitecture {
    if code == 0 {
        CpuArchitecture::X86
    } else if code == 5 {
        CpuArchitecture::Arm
    } else if code == 9 {
        CpuArchitecture::X64
    } else if code == 12 {
        CpuArchitecture::Arm64
    } else if code == 14 {
        CpuArchitecture::RiscV
    } else {
        CpuArchitecture::Unknown
    }
}

/// Maps a raw processor-architecture code; codes outside the table are `Unknown`.
pub fn architecture_of(code: u16) -> (r: CpuArchitecture)
    ensures
        r == architecture_spec(code),
{
    match code {
        0 => CpuArchitecture::X86,
        5 => CpuArchitecture::Arm,
        9 => CpuArchitecture::X64,
        12 => CpuArchitecture::Arm64,
        14 => CpuArchitecture::RiscV,
        _ => CpuArchitecture::Unknown,
    }
}

/// A processor as reported by the host. The load average, a floating-point
/// figure, is read beside this record by the caller.
#[derive(Clone, Debug, PartialEq, Eq)]
pub struct CPUData {
    pub name: String,
    pub architecture: CpuArchitecture,
    /// At least 1.
    pub num_of_cores: u32,
}

pub struct CPUUsage;

/// The processor name in the name helper's output: its second line, trimmed.
pub open spec fn cpu_name_spec(output: Seq<u8>) -> Option<Seq<char>> {
    match second_line_spec(output) {
        Some(l) => Some(trimmed(lossy_text(l))),
        None => None,
    }
}

impl CPUUsage {
    /// The core count from a host reading (`None` when the query failed);
    /// a failed query or a count of 0 is an error.
    pub fn cores_from_reading(reading: Option<u32>) -> (r: Result<u32, StatsError>)
        ensures
            (reading matches Some(n) && n >= 1) ==> r == Ok::<u32, StatsError>(reading->0),
            (reading is None || reading == Some(0u32)) ==> r == Err::<u32, StatsError>(
                StatsError::QueryFailed(Adapter::CoreCount),
            ),
    {
        match reading {
            Some(n) => {
                if n == 0 {
                    Err(StatsError::QueryFailed(Adapter::CoreCount))
                } else {
                    Ok(n)
                }
            },
            None => Err(StatsError::QueryFailed(Adapter::CoreCount)),
        }
    }

    /// The host's core count; a failed query or a count of 0 is an error.
    pub fn num_of_cores() -> (r: Result<u32, StatsError>)
        ensures
            r matches Ok(n) ==> n >= 1,
            r matches Err(e) ==> e == StatsError::QueryFailed(Adapter::CoreCount),
    {
        let reading = match host_cpu_count() {
            Ok(n) => Some(n),
            Err(_) => None,
        };
        Self::cores_from_reading(reading)
    }

    /// Extracts the processor name from the name helper's output; the first
    /// line is the helper's header. Output without a second line is unusable.
    pub fn get_cpu_name(output: &Vec<u8>) -> (r: Result<String, StatsError>)
        ensures
            cpu_name_spec(output@) is None ==> r == Err::<String, StatsError>(
                StatsError::ProcessSpawnFailed(Adapter::CpuName),
            ),
            cpu_name_spec(output@) matches Some(n) ==> (r matches Ok(s) && s@ == n),
    {
        match second_line(output) {
            Some(line) => {
                let text = decode_lossy(line.as_slice());
                Ok(trim_text(text.as_str()))
            },
            None => Err(StatsError::ProcessSpawnFailed(Adapter::CpuName)),
        }
    }

    /// Assembles the record from the name helper's output, the raw architecture
    /// code and the core count.
    pub fn cpu_info_from(name_output: &Vec<u8>, arch_code: u16, cores: u32) -> (r: Result<CPUData, StatsError>)
        ensures
            cpu_name_spec(name_output@) is None ==> r == Err::<CPUData, StatsError>(
                StatsError::ProcessSpawnFailed(Adapter::CpuName),
            ),
            cpu_name_spec(name_output@) is Some && cores == 0 ==> r == Err::<CPUData, StatsError>(
                StatsError::QueryFailed(Adapter::CoreCount),
            ),
            cpu_name_spec(name_output@) is Some && cores >= 1 ==> (r matches Ok(c) && cpu_name_spec(
                name_output@,
            ) == Some(c.name@) && c.architecture == architecture_spec(arch_code) && c.num_of_cores
                == cores),
    {
        let name = match Self::get_cpu_name(name_output) {
            Ok(n) => n,
            Err(e) => return Err(e),
        };
        if cores == 0 {
            return Err(StatsError::QueryFailed(Adapter::CoreCount));
        }
        Ok(CPUData { name, architecture: architecture_of(arch_code), num_of_cores: cores })
    }

    /// Collects the record, reading the core count from the host.
    pub fn get_cpu_info(name_output: &Vec<u8>, arch_code: u16) -> (r: Result<CPUData, StatsError>)
        ensures
            cpu_name_spec(name_output@) is None ==> r == Err::<CPUData, StatsError>(
                StatsError::ProcessSpawnFailed(Adapter::CpuName),
            ),
            r matches Ok(c) ==> cpu_name_spec(name_output@) == Some(c.name@) && c.architecture
                == architecture_spec(arch_code) && c.num_of_cores >= 1,
            r matches Err(e) ==> e == StatsError::ProcessSpawnFailed(Adapter::CpuName) || e
                == StatsError::QueryFailed(Adapter::CoreCount),
            cpu_name_spec(name_output@) is Some ==> r != Err::<CPUData, StatsError>(
                StatsError::ProcessSpawnFailed(Adapter::CpuName),
            ),
    {
        if let Err(e) = Self::get_cpu_name(name_output) {
            return Err(e);
        }
        match Self::num_of_cores() {
            Ok(n) => Self::cpu_info_from(name_output, arch_code, n),
            Err(e) => Err(e),
        }
    }
}

} // verus!
