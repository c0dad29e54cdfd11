//! Cross-platform hardware telemetry: CPU, GPU, memory and SoC identity,
//! normalised into one data model with verified derivation rules.

pub mod cpu;
pub mod error;
pub mod gpu;
pub mod host;
pub mod memory;
pub mod soc;
pub mod text;

pub use cpu::{architecture_of, CPUData, CPUUsage, CpuArchitecture};
pub use gpu::{DriverVersionData, GPUData, GPUUsage, GpuReport, MemoryEstimate};
pub use memory::{MemoryData, MemoryUsage};
pub use soc::{Soc, SocDetails};
pub use error::{Adapter, StatsError};
