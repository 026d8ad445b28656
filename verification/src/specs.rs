//! The aggregate snapshot: memory, CPU and the chosen detection record,
//! assembled once from the values the platform handed in and immutable
//! thereafter.

use vstd::prelude::*;

use crate::backend::GpuBackend;
use crate::memory::available_ram_fallback;
use crate::memory::spec_available_fallback;
use crate::probes::DetectionRecord;
use crate::probes::ProbeInputs;
use crate::probes::ProbeModel;
use crate::probes::detect_gpu;
use crate::probes::spec_detect_gpu;
use crate::text::tok;

verus! {

/// One snapshot of the host machine's compute capability. RAM is in bytes,
/// VRAM in MiB; the GPU fields are the chosen detection record's, flattened
/// in.
pub struct SystemSpecs {
    pub total_ram_bytes: u64,
    pub available_ram_bytes: u64,
    pub total_cpu_cores: usize,
    pub cpu_name: Vec<u8>,
    pub has_gpu: bool,
    pub gpu_vram_mib: Option<u64>,
    pub gpu_name: Option<Vec<u8>>,
    pub gpu_count: u32,
    pub unified_memory: bool,
    pub backend: GpuBackend,
}

/// The mathematical shape of a snapshot.
pub ghost struct SpecsModel {
    pub total_ram_bytes: u64,
    pub available_ram_bytes: u64,
    pub total_cpu_cores: usize,
    pub cpu_name: Seq<u8>,
    pub has_gpu: bool,
    pub gpu_vram_mib: Option<u64>,
    pub gpu_name: Option<Seq<u8>>,
    pub gpu_count: u32,
    pub unified_memory: bool,
    pub backend: GpuBackend,
}

impl View for SystemSpecs {
    type V = SpecsModel;

    open spec fn view(&self) -> SpecsModel {
        SpecsModel {
            total_ram_bytes: self.total_ram_bytes,
            available_ram_bytes: self.available_ram_bytes,
            total_cpu_cores: self.total_cpu_cores,
            cpu_name: self.cpu_name@,
            has_gpu: self.has_gpu,
            gpu_vram_mib: self.gpu_vram_mib,
            gpu_name: match self.gpu_name {
                Some(n) => Some(n@),
                None => None,
            },
            gpu_count: self.gpu_count,
            unified_memory: self.unified_memory,
            backend: self.backend,
        }
    }
}

/// The snapshot assembled from the metrics and the probe inputs: the
/// available reading repaired when implausible and clamped to the total,
/// the CPU name defaulted when the core list was empty, and the probe
/// chain's record flattened in — the unified-memory path fed with the
/// total, never the available, reading.
pub open spec fn spec_assemble(
    total_ram_bytes: u64,
    available_ram_bytes: u64,
    used_ram_bytes: u64,
    vm: Option<Seq<u8>>,
    total_cpu_cores: usize,
    cpu_brand: Option<Seq<u8>>,
    probes: ProbeModel,
    arm_target: bool,
) -> SpecsModel {
    let repaired = if available_ram_bytes == 0 && total_ram_bytes > 0 {
        spec_available_fallback(total_ram_bytes, used_ram_bytes, vm)
    } else {
        available_ram_bytes
    };
    let available = if repaired <= total_ram_bytes {
        repaired
    } else {
        total_ram_bytes
    };
    let cpu = match cpu_brand {
        Some(b) => b,
        None => tok("Unknown CPU"),
    };
    let gm = spec_detect_gpu(probes, (total_ram_bytes / 1048576) as u64, cpu, arm_target);
    SpecsModel {
        total_ram_bytes,
        available_ram_bytes: available,
        total_cpu_cores,
        cpu_name: cpu,
        has_gpu: gm.has_gpu,
        gpu_vram_mib: gm.vram_mib,
        gpu_name: gm.name,
        gpu_count: gm.count,
        unified_memory: gm.unified_memory,
        backend: gm.backend,
    }
}

impl SystemSpecs {
    /// Assembles the snapshot from the operating system's readings and the
    /// gathered probe inputs. `cpu_brand` is the first core's brand string,
    /// when there was one; `vm_stat_text` the memory-statistics report,
    /// when it could be run.
    pub fn assemble(
        total_ram_bytes: u64,
        available_ram_bytes: u64,
        used_ram_bytes: u64,
        vm_stat_text: Option<&[u8]>,
        total_cpu_cores: usize,
        cpu_brand: Option<Vec<u8>>,
        probes: &ProbeInputs,
        arm_target: bool,
    ) -> (r: SystemSpecs)
        ensures
            r@ == spec_assemble(
                total_ram_bytes,
                available_ram_bytes,
                used_ram_bytes,
                match vm_stat_text {
                    Some(t) => Some(t@),
                    None => None,
                },
                total_cpu_cores,
                match cpu_brand {
                    Some(b) => Some(b@),
                    None => None,
                },
                probes@,
                arm_target,
            ),
    {
        let repaired = if available_ram_bytes == 0 && total_ram_bytes > 0 {
            available_ram_fallback(total_ram_bytes, used_ram_bytes, vm_stat_text)
        } else {
            available_ram_bytes
        };
        let available = if repaired <= total_ram_bytes {
            repaired
        } else {
            total_ram_bytes
        };
        let cpu: Vec<u8> = match cpu_brand {
            Some(b) => b,
            None => vstd::slice::slice_to_vec("Unknown CPU".as_bytes()),
        };
        let record: DetectionRecord = detect_gpu(
            probes,
            total_ram_bytes / 1048576,
            cpu.as_slice(),
            arm_target,
        );
        SystemSpecs {
            total_ram_bytes,
            available_ram_bytes: available,
            total_cpu_cores,
            cpu_name: cpu,
            has_gpu: record.has_gpu,
            gpu_vram_mib: record.vram_mib,
            gpu_name: record.name,
            gpu_count: record.count,
            unified_memory: record.unified_memory,
            backend: record.backend,
        }
    }
}

/// A snapshot's memory figures are coherent: the available value never
/// passes the total, and a zero available reading against a positive total
/// is always repaired to a positive value.
pub proof fn lemma_snapshot_ram_bounded(
    total_ram_bytes: u64,
    available_ram_bytes: u64,
    used_ram_bytes: u64,
    vm: Option<Seq<u8>>,
    total_cpu_cores: usize,
    cpu_brand: Option<Seq<u8>>,
    probes: ProbeModel,
    arm_target: bool,
)
    ensures
        ({
            let r = spec_assemble(
                total_ram_bytes,
                available_ram_bytes,
                used_ram_bytes,
                vm,
                total_cpu_cores,
                cpu_brand,
                probes,
                arm_target,
            );
            &&& r.available_ram_bytes <= total_ram_bytes
            &&& (available_ram_bytes == 0 && total_ram_bytes > 0 ==> r.available_ram_bytes > 0)
        }),
{
    if available_ram_bytes == 0 && total_ram_bytes > 0 {
        crate::memory::lemma_fallback_total_bounded(total_ram_bytes, used_ram_bytes, vm);
    }
}

} // verus!
