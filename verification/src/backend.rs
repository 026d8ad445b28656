//! The acceleration backends and the classifier that picks one from a
//! device name, or from the CPU when no accelerator was found.

use vstd::prelude::*;

use crate::text::contains_ci;
use crate::text::contains_ci_exec;
use crate::text::tok;

verus! {

/// The compute-acceleration target selected for inference on the detected
/// hardware. Exactly one is assigned per snapshot.
#[derive(Debug, Clone, Copy, PartialEq, Eq, Structural, Hash)]
pub enum GpuBackend {
    Cuda,
    Metal,
    Rocm,
    Vulkan,
    Sycl,
    CpuArm,
    CpuX86,
}

/// The display name of each backend.
pub open spec fn spec_label(b: GpuBackend) -> Seq<char> {
    match b {
        GpuBackend::Cuda => "CUDA"@,
        GpuBackend::Metal => "Metal"@,
        GpuBackend::Rocm => "ROCm"@,
        GpuBackend::Vulkan => "Vulkan"@,
        GpuBackend::Sycl => "SYCL"@,
        GpuBackend::CpuArm => "CPU (ARM)"@,
        GpuBackend::CpuX86 => "CPU (x86)"@,
    }
}

impl GpuBackend {
    /// Human-readable name of the backend.
    pub fn label(&self) -> (r: &'static str)
        ensures
            r@ == spec_label(*self),
    {
        match self {
            GpuBackend::Cuda => "CUDA",
            GpuBackend::Metal => "Metal",
            GpuBackend::Rocm => "ROCm",
            GpuBackend::Vulkan => "Vulkan",
            GpuBackend::Sycl => "SYCL",
            GpuBackend::CpuArm => "CPU (ARM)",
            GpuBackend::CpuX86 => "CPU (x86)",
        }
    }
}

/// The backend inferred from a device name by vendor keyword matching; an
/// unmatched name falls back to the cross-vendor graphics API rather than
/// failing.
pub open spec fn spec_infer_backend(name: Seq<u8>) -> GpuBackend {
    if contains_ci(name, tok("nvidia")) || contains_ci(name, tok("geforce")) || contains_ci(
        name,
        tok("quadro"),
    ) || contains_ci(name, tok("tesla")) || contains_ci(name, tok("rtx")) {
        GpuBackend::Cuda
    } else if contains_ci(name, tok("amd")) || contains_ci(name, tok("radeon")) || contains_ci(
        name,
        tok("ati"),
    ) {
        GpuBackend::Vulkan
    } else if contains_ci(name, tok("intel")) || contains_ci(name, tok("arc")) {
        GpuBackend::Sycl
    } else {
        GpuBackend::Vulkan
    }
}

/// Infers the most likely inference backend from a GPU name.
pub fn infer_gpu_backend(name: &[u8]) -> (r: GpuBackend)
    ensures
        r == spec_infer_backend(name@),
{
    if contains_ci_exec(name, "nvidia".as_bytes()) || contains_ci_exec(name, "geforce".as_bytes())
        || contains_ci_exec(name, "quadro".as_bytes()) || contains_ci_exec(
        name,
        "tesla".as_bytes(),
    ) || contains_ci_exec(name, "rtx".as_bytes()) {
        GpuBackend::Cuda
    } else if contains_ci_exec(name, "amd".as_bytes()) || contains_ci_exec(
        name,
        "radeon".as_bytes(),
    ) || contains_ci_exec(name, "ati".as_bytes()) {
        GpuBackend::Vulkan
    } else if contains_ci_exec(name, "intel".as_bytes()) || contains_ci_exec(
        name,
        "arc".as_bytes(),
    ) {
        GpuBackend::Sycl
    } else {
        GpuBackend::Vulkan
    }
}

/// The CPU-only backend chosen when no accelerator was found: the ARM-family
/// variant when the CPU name carries the first-party marker or the build
/// target is ARM, the x86-family variant otherwise.
pub open spec fn spec_cpu_backend(cpu_name: Seq<u8>, arm_target: bool) -> GpuBackend {
    if arm_target || contains_ci(cpu_name, tok("apple")) {
        GpuBackend::CpuArm
    } else {
        GpuBackend::CpuX86
    }
}

/// Picks the CPU-only fallback backend from the CPU name and the build
/// target's instruction-set family.
pub fn cpu_fallback_backend(cpu_name: &[u8], arm_target: bool) -> (r: GpuBackend)
    ensures
        r == spec_cpu_backend(cpu_name@, arm_target),
{
    if arm_target || contains_ci_exec(cpu_name, "apple".as_bytes()) {
        GpuBackend::CpuArm
    } else {
        GpuBackend::CpuX86
    }
}

/// The no-accelerator fallback goes by the CPU name: a name carrying the
/// first-party ARM marker yields the ARM-family CPU backend on every build
/// target, and a name without it yields the x86-family backend on an x86
/// target. (On an ARM build target the ARM-family backend is chosen even
/// without the marker, so that case stands apart.)
pub proof fn lemma_cpu_fallback_by_name(cpu_name: Seq<u8>, arm_target: bool)
    ensures
        contains_ci(cpu_name, tok("apple")) ==> spec_cpu_backend(cpu_name, arm_target)
            == GpuBackend::CpuArm,
        !contains_ci(cpu_name, tok("apple")) && !arm_target ==> spec_cpu_backend(
            cpu_name,
            arm_target,
        ) == GpuBackend::CpuX86,
{
}

} // verus!
