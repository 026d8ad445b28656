use llmfit::backend::GpuBackend;
use llmfit::backend::infer_gpu_backend;
use llmfit::os_release_mentions_microsoft;
use llmfit::probes::detect_gpu;
use llmfit::probes::ProbeInputs;
use llmfit::specs::SystemSpecs;

fn no_inputs() -> ProbeInputs {
    ProbeInputs {
        nvidia_smi: None,
        rocm_vram: None,
        rocm_name: None,
        amd_card_found: false,
        amd_vram_file: None,
        lspci: None,
        windows_ps: None,
        windows_wmic: None,
        intel_vram_mib: None,
        apple_display: None,
    }
}

#[test]
fn unified_memory_reports_total_ram_not_available() {
    let mut inputs = no_inputs();
    inputs.apple_display = Some(b"Chipset Model: Apple M2 Max\n".to_vec());
    let total_mib = 64 * 1024u64;
    let rec = detect_gpu(&inputs, total_mib, b"Apple M2 Max", true);
    assert!(rec.has_gpu);
    assert!(rec.unified_memory);
    assert_eq!(rec.vram_mib, Some(total_mib));
    assert_eq!(rec.name, Some(b"Apple M2 Max".to_vec()));
    assert_eq!(rec.backend, GpuBackend::Metal);
    assert_eq!(rec.count, 1);
}

#[test]
fn unified_memory_generic_name_without_cpu_marker() {
    let mut inputs = no_inputs();
    inputs.apple_display = Some(b"Chipset Model: Apple GPU\n".to_vec());
    let rec = detect_gpu(&inputs, 16 * 1024, b"Some Other CPU", true);
    assert_eq!(rec.name, Some(b"Apple Silicon".to_vec()));
    assert_eq!(rec.vram_mib, Some(16 * 1024));
}

#[test]
fn no_accelerator_arm_marker_yields_arm_backend() {
    // The first-party CPU marker selects the ARM-family backend even on an
    // x86 build target.
    let rec = detect_gpu(&no_inputs(), 8192, b"Apple M1", false);
    assert!(!rec.has_gpu);
    assert_eq!(rec.backend, GpuBackend::CpuArm);
    assert_eq!(rec.vram_mib, None);
    assert_eq!(rec.count, 0);
}

#[test]
fn no_accelerator_plain_cpu_yields_x86_backend() {
    let rec = detect_gpu(&no_inputs(), 8192, b"Intel(R) Xeon(R) CPU", false);
    assert!(!rec.has_gpu);
    assert_eq!(rec.backend, GpuBackend::CpuX86);
}

#[test]
fn first_probe_success_wins_over_later_ones() {
    let mut inputs = no_inputs();
    inputs.nvidia_smi = Some(b"24576, NVIDIA GeForce RTX 4090\n".to_vec());
    inputs.apple_display = Some(b"Chipset Model: Apple M2\n".to_vec());
    let rec = detect_gpu(&inputs, 32 * 1024, b"Apple M2", true);
    assert_eq!(rec.backend, GpuBackend::Cuda);
    assert!(!rec.unified_memory);
    assert_eq!(rec.vram_mib, Some(24576));
}

#[test]
fn failed_first_probe_falls_through() {
    let mut inputs = no_inputs();
    inputs.nvidia_smi = Some(b"garbage with no device lines\n".to_vec());
    inputs.intel_vram_mib = Some(8192);
    let rec = detect_gpu(&inputs, 32 * 1024, b"Intel CPU", false);
    assert_eq!(rec.backend, GpuBackend::Sycl);
    assert_eq!(rec.name, Some(b"Intel Arc".to_vec()));
    assert_eq!(rec.vram_mib, Some(8192));
}

#[test]
fn snapshot_repairs_zero_available_reading() {
    const GIB: u64 = 1024 * 1024 * 1024;
    let specs = SystemSpecs::assemble(
        64 * GIB,
        0,
        24 * GIB,
        None,
        8,
        Some(b"Apple M2 Max".to_vec()),
        &{
            let mut i = no_inputs();
            i.apple_display = Some(b"Chipset Model: Apple M2 Max\n".to_vec());
            i
        },
        true,
    );
    // total - used repaired the zero reading.
    assert_eq!(specs.available_ram_bytes, 40 * GIB);
    assert_eq!(specs.total_ram_bytes, 64 * GIB);
    // Unified memory: VRAM equals total RAM in MiB, not the available value.
    assert_eq!(specs.gpu_vram_mib, Some(64 * 1024));
    assert!(specs.unified_memory);
    assert_eq!(specs.cpu_name, b"Apple M2 Max".to_vec());
    assert_eq!(specs.total_cpu_cores, 8);
}

#[test]
fn snapshot_defaults_cpu_name_when_core_list_empty() {
    let specs = SystemSpecs::assemble(1000, 500, 0, None, 0, None, &no_inputs(), false);
    assert_eq!(specs.cpu_name, b"Unknown CPU".to_vec());
    assert_eq!(specs.available_ram_bytes, 500);
    assert!(!specs.has_gpu);
    assert_eq!(specs.backend, GpuBackend::CpuX86);
}

#[test]
fn snapshot_clamps_available_to_total() {
    let specs = SystemSpecs::assemble(1000, 1500, 0, None, 4, None, &no_inputs(), false);
    assert_eq!(specs.available_ram_bytes, 1000);
}

#[test]
fn backend_labels() {
    assert_eq!(GpuBackend::Cuda.label(), "CUDA");
    assert_eq!(GpuBackend::Metal.label(), "Metal");
    assert_eq!(GpuBackend::Rocm.label(), "ROCm");
    assert_eq!(GpuBackend::Vulkan.label(), "Vulkan");
    assert_eq!(GpuBackend::Sycl.label(), "SYCL");
    assert_eq!(GpuBackend::CpuArm.label(), "CPU (ARM)");
    assert_eq!(GpuBackend::CpuX86.label(), "CPU (x86)");
}

#[test]
fn backend_inference_from_names() {
    assert_eq!(infer_gpu_backend(b"NVIDIA GeForce RTX 3080"), GpuBackend::Cuda);
    assert_eq!(infer_gpu_backend(b"Quadro P4000"), GpuBackend::Cuda);
    assert_eq!(infer_gpu_backend(b"AMD Radeon RX 6800"), GpuBackend::Vulkan);
    assert_eq!(infer_gpu_backend(b"Intel Iris Xe"), GpuBackend::Sycl);
    assert_eq!(infer_gpu_backend(b"Mystery Device"), GpuBackend::Vulkan);
}

#[test]
fn compatibility_layer_marker() {
    assert!(os_release_mentions_microsoft(b"5.15.90.1-microsoft-standard-WSL2"));
    assert!(os_release_mentions_microsoft(b"Linux version 4.4.0-Microsoft"));
    assert!(!os_release_mentions_microsoft(b"6.1.0-generic"));
}
