use llmfit::backend::GpuBackend;
use llmfit::probes::amd_sysfs_record;
use llmfit::probes::apple_gpu_detected;
use llmfit::probes::get_amd_gpu_name_lspci;
use llmfit::probes::intel_card_step;
use llmfit::probes::lspci_has_intel_arc;
use llmfit::probes::parse_nvidia_smi;
use llmfit::probes::parse_rocm_smi;
use llmfit::probes::parse_windows_gpu_entries;
use llmfit::probes::parse_windows_gpu_wmic;

const GIB: u64 = 1024 * 1024 * 1024;

#[test]
fn vendor_a_single_device() {
    let rec = parse_nvidia_smi(b"24576, NVIDIA GeForce RTX 4090\n").unwrap();
    assert!(rec.has_gpu);
    assert_eq!(rec.vram_mib, Some(24576));
    assert_eq!(rec.name, Some(b"NVIDIA GeForce RTX 4090".to_vec()));
    assert_eq!(rec.count, 1);
    assert!(!rec.unified_memory);
    assert_eq!(rec.backend, GpuBackend::Cuda);
}

#[test]
fn vendor_a_three_equal_devices_aggregate() {
    let text = b"8192, NVIDIA GeForce RTX 3070\n\
8192, NVIDIA GeForce RTX 3070\n\
8192, NVIDIA GeForce RTX 3070\n";
    let rec = parse_nvidia_smi(text).unwrap();
    assert_eq!(rec.vram_mib, Some(3 * 8192));
    assert_eq!(rec.count, 3);
    assert_eq!(rec.name, Some(b"NVIDIA GeForce RTX 3070".to_vec()));
}

#[test]
fn vendor_a_zero_reading_estimated_from_name() {
    let rec = parse_nvidia_smi(b"0, NVIDIA GeForce RTX 3080\n").unwrap();
    // 10 GiB from the table, in MiB.
    assert_eq!(rec.vram_mib, Some(10 * 1024));
    assert_eq!(rec.count, 1);
}

#[test]
fn vendor_a_garbage_defers() {
    assert!(parse_nvidia_smi(b"").is_none());
    assert!(parse_nvidia_smi(b"no devices here\n").is_none());
}

#[test]
fn vendor_b_sums_total_lines_only() {
    let vram = b"============ ROCm System Management Interface ============\n\
GPU[0] : vram Total Memory (B): 17179869184\n\
GPU[0] : vram Used Memory (B): 1048576\n";
    let name = b"Card Series: Radeon RX 7900 XTX\n";
    let rec = parse_rocm_smi(vram, Some(name.as_slice()));
    assert!(rec.has_gpu);
    assert_eq!(rec.vram_mib, Some(16 * 1024));
    assert_eq!(rec.count, 1);
    assert_eq!(rec.name, Some(b"Radeon RX 7900 XTX".to_vec()));
    assert_eq!(rec.backend, GpuBackend::Rocm);
}

#[test]
fn vendor_b_no_totals_assumes_one_device_and_estimates() {
    let rec = parse_rocm_smi(
        b"nothing useful\n",
        Some(b"Card Model: Radeon RX 7600\n".as_slice()),
    );
    assert_eq!(rec.count, 1);
    assert_eq!(rec.vram_mib, Some(8 * 1024));
    assert_eq!(rec.name, Some(b"Radeon RX 7600".to_vec()));
}

#[test]
fn vendor_b_without_any_signal_reports_unknown_vram() {
    let rec = parse_rocm_smi(b"\n", None);
    assert_eq!(rec.count, 1);
    assert_eq!(rec.vram_mib, None);
    assert_eq!(rec.name, None);
    assert!(rec.has_gpu);
}

#[test]
fn pci_listing_yields_bracketed_name() {
    let text = b"01:00.0 VGA compatible controller: Advanced Micro Devices, Inc. \
[AMD/ATI] Navi 10 [Radeon RX 5700 XT] (rev c1)\n";
    // The name is the last bracketed group of the matching line.
    let name = get_amd_gpu_name_lspci(text).unwrap();
    assert_eq!(name, b"Radeon RX 5700 XT".to_vec());
}

#[test]
fn pci_listing_without_display_line_defers() {
    assert_eq!(
        get_amd_gpu_name_lspci(b"00:1f.3 Audio device: Intel Corporation Device\n"),
        None
    );
}

#[test]
fn secondary_vendor_card_reads_attribute_file() {
    let rec = amd_sysfs_record(Some(b"17179869184\n".as_slice()), None);
    assert!(rec.has_gpu);
    assert_eq!(rec.vram_mib, Some(16 * 1024));
    assert_eq!(rec.count, 1);
    assert_eq!(rec.backend, GpuBackend::Vulkan);
    assert_eq!(rec.name, None);
}

#[test]
fn secondary_vendor_card_estimates_when_attribute_missing() {
    let lspci = b"01:00.0 VGA compatible controller: Advanced Micro Devices, Inc. \
[AMD/ATI] Navi 31 [Radeon RX 7900 XT]\n";
    let rec = amd_sysfs_record(None, Some(lspci.as_slice()));
    assert_eq!(rec.name, Some(b"Radeon RX 7900 XT".to_vec()));
    assert_eq!(rec.vram_mib, Some(20 * 1024));
}

#[test]
fn scripted_query_picks_largest_candidate() {
    let text = b"Intel(R) UHD Graphics 770|1073741824\n\
NVIDIA GeForce RTX 4080|17179869184\n";
    let rec = parse_windows_gpu_entries(text).unwrap();
    assert_eq!(rec.name, Some(b"NVIDIA GeForce RTX 4080".to_vec()));
    assert_eq!(rec.vram_mib, Some(16 * 1024));
    assert_eq!(rec.count, 2);
    assert_eq!(rec.backend, GpuBackend::Cuda);
}

#[test]
fn scripted_query_excludes_virtual_and_basic_adapters() {
    let text = b"Microsoft Basic Display Adapter|1073741824\n\
Some Virtual Display|2147483648\n";
    // Only excluded entries: no GPU is detected, never the excluded best.
    assert!(parse_windows_gpu_entries(text).is_none());
}

#[test]
fn scripted_query_overrides_capped_counter_with_table() {
    // The 32-bit adapter RAM field caps near 4 GiB; the table knows the
    // card holds 24 GiB.
    let bytes_4gib = 4u64 * GIB - 1;
    let text = format!("NVIDIA GeForce RTX 4090|{}\n", bytes_4gib);
    let rec = parse_windows_gpu_entries(text.as_bytes()).unwrap();
    assert_eq!(rec.vram_mib, Some(24 * 1024));
}

#[test]
fn legacy_query_skips_header_and_keeps_commas_in_names() {
    let text = b"Node,AdapterRAM,Name\n\
DESKTOP,4293918720,AMD Radeon RX 7800 XT\n";
    let rec = parse_windows_gpu_wmic(text).unwrap();
    assert_eq!(rec.name, Some(b"AMD Radeon RX 7800 XT".to_vec()));
    // 4095 MiB reported, at the 32-bit cap; the table's 16 GiB wins.
    assert_eq!(rec.vram_mib, Some(16 * 1024));
    assert_eq!(rec.count, 1);
    assert_eq!(rec.backend, GpuBackend::Vulkan);
}

#[test]
fn legacy_query_with_excluded_entries_only_defers() {
    let text = b"Node,AdapterRAM,Name\nDESKTOP,0,Microsoft Basic Display Adapter\n";
    assert!(parse_windows_gpu_wmic(text).is_none());
}

#[test]
fn tertiary_vendor_card_prefers_attribute_file() {
    assert_eq!(intel_card_step(Some(b"8589934592\n".as_slice()), None), Some(8192));
}

#[test]
fn tertiary_vendor_card_sentinel_for_known_product() {
    let lspci = b"00:02.0 VGA compatible controller: Intel Corporation Arc A770\n";
    assert_eq!(intel_card_step(None, Some(lspci.as_slice())), Some(0));
    assert!(lspci_has_intel_arc(lspci));
    assert_eq!(intel_card_step(None, Some(b"no display\n".as_slice())), None);
    assert!(!lspci_has_intel_arc(b"no display\n"));
}

#[test]
fn first_party_chip_marker_detection() {
    assert!(apple_gpu_detected(b"      Chipset Model: Apple M2 Max\n"));
    assert!(apple_gpu_detected(b"Graphics: Apple GPU\n"));
    assert!(!apple_gpu_detected(b"Chipset Model: AMD Radeon Pro 5500M\n"));
}

#[test]
fn scripted_query_tie_keeps_first_candidate() {
    // Equal reported RAM: the first non-excluded entry stays selected.
    let text = b"AMD Radeon RX 6800|1073741824\n\
NVIDIA GeForce RTX 3060|1073741824\n";
    let rec = parse_windows_gpu_entries(text).unwrap();
    assert_eq!(rec.name, Some(b"AMD Radeon RX 6800".to_vec()));
    assert_eq!(rec.count, 2);
}

#[test]
fn scripted_query_all_zero_readings_keep_first_candidate() {
    let text = b"Microsoft Basic Display Adapter|0\n\
AMD Radeon RX 6700 XT|0\n\
NVIDIA GeForce GTX 1650|0\n";
    let rec = parse_windows_gpu_entries(text).unwrap();
    // The excluded entry never competes; among the rest the first wins,
    // and its zero reading is replaced by the table's figure.
    assert_eq!(rec.name, Some(b"AMD Radeon RX 6700 XT".to_vec()));
    assert_eq!(rec.vram_mib, Some(12 * 1024));
    assert_eq!(rec.backend, GpuBackend::Vulkan);
}

#[test]
fn vendor_a_blank_lines_are_skipped() {
    let text = b"\n   \n8192, NVIDIA GeForce RTX 3060 Ti\n\n";
    let rec = parse_nvidia_smi(text).unwrap();
    assert_eq!(rec.count, 1);
    assert_eq!(rec.vram_mib, Some(8192));
}

#[test]
fn vendor_a_nameless_line_keeps_searching_for_a_name() {
    // The first parsed line has no name field; the second supplies it.
    let text = b"8192\n8192, NVIDIA GeForce RTX 3070\n";
    let rec = parse_nvidia_smi(text).unwrap();
    assert_eq!(rec.count, 2);
    assert_eq!(rec.name, Some(b"NVIDIA GeForce RTX 3070".to_vec()));
}
