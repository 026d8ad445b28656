use llmfit::vram_table::estimate_vram_from_name;

#[test]
fn variant_token_beats_generic_prefix() {
    // The name carries both the "5070 Ti" marker and, inside it, the
    // generic "5070": the variant's capacity must win.
    assert_eq!(estimate_vram_from_name(b"NVIDIA GeForce RTX 5070 Ti"), 16);
    assert_eq!(estimate_vram_from_name(b"NVIDIA GeForce RTX 5070"), 12);
}

#[test]
fn variant_tokens_across_generations() {
    assert_eq!(estimate_vram_from_name(b"RTX 4070 Ti SUPER"), 12);
    assert_eq!(estimate_vram_from_name(b"RTX 4060 Ti 16GB"), 16);
    assert_eq!(estimate_vram_from_name(b"RTX 4060"), 8);
    assert_eq!(estimate_vram_from_name(b"Radeon RX 7900 XTX"), 24);
    assert_eq!(estimate_vram_from_name(b"Radeon RX 7900 XT"), 20);
    assert_eq!(estimate_vram_from_name(b"Radeon RX 5700 XT"), 8);
}

#[test]
fn matching_ignores_ascii_case() {
    assert_eq!(estimate_vram_from_name(b"nvidia geforce rtx 3090"), 24);
    assert_eq!(estimate_vram_from_name(b"NVIDIA GEFORCE RTX 3090"), 24);
}

#[test]
fn data_center_parts() {
    assert_eq!(estimate_vram_from_name(b"NVIDIA H100 PCIe"), 80);
    // "A100" holds "a10" as a substring; the longer token stands first.
    assert_eq!(estimate_vram_from_name(b"NVIDIA A100-SXM4"), 80);
    assert_eq!(estimate_vram_from_name(b"NVIDIA A10"), 24);
    assert_eq!(estimate_vram_from_name(b"Tesla T4"), 16);
    assert_eq!(estimate_vram_from_name(b"NVIDIA L40S"), 48);
}

#[test]
fn generic_fallback_tokens() {
    assert_eq!(estimate_vram_from_name(b"NVIDIA GeForce RTX"), 8);
    assert_eq!(estimate_vram_from_name(b"GeForce GTX 1060"), 4);
    assert_eq!(estimate_vram_from_name(b"AMD Radeon Graphics"), 8);
}

#[test]
fn unknown_name_yields_zero() {
    assert_eq!(estimate_vram_from_name(b"Some Unknown Device"), 0);
    assert_eq!(estimate_vram_from_name(b""), 0);
}
