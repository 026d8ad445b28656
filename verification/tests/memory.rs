use llmfit::memory::available_ram_fallback;
use llmfit::memory::page_size_of;
use llmfit::memory::parse_vm_stat;
use llmfit::memory::parse_vm_stat_line;

#[test]
fn plausible_used_counter_wins() {
    assert_eq!(available_ram_fallback(1000, 400, None), 600);
}

#[test]
fn conservative_share_when_nothing_else_works() {
    // No used counter, no statistics report: four fifths of total.
    assert_eq!(available_ram_fallback(1000, 0, None), 800);
    // A used counter at or past the total is implausible too.
    assert_eq!(available_ram_fallback(1000, 1500, None), 800);
    assert_eq!(available_ram_fallback(1000, 1000, None), 800);
}

#[test]
fn fallback_stays_in_range_for_tiny_totals() {
    for total in 1u64..=10 {
        let r = available_ram_fallback(total, 0, None);
        assert!(r > 0 && r <= total, "total {total} gave {r}");
    }
}

#[test]
fn statistics_report_supplies_available() {
    let text = b"Mach Virtual Memory Statistics: (page size of 16384 bytes)\n\
Pages free:                         1000.\n\
Pages active:                       9999.\n\
Pages inactive:                      500.\n\
Pages purgeable:                     250.\n";
    assert_eq!(parse_vm_stat(text), Some(1750 * 16384));
    let total = 100 * 1024 * 1024 * 1024u64;
    assert_eq!(available_ram_fallback(total, 0, Some(text)), 1750 * 16384);
}

#[test]
fn statistics_result_is_capped_at_total() {
    let text = b"Mach Virtual Memory Statistics: (page size of 16384 bytes)\n\
Pages free:                         1000.\n";
    // 1000 * 16384 bytes reported free, against a far smaller total.
    assert_eq!(available_ram_fallback(100, 0, Some(text)), 100);
}

#[test]
fn unreadable_header_defaults_page_size() {
    assert_eq!(page_size_of(b"Mach Virtual Memory Statistics:"), 16384);
    assert_eq!(
        page_size_of(b"Mach Virtual Memory Statistics: (page size of 4096 bytes)"),
        4096
    );
    assert_eq!(page_size_of(b"page size of nonsense bytes"), 16384);
}

#[test]
fn statistics_line_parsing() {
    assert_eq!(
        parse_vm_stat_line(b"Pages free:               123456.", b"Pages free"),
        Some(123456)
    );
    assert_eq!(parse_vm_stat_line(b"Pages active: 99.", b"Pages free"), None);
    assert_eq!(parse_vm_stat_line(b"Pages free 123456", b"Pages free"), None);
}

#[test]
fn empty_statistics_yield_nothing() {
    assert_eq!(parse_vm_stat(b""), None);
    assert_eq!(parse_vm_stat(b"Mach Virtual Memory Statistics: (page size of 16384 bytes)\n"), None);
}
