//! The GPU probe chain: one parser per detection strategy, each turning the
//! text of a platform tool (or the content of a device attribute file) into
//! a detection record, and the ordered chain that keeps the first success.
//!
//! VRAM is held in MiB throughout; device attribute files and byte-counting
//! tools are converted on parsing. A sum that would pass the top of `u64`
//! saturates there.

use vstd::prelude::*;

use crate::backend::GpuBackend;
use crate::backend::spec_cpu_backend;
use crate::backend::spec_infer_backend;
use crate::backend::cpu_fallback_backend;
use crate::backend::infer_gpu_backend;
use crate::text::contains_ci;
use crate::text::lines_of;
use crate::text::spec_find;
use crate::text::spec_parse_u64;
use crate::text::spec_rfind;
use crate::text::spec_rfind_sub;
use crate::text::spec_split;
use crate::text::spec_split_first;
use crate::text::spec_starts_with;
use crate::text::spec_trim;
use crate::text::spec_last_ws_num;
use crate::text::contains_ci_exec;
use crate::text::find_byte;
use crate::text::last_ws_num;
use crate::text::lemma_rfind;
use crate::text::lemma_rfind_sub;
use crate::text::parse_u64;
use crate::text::rfind_byte;
use crate::text::rfind_sub;
use crate::text::split_byte;
use crate::text::split_first;
use crate::text::split_lines;
use crate::text::starts_with;
use crate::text::tok;
use crate::text::trim;
use crate::vram_table::spec_estimate;
use crate::vram_table::estimate_vram_from_name;

verus! {

/// The result of one probe attempt, and of the whole chain: presence,
/// total VRAM in MiB summed over the devices (absent when unknown), the
/// representative device name, the device count, whether the accelerator
/// shares one memory pool with the CPU, and the selected backend.
pub struct DetectionRecord {
    pub has_gpu: bool,
    pub vram_mib: Option<u64>,
    pub name: Option<Vec<u8>>,
    pub count: u32,
    pub unified_memory: bool,
    pub backend: GpuBackend,
}

/// The mathematical shape of a detection record.
pub ghost struct GpuModel {
    pub has_gpu: bool,
    pub vram_mib: Option<u64>,
    pub name: Option<Seq<u8>>,
    pub count: u32,
    pub unified_memory: bool,
    pub backend: GpuBackend,
}

impl View for DetectionRecord {
    type V = GpuModel;

    open spec fn view(&self) -> GpuModel {
        GpuModel {
            has_gpu: self.has_gpu,
            vram_mib: self.vram_mib,
            name: match self.name {
                Some(n) => Some(n@),
                None => None,
            },
            count: self.count,
            unified_memory: self.unified_memory,
            backend: self.backend,
        }
    }
}

/// Addition in `u64` that stops at the top instead of wrapping.
pub open spec fn sat_add(a: u64, b: u64) -> u64 {
    if a + b <= u64::MAX {
        (a + b) as u64
    } else {
        u64::MAX
    }
}

fn sat_add_exec(a: u64, b: u64) -> (r: u64)
    ensures
        r == sat_add(a, b),
{
    match a.checked_add(b) {
        Some(v) => v,
        None => u64::MAX,
    }
}

/// GiB turned into MiB, stopping at the top of `u64`.
pub open spec fn gib_to_mib(g: u64) -> u64 {
    if g * 1024 <= u64::MAX {
        (g * 1024) as u64
    } else {
        u64::MAX
    }
}

fn gib_to_mib_exec(g: u64) -> (r: u64)
    ensures
        r == gib_to_mib(g),
{
    match g.checked_mul(1024) {
        Some(v) => v,
        None => u64::MAX,
    }
}

/// A device count one higher, stopping at the top of `u32`.
pub open spec fn sat_inc(c: u32) -> u32 {
    if c < u32::MAX {
        (c + 1) as u32
    } else {
        c
    }
}

fn sat_inc_exec(c: u32) -> (r: u32)
    ensures
        r == sat_inc(c),
{
    if c < u32::MAX {
        c + 1
    } else {
        c
    }
}

/// One line of the vendor-A management CLI: `<vram mib>, <name>`. A line
/// whose first comma-field is not a number (after trimming) yields nothing;
/// the name field may be missing altogether.
pub open spec fn nv_entry(line: Seq<u8>) -> Option<(u64, Option<Seq<u8>>)> {
    let t = spec_trim(line);
    if t.len() == 0 {
        None
    } else {
        let cut = spec_split_first(t, 44);
        match spec_parse_u64(spec_trim(cut.0)) {
            Some(mib) => Some(
                (
                    mib,
                    match cut.1 {
                        Some(rest) => Some(spec_trim(rest)),
                        None => None,
                    },
                ),
            ),
            None => None,
        }
    }
}

/// The scan over the CLI's lines: VRAM summed (saturating), devices
/// counted, and the first named device kept as the representative.
pub open spec fn nv_scan(
    lines: Seq<Seq<u8>>,
    i: int,
    sum: u64,
    count: u32,
    name: Option<Seq<u8>>,
) -> (u64, u32, Option<Seq<u8>>)
    decreases lines.len() - i,
{
    if i < 0 || i >= lines.len() {
        (sum, count, name)
    } else {
        match nv_entry(lines[i]) {
            Some(e) => nv_scan(
                lines,
                i + 1,
                sat_add(sum, e.0),
                sat_inc(count),
                if name is None && e.1 is Some {
                    e.1
                } else {
                    name
                },
            ),
            None => nv_scan(lines, i + 1, sum, count, name),
        }
    }
}

/// What the vendor-A probe reports for the CLI's lines: nothing when no
/// line parsed; otherwise presence with the summed VRAM, the count and the
/// first name, the vendor's own compute backend, and — when the summed
/// reading is implausibly near zero — the estimation table's figure for the
/// representative name in its place.
pub open spec fn spec_nvidia_lines(lines: Seq<Seq<u8>>) -> Option<GpuModel> {
    let scan = nv_scan(lines, 0, 0, 0, None);
    if scan.1 == 0 {
        None
    } else {
        let mib = if 10 * scan.0 < 1024 {
            match scan.2 {
                Some(n) => gib_to_mib(spec_estimate(n)),
                None => scan.0,
            }
        } else {
            scan.0
        };
        Some(
            GpuModel {
                has_gpu: true,
                vram_mib: if mib > 0 {
                    Some(mib)
                } else {
                    None
                },
                name: scan.2,
                count: scan.1,
                unified_memory: false,
                backend: GpuBackend::Cuda,
            },
        )
    }
}

/// What the vendor-A probe reports for the CLI's output text.
pub open spec fn spec_nvidia(text: Seq<u8>) -> Option<GpuModel> {
    spec_nvidia_lines(lines_of(text))
}

/// Parses the vendor-A management CLI's per-device listing.
pub fn parse_nvidia_smi(text: &[u8]) -> (r: Option<DetectionRecord>)
    ensures
        match r {
            Some(rec) => spec_nvidia(text@) == Some(rec@),
            None => spec_nvidia(text@) is None,
        },
{
    let lines = split_lines(text);
    let mut sum: u64 = 0;
    let mut count: u32 = 0;
    let mut name: Option<Vec<u8>> = None;
    let n = lines.len();
    let mut k: usize = 0;
    while k < n
        invariant
            k <= n,
            n == lines@.len(),
            lines.deep_view() == lines_of(text@),
            nv_scan(lines.deep_view(), 0, 0, 0, None) == nv_scan(
                lines.deep_view(),
                k as int,
                sum,
                count,
                match name {
                    Some(nm) => Some(nm@),
                    None => None,
                },
            ),
        decreases n - k,
    {
        proof {
            assert(lines.deep_view()[k as int] == lines@[k as int]@);
        }
        let t = trim(lines[k].as_slice());
        if t.len() > 0 {
            let (first, rest) = split_first(t.as_slice(), 44);
            let ft = trim(first.as_slice());
            if let Some(mib) = parse_u64(ft.as_slice()) {
                sum = sat_add_exec(sum, mib);
                count = sat_inc_exec(count);
                if name.is_none() {
                    if let Some(rv) = rest {
                        name = Some(trim(rv.as_slice()));
                    }
                }
            }
        }
        k += 1;
    }
    if count == 0 {
        return None;
    }
    let mib: u64 = if sum < 103 {
        match &name {
            Some(nm) => {
                let est = estimate_vram_from_name(nm.as_slice());
                gib_to_mib_exec(est)
            },
            None => sum,
        }
    } else {
        sum
    };
    Some(
        DetectionRecord {
            has_gpu: true,
            vram_mib: if mib > 0 {
                Some(mib)
            } else {
                None
            },
            name,
            count,
            unified_memory: false,
            backend: GpuBackend::Cuda,
        },
    )
}

/// Bytes turned into MiB, rounded up so that any nonzero byte count
/// registers as at least one MiB.
pub open spec fn bytes_to_mib(b: u64) -> u64 {
    if b % 1048576 == 0 {
        (b / 1048576) as u64
    } else {
        (b / 1048576 + 1) as u64
    }
}

fn bytes_to_mib_exec(b: u64) -> (r: u64)
    ensures
        r == bytes_to_mib(b),
{
    if b % 1048576 == 0 {
        b / 1048576
    } else {
        b / 1048576 + 1
    }
}

/// The byte count on one line of the vendor-B memory report: the last
/// whitespace token that reads as a number, on a line that speaks of a
/// "Total" (and not of "Used") — and only when it is nonzero.
pub open spec fn rocm_line_value(line: Seq<u8>) -> Option<u64> {
    if contains_ci(line, tok("total")) && !contains_ci(line, tok("used")) {
        match spec_last_ws_num(line) {
            Some(v) => if v > 0 {
                Some(v)
            } else {
                None
            },
            None => None,
        }
    } else {
        None
    }
}

/// The scan over the vendor-B memory report: nonzero totals summed
/// (saturating) and counted.
pub open spec fn rocm_scan(lines: Seq<Seq<u8>>, i: int, sum: u64, count: u32) -> (u64, u32)
    decreases lines.len() - i,
{
    if i < 0 || i >= lines.len() {
        (sum, count)
    } else {
        match rocm_line_value(lines[i]) {
            Some(v) => rocm_scan(lines, i + 1, sat_add(sum, v), sat_inc(count)),
            None => rocm_scan(lines, i + 1, sum, count),
        }
    }
}

/// The product name on the vendor-B name report: the text between the
/// first and second colon of the first "Card Series" or "Card Model" line,
/// trimmed — provided it is not empty.
pub open spec fn rocm_name_scan(lines: Seq<Seq<u8>>, i: int) -> Option<Seq<u8>>
    decreases lines.len() - i,
{
    if i < 0 || i >= lines.len() {
        None
    } else {
        let line = lines[i];
        let parts = spec_split(line, 58);
        if (contains_ci(line, tok("card series")) || contains_ci(line, tok("card model")))
            && parts.len() >= 2 && spec_trim(parts[1]).len() > 0 {
            Some(spec_trim(parts[1]))
        } else {
            rocm_name_scan(lines, i + 1)
        }
    }
}

/// The product name parsed out of the vendor-B name report.
pub open spec fn spec_rocm_name(text: Seq<u8>) -> Option<Seq<u8>> {
    rocm_name_scan(lines_of(text), 0)
}

/// Reads the product name out of the vendor-B name report.
pub fn parse_rocm_name(text: &[u8]) -> (r: Option<Vec<u8>>)
    ensures
        match r {
            Some(n) => spec_rocm_name(text@) == Some(n@),
            None => spec_rocm_name(text@) is None,
        },
{
    let lines = split_lines(text);
    let n = lines.len();
    let mut k: usize = 0;
    while k < n
        invariant
            k <= n,
            n == lines@.len(),
            lines.deep_view() == lines_of(text@),
            rocm_name_scan(lines.deep_view(), 0) == rocm_name_scan(lines.deep_view(), k as int),
        decreases n - k,
    {
        proof {
            assert(lines.deep_view()[k as int] == lines@[k as int]@);
        }
        let line = lines[k].as_slice();
        if contains_ci_exec(line, "card series".as_bytes()) || contains_ci_exec(
            line,
            "card model".as_bytes(),
        ) {
            let parts = split_byte(line, 58);
            if parts.len() >= 2 {
                proof {
                    assert(parts.deep_view()[1] == parts@[1]@);
                }
                let val = trim(parts[1].as_slice());
                if val.len() > 0 {
                    return Some(val);
                }
            }
        }
        k += 1;
    }
    None
}

/// What the vendor-B probe reports once its memory query has run: presence
/// with the summed totals (in MiB); when no total could be read, one device
/// of unknown VRAM assumed, estimated from the product name if possible.
pub open spec fn spec_rocm(vram_text: Seq<u8>, name_text: Option<Seq<u8>>) -> GpuModel {
    let scan = rocm_scan(lines_of(vram_text), 0, 0, 0);
    let count = if scan.1 == 0 {
        1u32
    } else {
        scan.1
    };
    let name = match name_text {
        Some(t) => spec_rocm_name(t),
        None => None,
    };
    let vram = if scan.0 > 0 {
        Some(bytes_to_mib(scan.0))
    } else {
        match name {
            Some(nm) => if spec_estimate(nm) > 0 {
                Some(gib_to_mib(spec_estimate(nm)))
            } else {
                None
            },
            None => None,
        }
    };
    GpuModel {
        has_gpu: true,
        vram_mib: vram,
        name,
        count,
        unified_memory: false,
        backend: GpuBackend::Rocm,
    }
}

/// Parses the vendor-B management utility's two reports. `vram_text` is the
/// memory report; `name_text` the product-name report, when that second
/// invocation succeeded.
pub fn parse_rocm_smi(vram_text: &[u8], name_text: Option<&[u8]>) -> (r: DetectionRecord)
    ensures
        r@ == spec_rocm(
            vram_text@,
            match name_text {
                Some(t) => Some(t@),
                None => None,
            },
        ),
{
    let lines = split_lines(vram_text);
    let mut sum: u64 = 0;
    let mut count: u32 = 0;
    let n = lines.len();
    let mut k: usize = 0;
    while k < n
        invariant
            k <= n,
            n == lines@.len(),
            lines.deep_view() == lines_of(vram_text@),
            rocm_scan(lines.deep_view(), 0, 0, 0) == rocm_scan(
                lines.deep_view(),
                k as int,
                sum,
                count,
            ),
        decreases n - k,
    {
        proof {
            assert(lines.deep_view()[k as int] == lines@[k as int]@);
        }
        let line = lines[k].as_slice();
        if contains_ci_exec(line, "total".as_bytes()) && !contains_ci_exec(
            line,
            "used".as_bytes(),
        ) {
            if let Some(v) = last_ws_num(line) {
                if v > 0 {
                    sum = sat_add_exec(sum, v);
                    count = sat_inc_exec(count);
                }
            }
        }
        k += 1;
    }
    let count = if count == 0 {
        1
    } else {
        count
    };
    let name: Option<Vec<u8>> = match name_text {
        Some(t) => parse_rocm_name(t),
        None => None,
    };
    let vram: Option<u64> = if sum > 0 {
        Some(bytes_to_mib_exec(sum))
    } else {
        match &name {
            Some(nm) => {
                let est = estimate_vram_from_name(nm.as_slice());
                if est > 0 {
                    Some(gib_to_mib_exec(est))
                } else {
                    None
                }
            },
            None => None,
        }
    };
    DetectionRecord {
        has_gpu: true,
        vram_mib: vram,
        name,
        count,
        unified_memory: false,
        backend: GpuBackend::Rocm,
    }
}

/// A PCI listing line that speaks of a display device of the secondary
/// discrete vendor: a VGA or 3D controller line naming AMD or ATI.
pub open spec fn lspci_amd_line(line: Seq<u8>) -> bool {
    (contains_ci(line, tok("vga")) || contains_ci(line, tok("3d"))) && (contains_ci(
        line,
        tok("amd"),
    ) || contains_ci(line, tok("ati")))
}

/// The device name taken from a PCI listing line: what follows the last
/// `]:`, trimmed; within it, the text of the last bracketed group when the
/// brackets are well formed, the whole tail otherwise.
pub open spec fn lspci_name_of(line: Seq<u8>) -> Seq<u8> {
    let pat = tok("]:");
    let i = spec_rfind_sub(line, pat);
    let after = if i < 0 {
        line
    } else {
        line.skip(i + pat.len())
    };
    let desc = spec_trim(after);
    let s = spec_rfind(desc, 91);
    let e = spec_rfind(desc, 93);
    if s >= 0 && e >= 0 && s < e {
        desc.subrange(s + 1, e)
    } else {
        desc
    }
}

/// The secondary vendor's device name in a PCI listing: taken from the
/// first matching controller line, if any.
pub open spec fn lspci_amd_scan(lines: Seq<Seq<u8>>, i: int) -> Option<Seq<u8>>
    decreases lines.len() - i,
{
    if i < 0 || i >= lines.len() {
        None
    } else if lspci_amd_line(lines[i]) {
        Some(lspci_name_of(lines[i]))
    } else {
        lspci_amd_scan(lines, i + 1)
    }
}

/// The device name of the secondary discrete vendor in a PCI listing.
pub open spec fn spec_lspci_amd_name(text: Seq<u8>) -> Option<Seq<u8>> {
    lspci_amd_scan(lines_of(text), 0)
}

fn lspci_name_of_exec(line: &[u8]) -> (r: Vec<u8>)
    ensures
        r@ == lspci_name_of(line@),
{
    let pat = "]:".as_bytes();
    let pl = pat.len();
    let n = line.len();
    let after: &[u8] = match rfind_sub(line, pat) {
        Some(i) => {
            proof {
                lemma_rfind_sub(line@, pat@);
                assert(line@.subrange(i + pl, n as int) =~= line@.skip(i + pat@.len()));
            }
            &line[i + pl..n]
        },
        None => line,
    };
    let desc = trim(after);
    let s = rfind_byte(desc.as_slice(), 91);
    let e = rfind_byte(desc.as_slice(), 93);
    proof {
        lemma_rfind(desc@, 91);
        lemma_rfind(desc@, 93);
    }
    match (s, e) {
        (Some(si), Some(ei)) => {
            if si < ei {
                proof {
                    if spec_rfind(desc@, 91) < 0 {
                        assert(s is None);
                    }
                    assert(spec_rfind(desc@, 91) >= 0);
                    assert(s == Some(spec_rfind(desc@, 91) as usize));
                    assert(spec_rfind(desc@, 91) == si as int);
                    assert(spec_rfind(desc@, 93) == ei as int);
                    assert(lspci_name_of(line@) == desc@.subrange(si + 1, ei as int));
                }
                vstd::slice::slice_to_vec(&desc.as_slice()[si + 1..ei])
            } else {
                desc
            }
        },
        _ => desc,
    }
}

/// Extracts the secondary vendor's device name from a PCI listing.
pub fn get_amd_gpu_name_lspci(text: &[u8]) -> (r: Option<Vec<u8>>)
    ensures
        match r {
            Some(nm) => spec_lspci_amd_name(text@) == Some(nm@),
            None => spec_lspci_amd_name(text@) is None,
        },
{
    let lines = split_lines(text);
    let n = lines.len();
    let mut k: usize = 0;
    while k < n
        invariant
            k <= n,
            n == lines@.len(),
            lines.deep_view() == lines_of(text@),
            lspci_amd_scan(lines.deep_view(), 0) == lspci_amd_scan(lines.deep_view(), k as int),
        decreases n - k,
    {
        proof {
            assert(lines.deep_view()[k as int] == lines@[k as int]@);
        }
        let line = lines[k].as_slice();
        if (contains_ci_exec(line, "vga".as_bytes()) || contains_ci_exec(line, "3d".as_bytes()))
            && (contains_ci_exec(line, "amd".as_bytes()) || contains_ci_exec(
            line,
            "ati".as_bytes(),
        )) {
            return Some(lspci_name_of_exec(line));
        }
        k += 1;
    }
    None
}

/// The byte count held in a device attribute file, when it reads as a
/// positive number.
pub open spec fn spec_attr_bytes(content: Seq<u8>) -> Option<u64> {
    match spec_parse_u64(spec_trim(content)) {
        Some(b) => if b > 0 {
            Some(b)
        } else {
            None
        },
        None => None,
    }
}

/// Reads a positive byte count out of a device attribute file.
pub fn attr_bytes(content: &[u8]) -> (r: Option<u64>)
    ensures
        r == spec_attr_bytes(content@),
{
    let t = trim(content);
    match parse_u64(t.as_slice()) {
        Some(b) => if b > 0 {
            Some(b)
        } else {
            None
        },
        None => None,
    }
}

/// A device-filesystem entry name that stands for a whole card rather than
/// a sub-display alias: it begins with "card" and carries no hyphen.
pub fn drm_card_primary(name: &[u8]) -> (r: bool)
    ensures
        r == (spec_starts_with(name@, tok("card")) && spec_find(name@, 45) < 0),
{
    if !starts_with(name, "card".as_bytes()) {
        return false;
    }
    match find_byte(name, 45) {
        Some(_) => false,
        None => true,
    }
}

/// Whether a vendor identifier file holds the given identifier, trimmed.
pub fn vendor_id_matches(content: &[u8], id: &[u8]) -> (r: bool)
    ensures
        r == (spec_trim(content@) == id@),
{
    let t = trim(content);
    crate::text::eq_bytes(t.as_slice(), id)
}

/// What the secondary-vendor filesystem probe reports for a found card:
/// presence with the VRAM attribute's byte count (in MiB) when it reads as
/// positive, else the estimation table's figure for the PCI-listing name;
/// the cross-vendor graphics backend either way.
pub open spec fn spec_amd_sysfs(vram_file: Option<Seq<u8>>, lspci: Option<Seq<u8>>) -> GpuModel {
    let bytes = match vram_file {
        Some(c) => spec_attr_bytes(c),
        None => None,
    };
    let name = match lspci {
        Some(t) => spec_lspci_amd_name(t),
        None => None,
    };
    let vram = match bytes {
        Some(b) => Some(bytes_to_mib(b)),
        None => match name {
            Some(nm) => if spec_estimate(nm) > 0 {
                Some(gib_to_mib(spec_estimate(nm)))
            } else {
                None
            },
            None => None,
        },
    };
    GpuModel {
        has_gpu: true,
        vram_mib: vram,
        name,
        count: 1,
        unified_memory: false,
        backend: GpuBackend::Vulkan,
    }
}

/// Builds the record for a card of the secondary discrete vendor found in
/// the device filesystem. `vram_file` is the VRAM attribute's content when
/// it could be read; `lspci_text` the PCI listing when it could be run.
pub fn amd_sysfs_record(vram_file: Option<&[u8]>, lspci_text: Option<&[u8]>) -> (r:
    DetectionRecord)
    ensures
        r@ == spec_amd_sysfs(
            match vram_file {
                Some(c) => Some(c@),
                None => None,
            },
            match lspci_text {
                Some(t) => Some(t@),
                None => None,
            },
        ),
{
    let bytes: Option<u64> = match vram_file {
        Some(c) => attr_bytes(c),
        None => None,
    };
    let name: Option<Vec<u8>> = match lspci_text {
        Some(t) => get_amd_gpu_name_lspci(t),
        None => None,
    };
    let vram: Option<u64> = match bytes {
        Some(b) => Some(bytes_to_mib_exec(b)),
        None => match &name {
            Some(nm) => {
                let est = estimate_vram_from_name(nm.as_slice());
                if est > 0 {
                    Some(gib_to_mib_exec(est))
                } else {
                    None
                }
            },
            None => None,
        },
    };
    DetectionRecord {
        has_gpu: true,
        vram_mib: vram,
        name,
        count: 1,
        unified_memory: false,
        backend: GpuBackend::Vulkan,
    }
}

/// An entry excluded from candidacy: a virtual or basic display adapter,
/// or one with no name at all.
pub open spec fn spec_excluded(name: Seq<u8>) -> bool {
    ||| contains_ci(name, tok("microsoft"))
    ||| contains_ci(name, tok("basic"))
    ||| contains_ci(name, tok("virtual"))
    ||| name.len() == 0
}

fn excluded_exec(name: &[u8]) -> (r: bool)
    ensures
        r == spec_excluded(name@),
{
    contains_ci_exec(name, "microsoft".as_bytes()) || contains_ci_exec(name, "basic".as_bytes())
        || contains_ci_exec(name, "virtual".as_bytes()) || name.len() == 0
}

/// One line of the scripted device query, `name|adapter ram`: the trimmed
/// name and the byte count (0 when missing or unreadable), unless the entry
/// is excluded.
pub open spec fn ps_entry(line: Seq<u8>) -> Option<(Seq<u8>, u64)> {
    let t = spec_trim(line);
    if t.len() == 0 {
        None
    } else {
        let cut = spec_split_first(t, 124);
        let name = spec_trim(cut.0);
        let vram = match cut.1 {
            Some(rest) => match spec_parse_u64(spec_trim(rest)) {
                Some(v) => v,
                None => 0,
            },
            None => 0,
        };
        if spec_excluded(name) {
            None
        } else {
            Some((name, vram))
        }
    }
}

/// The running best candidate: the first entry, then any strictly larger
/// reported RAM value; a tie keeps the earlier entry.
pub open spec fn better(best: Option<(Seq<u8>, u64)>, e: (Seq<u8>, u64)) -> Option<
    (Seq<u8>, u64),
> {
    match best {
        None => Some(e),
        Some(b) => if e.1 > b.1 {
            Some(e)
        } else {
            Some(b)
        },
    }
}

/// The scan over the scripted query's lines: candidates counted and the
/// best kept.
pub open spec fn win_scan(
    lines: Seq<Seq<u8>>,
    i: int,
    best: Option<(Seq<u8>, u64)>,
    count: u32,
) -> (Option<(Seq<u8>, u64)>, u32)
    decreases lines.len() - i,
{
    if i < 0 || i >= lines.len() {
        (best, count)
    } else {
        match ps_entry(lines[i]) {
            Some(e) => win_scan(lines, i + 1, better(best, e), sat_inc(count)),
            None => win_scan(lines, i + 1, best, count),
        }
    }
}

/// The selected candidate's VRAM after the 32-bit-counter correction: the
/// raw byte count in MiB, except that a reading implausibly near zero, or
/// one at or under the 32-bit cap when the estimation table knows the name
/// as a materially larger card, is replaced by the table's figure.
pub open spec fn win_adjust(name: Seq<u8>, bytes: u64) -> Option<u64> {
    let mib = bytes_to_mib(bytes);
    let est = spec_estimate(name);
    let adjusted = if (mib < 103 || (mib <= 4198 && est > 4)) && est > 0 {
        gib_to_mib(est)
    } else {
        mib
    };
    if adjusted > 0 {
        Some(adjusted)
    } else {
        None
    }
}

fn win_adjust_exec(name: &[u8], bytes: u64) -> (r: Option<u64>)
    ensures
        r == win_adjust(name@, bytes),
{
    let mib = bytes_to_mib_exec(bytes);
    let est = estimate_vram_from_name(name);
    let adjusted = if (mib < 103 || (mib <= 4198 && est > 4)) && est > 0 {
        gib_to_mib_exec(est)
    } else {
        mib
    };
    if adjusted > 0 {
        Some(adjusted)
    } else {
        None
    }
}

/// What the OS-native device query reports for the scripted tool's output:
/// nothing when every entry was excluded; otherwise the best candidate,
/// its VRAM corrected against the table, the candidate count, and the
/// backend inferred from the name — this path can surface any vendor's
/// card.
pub open spec fn spec_windows_ps(text: Seq<u8>) -> Option<GpuModel> {
    let scan = win_scan(lines_of(text), 0, None, 0);
    match scan.0 {
        None => None,
        Some(b) => Some(
            GpuModel {
                has_gpu: true,
                vram_mib: win_adjust(b.0, b.1),
                name: Some(b.0),
                count: if scan.1 == 0 {
                    1u32
                } else {
                    scan.1
                },
                unified_memory: false,
                backend: spec_infer_backend(b.0),
            },
        ),
    }
}

/// Parses the scripted device query's `name|adapter ram` lines.
pub fn parse_windows_gpu_entries(text: &[u8]) -> (r: Option<DetectionRecord>)
    ensures
        match r {
            Some(rec) => spec_windows_ps(text@) == Some(rec@),
            None => spec_windows_ps(text@) is None,
        },
{
    let lines = split_lines(text);
    let mut best_name: Option<Vec<u8>> = None;
    let mut best_vram: u64 = 0;
    let mut count: u32 = 0;
    let n = lines.len();
    let mut k: usize = 0;
    while k < n
        invariant
            k <= n,
            n == lines@.len(),
            lines.deep_view() == lines_of(text@),
            win_scan(lines.deep_view(), 0, None, 0) == win_scan(
                lines.deep_view(),
                k as int,
                match best_name {
                    Some(bn) => Some((bn@, best_vram)),
                    None => None,
                },
                count,
            ),
        decreases n - k,
    {
        proof {
            assert(lines.deep_view()[k as int] == lines@[k as int]@);
        }
        let t = trim(lines[k].as_slice());
        if t.len() > 0 {
            let (first, rest) = split_first(t.as_slice(), 124);
            let name = trim(first.as_slice());
            let vram: u64 = match rest {
                Some(rv) => {
                    let rt = trim(rv.as_slice());
                    match parse_u64(rt.as_slice()) {
                        Some(v) => v,
                        None => 0,
                    }
                },
                None => 0,
            };
            if !excluded_exec(name.as_slice()) {
                count = sat_inc_exec(count);
                if best_name.is_none() || vram > best_vram {
                    best_vram = vram;
                    best_name = Some(name);
                }
            }
        }
        k += 1;
    }
    match best_name {
        Some(nm) => {
            let vram = win_adjust_exec(nm.as_slice(), best_vram);
            let backend = infer_gpu_backend(nm.as_slice());
            Some(
                DetectionRecord {
                    has_gpu: true,
                    vram_mib: vram,
                    name: Some(nm),
                    count: if count == 0 {
                        1
                    } else {
                        count
                    },
                    unified_memory: false,
                    backend,
                },
            )
        },
        None => None,
    }
}

/// One line of the legacy query's CSV, `node,adapter ram,name...`: the
/// byte count and the trimmed name (which may itself hold commas), for a
/// line of at least three fields whose name is not a virtual or basic
/// adapter. The legacy path keeps an empty name as a candidate.
pub open spec fn wmic_entry(line: Seq<u8>) -> Option<(Seq<u8>, u64)> {
    let t = spec_trim(line);
    if t.len() == 0 {
        None
    } else {
        let c1 = spec_split_first(t, 44);
        match c1.1 {
            None => None,
            Some(r1) => {
                let c2 = spec_split_first(r1, 44);
                match c2.1 {
                    None => None,
                    Some(r2) => {
                        let vram = match spec_parse_u64(spec_trim(c2.0)) {
                            Some(v) => v,
                            None => 0,
                        };
                        let name = spec_trim(r2);
                        if contains_ci(name, tok("microsoft")) || contains_ci(
                            name,
                            tok("basic"),
                        ) || contains_ci(name, tok("virtual")) {
                            None
                        } else {
                            Some((name, vram))
                        }
                    },
                }
            },
        }
    }
}

/// The scan over the legacy query's lines, the header line left out.
pub open spec fn wmic_scan(lines: Seq<Seq<u8>>, i: int, best: Option<(Seq<u8>, u64)>) -> Option<
    (Seq<u8>, u64),
>
    decreases lines.len() - i,
{
    if i < 1 || i >= lines.len() {
        best
    } else {
        match wmic_entry(lines[i]) {
            Some(e) => wmic_scan(lines, i + 1, better(best, e)),
            None => wmic_scan(lines, i + 1, best),
        }
    }
}

/// What the legacy device query reports: as the scripted path, but always
/// one device, and without a candidate count.
pub open spec fn spec_windows_wmic(text: Seq<u8>) -> Option<GpuModel> {
    match wmic_scan(lines_of(text), 1, None) {
        None => None,
        Some(b) => Some(
            GpuModel {
                has_gpu: true,
                vram_mib: win_adjust(b.0, b.1),
                name: Some(b.0),
                count: 1,
                unified_memory: false,
                backend: spec_infer_backend(b.0),
            },
        ),
    }
}

/// Parses the legacy device query's CSV report.
pub fn parse_windows_gpu_wmic(text: &[u8]) -> (r: Option<DetectionRecord>)
    ensures
        match r {
            Some(rec) => spec_windows_wmic(text@) == Some(rec@),
            None => spec_windows_wmic(text@) is None,
        },
{
    let lines = split_lines(text);
    let mut best_name: Option<Vec<u8>> = None;
    let mut best_vram: u64 = 0;
    let n = lines.len();
    let mut k: usize = 1;
    while k < n
        invariant
            1 <= k,
            n == lines@.len(),
            k <= n || (n < 1 && k == 1),
            lines.deep_view() == lines_of(text@),
            wmic_scan(lines.deep_view(), 1, None) == wmic_scan(
                lines.deep_view(),
                k as int,
                match best_name {
                    Some(bn) => Some((bn@, best_vram)),
                    None => None,
                },
            ),
        decreases n - k,
    {
        proof {
            assert(lines.deep_view()[k as int] == lines@[k as int]@);
        }
        let t = trim(lines[k].as_slice());
        if t.len() > 0 {
            let (_, rest1) = split_first(t.as_slice(), 44);
            if let Some(r1) = rest1 {
                let (field1, rest2) = split_first(r1.as_slice(), 44);
                if let Some(r2) = rest2 {
                    let ft = trim(field1.as_slice());
                    let vram: u64 = match parse_u64(ft.as_slice()) {
                        Some(v) => v,
                        None => 0,
                    };
                    let name = trim(r2.as_slice());
                    if !(contains_ci_exec(name.as_slice(), "microsoft".as_bytes())
                        || contains_ci_exec(name.as_slice(), "basic".as_bytes())
                        || contains_ci_exec(name.as_slice(), "virtual".as_bytes())) {
                        if best_name.is_none() || vram > best_vram {
                            best_vram = vram;
                            best_name = Some(name);
                        }
                    }
                }
            }
        }
        k += 1;
    }
    match best_name {
        Some(nm) => {
            let vram = win_adjust_exec(nm.as_slice(), best_vram);
            let backend = infer_gpu_backend(nm.as_slice());
            Some(
                DetectionRecord {
                    has_gpu: true,
                    vram_mib: vram,
                    name: Some(nm),
                    count: 1,
                    unified_memory: false,
                    backend,
                },
            )
        },
        None => None,
    }
}

proof fn lemma_win_scan_all_excluded(lines: Seq<Seq<u8>>, i: int, count: u32)
    requires
        forall|j: int| 0 <= j < lines.len() ==> ps_entry(#[trigger] lines[j]) is None,
    ensures
        win_scan(lines, i, None, count).0 is None,
    decreases lines.len() - i,
{
    if 0 <= i < lines.len() {
        lemma_win_scan_all_excluded(lines, i + 1, count);
    }
}

/// The exclusion filter bars selection outright: when every line of the
/// scripted query is empty or an excluded adapter, the probe reports
/// nothing — it never falls back on an excluded entry as best.
pub proof fn lemma_excluded_never_selected(text: Seq<u8>)
    requires
        forall|j: int|
            0 <= j < lines_of(text).len() ==> ps_entry(#[trigger] lines_of(text)[j]) is None,
    ensures
        spec_windows_ps(text) is None,
{
    lemma_win_scan_all_excluded(lines_of(text), 0, 0);
}

/// A PCI listing line announcing the tertiary vendor's high-end discrete
/// part: it names both the vendor and the product keyword.
pub open spec fn intel_arc_scan(lines: Seq<Seq<u8>>, i: int) -> bool
    decreases lines.len() - i,
{
    if i < 0 || i >= lines.len() {
        false
    } else if contains_ci(lines[i], tok("intel")) && contains_ci(lines[i], tok("arc")) {
        true
    } else {
        intel_arc_scan(lines, i + 1)
    }
}

/// The PCI listing shows the tertiary vendor's discrete product somewhere.
pub open spec fn spec_lspci_intel_arc(text: Seq<u8>) -> bool {
    intel_arc_scan(lines_of(text), 0)
}

/// Whether the PCI listing names the tertiary vendor's discrete product.
pub fn lspci_has_intel_arc(text: &[u8]) -> (r: bool)
    ensures
        r == spec_lspci_intel_arc(text@),
{
    let lines = split_lines(text);
    let n = lines.len();
    let mut k: usize = 0;
    while k < n
        invariant
            k <= n,
            n == lines@.len(),
            lines.deep_view() == lines_of(text@),
            intel_arc_scan(lines.deep_view(), 0) == intel_arc_scan(lines.deep_view(), k as int),
        decreases n - k,
    {
        proof {
            assert(lines.deep_view()[k as int] == lines@[k as int]@);
        }
        let line = lines[k].as_slice();
        if contains_ci_exec(line, "intel".as_bytes()) && contains_ci_exec(
            line,
            "arc".as_bytes(),
        ) {
            return true;
        }
        k += 1;
    }
    false
}

/// One tertiary-vendor card's outcome: its VRAM attribute in MiB when it
/// reads as positive; 0 — the sentinel for "exists, size unspecified" —
/// when the PCI listing shows the discrete product instead; nothing
/// otherwise, and the walk goes on to the next card.
pub open spec fn spec_intel_card(vram_file: Option<Seq<u8>>, lspci: Option<Seq<u8>>) -> Option<
    u64,
> {
    let bytes = match vram_file {
        Some(c) => spec_attr_bytes(c),
        None => None,
    };
    match bytes {
        Some(b) => Some(bytes_to_mib(b)),
        None => match lspci {
            Some(t) => if spec_lspci_intel_arc(t) {
                Some(0)
            } else {
                None
            },
            None => None,
        },
    }
}

/// Decides what one tertiary-vendor card contributes, from its VRAM
/// attribute file and the PCI listing.
pub fn intel_card_step(vram_file: Option<&[u8]>, lspci_text: Option<&[u8]>) -> (r: Option<u64>)
    ensures
        r == spec_intel_card(
            match vram_file {
                Some(c) => Some(c@),
                None => None,
            },
            match lspci_text {
                Some(t) => Some(t@),
                None => None,
            },
        ),
{
    let bytes: Option<u64> = match vram_file {
        Some(c) => attr_bytes(c),
        None => None,
    };
    match bytes {
        Some(b) => Some(bytes_to_mib_exec(b)),
        None => match lspci_text {
            Some(t) => if lspci_has_intel_arc(t) {
                Some(0)
            } else {
                None
            },
            None => None,
        },
    }
}

/// A display-subsystem descriptor line announcing the first-party chip.
pub open spec fn apple_scan(lines: Seq<Seq<u8>>, i: int) -> bool
    decreases lines.len() - i,
{
    if i < 0 || i >= lines.len() {
        false
    } else if contains_ci(lines[i], tok("apple m")) || contains_ci(lines[i], tok("apple gpu")) {
        true
    } else {
        apple_scan(lines, i + 1)
    }
}

/// The display-subsystem descriptor shows the first-party chip.
pub open spec fn spec_apple_detected(text: Seq<u8>) -> bool {
    apple_scan(lines_of(text), 0)
}

/// Whether the display-subsystem descriptor names the first-party chip.
pub fn apple_gpu_detected(text: &[u8]) -> (r: bool)
    ensures
        r == spec_apple_detected(text@),
{
    let lines = split_lines(text);
    let n = lines.len();
    let mut k: usize = 0;
    while k < n
        invariant
            k <= n,
            n == lines@.len(),
            lines.deep_view() == lines_of(text@),
            apple_scan(lines.deep_view(), 0) == apple_scan(lines.deep_view(), k as int),
        decreases n - k,
    {
        proof {
            assert(lines.deep_view()[k as int] == lines@[k as int]@);
        }
        let line = lines[k].as_slice();
        if contains_ci_exec(line, "apple m".as_bytes()) || contains_ci_exec(
            line,
            "apple gpu".as_bytes(),
        ) {
            return true;
        }
        k += 1;
    }
    false
}

/// The unified-memory record: VRAM equal to the total system RAM — never
/// the available reading, which fluctuates with memory pressure — one
/// device, the first-party graphics backend, and the CPU name as the
/// device name when it carries the first-party marker.
pub open spec fn spec_apple(total_ram_mib: u64, cpu: Seq<u8>) -> GpuModel {
    GpuModel {
        has_gpu: true,
        vram_mib: Some(total_ram_mib),
        name: if contains_ci(cpu, tok("apple")) {
            Some(cpu)
        } else {
            Some(tok("Apple Silicon"))
        },
        count: 1,
        unified_memory: true,
        backend: GpuBackend::Metal,
    }
}

/// Builds the unified-memory record for a detected first-party chip.
pub fn apple_record(total_ram_mib: u64, cpu_name: &[u8]) -> (r: DetectionRecord)
    ensures
        r@ == spec_apple(total_ram_mib, cpu_name@),
{
    let name: Vec<u8> = if contains_ci_exec(cpu_name, "apple".as_bytes()) {
        vstd::slice::slice_to_vec(cpu_name)
    } else {
        vstd::slice::slice_to_vec("Apple Silicon".as_bytes())
    };
    DetectionRecord {
        has_gpu: true,
        vram_mib: Some(total_ram_mib),
        name: Some(name),
        count: 1,
        unified_memory: true,
        backend: GpuBackend::Metal,
    }
}

/// What the platform handed the probe chain: for each external tool, its
/// output text when it ran, was read and (where the tool reports a status)
/// succeeded — and nothing otherwise. The two device-query fields follow
/// the legacy rule: `windows_wmic` is filled only when the scripted query
/// ran and failed, so at most one of the two is present. `amd_card_found`
/// and the two file fields carry the first whole-card entry of the device
/// filesystem with the secondary vendor's identifier; `intel_vram_mib` is
/// the first tertiary-vendor card's outcome, as `intel_card_step` and
/// `lspci_has_intel_arc` decide it.
pub struct ProbeInputs {
    pub nvidia_smi: Option<Vec<u8>>,
    pub rocm_vram: Option<Vec<u8>>,
    pub rocm_name: Option<Vec<u8>>,
    pub amd_card_found: bool,
    pub amd_vram_file: Option<Vec<u8>>,
    pub lspci: Option<Vec<u8>>,
    pub windows_ps: Option<Vec<u8>>,
    pub windows_wmic: Option<Vec<u8>>,
    pub intel_vram_mib: Option<u64>,
    pub apple_display: Option<Vec<u8>>,
}

/// The mathematical shape of the chain's inputs.
pub ghost struct ProbeModel {
    pub nvidia_smi: Option<Seq<u8>>,
    pub rocm_vram: Option<Seq<u8>>,
    pub rocm_name: Option<Seq<u8>>,
    pub amd_card_found: bool,
    pub amd_vram_file: Option<Seq<u8>>,
    pub lspci: Option<Seq<u8>>,
    pub windows_ps: Option<Seq<u8>>,
    pub windows_wmic: Option<Seq<u8>>,
    pub intel_vram_mib: Option<u64>,
    pub apple_display: Option<Seq<u8>>,
}

pub open spec fn view_bytes(v: Option<Vec<u8>>) -> Option<Seq<u8>> {
    match v {
        Some(b) => Some(b@),
        None => None,
    }
}

impl View for ProbeInputs {
    type V = ProbeModel;

    open spec fn view(&self) -> ProbeModel {
        ProbeModel {
            nvidia_smi: view_bytes(self.nvidia_smi),
            rocm_vram: view_bytes(self.rocm_vram),
            rocm_name: view_bytes(self.rocm_name),
            amd_card_found: self.amd_card_found,
            amd_vram_file: view_bytes(self.amd_vram_file),
            lspci: view_bytes(self.lspci),
            windows_ps: view_bytes(self.windows_ps),
            windows_wmic: view_bytes(self.windows_wmic),
            intel_vram_mib: self.intel_vram_mib,
            apple_display: view_bytes(self.apple_display),
        }
    }
}

/// The record of the whole ordered chain: the first probe that reports a
/// device wins; when every probe defers, absence is reported and a
/// CPU-only backend is chosen from the CPU name and the build target.
pub open spec fn spec_detect_gpu(
    m: ProbeModel,
    total_ram_mib: u64,
    cpu: Seq<u8>,
    arm_target: bool,
) -> GpuModel {
    let nv = match m.nvidia_smi {
        Some(t) => spec_nvidia(t),
        None => None,
    };
    match nv {
        Some(rec) => rec,
        None => match m.rocm_vram {
            Some(t) => spec_rocm(t, m.rocm_name),
            None => if m.amd_card_found {
                spec_amd_sysfs(m.amd_vram_file, m.lspci)
            } else {
                let win = match m.windows_ps {
                    Some(t) => spec_windows_ps(t),
                    None => match m.windows_wmic {
                        Some(t) => spec_windows_wmic(t),
                        None => None,
                    },
                };
                match win {
                    Some(rec) => rec,
                    None => match m.intel_vram_mib {
                        Some(mib) => GpuModel {
                            has_gpu: true,
                            vram_mib: Some(mib),
                            name: Some(tok("Intel Arc")),
                            count: 1,
                            unified_memory: false,
                            backend: GpuBackend::Sycl,
                        },
                        None => {
                            let apple = match m.apple_display {
                                Some(t) => spec_apple_detected(t),
                                None => false,
                            };
                            if apple {
                                spec_apple(total_ram_mib, cpu)
                            } else {
                                GpuModel {
                                    has_gpu: false,
                                    vram_mib: None,
                                    name: None,
                                    count: 0,
                                    unified_memory: false,
                                    backend: spec_cpu_backend(cpu, arm_target),
                                }
                            }
                        },
                    },
                }
            },
        },
    }
}

/// Runs the ordered probe chain over the gathered inputs. `total_ram_mib`
/// feeds the unified-memory record; `cpu_name` and `arm_target` feed the
/// CPU-only fallback.
pub fn detect_gpu(
    inputs: &ProbeInputs,
    total_ram_mib: u64,
    cpu_name: &[u8],
    arm_target: bool,
) -> (r: DetectionRecord)
    ensures
        r@ == spec_detect_gpu(inputs@, total_ram_mib, cpu_name@, arm_target),
{
    if let Some(t) = &inputs.nvidia_smi {
        if let Some(rec) = parse_nvidia_smi(t.as_slice()) {
            return rec;
        }
    }
    if let Some(t) = &inputs.rocm_vram {
        let name_text: Option<&[u8]> = match &inputs.rocm_name {
            Some(nt) => Some(nt.as_slice()),
            None => None,
        };
        return parse_rocm_smi(t.as_slice(), name_text);
    }
    if inputs.amd_card_found {
        let vram_file: Option<&[u8]> = match &inputs.amd_vram_file {
            Some(c) => Some(c.as_slice()),
            None => None,
        };
        let lspci: Option<&[u8]> = match &inputs.lspci {
            Some(t) => Some(t.as_slice()),
            None => None,
        };
        return amd_sysfs_record(vram_file, lspci);
    }
    let win: Option<DetectionRecord> = if let Some(t) = &inputs.windows_ps {
        parse_windows_gpu_entries(t.as_slice())
    } else if let Some(t) = &inputs.windows_wmic {
        parse_windows_gpu_wmic(t.as_slice())
    } else {
        None
    };
    if let Some(rec) = win {
        return rec;
    }
    if let Some(mib) = inputs.intel_vram_mib {
        return DetectionRecord {
            has_gpu: true,
            vram_mib: Some(mib),
            name: Some(vstd::slice::slice_to_vec("Intel Arc".as_bytes())),
            count: 1,
            unified_memory: false,
            backend: GpuBackend::Sycl,
        };
    }
    let apple = match &inputs.apple_display {
        Some(t) => apple_gpu_detected(t.as_slice()),
        None => false,
    };
    if apple {
        return apple_record(total_ram_mib, cpu_name);
    }
    DetectionRecord {
        has_gpu: false,
        vram_mib: None,
        name: None,
        count: 0,
        unified_memory: false,
        backend: cpu_fallback_backend(cpu_name, arm_target),
    }
}

/// Aggregation over equally sized devices: three listed devices of equal
/// capacity yield three times that capacity and a count of three, as long
/// as the aggregate stays plausible and within range.
pub proof fn lemma_three_equal_devices(
    lines: Seq<Seq<u8>>,
    c: u64,
    n0: Option<Seq<u8>>,
    n1: Option<Seq<u8>>,
    n2: Option<Seq<u8>>,
)
    requires
        lines.len() == 3,
        nv_entry(lines[0]) == Some((c, n0)),
        nv_entry(lines[1]) == Some((c, n1)),
        nv_entry(lines[2]) == Some((c, n2)),
        103 <= 3 * c <= u64::MAX,
    ensures
        spec_nvidia_lines(lines) is Some,
        spec_nvidia_lines(lines).unwrap().vram_mib == Some((3 * c) as u64),
        spec_nvidia_lines(lines).unwrap().count == 3,
{
    let s1 = sat_add(0, c);
    let m1 = if n0 is Some {
        n0
    } else {
        None
    };
    assert(nv_scan(lines, 0, 0, 0, None) == nv_scan(lines, 1, s1, 1, m1));
    let s2 = sat_add(s1, c);
    let m2 = if m1 is None && n1 is Some {
        n1
    } else {
        m1
    };
    assert(nv_scan(lines, 1, s1, 1, m1) == nv_scan(lines, 2, s2, 2, m2));
    let s3 = sat_add(s2, c);
    let m3 = if m2 is None && n2 is Some {
        n2
    } else {
        m2
    };
    assert(nv_scan(lines, 2, s2, 2, m2) == nv_scan(lines, 3, s3, 3, m3));
    assert(nv_scan(lines, 3, s3, 3, m3) == (s3, 3u32, m3));
    assert(s3 == 3 * c);
}

/// Unified-memory correctness along the chain: when every earlier probe
/// defers and the display descriptor shows the first-party chip, the
/// reported VRAM is the total system RAM handed in — not the available
/// reading — and the unified-memory flag is set.
pub proof fn lemma_unified_memory_uses_total(
    m: ProbeModel,
    total_ram_mib: u64,
    cpu: Seq<u8>,
    arm_target: bool,
)
    requires
        match m.nvidia_smi {
            Some(t) => spec_nvidia(t) is None,
            None => true,
        },
        m.rocm_vram is None,
        !m.amd_card_found,
        match m.windows_ps {
            Some(t) => spec_windows_ps(t) is None,
            None => true,
        },
        match m.windows_wmic {
            Some(t) => spec_windows_wmic(t) is None,
            None => true,
        },
        m.intel_vram_mib is None,
        m.apple_display is Some,
        spec_apple_detected(m.apple_display.unwrap()),
    ensures
        spec_detect_gpu(m, total_ram_mib, cpu, arm_target).has_gpu,
        spec_detect_gpu(m, total_ram_mib, cpu, arm_target).unified_memory,
        spec_detect_gpu(m, total_ram_mib, cpu, arm_target).vram_mib == Some(total_ram_mib),
{
}

/// The record's invariant: whatever the inputs, a record with the
/// unified-memory flag set reports the total system RAM as its VRAM — only
/// the first-party platform probe raises the flag, and it always reports
/// the total handed in.
pub proof fn lemma_unified_implies_total(
    m: ProbeModel,
    total_ram_mib: u64,
    cpu: Seq<u8>,
    arm_target: bool,
)
    ensures
        spec_detect_gpu(m, total_ram_mib, cpu, arm_target).unified_memory ==> spec_detect_gpu(
            m,
            total_ram_mib,
            cpu,
            arm_target,
        ).vram_mib == Some(total_ram_mib),
{
}

/// The no-accelerator fallback: when every probe defers, no GPU is
/// reported and the backend is the CPU-only one chosen from the CPU name
/// and the build target.
pub proof fn lemma_no_accelerator_fallback(
    m: ProbeModel,
    total_ram_mib: u64,
    cpu: Seq<u8>,
    arm_target: bool,
)
    requires
        match m.nvidia_smi {
            Some(t) => spec_nvidia(t) is None,
            None => true,
        },
        m.rocm_vram is None,
        !m.amd_card_found,
        match m.windows_ps {
            Some(t) => spec_windows_ps(t) is None,
            None => true,
        },
        match m.windows_wmic {
            Some(t) => spec_windows_wmic(t) is None,
            None => true,
        },
        m.intel_vram_mib is None,
        match m.apple_display {
            Some(t) => !spec_apple_detected(t),
            None => true,
        },
    ensures
        !spec_detect_gpu(m, total_ram_mib, cpu, arm_target).has_gpu,
        spec_detect_gpu(m, total_ram_mib, cpu, arm_target).backend == spec_cpu_backend(
            cpu,
            arm_target,
        ),
{
}

} // verus!
