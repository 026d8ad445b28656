//! The available-memory fallback: repair of an implausible (zero)
//! available-memory reading through layered strategies, ending in a
//! conservative share of total memory. All quantities are in bytes.

use vstd::prelude::*;

use crate::text::lines_of;
use crate::text::spec_drop_trailing;
use crate::text::spec_find_sub;
use crate::text::spec_parse_u64;
use crate::text::spec_split;
use crate::text::spec_split_first;
use crate::text::spec_starts_with;
use crate::text::spec_trim;
use crate::text::drop_trailing;
use crate::text::find_sub;
use crate::text::lemma_find_sub;
use crate::text::parse_u64;
use crate::text::split_byte;
use crate::text::split_first;
use crate::text::split_lines;
use crate::text::starts_with;
use crate::text::tok;
use crate::text::trim;

verus! {

/// The page count on a statistics line of the form `key: 12345.`: the text
/// between the first and second colon, trimmed, stripped of trailing dots
/// and read as a number — provided the line begins with `key`.
pub open spec fn spec_vm_stat_line(line: Seq<u8>, key: Seq<u8>) -> Option<u64> {
    if !spec_starts_with(line, key) {
        None
    } else {
        let parts = spec_split(line, 58);
        if parts.len() < 2 {
            None
        } else {
            spec_parse_u64(spec_drop_trailing(spec_trim(parts[1]), 46))
        }
    }
}

/// Reads the page count out of one statistics line, when it carries `key`.
pub fn parse_vm_stat_line(line: &[u8], key: &[u8]) -> (r: Option<u64>)
    ensures
        r == spec_vm_stat_line(line@, key@),
{
    if !starts_with(line, key) {
        return None;
    }
    let parts = split_byte(line, 58);
    if parts.len() < 2 {
        return None;
    }
    proof {
        assert(parts.deep_view()[1] == parts@[1]@);
    }
    let t = trim(parts[1].as_slice());
    let d = drop_trailing(t.as_slice(), 46);
    parse_u64(d.as_slice())
}

/// The page size announced by the header line, in bytes; 16384 — the
/// first-party ARM default — when the header cannot be read.
pub open spec fn spec_page_size(line: Seq<u8>) -> u64 {
    let pat = tok("page size of ");
    let i = spec_find_sub(line, pat);
    if i < 0 {
        16384
    } else {
        let after = line.skip(i + pat.len());
        let j = spec_find_sub(after, pat);
        let seg = if j < 0 {
            after
        } else {
            after.take(j)
        };
        match spec_parse_u64(spec_split_first(seg, 32).0) {
            Some(v) => v,
            None => 16384,
        }
    }
}

/// Reads the page size out of the statistics header line.
pub fn page_size_of(line: &[u8]) -> (r: u64)
    ensures
        r == spec_page_size(line@),
{
    let pat = "page size of ".as_bytes();
    match find_sub(line, pat) {
        None => 16384,
        Some(i) => {
            proof {
                lemma_find_sub(line@, pat@);
            }
            let n = line.len();
            let after: &[u8] = &line[i + pat.len()..n];
            proof {
                assert(after@ =~= line@.skip(i + pat@.len()));
            }
            let seg: &[u8] = match find_sub(after, pat) {
                None => after,
                Some(j) => {
                    proof {
                        lemma_find_sub(after@, pat@);
                        assert(after@.subrange(0, j as int) =~= after@.take(j as int));
                    }
                    &after[0..j]
                },
            };
            let (token, _) = split_first(seg, 32);
            match parse_u64(token.as_slice()) {
                Some(v) => v,
                None => 16384,
            }
        },
    }
}

/// One line's effect on the three page counters: a matching line overwrites
/// its counter, any other line leaves all three as they stand.
pub open spec fn vm_step(line: Seq<u8>, f: u64, ia: u64, p: u64) -> (u64, u64, u64) {
    match spec_vm_stat_line(line, tok("Pages free")) {
        Some(v) => (v, ia, p),
        None => match spec_vm_stat_line(line, tok("Pages inactive")) {
            Some(v) => (f, v, p),
            None => match spec_vm_stat_line(line, tok("Pages purgeable")) {
                Some(v) => (f, ia, v),
                None => (f, ia, p),
            },
        },
    }
}

/// The three page counters after scanning the lines from position `i` on.
pub open spec fn vm_counts(lines: Seq<Seq<u8>>, i: int, f: u64, ia: u64, p: u64) -> (
    u64,
    u64,
    u64,
)
    decreases lines.len() - i,
{
    if i < 0 || i >= lines.len() {
        (f, ia, p)
    } else {
        let next = vm_step(lines[i], f, ia, p);
        vm_counts(lines, i + 1, next.0, next.1, next.2)
    }
}

/// Available memory computed from a memory-statistics report: the free,
/// inactive and purgeable page counts times the page size. Nothing when the
/// product is zero or does not fit in a `u64`.
pub open spec fn spec_vm_stat_avail(text: Seq<u8>) -> Option<u64> {
    let lines = lines_of(text);
    let page = spec_page_size(lines[0]);
    let counts = vm_counts(lines, 0, 0, 0, 0);
    let bytes = (counts.0 + counts.1 + counts.2) * page;
    if 0 < bytes <= u64::MAX {
        Some(bytes as u64)
    } else {
        None
    }
}

/// Computes available memory from a memory-statistics report.
pub fn parse_vm_stat(text: &[u8]) -> (r: Option<u64>)
    ensures
        r == spec_vm_stat_avail(text@),
{
    let lines = split_lines(text);
    proof {
        assert(lines_of(text@).len() == spec_split(text@, 10).len());
        assert(spec_split(text@, 10).len() > 0);
        assert(lines.deep_view()[0] == lines@[0]@);
    }
    let page = page_size_of(lines[0].as_slice());
    let mut f: u64 = 0;
    let mut ia: u64 = 0;
    let mut p: u64 = 0;
    let n = lines.len();
    let mut k: usize = 0;
    while k < n
        invariant
            k <= n,
            n == lines@.len(),
            lines.deep_view() == lines_of(text@),
            vm_counts(lines.deep_view(), 0, 0, 0, 0) == vm_counts(
                lines.deep_view(),
                k as int,
                f,
                ia,
                p,
            ),
        decreases n - k,
    {
        proof {
            assert(lines.deep_view()[k as int] == lines@[k as int]@);
        }
        let line = lines[k].as_slice();
        if let Some(v) = parse_vm_stat_line(line, "Pages free".as_bytes()) {
            f = v;
        } else if let Some(v) = parse_vm_stat_line(line, "Pages inactive".as_bytes()) {
            ia = v;
        } else if let Some(v) = parse_vm_stat_line(line, "Pages purgeable".as_bytes()) {
            p = v;
        }
        k += 1;
    }
    let sum = match f.checked_add(ia) {
        Some(s) => match s.checked_add(p) {
            Some(s2) => s2,
            None => {
                proof {
                    lemma_big_sum_overflows(f as int + ia as int + p as int, page as int);
                }
                return None;
            },
        },
        None => {
            proof {
                lemma_big_sum_overflows(f as int + ia as int + p as int, page as int);
            }
            return None;
        },
    };
    match sum.checked_mul(page) {
        Some(bytes) => {
            if bytes > 0 {
                Some(bytes)
            } else {
                None
            }
        },
        None => None,
    }
}

/// A sum beyond `u64` stays beyond it, or collapses to zero, once it is
/// multiplied by a page size; either way no byte count comes out.
proof fn lemma_big_sum_overflows(sum: int, page: int)
    requires
        sum > u64::MAX,
        page >= 0,
    ensures
        !(0 < sum * page <= u64::MAX),
{
    if page > 0 {
        assert(sum * page >= sum) by (nonlinear_arith)
            requires
                sum > 0,
                page >= 1,
        ;
    } else {
        assert(sum * page == 0);
    }
}

/// The repaired available-memory value, in bytes, when the primary reading
/// was implausible: `total - used` when the used counter is plausible, else
/// what the memory-statistics report gives (capped at total), else a
/// conservative four fifths of total.
pub open spec fn spec_available_fallback(total: u64, used: u64, vm: Option<Seq<u8>>) -> u64 {
    if 0 < used < total {
        (total - used) as u64
    } else {
        let from_stats = match vm {
            Some(text) => spec_vm_stat_avail(text),
            None => None,
        };
        match from_stats {
            Some(b) => if b <= total {
                b
            } else {
                total
            },
            None => (total - total / 5) as u64,
        }
    }
}

/// Repairs a zero available-memory reading. `vm_stat_text` is the output of
/// the platform's memory-statistics utility, when it could be run.
pub fn available_ram_fallback(total: u64, used: u64, vm_stat_text: Option<&[u8]>) -> (r: u64)
    ensures
        r == spec_available_fallback(
            total,
            used,
            match vm_stat_text {
                Some(t) => Some(t@),
                None => None,
            },
        ),
{
    if 0 < used && used < total {
        return total - used;
    }
    let from_stats: Option<u64> = match vm_stat_text {
        Some(text) => parse_vm_stat(text),
        None => None,
    };
    match from_stats {
        Some(b) => if b <= total {
            b
        } else {
            total
        },
        None => total - total / 5,
    }
}

/// The fallback is total-bounded: whatever the used counter and whatever
/// the statistics report say, the repaired value lies in `(0, total]` for
/// every positive total.
pub proof fn lemma_fallback_total_bounded(total: u64, used: u64, vm: Option<Seq<u8>>)
    requires
        total > 0,
    ensures
        0 < spec_available_fallback(total, used, vm) <= total,
{
}

} // verus!
