//! Byte-level text utilities shared by the parsers: ASCII case folding,
//! substring search, trimming, line splitting and number parsing.

use vstd::prelude::*;
use vstd::string::StringSliceAdditionalSpecFns;

verus! {

/// The UTF-8 bytes of a keyword: the form in which the parsers and tables
/// hold the fixed tokens they look for.
pub open spec fn tok(s: &str) -> Seq<u8> {
    s.spec_bytes()
}

/// ASCII lower-casing of one byte; other bytes pass through unchanged.
pub open spec fn lower_byte(b: u8) -> u8 {
    if 65 <= b && b <= 90 {
        (b + 32) as u8
    } else {
        b
    }
}

/// The needle occurs at position `i` of the haystack, compared
/// ASCII-case-insensitively.
pub open spec fn match_at(hay: Seq<u8>, needle: Seq<u8>, i: int) -> bool {
    &&& 0 <= i
    &&& i + needle.len() <= hay.len()
    &&& forall|j: int|
        0 <= j < needle.len() ==> lower_byte(hay[i + j]) == lower_byte(needle[j])
}

/// The haystack contains the needle somewhere, ASCII-case-insensitively.
pub open spec fn contains_ci(hay: Seq<u8>, needle: Seq<u8>) -> bool {
    exists|i: int| match_at(hay, needle, i)
}

fn lower_u8(b: u8) -> (r: u8)
    ensures
        r == lower_byte(b),
{
    if 65 <= b && b <= 90 {
        b + 32
    } else {
        b
    }
}

fn match_at_exec(hay: &[u8], needle: &[u8], i: usize) -> (r: bool)
    requires
        i + needle@.len() <= hay@.len(),
    ensures
        r == match_at(hay@, needle@, i as int),
{
    let n = needle.len();
    let h = hay.len();
    let mut j: usize = 0;
    while j < n
        invariant
            j <= n,
            n == needle@.len(),
            h == hay@.len(),
            i + n <= h,
            forall|k: int| 0 <= k < j ==> lower_byte(hay@[i + k]) == lower_byte(needle@[k]),
        decreases n - j,
    {
        if lower_u8(hay[i + j]) != lower_u8(needle[j]) {
            return false;
        }
        j += 1;
    }
    true
}

/// Whether `needle` occurs in `hay`, ignoring ASCII case.
pub fn contains_ci_exec(hay: &[u8], needle: &[u8]) -> (r: bool)
    ensures
        r == contains_ci(hay@, needle@),
{
    let n = needle.len();
    let h = hay.len();
    if n > h {
        assert(forall|i: int| !match_at(hay@, needle@, i));
        return false;
    }
    let mut i: usize = 0;
    while i <= h - n
        invariant
            n <= h,
            h == hay@.len(),
            n == needle@.len(),
            i <= h - n + 1,
            forall|k: int| 0 <= k < i ==> !match_at(hay@, needle@, k),
        decreases h + 1 - i,
    {
        if match_at_exec(hay, needle, i) {
            return true;
        }
        i += 1;
    }
    assert(forall|k: int| !match_at(hay@, needle@, k));
    false
}

/// Index of the first occurrence of `d` in `s`, or -1 when `d` is absent.
pub open spec fn spec_find(s: Seq<u8>, d: u8) -> int
    decreases s.len(),
{
    if s.len() == 0 {
        -1
    } else if s[0] == d {
        0
    } else {
        let r = spec_find(s.drop_first(), d);
        if r < 0 {
            -1
        } else {
            r + 1
        }
    }
}

pub proof fn lemma_find(s: Seq<u8>, d: u8)
    ensures
        spec_find(s, d) == -1 <==> (forall|i: int| 0 <= i < s.len() ==> s[i] != d),
        spec_find(s, d) >= 0 ==> spec_find(s, d) < s.len() && s[spec_find(s, d)] == d && (
        forall|j: int| 0 <= j < spec_find(s, d) ==> s[j] != d),
    decreases s.len(),
{
    if s.len() > 0 && s[0] != d {
        let t = s.drop_first();
        lemma_find(t, d);
        assert(forall|i: int| 1 <= i < s.len() ==> s[i] == #[trigger] t[i - 1]);
        let r = spec_find(t, d);
        if r >= 0 {
            assert(spec_find(s, d) == r + 1);
            assert(s[r + 1] == t[r]);
            assert(forall|j: int| 1 <= j < r + 1 ==> s[j] == t[j - 1] && t[j - 1] != d);
        } else {
            assert(forall|i: int| 1 <= i < s.len() ==> s[i] == t[i - 1] && t[i - 1] != d);
        }
    }
}

/// First index of `d` in `s`, if any.
pub fn find_byte(s: &[u8], d: u8) -> (r: Option<usize>)
    ensures
        spec_find(s@, d) < 0 ==> r is None,
        spec_find(s@, d) >= 0 ==> r == Some(spec_find(s@, d) as usize),
{
    proof {
        lemma_find(s@, d);
    }
    let n = s.len();
    let mut i: usize = 0;
    while i < n
        invariant
            i <= n,
            n == s@.len(),
            forall|j: int| 0 <= j < i ==> s@[j] != d,
        decreases n - i,
    {
        if s[i] == d {
            proof {
                lemma_find(s@, d);
            }
            return Some(i);
        }
        i += 1;
    }
    None
}

/// ASCII whitespace, the characters that surround the tokens of tool output.
pub open spec fn is_space(b: u8) -> bool {
    b == 32 || (9 <= b && b <= 13)
}

fn is_space_exec(b: u8) -> (r: bool)
    ensures
        r == is_space(b),
{
    b == 32 || (9 <= b && b <= 13)
}

/// `s` without its leading whitespace.
pub open spec fn spec_ltrim(s: Seq<u8>) -> Seq<u8>
    decreases s.len(),
{
    if s.len() > 0 && is_space(s[0]) {
        spec_ltrim(s.drop_first())
    } else {
        s
    }
}

/// `s` without its trailing whitespace.
pub open spec fn spec_rtrim(s: Seq<u8>) -> Seq<u8>
    decreases s.len(),
{
    if s.len() > 0 && is_space(s.last()) {
        spec_rtrim(s.drop_last())
    } else {
        s
    }
}

/// `s` without leading and trailing whitespace.
pub open spec fn spec_trim(s: Seq<u8>) -> Seq<u8> {
    spec_rtrim(spec_ltrim(s))
}

/// Copy of `s` with leading and trailing ASCII whitespace removed.
pub fn trim(s: &[u8]) -> (r: Vec<u8>)
    ensures
        r@ == spec_trim(s@),
{
    let n = s.len();
    let mut a: usize = 0;
    proof {
        assert(s@.skip(0) =~= s@);
    }
    while a < n && is_space_exec(s[a])
        invariant
            a <= n,
            n == s@.len(),
            spec_ltrim(s@) == spec_ltrim(s@.skip(a as int)),
        decreases n - a,
    {
        proof {
            assert(s@.skip(a as int).drop_first() =~= s@.skip(a + 1));
        }
        a += 1;
    }
    proof {
        if a == n {
            assert(s@.skip(a as int).len() == 0);
        }
        assert(spec_ltrim(s@) == s@.skip(a as int));
    }
    let mut b: usize = n;
    proof {
        assert(s@.subrange(a as int, b as int) =~= s@.skip(a as int));
    }
    while b > a && is_space_exec(s[b - 1])
        invariant
            a <= b <= n,
            n == s@.len(),
            spec_rtrim(spec_ltrim(s@)) == spec_rtrim(s@.subrange(a as int, b as int)),
        decreases b,
    {
        proof {
            assert(s@.subrange(a as int, b as int).drop_last() =~= s@.subrange(
                a as int,
                b - 1,
            ));
        }
        b -= 1;
    }
    proof {
        assert(spec_trim(s@) == s@.subrange(a as int, b as int));
    }
    vstd::slice::slice_to_vec(&s[a..b])
}

/// A decimal digit.
pub open spec fn is_digit(b: u8) -> bool {
    48 <= b && b <= 57
}

/// One step of decimal accumulation; `None` once the value has left `u64`.
pub open spec fn parse_step(acc: Option<u64>, d: u8) -> Option<u64> {
    match acc {
        Some(a) => if 10 * (a as int) + (d - 48) <= u64::MAX {
            Some((10 * a + (d - 48)) as u64)
        } else {
            None
        },
        None => None,
    }
}

/// Scans `s` from position `i` with accumulator `acc`; any non-digit, or
/// overflow of `u64`, makes the whole parse fail.
pub open spec fn parse_scan(s: Seq<u8>, i: int, acc: Option<u64>) -> Option<u64>
    decreases s.len() - i,
{
    if i < 0 || i >= s.len() {
        acc
    } else if !is_digit(s[i]) {
        None
    } else {
        parse_scan(s, i + 1, parse_step(acc, s[i]))
    }
}

/// What `str::parse::<u64>` yields on `s`: the decimal value when `s` is one
/// or more digits and the value fits in `u64`, and nothing otherwise.
pub open spec fn spec_parse_u64(s: Seq<u8>) -> Option<u64> {
    if s.len() == 0 {
        None
    } else {
        parse_scan(s, 0, Some(0u64))
    }
}

proof fn lemma_parse_scan_none(s: Seq<u8>, i: int)
    ensures
        parse_scan(s, i, None) is None,
    decreases s.len() - i,
{
    if 0 <= i < s.len() && is_digit(s[i]) {
        lemma_parse_scan_none(s, i + 1);
    }
}

/// Parses `s` as an unsigned decimal number, as `str::parse::<u64>` would.
pub fn parse_u64(s: &[u8]) -> (r: Option<u64>)
    ensures
        r == spec_parse_u64(s@),
{
    let n = s.len();
    if n == 0 {
        return None;
    }
    let mut acc: u64 = 0;
    let mut i: usize = 0;
    while i < n
        invariant
            i <= n,
            n == s@.len(),
            n > 0,
            spec_parse_u64(s@) == parse_scan(s@, i as int, Some(acc)),
        decreases n - i,
    {
        let b = s[i];
        if !(48 <= b && b <= 57) {
            return None;
        }
        let d = b - 48;
        match acc.checked_mul(10) {
            Some(m) => match m.checked_add(d as u64) {
                Some(v) => {
                    acc = v;
                },
                None => {
                    proof {
                        lemma_parse_scan_none(s@, i + 1);
                    }
                    return None;
                },
            },
            None => {
                proof {
                    lemma_parse_scan_none(s@, i + 1);
                }
                return None;
            },
        }
        i += 1;
    }
    Some(acc)
}

/// `s` split at every occurrence of `d`; the delimiter is dropped, empty
/// segments are kept, and a string without `d` is one segment.
pub open spec fn spec_split(s: Seq<u8>, d: u8) -> Seq<Seq<u8>>
    decreases s.len(),
{
    let i = spec_find(s, d);
    if i < 0 || i >= s.len() {
        seq![s]
    } else {
        seq![s.take(i)] + spec_split(s.skip(i + 1), d)
    }
}

/// Splits `s` at every occurrence of `d`, as `str::split` does.
pub fn split_byte(s: &[u8], d: u8) -> (r: Vec<Vec<u8>>)
    ensures
        r.deep_view() == spec_split(s@, d),
{
    let mut acc: Vec<Vec<u8>> = Vec::new();
    let mut rest: &[u8] = s;
    loop
        invariant
            spec_split(s@, d) == acc.deep_view() + spec_split(rest@, d),
        decreases rest@.len(),
    {
        match find_byte(rest, d) {
            Some(i) => {
                proof {
                    lemma_find(rest@, d);
                }
                let rn = rest.len();
                let ghost old_acc = acc.deep_view();
                let ghost old_rest = rest@;
                let seg = vstd::slice::slice_to_vec(&rest[0..i]);
                acc.push(seg);
                let next: &[u8] = &rest[i + 1..rn];
                rest = next;
                proof {
                    assert(old_rest.subrange(0, i as int) =~= old_rest.take(i as int));
                    assert(rest@ =~= old_rest.skip(i + 1));
                    assert(acc.deep_view() =~~= old_acc + seq![old_rest.take(i as int)]);
                    assert(spec_split(old_rest, d) == seq![old_rest.take(i as int)]
                        + spec_split(old_rest.skip(i + 1), d));
                    assert(old_acc + spec_split(old_rest, d) =~~= acc.deep_view()
                        + spec_split(rest@, d));
                }
            },
            None => {
                let ghost old_acc = acc.deep_view();
                acc.push(vstd::slice::slice_to_vec(rest));
                proof {
                    assert(acc.deep_view() =~~= old_acc + seq![rest@]);
                    assert(spec_split(s@, d) == acc.deep_view());
                }
                return acc;
            },
        }
    }
}

/// A single trailing carriage return is dropped, as `str::lines` drops it.
pub open spec fn strip_cr(l: Seq<u8>) -> Seq<u8> {
    if l.len() > 0 && l.last() == 13 {
        l.drop_last()
    } else {
        l
    }
}

/// The lines of `s`: split at every line feed, each line stripped of one
/// trailing carriage return.
pub open spec fn lines_of(s: Seq<u8>) -> Seq<Seq<u8>> {
    spec_split(s, 10).map_values(|l: Seq<u8>| strip_cr(l))
}

/// Splits `s` into lines, dropping line terminators.
pub fn split_lines(s: &[u8]) -> (r: Vec<Vec<u8>>)
    ensures
        r.deep_view() == lines_of(s@),
{
    let raw = split_byte(s, 10);
    let mut out: Vec<Vec<u8>> = Vec::new();
    let mut k: usize = 0;
    let n = raw.len();
    while k < n
        invariant
            k <= n,
            n == raw@.len(),
            raw.deep_view() == spec_split(s@, 10),
            out.deep_view() == lines_of(s@).take(k as int),
        decreases n - k,
    {
        let ghost old_out = out.deep_view();
        let mut line = vstd::slice::slice_to_vec(raw[k].as_slice());
        let line_len = line.len();
        if line_len > 0 && line[line_len - 1] == 13 {
            line.pop();
        }
        proof {
            assert(raw.deep_view()[k as int] == raw@[k as int]@);
            assert(line@ == strip_cr(spec_split(s@, 10)[k as int]));
        }
        out.push(line);
        proof {
            assert(out.deep_view() =~~= old_out + seq![
                strip_cr(spec_split(s@, 10)[k as int]),
            ]);
            assert(lines_of(s@)[k as int] == strip_cr(spec_split(s@, 10)[k as int]));
            assert(out.deep_view() =~~= lines_of(s@).take(k + 1));
        }
        k += 1;
    }
    proof {
        assert(lines_of(s@).take(n as int) =~~= lines_of(s@));
    }
    out
}

/// `s` cut at the first occurrence of `d`: the part before it, and, when `d`
/// occurs at all, the part after it.
pub open spec fn spec_split_first(s: Seq<u8>, d: u8) -> (Seq<u8>, Option<Seq<u8>>) {
    let i = spec_find(s, d);
    if i < 0 {
        (s, None)
    } else {
        (s.take(i), Some(s.skip(i + 1)))
    }
}

/// Cuts `s` at the first occurrence of `d`, as `str::splitn(2, ..)` does.
pub fn split_first(s: &[u8], d: u8) -> (r: (Vec<u8>, Option<Vec<u8>>))
    ensures
        r.0@ == spec_split_first(s@, d).0,
        r.1 is Some <==> spec_split_first(s@, d).1 is Some,
        r.1 is Some ==> r.1.unwrap()@ == spec_split_first(s@, d).1.unwrap(),
{
    let n = s.len();
    match find_byte(s, d) {
        Some(i) => {
            proof {
                lemma_find(s@, d);
                assert(s@.subrange(0, i as int) =~= s@.take(i as int));
                assert(s@.subrange(i + 1, n as int) =~= s@.skip(i + 1));
            }
            let before = vstd::slice::slice_to_vec(&s[0..i]);
            let after = vstd::slice::slice_to_vec(&s[i + 1..n]);
            (before, Some(after))
        },
        None => (vstd::slice::slice_to_vec(s), None),
    }
}

/// `s` begins with `p`.
pub open spec fn spec_starts_with(s: Seq<u8>, p: Seq<u8>) -> bool {
    s.len() >= p.len() && s.take(p.len() as int) == p
}

/// Whether `s` begins with `p`.
pub fn starts_with(s: &[u8], p: &[u8]) -> (r: bool)
    ensures
        r == spec_starts_with(s@, p@),
{
    let np = p.len();
    if s.len() < np {
        return false;
    }
    let mut j: usize = 0;
    while j < np
        invariant
            j <= np,
            np == p@.len(),
            np <= s@.len(),
            forall|k: int| 0 <= k < j ==> s@[k] == p@[k],
        decreases np - j,
    {
        if s[j] != p[j] {
            assert(s@.take(np as int)[j as int] != p@[j as int]);
            return false;
        }
        j += 1;
    }
    proof {
        assert(s@.take(np as int) =~= p@);
    }
    true
}

/// Whether the two byte strings are equal.
pub fn eq_bytes(a: &[u8], b: &[u8]) -> (r: bool)
    ensures
        r == (a@ == b@),
{
    let n = a.len();
    if b.len() != n {
        return false;
    }
    let mut j: usize = 0;
    while j < n
        invariant
            j <= n,
            n == a@.len() == b@.len(),
            forall|k: int| 0 <= k < j ==> a@[k] == b@[k],
        decreases n - j,
    {
        if a[j] != b[j] {
            return false;
        }
        j += 1;
    }
    proof {
        assert(a@ =~= b@);
    }
    true
}

/// `pat` occurs at position `i` of `hay`, compared exactly.
pub open spec fn cs_match_at(hay: Seq<u8>, pat: Seq<u8>, i: int) -> bool {
    &&& 0 <= i
    &&& i + pat.len() <= hay.len()
    &&& hay.subrange(i, i + pat.len()) == pat
}

/// Index of the first exact occurrence of `pat` in `hay`, or -1.
pub open spec fn spec_find_sub(hay: Seq<u8>, pat: Seq<u8>) -> int
    decreases hay.len(),
{
    if hay.len() < pat.len() {
        -1
    } else if spec_starts_with(hay, pat) {
        0
    } else if hay.len() == 0 {
        -1
    } else {
        let r = spec_find_sub(hay.drop_first(), pat);
        if r < 0 {
            -1
        } else {
            r + 1
        }
    }
}

pub proof fn lemma_find_sub(hay: Seq<u8>, pat: Seq<u8>)
    ensures
        spec_find_sub(hay, pat) < 0 <==> (forall|i: int| !cs_match_at(hay, pat, i)),
        spec_find_sub(hay, pat) >= 0 ==> cs_match_at(hay, pat, spec_find_sub(hay, pat))
            && (forall|j: int| 0 <= j < spec_find_sub(hay, pat) ==> !cs_match_at(
            hay,
            pat,
            j,
        )),
    decreases hay.len(),
{
    let m = pat.len() as int;
    if hay.len() < pat.len() {
        assert(forall|i: int| !cs_match_at(hay, pat, i));
    } else if spec_starts_with(hay, pat) {
        assert(hay.subrange(0, m) =~= hay.take(m));
        assert(cs_match_at(hay, pat, 0));
    } else if hay.len() == 0 {
        assert forall|i: int| !cs_match_at(hay, pat, i) by {
            if cs_match_at(hay, pat, i) {
                assert(hay.subrange(0, m) =~= hay.take(m));
            }
        }
    } else {
        let t = hay.drop_first();
        lemma_find_sub(t, pat);
        assert forall|i: int| 1 <= i && i + m <= hay.len() implies (cs_match_at(hay, pat, i)
            <==> cs_match_at(t, pat, i - 1)) by {
            assert(hay.subrange(i, i + m) =~= t.subrange(i - 1, i - 1 + m));
        }
        assert(hay.take(m) =~= hay.subrange(0, m));
        assert(!cs_match_at(hay, pat, 0));
        let r = spec_find_sub(t, pat);
        if r >= 0 {
            assert(cs_match_at(t, pat, r));
            assert(cs_match_at(hay, pat, r + 1));
            assert(forall|j: int| 1 <= j < r + 1 ==> !cs_match_at(hay, pat, j));
        } else {
            assert(forall|i: int| !cs_match_at(t, pat, i));
            assert forall|i: int| !cs_match_at(hay, pat, i) by {
                if 1 <= i && i + m <= hay.len() {
                    assert(!cs_match_at(t, pat, i - 1));
                }
            }
        }
    }
}

/// First index where `pat` occurs exactly in `s`, if anywhere.
pub fn find_sub(s: &[u8], pat: &[u8]) -> (r: Option<usize>)
    ensures
        spec_find_sub(s@, pat@) < 0 ==> r is None,
        spec_find_sub(s@, pat@) >= 0 ==> r == Some(spec_find_sub(s@, pat@) as usize),
{
    proof {
        lemma_find_sub(s@, pat@);
    }
    let n = s.len();
    let m = pat.len();
    if m > n {
        return None;
    }
    if m == 0 {
        proof {
            assert(s@.take(0) =~= pat@);
        }
        return Some(0);
    }
    let mut i: usize = 0;
    while i <= n - m
        invariant
            0 < m <= n,
            n == s@.len(),
            m == pat@.len(),
            i <= n - m + 1,
            forall|j: int| 0 <= j < i ==> !cs_match_at(s@, pat@, j),
        decreases n - i,
    {
        if eq_bytes(&s[i..i + m], pat) {
            proof {
                lemma_find_sub(s@, pat@);
                assert(cs_match_at(s@, pat@, i as int));
            }
            return Some(i);
        }
        i += 1;
    }
    proof {
        assert(forall|j: int| !cs_match_at(s@, pat@, j));
    }
    None
}

/// Index of the last exact occurrence of `pat` in `hay`, or -1.
pub open spec fn spec_rfind_sub(hay: Seq<u8>, pat: Seq<u8>) -> int
    decreases hay.len(),
{
    if hay.len() < pat.len() {
        -1
    } else if hay.subrange(hay.len() - pat.len(), hay.len() as int) == pat {
        hay.len() - pat.len()
    } else if hay.len() == 0 {
        -1
    } else {
        spec_rfind_sub(hay.drop_last(), pat)
    }
}

pub proof fn lemma_rfind_sub(hay: Seq<u8>, pat: Seq<u8>)
    ensures
        spec_rfind_sub(hay, pat) < 0 <==> (forall|i: int| !cs_match_at(hay, pat, i)),
        spec_rfind_sub(hay, pat) >= 0 ==> cs_match_at(hay, pat, spec_rfind_sub(hay, pat))
            && (forall|j: int| j > spec_rfind_sub(hay, pat) ==> !cs_match_at(hay, pat, j)),
    decreases hay.len(),
{
    let m = pat.len() as int;
    let h = hay.len() as int;
    if hay.len() < pat.len() {
        assert(forall|i: int| !cs_match_at(hay, pat, i));
    } else if hay.subrange(h - m, h) == pat {
        assert(cs_match_at(hay, pat, h - m));
        assert(forall|j: int| j > h - m ==> !cs_match_at(hay, pat, j));
    } else if hay.len() == 0 {
        assert forall|i: int| !cs_match_at(hay, pat, i) by {
            if cs_match_at(hay, pat, i) {
                assert(hay.subrange(h - m, h) == pat);
            }
        }
    } else {
        let t = hay.drop_last();
        lemma_rfind_sub(t, pat);
        assert forall|i: int| 0 <= i && i + m <= h - 1 implies (cs_match_at(hay, pat, i)
            <==> cs_match_at(t, pat, i)) by {
            assert(hay.subrange(i, i + m) =~= t.subrange(i, i + m));
        }
        assert(!cs_match_at(hay, pat, h - m));
        let r = spec_rfind_sub(t, pat);
        if r >= 0 {
            assert(cs_match_at(t, pat, r));
            assert(r + m <= h - 1);
            assert(cs_match_at(hay, pat, r));
            assert forall|j: int| j > r implies !cs_match_at(hay, pat, j) by {
                if 0 <= j && j + m <= h - 1 {
                    assert(!cs_match_at(t, pat, j));
                }
            }
        } else {
            assert forall|i: int| !cs_match_at(hay, pat, i) by {
                if 0 <= i && i + m <= h - 1 {
                    assert(!cs_match_at(t, pat, i));
                }
            }
        }
    }
}

/// Last index where `pat` occurs exactly in `s`, if anywhere.
pub fn rfind_sub(s: &[u8], pat: &[u8]) -> (r: Option<usize>)
    ensures
        spec_rfind_sub(s@, pat@) < 0 ==> r is None,
        spec_rfind_sub(s@, pat@) >= 0 ==> r == Some(spec_rfind_sub(s@, pat@) as usize),
{
    proof {
        lemma_rfind_sub(s@, pat@);
    }
    let n = s.len();
    let m = pat.len();
    if m > n {
        return None;
    }
    if m == 0 {
        proof {
            assert(s@.subrange(n as int, n as int) =~= pat@);
        }
        return Some(n);
    }
    let mut i: usize = n - m + 1;
    while i > 0
        invariant
            0 < m <= n,
            n == s@.len(),
            m == pat@.len(),
            i <= n - m + 1,
            forall|j: int| j >= i ==> !cs_match_at(s@, pat@, j),
        decreases i,
    {
        i -= 1;
        if eq_bytes(&s[i..i + m], pat) {
            proof {
                lemma_rfind_sub(s@, pat@);
                assert(cs_match_at(s@, pat@, i as int));
            }
            return Some(i);
        }
    }
    proof {
        assert(forall|j: int| !cs_match_at(s@, pat@, j));
    }
    None
}

/// Index of the last occurrence of byte `d` in `s`, or -1.
pub open spec fn spec_rfind(s: Seq<u8>, d: u8) -> int
    decreases s.len(),
{
    if s.len() == 0 {
        -1
    } else if s.last() == d {
        s.len() - 1
    } else {
        spec_rfind(s.drop_last(), d)
    }
}

pub proof fn lemma_rfind(s: Seq<u8>, d: u8)
    ensures
        spec_rfind(s, d) < 0 <==> (forall|i: int| 0 <= i < s.len() ==> s[i] != d),
        spec_rfind(s, d) >= 0 ==> spec_rfind(s, d) < s.len() && s[spec_rfind(s, d)] == d && (
        forall|j: int| spec_rfind(s, d) < j < s.len() ==> s[j] != d),
    decreases s.len(),
{
    if s.len() > 0 && s.last() != d {
        let t = s.drop_last();
        lemma_rfind(t, d);
        assert(forall|i: int| 0 <= i < s.len() - 1 ==> s[i] == #[trigger] t[i]);
        let r = spec_rfind(t, d);
        if r >= 0 {
            assert(s[r] == t[r]);
            assert forall|j: int| r < j < s.len() implies s[j] != d by {
                if j < s.len() - 1 {
                    assert(t[j] != d);
                } else {
                    assert(s[j] == s.last());
                }
            }
        } else {
            assert forall|i: int| 0 <= i < s.len() implies s[i] != d by {
                if i < s.len() - 1 {
                    assert(t[i] != d);
                } else {
                    assert(s[i] == s.last());
                }
            }
        }
    }
}

/// Last index of `d` in `s`, if any.
pub fn rfind_byte(s: &[u8], d: u8) -> (r: Option<usize>)
    ensures
        spec_rfind(s@, d) < 0 ==> r is None,
        spec_rfind(s@, d) >= 0 ==> r == Some(spec_rfind(s@, d) as usize),
{
    proof {
        lemma_rfind(s@, d);
    }
    let n = s.len();
    let mut i: usize = n;
    while i > 0
        invariant
            i <= n,
            n == s@.len(),
            forall|j: int| i <= j < n ==> s@[j] != d,
        decreases i,
    {
        i -= 1;
        if s[i] == d {
            proof {
                lemma_rfind(s@, d);
            }
            return Some(i);
        }
    }
    None
}

/// Index of the first ASCII whitespace byte in `s`, or -1.
pub open spec fn spec_find_space(s: Seq<u8>) -> int
    decreases s.len(),
{
    if s.len() == 0 {
        -1
    } else if is_space(s[0]) {
        0
    } else {
        let r = spec_find_space(s.drop_first());
        if r < 0 {
            -1
        } else {
            r + 1
        }
    }
}

pub proof fn lemma_find_space(s: Seq<u8>)
    ensures
        spec_find_space(s) < 0 <==> (forall|i: int| 0 <= i < s.len() ==> !is_space(s[i])),
        spec_find_space(s) >= 0 ==> spec_find_space(s) < s.len() && is_space(
            s[spec_find_space(s)],
        ) && (forall|j: int| 0 <= j < spec_find_space(s) ==> !is_space(s[j])),
    decreases s.len(),
{
    if s.len() > 0 && !is_space(s[0]) {
        let t = s.drop_first();
        lemma_find_space(t);
        assert(forall|i: int| 1 <= i < s.len() ==> s[i] == #[trigger] t[i - 1]);
        let r = spec_find_space(t);
        if r >= 0 {
            assert(s[r + 1] == t[r]);
            assert(forall|j: int| 1 <= j < r + 1 ==> s[j] == t[j - 1] && !is_space(t[j - 1]));
        } else {
            assert(forall|i: int| 1 <= i < s.len() ==> s[i] == t[i - 1] && !is_space(t[i - 1]));
        }
    }
}

fn find_space(s: &[u8]) -> (r: Option<usize>)
    ensures
        spec_find_space(s@) < 0 ==> r is None,
        spec_find_space(s@) >= 0 ==> r == Some(spec_find_space(s@) as usize),
{
    proof {
        lemma_find_space(s@);
    }
    let n = s.len();
    let mut i: usize = 0;
    while i < n
        invariant
            i <= n,
            n == s@.len(),
            forall|j: int| 0 <= j < i ==> !is_space(s@[j]),
        decreases n - i,
    {
        if is_space_exec(s[i]) {
            proof {
                lemma_find_space(s@);
            }
            return Some(i);
        }
        i += 1;
    }
    None
}

/// `s` split at every ASCII whitespace byte; empty segments are kept.
/// `str::split_whitespace` yields exactly the non-empty segments of this
/// split, and a parse of an empty segment fails, so a scan for numeric
/// tokens may walk these segments directly.
pub open spec fn spec_split_ws(s: Seq<u8>) -> Seq<Seq<u8>>
    decreases s.len(),
{
    let i = spec_find_space(s);
    if i < 0 || i >= s.len() {
        seq![s]
    } else {
        seq![s.take(i)] + spec_split_ws(s.skip(i + 1))
    }
}

/// Splits `s` at every ASCII whitespace byte.
pub fn split_ws(s: &[u8]) -> (r: Vec<Vec<u8>>)
    ensures
        r.deep_view() == spec_split_ws(s@),
{
    let mut acc: Vec<Vec<u8>> = Vec::new();
    let mut rest: &[u8] = s;
    loop
        invariant
            spec_split_ws(s@) == acc.deep_view() + spec_split_ws(rest@),
        decreases rest@.len(),
    {
        match find_space(rest) {
            Some(i) => {
                proof {
                    lemma_find_space(rest@);
                }
                let rn = rest.len();
                let ghost old_acc = acc.deep_view();
                let ghost old_rest = rest@;
                let seg = vstd::slice::slice_to_vec(&rest[0..i]);
                acc.push(seg);
                let next: &[u8] = &rest[i + 1..rn];
                rest = next;
                proof {
                    assert(old_rest.subrange(0, i as int) =~= old_rest.take(i as int));
                    assert(rest@ =~= old_rest.skip(i + 1));
                    assert(acc.deep_view() =~~= old_acc + seq![old_rest.take(i as int)]);
                    assert(spec_split_ws(old_rest) == seq![old_rest.take(i as int)]
                        + spec_split_ws(old_rest.skip(i + 1)));
                    assert(old_acc + spec_split_ws(old_rest) =~~= acc.deep_view()
                        + spec_split_ws(rest@));
                }
            },
            None => {
                let ghost old_acc = acc.deep_view();
                acc.push(vstd::slice::slice_to_vec(rest));
                proof {
                    assert(acc.deep_view() =~~= old_acc + seq![rest@]);
                    assert(spec_split_ws(s@) == acc.deep_view());
                }
                return acc;
            },
        }
    }
}

/// The value of the last segment that parses as a `u64`, if any does.
pub open spec fn spec_last_num(segs: Seq<Seq<u8>>) -> Option<u64>
    decreases segs.len(),
{
    if segs.len() == 0 {
        None
    } else {
        match spec_parse_u64(segs.last()) {
            Some(v) => Some(v),
            None => spec_last_num(segs.drop_last()),
        }
    }
}

/// The last whitespace-delimited token of `s` that parses as a `u64`, as
/// `split_whitespace` followed by `filter_map(parse)` and `last` yields it.
pub open spec fn spec_last_ws_num(s: Seq<u8>) -> Option<u64> {
    spec_last_num(spec_split_ws(s))
}

/// Scans the whitespace-delimited tokens of `s` for the last numeric one.
pub fn last_ws_num(s: &[u8]) -> (r: Option<u64>)
    ensures
        r == spec_last_ws_num(s@),
{
    let segs = split_ws(s);
    let mut k: usize = segs.len();
    proof {
        assert(segs.deep_view().take(k as int) =~= segs.deep_view());
    }
    while k > 0
        invariant
            k <= segs@.len(),
            segs.deep_view() == spec_split_ws(s@),
            spec_last_ws_num(s@) == spec_last_num(segs.deep_view().take(k as int)),
        decreases k,
    {
        k -= 1;
        proof {
            assert(segs.deep_view().take(k + 1).last() == segs.deep_view()[k as int]);
            assert(segs.deep_view()[k as int] == segs@[k as int]@);
            assert(segs.deep_view().take(k + 1).drop_last() =~= segs.deep_view().take(
                k as int,
            ));
        }
        if let Some(v) = parse_u64(segs[k].as_slice()) {
            return Some(v);
        }
    }
    proof {
        assert(segs.deep_view().take(0) =~= Seq::<Seq<u8>>::empty());
    }
    None
}

/// `s` without any trailing `d` bytes, as `str::trim_end_matches` leaves it.
pub open spec fn spec_drop_trailing(s: Seq<u8>, d: u8) -> Seq<u8>
    decreases s.len(),
{
    if s.len() > 0 && s.last() == d {
        spec_drop_trailing(s.drop_last(), d)
    } else {
        s
    }
}

/// Removes every trailing `d` from `s`.
pub fn drop_trailing(s: &[u8], d: u8) -> (r: Vec<u8>)
    ensures
        r@ == spec_drop_trailing(s@, d),
{
    let mut b = s.len();
    proof {
        assert(s@.subrange(0, s@.len() as int) =~= s@);
    }
    while b > 0 && s[b - 1] == d
        invariant
            b <= s@.len(),
            spec_drop_trailing(s@, d) == spec_drop_trailing(s@.subrange(0, b as int), d),
        decreases b,
    {
        proof {
            assert(s@.subrange(0, b as int).drop_last() =~= s@.subrange(0, b - 1));
        }
        b -= 1;
    }
    vstd::slice::slice_to_vec(&s[0..b])
}

} // verus!
