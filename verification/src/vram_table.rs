//! The name-to-capacity estimation table: a deterministic, case-insensitive
//! substring match from a free-text device name to a VRAM capacity in GiB.
//! Every probe uses it as a corrective or last-resort signal when a direct
//! reading is missing or implausible.

use vstd::prelude::*;

use crate::text::contains_ci;
use crate::text::contains_ci_exec;
use crate::text::tok;

verus! {

/// Estimated VRAM in GiB for a device name, 0 when no token matches.
///
/// Matching order matters: a variant token such as "5070 ti" stands before
/// its shorter generic prefix "5070", so that a variant name never resolves
/// to the base model's capacity.
pub open spec fn spec_estimate(s: Seq<u8>) -> u64 {
    if contains_ci(s, tok("5090")) {
        32
    } else if contains_ci(s, tok("5080")) {
        16
    } else if contains_ci(s, tok("5070 ti")) {
        16
    } else if contains_ci(s, tok("5070")) {
        12
    } else if contains_ci(s, tok("5060 ti")) {
        16
    } else if contains_ci(s, tok("5060")) {
        8
    } else if contains_ci(s, tok("4090")) {
        24
    } else if contains_ci(s, tok("4080")) {
        16
    } else if contains_ci(s, tok("4070 ti")) {
        12
    } else if contains_ci(s, tok("4070")) {
        12
    } else if contains_ci(s, tok("4060 ti")) {
        16
    } else if contains_ci(s, tok("4060")) {
        8
    } else if contains_ci(s, tok("3090")) {
        24
    } else if contains_ci(s, tok("3080 ti")) {
        12
    } else if contains_ci(s, tok("3080")) {
        10
    } else if contains_ci(s, tok("3070")) {
        8
    } else if contains_ci(s, tok("3060 ti")) {
        8
    } else if contains_ci(s, tok("3060")) {
        12
    } else if contains_ci(s, tok("h100")) {
        80
    } else if contains_ci(s, tok("a100")) {
        80
    } else if contains_ci(s, tok("l40")) {
        48
    } else if contains_ci(s, tok("a10")) {
        24
    } else if contains_ci(s, tok("t4")) {
        16
    } else if contains_ci(s, tok("9070 xt")) {
        16
    } else if contains_ci(s, tok("9070")) {
        12
    } else if contains_ci(s, tok("7900 xtx")) {
        24
    } else if contains_ci(s, tok("7900")) {
        20
    } else if contains_ci(s, tok("7800")) {
        16
    } else if contains_ci(s, tok("7700")) {
        12
    } else if contains_ci(s, tok("7600")) {
        8
    } else if contains_ci(s, tok("6950")) {
        16
    } else if contains_ci(s, tok("6900")) {
        16
    } else if contains_ci(s, tok("6800")) {
        16
    } else if contains_ci(s, tok("6750")) {
        12
    } else if contains_ci(s, tok("6700")) {
        12
    } else if contains_ci(s, tok("6650")) {
        8
    } else if contains_ci(s, tok("6600")) {
        8
    } else if contains_ci(s, tok("6500")) {
        4
    } else if contains_ci(s, tok("5700 xt")) {
        8
    } else if contains_ci(s, tok("5700")) {
        8
    } else if contains_ci(s, tok("5600")) {
        6
    } else if contains_ci(s, tok("5500")) {
        4
    } else if contains_ci(s, tok("rtx")) {
        8
    } else if contains_ci(s, tok("gtx")) {
        4
    } else if contains_ci(s, tok("rx ")) || contains_ci(s, tok("radeon")) {
        8
    } else {
        0
    }
}

/// Estimated VRAM in GiB from a device name; 0 means "unknown".
#[verifier::rlimit(30)]
pub fn estimate_vram_from_name(name: &[u8]) -> (r: u64)
    ensures
        r == spec_estimate(name@),
{
    if contains_ci_exec(name, "5090".as_bytes()) {
        32
    } else if contains_ci_exec(name, "5080".as_bytes()) {
        16
    } else if contains_ci_exec(name, "5070 ti".as_bytes()) {
        16
    } else if contains_ci_exec(name, "5070".as_bytes()) {
        12
    } else if contains_ci_exec(name, "5060 ti".as_bytes()) {
        16
    } else if contains_ci_exec(name, "5060".as_bytes()) {
        8
    } else if contains_ci_exec(name, "4090".as_bytes()) {
        24
    } else if contains_ci_exec(name, "4080".as_bytes()) {
        16
    } else if contains_ci_exec(name, "4070 ti".as_bytes()) {
        12
    } else if contains_ci_exec(name, "4070".as_bytes()) {
        12
    } else if contains_ci_exec(name, "4060 ti".as_bytes()) {
        16
    } else if contains_ci_exec(name, "4060".as_bytes()) {
        8
    } else if contains_ci_exec(name, "3090".as_bytes()) {
        24
    } else if contains_ci_exec(name, "3080 ti".as_bytes()) {
        12
    } else if contains_ci_exec(name, "3080".as_bytes()) {
        10
    } else if contains_ci_exec(name, "3070".as_bytes()) {
        8
    } else if contains_ci_exec(name, "3060 ti".as_bytes()) {
        8
    } else if contains_ci_exec(name, "3060".as_bytes()) {
        12
    } else if contains_ci_exec(name, "h100".as_bytes()) {
        80
    } else if contains_ci_exec(name, "a100".as_bytes()) {
        80
    } else if contains_ci_exec(name, "l40".as_bytes()) {
        48
    } else if contains_ci_exec(name, "a10".as_bytes()) {
        24
    } else if contains_ci_exec(name, "t4".as_bytes()) {
        16
    } else if contains_ci_exec(name, "9070 xt".as_bytes()) {
        16
    } else if contains_ci_exec(name, "9070".as_bytes()) {
        12
    } else if contains_ci_exec(name, "7900 xtx".as_bytes()) {
        24
    } else if contains_ci_exec(name, "7900".as_bytes()) {
        20
    } else if contains_ci_exec(name, "7800".as_bytes()) {
        16
    } else if contains_ci_exec(name, "7700".as_bytes()) {
        12
    } else if contains_ci_exec(name, "7600".as_bytes()) {
        8
    } else if contains_ci_exec(name, "6950".as_bytes()) {
        16
    } else if contains_ci_exec(name, "6900".as_bytes()) {
        16
    } else if contains_ci_exec(name, "6800".as_bytes()) {
        16
    } else if contains_ci_exec(name, "6750".as_bytes()) {
        12
    } else if contains_ci_exec(name, "6700".as_bytes()) {
        12
    } else if contains_ci_exec(name, "6650".as_bytes()) {
        8
    } else if contains_ci_exec(name, "6600".as_bytes()) {
        8
    } else if contains_ci_exec(name, "6500".as_bytes()) {
        4
    } else if contains_ci_exec(name, "5700 xt".as_bytes()) {
        8
    } else if contains_ci_exec(name, "5700".as_bytes()) {
        8
    } else if contains_ci_exec(name, "5600".as_bytes()) {
        6
    } else if contains_ci_exec(name, "5500".as_bytes()) {
        4
    } else if contains_ci_exec(name, "rtx".as_bytes()) {
        8
    } else if contains_ci_exec(name, "gtx".as_bytes()) {
        4
    } else if contains_ci_exec(name, "rx ".as_bytes()) || contains_ci_exec(
        name,
        "radeon".as_bytes(),
    ) {
        8
    } else {
        0
    }
}

/// Precedence of variant tokens over their generic prefixes: a name that
/// carries the "5070 ti" marker resolves to the variant's capacity, never to
/// the base model's, whatever else the name holds besides the two tokens
/// that stand before the variant in the table.
pub proof fn lemma_variant_precedence(s: Seq<u8>)
    requires
        contains_ci(s, tok("5070 ti")),
        !contains_ci(s, tok("5090")),
        !contains_ci(s, tok("5080")),
    ensures
        spec_estimate(s) == 16,
{
}

} // verus!
