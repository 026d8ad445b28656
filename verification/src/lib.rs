//! Detection of a host machine's compute capability: CPU, RAM and GPU
//! accelerator identity and capacity, assembled into one immutable
//! snapshot.
//!
//! The crate holds the decision logic only: parsers for the text that
//! platform tools emit, the name-to-capacity estimation table, the
//! available-memory fallback, the backend classifier, the probe chain that
//! keeps the first success, and the aggregation of all of it into a
//! snapshot — together with the color themes of the terminal front end.
//! Querying the operating system and running the tools is the caller's
//! business; every function here works on plain values handed in.

use vstd::prelude::*;

pub mod backend;
pub mod memory;
pub mod probes;
pub mod specs;
pub mod text;
pub mod theme;
pub mod vram_table;

verus! {

/// Whether a kernel release or version string carries the compatibility
/// layer's marker, compared ASCII-case-insensitively.
pub fn os_release_mentions_microsoft(text: &[u8]) -> (r: bool)
    ensures
        r == crate::text::contains_ci(text@, crate::text::tok("microsoft")),
{
    crate::text::contains_ci_exec(text, "microsoft".as_bytes())
}

} // verus!
