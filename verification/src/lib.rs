//! A source-to-source instrumentation pass for a JavaScript-like program
//! representation. The transformer walks an abstract syntax tree, allocates
//! statement / function / branch identifiers in a per-file coverage map,
//! injects counter-increment expressions at the recorded sites, and emits a
//! top-of-file preamble that registers the map in a global registry. The
//! emitted counters and metadata follow the Istanbul coverage format.

pub mod ast;
pub mod counter;
pub mod cov_map;
pub mod hashing;
pub mod hint;
pub mod json;
pub mod laws;
pub mod list;
pub mod preamble;
pub mod program;
pub mod range;
pub mod transform;

use vstd::prelude::*;

verus! {

} // verus!
