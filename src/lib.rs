//! Input generators for a coverage-guided fuzzer: random byte buffers and
//! random printable-character buffers, drawn from a pluggable source of
//! randomness, plus a deterministic placeholder mode.
use vstd::prelude::*;

pub mod inputs;
pub mod rands;
pub mod generators;

verus! {

} // verus!
