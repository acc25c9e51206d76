//! The resolved command-line options the engine's callers hand in.

use vstd::prelude::*;

verus! {

/// What the process was asked to do: where the ROM lies, whether to only
/// disassemble it, an optional initial breakpoint, and verbose tracing.
#[derive(Debug)]
pub struct Args {
    pub breakpoint: Option<u16>,
    pub disassemble: bool,
    pub filename: String,
    pub verbose: bool,
}

} // verus!
