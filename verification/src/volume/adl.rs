//! Accumulation/Distribution Line: the running sum of money-flow volume.
//!
//! Output column: `"ADL"`.

use vstd::prelude::*;

verus! {

/// The Accumulation/Distribution Line; it has no parameters.
#[derive(Debug, Clone, Default)]
pub struct Adl;

impl Adl {
    pub fn new() -> (r: Self)
        ensures
            r == Adl,
    {
        Adl
    }

    /// Short canonical name.
    pub fn name(&self) -> (r: &'static str)
        ensures
            r@ == "ADL"@,
    {
        "ADL"
    }

    /// Bars needed: one.
    pub fn required_len(&self) -> (r: usize)
        ensures
            r == 1,
    {
        1
    }
}

} // verus!
