//! The top-level report: one rendered failure text, carried to the caller
//! for display.

use vstd::prelude::*;

verus! {

/// A failure of any step, reduced to its display text.
pub struct AnyReport {
    /// The rendered failure text.
    pub debug: String,
}

impl AnyReport {
    /// Wraps a rendered failure text.
    pub fn new(debug: String) -> (r: AnyReport)
        ensures
            r.debug == debug,
    {
        AnyReport { debug }
    }

    /// The rendered failure text.
    pub fn message(&self) -> (r: &String)
        ensures
            r == self.debug,
    {
        &self.debug
    }
}

} // verus!
