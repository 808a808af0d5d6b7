//! The layout context the flow engine hands into measurement and splitting:
//! the shared storage of shaped text runs.  A text box references its run by
//! index into this storage, so run identity is index equality and split boxes
//! share the run without copying its contents.

use crate::text_run::TextRun;
use vstd::prelude::*;

verus! {

/// Shared, read-only state of one layout pass.
pub struct LayoutContext {
    pub runs: Vec<TextRun>,
}

impl LayoutContext {
    /// The run a text box references.
    pub fn run(&self, index: usize) -> (r: &TextRun)
        requires
            index < self.runs@.len(),
        ensures
            r == self.runs@[index as int],
    {
        &self.runs[index]
    }
}

} // verus!
