//! Source positions. A `SourceRange` is the line/column rectangle that a
//! syntax node occupies: lines are 1-based, columns 0-based.

use vstd::prelude::*;

verus! {

/// A region of source text. `start` must not lie after `end`.
#[derive(Clone, Copy, PartialEq, Eq, Structural, Debug)]
pub struct SourceRange {
    pub start_line: u32,
    pub start_col: u32,
    pub end_line: u32,
    pub end_col: u32,
}

impl SourceRange {
    /// Well-formedness: lines are 1-based and the range is ordered.
    pub open spec fn wf(self) -> bool {
        &&& 1 <= self.start_line
        &&& (self.start_line < self.end_line
            || (self.start_line == self.end_line && self.start_col <= self.end_col))
    }

    /// Number of source lines the range spans, per the coverage format.
    pub open spec fn spec_line_count(self) -> int {
        self.end_line - self.start_line + 1
    }

    /// Builds an ordered range.
    pub fn new(start_line: u32, start_col: u32, end_line: u32, end_col: u32) -> (r: SourceRange)
        requires
            1 <= start_line,
            start_line < end_line || (start_line == end_line && start_col <= end_col),
        ensures
            r == (SourceRange { start_line, start_col, end_line, end_col }),
            r.wf(),
    {
        SourceRange { start_line, start_col, end_line, end_col }
    }

    /// `endLine - startLine + 1`; defined because the range is ordered.
    pub fn line_count(&self) -> (n: u32)
        requires
            self.wf(),
        ensures
            n == self.spec_line_count(),
    {
        self.end_line - self.start_line + 1
    }
}

} // verus!
