use vstd::prelude::*;

verus! {

/// A source region, for diagnostics only. Lines and columns are 1-based;
/// a point span has its start equal to its end.
#[derive(Debug, Clone, PartialEq, Eq)]
pub struct SourceSpan {
    pub file: String,
    pub start_line: u32,
    pub start_column: u32,
    pub end_line: u32,
    pub end_column: u32,
}

impl SourceSpan {
    pub open spec fn is_point_spec(&self) -> bool {
        self.start_line == self.end_line && self.start_column == self.end_column
    }

    pub fn new(file: String, start_line: u32, start_column: u32, end_line: u32, end_column: u32) -> (r: Self)
        ensures
            r.file@ == file@,
            r.start_line == start_line,
            r.start_column == start_column,
            r.end_line == end_line,
            r.end_column == end_column,
    {
        SourceSpan { file, start_line, start_column, end_line, end_column }
    }

    pub fn point(file: String, line: u32, column: u32) -> (r: Self)
        ensures
            r.file@ == file@,
            r.start_line == line,
            r.start_column == column,
            r.end_line == line,
            r.end_column == column,
            r.is_point_spec(),
    {
        Self::new(file, line, column, line, column)
    }

    /// Whether the span covers a single position.
    pub fn is_point(&self) -> (r: bool)
        ensures
            r == self.is_point_spec(),
    {
        self.start_line == self.end_line && self.start_column == self.end_column
    }
}

} // verus!
