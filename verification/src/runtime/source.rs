//! Positions in the source of a script.

use vstd::prelude::*;
use crate::symbol::Symbol;

verus! {

/// A place in a source file: the file, and the line and column in it.
#[derive(Debug, Clone, Copy, PartialEq, Eq, Structural, Hash, PartialOrd, Ord)]
pub struct SourcePos {
    /// The symbol of the file's path.
    pub path: Symbol,
    /// The line, from 1; 0 in the position of a whole file.
    pub line: u32,
    /// The column, from 1; 0 in the position of a whole file.
    pub column: u32,
}

impl SourcePos {
    /// The position that stands for the whole file at `path`.
    pub open spec fn whole(path: Symbol) -> SourcePos {
        SourcePos { path, line: 0, column: 0 }
    }

    /// The position that stands for the whole file at `path`.
    pub fn file(path: Symbol) -> (pos: SourcePos)
        ensures
            pos == SourcePos::whole(path),
    {
        SourcePos { path, line: 0, column: 0 }
    }

    /// The position of `line` and `column` in the file at `path`.
    pub fn new(path: Symbol, line: u32, column: u32) -> (pos: SourcePos)
        ensures
            pos == (SourcePos { path, line, column }),
    {
        SourcePos { path, line, column }
    }

    /// Whether the position stands for a whole file.
    pub fn is_file(&self) -> (whole: bool)
        ensures
            whole == (*self == SourcePos::whole(self.path)),
    {
        self.line == 0 && self.column == 0
    }
}

} // verus!
