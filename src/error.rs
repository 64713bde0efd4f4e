//! Errors found while composing a scenario.
use vstd::prelude::*;

verus! {

/// What went wrong: a line that breaks the grammar, an `INCLUDE` that
/// cannot be followed, or a scenario file that cannot be read.
#[derive(PartialEq, Eq, Structural, Clone, Copy, Debug)]
pub enum ErrorKind {
    Syntax,
    Include,
    Io,
}

/// A composition error with its provenance: the index of the file in the
/// scenario's file table and the line (0 where the whole file is meant).
#[derive(Debug)]
pub struct ScenarioError {
    pub kind: ErrorKind,
    pub file: usize,
    pub line: u32,
    pub message: String,
}

pub struct ErrorView {
    pub kind: ErrorKind,
    pub file: usize,
    pub line: u32,
    pub message: Seq<char>,
}

impl View for ScenarioError {
    type V = ErrorView;

    open spec fn view(&self) -> ErrorView {
        ErrorView { kind: self.kind, file: self.file, line: self.line, message: self.message@ }
    }
}

impl ScenarioError {
    pub fn new(kind: ErrorKind, file: usize, line: u32, message: String) -> (r: ScenarioError)
        ensures
            r@ == (ErrorView { kind, file, line, message: message@ }),
    {
        ScenarioError { kind, file, line, message }
    }

    /// A copy of this error.
    pub fn duplicate(&self) -> (r: ScenarioError)
        ensures
            r@ == self@,
    {
        ScenarioError { kind: self.kind, file: self.file, line: self.line, message: self.message.clone() }
    }
}

} // verus!
