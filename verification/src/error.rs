//! Error shapes: the fatal entry-source parse error, and the per-entry
//! diagnostic that a failed pipeline stage leaves behind.

use vstd::prelude::*;

verus! {

/// The pipeline stage in which an entry failed.
#[derive(Clone, Copy, Debug, PartialEq, Eq, Structural)]
pub enum Stage {
    Resolution,
    Hashing,
    Rendering,
}

/// Why one entry did not make it into the document: the entry's identity —
/// the raw owner and repository as listed, not the normalized name — the
/// stage that failed, and the underlying error text.  Diagnostics are
/// reported on a channel of their own and never enter the document.
pub struct Diagnostic {
    pub owner: String,
    pub repo: String,
    pub stage: Stage,
    pub message: String,
}

/// The mathematical value of a [`Diagnostic`].
pub struct DiagnosticV {
    pub owner: Seq<char>,
    pub repo: Seq<char>,
    pub stage: Stage,
    pub message: Seq<char>,
}

impl View for Diagnostic {
    type V = DiagnosticV;

    open spec fn view(&self) -> DiagnosticV {
        DiagnosticV {
            owner: self.owner@,
            repo: self.repo@,
            stage: self.stage,
            message: self.message@,
        }
    }
}

impl Diagnostic {
    /// An exact copy, made field by field so the copy's value is known.
    pub fn duplicate(&self) -> (r: Diagnostic)
        ensures
            r@ == self@,
    {
        Diagnostic {
            owner: self.owner.clone(),
            repo: self.repo.clone(),
            stage: self.stage,
            message: self.message.clone(),
        }
    }
}

/// A malformed record in the entry source.  This is fatal to the whole run:
/// the entry set cannot be determined.  `line` counts from 1.
#[derive(Clone, Copy, Debug, PartialEq, Eq, Structural)]
pub struct SourceParseError {
    pub line: usize,
}

} // verus!
