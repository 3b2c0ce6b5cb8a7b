//! Validation failures.
//!
//! Every failure the descriptor builder can raise, each carrying the source
//! position it is attributed to.  Synthesis itself cannot fail: validation is
//! complete once a descriptor has been built.

use vstd::prelude::*;
use crate::pos::Pos;

verus! {

/// The kind of a validation failure.
#[derive(Clone, Copy, Debug, PartialEq, Eq, Structural)]
pub enum ErrorKind {
    /// The input is a union type, which has no single-variant selection
    /// semantics.
    UnsupportedShape,
    /// A tagged union carries no variant marked for selection.
    NoVariantSelected,
    /// More than one variant is marked for selection.
    MultipleVariantsSelected,
    /// A malformed, duplicate, or unrecognized option inside a recognized
    /// annotation fragment.
    InvalidOptionSyntax,
    /// A zero-argument factory was requested while the resolved parameter
    /// list is non-empty.
    DefaultRequiresNoArgs,
}

/// A validation failure: its kind and the source region it is attributed to.
#[derive(Clone, Copy, Debug, PartialEq, Eq, Structural)]
pub struct Error {
    /// What went wrong.
    pub kind: ErrorKind,
    /// The smallest enclosing source region of the offending input.
    pub pos: Pos,
}

impl Error {
    /// A failure of kind `kind` attributed to `pos`.
    pub fn new(kind: ErrorKind, pos: Pos) -> (r: Error)
        ensures
            r == (Error { kind, pos }),
    {
        Error { kind, pos }
    }
}

} // verus!
