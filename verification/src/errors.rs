//! The failure taxonomy of a generation run.
//!
//! Every error is fatal at the point it occurs: generation is a
//! deterministic batch transform, so any failure signals a programming or
//! configuration mistake, never a transient condition.

use vstd::prelude::*;
use crate::span::LineColumn;

verus! {

/// Why a generation run aborted.  Each variant carries the data a caller
/// needs to report the mistake: the offending key and declaration for a
/// missing generator, the variable name and its source position for an
/// unresolved reference.
#[derive(Clone, Debug, PartialEq, Eq)]
pub enum BindgenError {
    /// A marker attribute carried something other than a single identifier.
    ParseFailure { decl: String },
    /// A marker named a key with no generator registered for the
    /// declaration's kind.
    GeneratorNotFound { key: String, decl: String },
    /// A template referenced a variable absent from the binding context.
    UnresolvedVariable { name: String, position: LineColumn },
    /// A marker sigil in a template was not followed by an identifier.
    MalformedVariableReference { position: LineColumn },
}

/// The mathematical shape of a [`BindgenError`].
pub enum ErrView {
    ParseFailure { decl: Seq<char> },
    GeneratorNotFound { key: Seq<char>, decl: Seq<char> },
    UnresolvedVariable { name: Seq<char>, position: LineColumn },
    MalformedVariableReference { position: LineColumn },
}

impl View for BindgenError {
    type V = ErrView;

    open spec fn view(&self) -> ErrView {
        match self {
            BindgenError::ParseFailure { decl } => ErrView::ParseFailure { decl: decl@ },
            BindgenError::GeneratorNotFound { key, decl } => ErrView::GeneratorNotFound {
                key: key@,
                decl: decl@,
            },
            BindgenError::UnresolvedVariable { name, position } => ErrView::UnresolvedVariable {
                name: name@,
                position: *position,
            },
            BindgenError::MalformedVariableReference { position } => (
            ErrView::MalformedVariableReference { position: *position }),
        }
    }
}

} // verus!
