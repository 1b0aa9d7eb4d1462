//! The failure classes of the engine.
//!
//! Fatal, invariant-violation style failures abort a whole operation: the
//! input is assumed well formed after parsing, and a violation signals a
//! logic defect upstream.  Lookups that may legitimately miss return an
//! `Option` instead and never produce one of these.

use vstd::prelude::*;

verus! {

/// One fatal failure of a tree operation.
#[derive(Debug, Clone, PartialEq, Eq)]
pub enum Error {
    /// A construct reserved as an unimplemented extension point was reached:
    /// a nested item in statement position, a trait carrying a restriction
    /// clause, or a use list inside a walked module.
    Unsupported,
    /// A path operation needed a segment that is not there.
    EmptyPath,
    /// The final segment does not carry the expected kind of arguments.
    UnexpectedArguments,
    /// The two generic-argument kinds were mixed on one path segment.
    MixedArguments,
    /// The declaration kind has no defined identity.
    NoIdentity,
    /// A member function stood where a freestanding one was expected.
    NotFreestanding,
    /// An implementation block matched no declaration in its module.
    UnmatchedImplementation,
    /// A statement stood where an expression was expected.
    NotAnExpression,
    /// An expression stood where a statement was expected.
    NotAStatement,
    /// A method chain was too short or began with a chained link.
    InvalidChain,
}

impl Error {
    /// A short text for reporting the failure.
    pub fn describe(&self) -> &'static str {
        match self {
            Error::Unsupported => "unsupported construct",
            Error::EmptyPath => "empty path",
            Error::UnexpectedArguments => "unexpected arguments type",
            Error::MixedArguments => "mixed generic-argument kinds on one segment",
            Error::NoIdentity => "declaration kind has no identity",
            Error::NotFreestanding => "not a freestanding function",
            Error::UnmatchedImplementation => "implementation block matches no declaration",
            Error::NotAnExpression => "statement is not an expression",
            Error::NotAStatement => "expression is not a statement",
            Error::InvalidChain => "method chain is malformed",
        }
    }
}

} // verus!
