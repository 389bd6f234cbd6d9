//! Outcomes of an interactive selection that ended without a choice.

use vstd::prelude::*;

verus! {

/// The kind of an [`InteractiveError`], without its payload.
#[derive(Debug, PartialEq, Eq, Structural, Clone, Copy)]
pub enum InteractiveErrorKind {
    Skip,
    Escape,
    Other,
}

/// Why an interactive selection produced no choice.
#[derive(Debug)]
pub enum InteractiveError {
    /// The user asked to skip the current item.
    Skip(),
    /// The user left the selection.
    Escape(),
    /// Any other key, described by the payload.
    Other(String),
}

impl InteractiveError {
    /// The kind of this error.
    pub open spec fn spec_kind(&self) -> InteractiveErrorKind {
        match self {
            InteractiveError::Skip() => InteractiveErrorKind::Skip,
            InteractiveError::Escape() => InteractiveErrorKind::Escape,
            InteractiveError::Other(_) => InteractiveErrorKind::Other,
        }
    }

    /// Returns the kind of this error, dropping the payload of `Other`.
    #[verifier::when_used_as_spec(spec_kind)]
    pub fn kind(&self) -> (k: InteractiveErrorKind)
        ensures
            k == self.spec_kind(),
    {
        match self {
            InteractiveError::Skip() => InteractiveErrorKind::Skip,
            InteractiveError::Escape() => InteractiveErrorKind::Escape,
            InteractiveError::Other(_) => InteractiveErrorKind::Other,
        }
    }
}

} // verus!
