//! Error taxonomy of the estimator's configuration phase.
//!
//! The arithmetic itself never fails; only the two configuration inputs can:
//! a custom coefficient string that does not parse, and a project-type name
//! that the catalog does not know.

use vstd::prelude::*;

verus! {

/// What can go wrong before an estimate is computed.
#[derive(Clone, Copy, Debug, PartialEq, Eq, Structural)]
pub enum CocomoError {
    /// A custom coefficient string did not split into the expected number of
    /// tokens, or a token is not a decimal number the library can hold.
    MalformedCoefficients,
    /// A project-type name given as free text matches no catalog entry.
    UnknownProjectType,
}

impl CocomoError {
    /// A short description of the error, for reports and logs.
    pub fn message(&self) -> (r: &'static str)
        ensures
            *self == CocomoError::MalformedCoefficients ==> r@ == "malformed custom coefficients"@,
            *self == CocomoError::UnknownProjectType ==> r@ == "unknown project type"@,
    {
        match self {
            CocomoError::MalformedCoefficients => "malformed custom coefficients",
            CocomoError::UnknownProjectType => "unknown project type",
        }
    }
}

} // verus!
