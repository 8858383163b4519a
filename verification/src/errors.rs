//! The error a failed reprojection surfaces to the caller.

use vstd::prelude::*;

verus! {

/// A reprojection call that the external library did not complete.
///
/// The single variant carries the diagnostic text the library last
/// recorded, captured immediately after the failing call and surfaced
/// verbatim: this layer never retries and never interprets the text.
#[derive(Debug, Clone, PartialEq, Eq)]
pub enum GdalError {
    ReprojectionFailed(String),
}

impl GdalError {
    /// The diagnostic text the external library reported.
    pub fn diagnostic(&self) -> (m: &String)
        ensures
            self matches GdalError::ReprojectionFailed(t) && m == t,
    {
        match self {
            GdalError::ReprojectionFailed(t) => t,
        }
    }
}

} // verus!
