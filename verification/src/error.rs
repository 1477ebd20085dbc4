//! What can go wrong.

use vstd::prelude::*;

verus! {

/// An error, as it is shown to the user.
#[derive(Debug, PartialEq, Eq)]
pub enum ElenathError {
    /// No celestial system is loaded.
    NoCelestialSystem,
    /// The celestial system holds no body at the place that was asked for.
    BodyNotFound,
    /// Any other failure, in words.
    Generic(String),
}

impl Clone for ElenathError {
    fn clone(&self) -> (copy: Self)
        ensures
            copy == *self,
    {
        match self {
            ElenathError::NoCelestialSystem => ElenathError::NoCelestialSystem,
            ElenathError::BodyNotFound => ElenathError::BodyNotFound,
            ElenathError::Generic(text) => ElenathError::Generic(text.clone()),
        }
    }
}

} // verus!
