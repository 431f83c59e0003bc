//! The error taxonomy of the map core. The surrounding system (window, GPU,
//! image and JSON decoding) has failure modes of its own; those belong to the
//! collaborators that produce them, not to this crate.

use vstd::prelude::*;

verus! {

/// A failure this core can produce.
#[derive(Clone, Copy, PartialEq, Eq, Structural, Debug)]
pub enum GameError {
    /// The map dimensions do not match the number of tiles provided.
    InvalidMap,
}

impl GameError {
    /// A short human-readable description of the failure.
    pub fn description(&self) -> (r: &'static str)
        ensures
            r@ == "invalid map dimensions"@,
    {
        match *self {
            GameError::InvalidMap => "invalid map dimensions",
        }
    }
}

} // verus!
