//! What the surface view remembers of its drawings.

use vstd::prelude::*;

verus! {

/// The surface view draws the background and the bodies apart and keeps each
/// drawing until it is stale.
#[derive(Debug, Clone, Copy, PartialEq, Eq, Structural)]
pub struct SurfaceViewState {
    /// Whether the drawing of the bodies has to be made again.
    pub bodies_stale: bool,
}

impl SurfaceViewState {
    pub fn new() -> (state: Self)
        ensures
            !state.bodies_stale,
    {
        SurfaceViewState { bodies_stale: false }
    }

    /// Asks for a new drawing of the bodies.
    pub fn redraw(&mut self)
        ensures
            final(self).bodies_stale,
    {
        self.bodies_stale = true;
    }

    /// Notes that the bodies have been drawn as they are now.
    pub fn drawn(&mut self)
        ensures
            !final(self).bodies_stale,
    {
        self.bodies_stale = false;
    }
}

} // verus!
