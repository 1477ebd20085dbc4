//! What the top view remembers of its drawings.

use vstd::prelude::*;

verus! {

/// The top view draws the background, the bodies and the scale apart and
/// keeps each drawing until it is stale.
#[derive(Debug, Clone, Copy, PartialEq, Eq, Structural)]
pub struct TopViewState {
    /// Whether the drawing of the bodies has to be made again.
    pub bodies_stale: bool,
    /// Whether the drawing of the scale has to be made again.
    pub scale_stale: bool,
}

impl TopViewState {
    pub fn new() -> (state: Self)
        ensures
            !state.bodies_stale,
            !state.scale_stale,
    {
        TopViewState { bodies_stale: false, scale_stale: false }
    }

    /// Asks for a new drawing of the bodies and of the scale.
    pub fn redraw(&mut self)
        ensures
            final(self).bodies_stale,
            final(self).scale_stale,
    {
        self.bodies_stale = true;
        self.scale_stale = true;
    }

    /// Notes that the bodies and the scale have been drawn as they are now.
    pub fn drawn(&mut self)
        ensures
            !final(self).bodies_stale,
            !final(self).scale_stale,
    {
        self.bodies_stale = false;
        self.scale_stale = false;
    }
}

} // verus!
