//! What the bodies of a celestial system have in common.

use vstd::prelude::*;

verus! {

/// The kind of a body.
#[derive(Debug, Clone, Copy, PartialEq, Eq, Structural)]
pub enum BodyType {
    Planet,
    Star,
}

/// A body that a celestial system hands out.
pub trait PartOfCelestialSystem {
    /// The place of the body in the list it was taken from, if it has one.
    spec fn part_index(&self) -> Option<usize>;

    /// The kind of the body.
    spec fn part_type(&self) -> BodyType;

    fn get_index(&self) -> (index: Option<usize>)
        ensures
            index == self.part_index(),
    ;

    fn get_body_type(&self) -> (body_type: BodyType)
        ensures
            body_type == self.part_type(),
    ;
}

} // verus!
