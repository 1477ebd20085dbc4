//! Which bodies stand in the sky of a planet.

use crate::model::planet::Planet;
use crate::model::planet::PlanetData;
use vstd::prelude::*;

verus! {

/// Whether two records are of one planet.
pub open spec fn is_same_planet(a: PlanetData, b: PlanetData) -> bool {
    a.name@ == b.name@ && a.semi_major_axis == b.semi_major_axis && a.id == b.id
}

/// Whether `planet` is drawn in the sky of `selected_planet`: every planet
/// is, but the one that the observer stands on.
pub fn is_in_sky_of(planet: &Planet, selected_planet: &Planet) -> (drawn: bool)
    ensures
        drawn == !is_same_planet(planet.data, selected_planet.data),
{
    !(planet.data.name == selected_planet.data.name && planet.data.semi_major_axis
        == selected_planet.data.semi_major_axis && planet.data.id == selected_planet.data.id)
}

} // verus!
