//! Planets.

use crate::model::part::BodyType;
use crate::model::part::PartOfCelestialSystem;
use crate::model::ranking::Ranking;
use vstd::prelude::*;

verus! {

/// The record of a planet.
#[derive(Debug, PartialEq, Eq)]
pub struct PlanetData {
    pub name: String,
    /// The rank of the semi-major axis of the planet's orbit.
    pub semi_major_axis: i64,
    pub id: u64,
}

impl Clone for PlanetData {
    fn clone(&self) -> (copy: Self)
        ensures
            copy == *self,
    {
        PlanetData {
            name: self.name.clone(),
            semi_major_axis: self.semi_major_axis,
            id: self.id,
        }
    }
}

impl PlanetData {
    pub fn new(name: String, semi_major_axis: i64, id: u64) -> (planet: Self)
        ensures
            planet == (PlanetData { name, semi_major_axis, id }),
    {
        PlanetData { name, semi_major_axis, id }
    }

    /// Whether this is the planet without a name, whose every quantity is
    /// zero.
    pub open spec fn is_blank(&self) -> bool {
        &&& self.name@ == Seq::<char>::empty()
        &&& self.semi_major_axis == 0
        &&& self.id == 0
    }

    /// The planet without a name, whose every quantity is zero.
    pub fn blank() -> (planet: Self)
        ensures
            planet.is_blank(),
    {
        PlanetData { name: String::new(), semi_major_axis: 0, id: 0 }
    }

    pub fn get_name(&self) -> (name: &String)
        ensures
            *name == self.name,
    {
        &self.name
    }
}

/// Planets in the order of their orbits, the innermost first.
pub struct BySemiMajorAxis;

impl Ranking<PlanetData> for BySemiMajorAxis {
    open spec fn rank(item: PlanetData) -> int {
        item.semi_major_axis as int
    }

    fn precedes(a: &PlanetData, b: &PlanetData) -> (r: bool) {
        a.semi_major_axis < b.semi_major_axis
    }
}

/// A planet as a celestial system hands it out.
#[derive(Debug, PartialEq, Eq)]
pub struct Planet {
    pub data: PlanetData,
    /// The place of the planet in the list of the system's planets.
    pub index: Option<usize>,
}

impl Planet {
    pub fn new(data: PlanetData, index: Option<usize>) -> (planet: Self)
        ensures
            planet == (Planet { data, index }),
    {
        Planet { data, index }
    }

    pub fn get_data(&self) -> (data: &PlanetData)
        ensures
            *data == self.data,
    {
        &self.data
    }
}

impl PartOfCelestialSystem for Planet {
    open spec fn part_index(&self) -> Option<usize> {
        self.index
    }

    open spec fn part_type(&self) -> BodyType {
        BodyType::Planet
    }

    fn get_index(&self) -> (index: Option<usize>) {
        self.index
    }

    fn get_body_type(&self) -> (body_type: BodyType) {
        BodyType::Planet
    }
}

} // verus!
