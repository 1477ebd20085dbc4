//! Stars.

use crate::model::part::BodyType;
use crate::model::part::PartOfCelestialSystem;
use crate::model::ranking::Ranking;
use vstd::prelude::*;

verus! {

/// How the life of a star ends.
#[derive(Debug, Clone, Copy, PartialEq, Eq, Structural)]
pub enum StarFate {
    WhiteDwarf,
    TypeIISupernova,
}

/// The record of a star whose physical description is known.
#[derive(Debug, PartialEq, Eq)]
pub struct StarData {
    pub name: String,
    pub constellation: Option<String>,
    pub fate: StarFate,
    /// The rank of the time that the star has left to live, counted from the
    /// epoch. `None` where the age of the star is not known.
    pub time_until_death: Option<i64>,
    pub id: u64,
}

impl Clone for StarData {
    fn clone(&self) -> (copy: Self)
        ensures
            copy == *self,
    {
        let constellation = match &self.constellation {
            Some(constellation) => Some(constellation.clone()),
            None => None,
        };
        StarData {
            name: self.name.clone(),
            constellation,
            fate: self.fate,
            time_until_death: self.time_until_death,
            id: self.id,
        }
    }
}

impl StarData {
    /// Whether this is the star without a name, whose every quantity is
    /// zero.
    pub open spec fn is_blank(&self) -> bool {
        &&& self.name@ == Seq::<char>::empty()
        &&& self.constellation.is_none()
        &&& self.fate == StarFate::WhiteDwarf
        &&& self.time_until_death.is_none()
        &&& self.id == 0
    }

    /// The star without a name, whose every quantity is zero.
    pub fn blank() -> (star: Self)
        ensures
            star.is_blank(),
    {
        StarData {
            name: String::new(),
            constellation: None,
            fate: StarFate::WhiteDwarf,
            time_until_death: None,
            id: 0,
        }
    }

    pub fn get_name(&self) -> (name: &String)
        ensures
            *name == self.name,
    {
        &self.name
    }

    pub fn get_fate(&self) -> (fate: StarFate)
        ensures
            fate == self.fate,
    {
        self.fate
    }
}

/// The record of a star as it is seen in the sky.
#[derive(Debug, PartialEq, Eq)]
pub struct StarAppearance {
    pub name: String,
    /// The rank of the star's apparent brightness.
    pub illuminance: i64,
    pub id: u64,
}

impl Clone for StarAppearance {
    fn clone(&self) -> (copy: Self)
        ensures
            copy == *self,
    {
        StarAppearance { name: self.name.clone(), illuminance: self.illuminance, id: self.id }
    }
}

impl StarAppearance {
    /// Whether this is what the blank star looks like.
    pub open spec fn is_blank(&self) -> bool {
        &&& self.name@ == Seq::<char>::empty()
        &&& self.illuminance == 0
        &&& self.id == 0
    }

    /// What the blank star looks like.
    pub fn blank() -> (appearance: Self)
        ensures
            appearance.is_blank(),
    {
        StarAppearance { name: String::new(), illuminance: 0, id: 0 }
    }

    pub fn get_name(&self) -> (name: &String)
        ensures
            *name == self.name,
    {
        &self.name
    }

    pub fn get_illuminance(&self) -> (illuminance: i64)
        ensures
            illuminance == self.illuminance,
    {
        self.illuminance
    }
}

/// A star of the sky: what it looks like and, where that is known, what it is.
#[derive(Debug, PartialEq, Eq)]
pub struct DistantStar {
    pub data: Option<StarData>,
    pub appearance: StarAppearance,
}

impl Clone for DistantStar {
    fn clone(&self) -> (copy: Self)
        ensures
            copy == *self,
    {
        let data = match &self.data {
            Some(data) => Some(data.clone()),
            None => None,
        };
        DistantStar { data, appearance: self.appearance.clone() }
    }
}

/// Stars in the order of their brightness, the brightest first.
pub struct ByBrightness;

impl Ranking<DistantStar> for ByBrightness {
    open spec fn rank(item: DistantStar) -> int {
        -(item.appearance.illuminance as int)
    }

    fn precedes(a: &DistantStar, b: &DistantStar) -> (r: bool) {
        b.appearance.illuminance < a.appearance.illuminance
    }
}

/// A star as a celestial system hands it out. The central body has no index;
/// a star of the sky has its place in the list of the distant stars.
#[derive(Debug, PartialEq, Eq)]
pub struct Star {
    pub data: Option<StarData>,
    pub appearance: StarAppearance,
    pub index: Option<usize>,
}

impl Clone for Star {
    fn clone(&self) -> (copy: Self)
        ensures
            copy == *self,
    {
        let data = match &self.data {
            Some(data) => Some(data.clone()),
            None => None,
        };
        Star { data, appearance: self.appearance.clone(), index: self.index }
    }
}

impl Star {
    pub fn from_data(data: StarData, appearance: StarAppearance, index: Option<usize>) -> (star:
        Self)
        ensures
            star == (Star { data: Some(data), appearance, index }),
    {
        Star { data: Some(data), appearance, index }
    }

    pub fn from_appearance(appearance: StarAppearance, index: Option<usize>) -> (star: Self)
        ensures
            star == (Star { data: None, appearance, index }),
    {
        Star { data: None, appearance, index }
    }

    pub fn get_data(&self) -> (data: Option<&StarData>)
        ensures
            data.is_some() == self.data.is_some(),
            data.is_some() ==> *data.unwrap() == self.data.unwrap(),
    {
        self.data.as_ref()
    }

    pub fn get_appearance(&self) -> (appearance: &StarAppearance)
        ensures
            *appearance == self.appearance,
    {
        &self.appearance
    }

    /// Whether the star is known to end in a supernova.
    pub open spec fn is_supernova(&self) -> bool {
        self.data.is_some() && self.data.unwrap().fate == StarFate::TypeIISupernova
    }

    /// Whether the star is known to end in a supernova.
    pub fn ends_in_supernova(&self) -> (yes: bool)
        ensures
            yes == self.is_supernova(),
    {
        match &self.data {
            Some(data) => data.fate == StarFate::TypeIISupernova,
            None => false,
        }
    }
}

impl PartOfCelestialSystem for Star {
    open spec fn part_index(&self) -> Option<usize> {
        self.index
    }

    open spec fn part_type(&self) -> BodyType {
        BodyType::Star
    }

    fn get_index(&self) -> (index: Option<usize>) {
        self.index
    }

    fn get_body_type(&self) -> (body_type: BodyType) {
        BodyType::Star
    }
}

/// Stars in the order of their deaths, the next to die first. A star whose
/// time of death is not known comes before those whose time is known.
pub struct ByTimeUntilDeath;

impl Ranking<Star> for ByTimeUntilDeath {
    open spec fn rank(item: Star) -> int {
        match item.data {
            Some(data) => match data.time_until_death {
                Some(time) => time as int,
                None => i64::MIN - 1,
            },
            None => i64::MIN - 1,
        }
    }

    fn precedes(a: &Star, b: &Star) -> (r: bool) {
        match Self::time_left(b) {
            None => false,
            Some(time_b) => match Self::time_left(a) {
                None => true,
                Some(time_a) => time_a < time_b,
            },
        }
    }
}

impl ByTimeUntilDeath {
    fn time_left(star: &Star) -> (time: Option<i64>)
        ensures
            time == match star.data {
                Some(data) => data.time_until_death,
                None => None,
            },
    {
        match &star.data {
            Some(data) => data.time_until_death,
            None => None,
        }
    }
}

/// Where the stars of a sky are taken from.
#[derive(Debug, Clone, Copy, PartialEq, Eq, Structural)]
pub enum StarDataType {
    Hardcoded,
    GaiaMeasurementSmall,
    GaiaMeasurementLarge,
    GaiaSimulation,
}

} // verus!
