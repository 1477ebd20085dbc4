//! The celestial system: a central body, its planets and the stars of its sky.

use crate::error::ElenathError;
use crate::model::planet::BySemiMajorAxis;
use crate::model::planet::Planet;
use crate::model::planet::PlanetData;
use crate::model::ranking::is_sorted;
use crate::model::ranking::stable_sort;
use crate::model::ranking::stable_sorted;
use crate::model::star::ByBrightness;
use crate::model::star::ByTimeUntilDeath;
use crate::model::star::DistantStar;
use crate::model::star::Star;
use crate::model::star::StarAppearance;
use crate::model::star::StarData;
use vstd::prelude::*;

verus! {

/// One central body, the planets around it and the distant stars of its sky,
/// at a time that is counted from the epoch.
///
/// Whenever planets are added or replaced, all planets are put in the order
/// of their orbits. Whenever stars are added or replaced, all distant stars
/// are put in the order of their brightness.
#[derive(Debug, PartialEq, Eq)]
pub struct CelestialSystem {
    central_body: StarData,
    planets: Vec<PlanetData>,
    distant_stars: Vec<DistantStar>,
    time_since_epoch: i64,
}

/// The planets of `planets` as a system hands them out: each with its place.
pub open spec fn indexed_planets(planets: Seq<PlanetData>) -> Seq<Planet> {
    Seq::new(planets.len(), |i: int| Planet { data: planets[i], index: Some(i as usize) })
}

/// The stars of `stars` as a system hands them out: each with its place.
pub open spec fn indexed_stars(stars: Seq<DistantStar>) -> Seq<Star> {
    Seq::new(
        stars.len(),
        |i: int| Star { data: stars[i].data, appearance: stars[i].appearance, index: Some(i as usize) },
    )
}

/// The stars of `stars` with the descriptions of `described`, in their order.
pub open spec fn described_stars(described: Seq<(StarData, StarAppearance)>) -> Seq<DistantStar> {
    Seq::new(
        described.len(),
        |i: int| DistantStar { data: Some(described[i].0), appearance: described[i].1 },
    )
}

/// Stars of which only the appearance is known, in the order of `seen`.
pub open spec fn seen_stars(seen: Seq<StarAppearance>) -> Seq<DistantStar> {
    Seq::new(seen.len(), |i: int| DistantStar { data: None, appearance: seen[i] })
}

/// The stars of `stars` that are known to end in a supernova, in their order.
pub open spec fn supernovae_among(stars: Seq<Star>) -> Seq<Star>
    decreases stars.len(),
{
    if stars.len() == 0 {
        Seq::empty()
    } else if stars.last().is_supernova() {
        supernovae_among(stars.drop_last()).push(stars.last())
    } else {
        supernovae_among(stars.drop_last())
    }
}

/// Whether `same` judges the appearances `a` and `b` to be those of one star.
pub open spec fn judged_same<F: Fn(&StarAppearance, &StarAppearance) -> bool>(
    same: F,
    a: StarAppearance,
    b: StarAppearance,
) -> bool {
    call_ensures(same, (&a, &b), true)
}

/// Whether `same` can be asked of any two appearances and answers each
/// question in one way only.
pub open spec fn is_judgement<F: Fn(&StarAppearance, &StarAppearance) -> bool>(same: F) -> bool {
    &&& forall|a: StarAppearance, b: StarAppearance| #[trigger] call_requires(same, (&a, &b))
    &&& forall|a: StarAppearance, b: StarAppearance|
        !(#[trigger] call_ensures(same, (&a, &b), true) && call_ensures(same, (&a, &b), false))
}

/// The place of the first appearance of `list` that `same` judges to be that
/// of `known`; the length of `list` where there is none.
pub open spec fn place_of_known<F: Fn(&StarAppearance, &StarAppearance) -> bool>(
    same: F,
    list: Seq<StarAppearance>,
    known: StarAppearance,
) -> int
    decreases list.len(),
{
    if list.len() == 0 {
        0
    } else if judged_same(same, list.first(), known) {
        0
    } else {
        1 + place_of_known(same, list.drop_first(), known)
    }
}

/// `list` without the first appearance that `same` judges to be that of
/// `known`.
pub open spec fn without_known<F: Fn(&StarAppearance, &StarAppearance) -> bool>(
    same: F,
    list: Seq<StarAppearance>,
    known: StarAppearance,
) -> Seq<StarAppearance> {
    let place = place_of_known(same, list, known);
    if place < list.len() {
        list.remove(place)
    } else {
        list
    }
}

/// `list` after the stars of `known` have been taken out of it in turn: for
/// each of them the first appearance that is left and that `same` judges to
/// be its own.
pub open spec fn without_all_known<F: Fn(&StarAppearance, &StarAppearance) -> bool>(
    same: F,
    list: Seq<StarAppearance>,
    known: Seq<StarAppearance>,
) -> Seq<StarAppearance>
    decreases known.len(),
{
    if known.len() == 0 {
        list
    } else {
        without_all_known(same, without_known(same, list, known.first()), known.drop_first())
    }
}

/// The appearances of `stars`, in their order.
pub open spec fn appearances_of(stars: Seq<DistantStar>) -> Seq<StarAppearance> {
    Seq::new(stars.len(), |i: int| stars[i].appearance)
}

/// Where no appearance before `place` is judged to be that of `known`, the
/// first that is stands at or after `place`.
proof fn lemma_place_of_known_skips<F: Fn(&StarAppearance, &StarAppearance) -> bool>(
    same: F,
    list: Seq<StarAppearance>,
    known: StarAppearance,
    place: int,
)
    requires
        0 <= place <= list.len(),
        forall|j: int| 0 <= j < place ==> !judged_same(same, #[trigger] list[j], known),
    ensures
        place_of_known(same, list, known) == place + place_of_known(
            same,
            list.subrange(place, list.len() as int),
            known,
        ),
    decreases place,
{
    if place == 0 {
        assert(list.subrange(0, list.len() as int) =~= list);
    } else {
        let rest = list.drop_first();
        assert(!judged_same(same, list[0], known));
        assert forall|j: int| 0 <= j < place - 1 implies !judged_same(
            same,
            #[trigger] rest[j],
            known,
        ) by {
            assert(rest[j] == list[j + 1]);
        }
        lemma_place_of_known_skips(same, rest, known, place - 1);
        assert(rest.subrange(place - 1, rest.len() as int) =~= list.subrange(
            place,
            list.len() as int,
        ));
    }
}

/// `planets` in the order of their orbits, the innermost first; planets of
/// one orbit in the order in which `planets` holds them.
pub open spec fn in_orbit_order(planets: Seq<PlanetData>) -> Seq<PlanetData> {
    stable_sorted::<PlanetData, BySemiMajorAxis>(planets)
}

/// `stars` in the order of their brightness, the brightest first; stars of
/// one brightness in the order in which `stars` holds them.
pub open spec fn in_brightness_order(stars: Seq<DistantStar>) -> Seq<DistantStar> {
    stable_sorted::<DistantStar, ByBrightness>(stars)
}

/// `stars` at a new time: a star whose description is known looks as
/// `appearances` says at its place, where that says anything; every other
/// star looks as before.
pub open spec fn reappeared(
    stars: Seq<DistantStar>,
    appearances: Seq<Option<StarAppearance>>,
) -> Seq<DistantStar> {
    Seq::new(
        stars.len(),
        |i: int|
            if stars[i].data.is_some() && i < appearances.len() && appearances[i].is_some() {
                DistantStar { data: stars[i].data, appearance: appearances[i].unwrap() }
            } else {
                stars[i]
            },
    )
}

/// Where a sky full of stars comes from, with the stars that were brought.
#[derive(Debug, PartialEq, Eq)]
pub enum StarSource {
    /// The stars that are known by heart.
    Hardcoded(Vec<(StarData, StarAppearance)>),
    /// The stars that are known by heart, and what a catalogue of
    /// measurements answered when it was asked for appearances.
    GaiaMeasurement {
        hardcoded: Vec<(StarData, StarAppearance)>,
        fetched: Result<Vec<StarAppearance>, ElenathError>,
    },
    /// What a catalogue of simulated stars answered.
    GaiaSimulation(Result<Vec<(StarData, StarAppearance)>, ElenathError>),
}

impl CelestialSystem {
    pub closed spec fn central_body(&self) -> StarData {
        self.central_body
    }

    pub closed spec fn planets(&self) -> Seq<PlanetData> {
        self.planets@
    }

    pub closed spec fn distant_stars(&self) -> Seq<DistantStar> {
        self.distant_stars@
    }

    pub closed spec fn time_since_epoch(&self) -> i64 {
        self.time_since_epoch
    }

    /// All stars of the system: the central body, seen as
    /// `central_body_appearance`, and then the distant stars.
    pub open spec fn stars(&self, central_body_appearance: StarAppearance) -> Seq<Star> {
        seq![
            Star {
                data: Some(self.central_body()),
                appearance: central_body_appearance,
                index: None,
            },
        ] + indexed_stars(self.distant_stars())
    }

    /// Whether `self` and `other` hold the same bodies at the same time.
    pub open spec fn same_as(&self, other: &Self) -> bool {
        &&& self.central_body() == other.central_body()
        &&& self.planets() == other.planets()
        &&& self.distant_stars() == other.distant_stars()
        &&& self.time_since_epoch() == other.time_since_epoch()
    }

    /// Whether `self` differs from `before` in nothing but its planets.
    pub open spec fn differs_in_planets_only(&self, before: &Self) -> bool {
        &&& self.central_body() == before.central_body()
        &&& self.distant_stars() == before.distant_stars()
        &&& self.time_since_epoch() == before.time_since_epoch()
    }

    /// Whether `self` differs from `before` in nothing but its stars.
    pub open spec fn differs_in_stars_only(&self, before: &Self) -> bool {
        &&& self.planets() == before.planets()
        &&& self.time_since_epoch() == before.time_since_epoch()
    }

    /// Whether `self` differs from `before` in nothing but its distant stars.
    pub open spec fn differs_in_distant_stars_only(&self, before: &Self) -> bool {
        &&& self.central_body() == before.central_body()
        &&& self.differs_in_stars_only(before)
    }

    /// A system of `central_body` alone, at the epoch.
    pub fn new(central_body: StarData) -> (system: Self)
        ensures
            system.central_body() == central_body,
            system.planets() == Seq::<PlanetData>::empty(),
            system.distant_stars() == Seq::<DistantStar>::empty(),
            system.time_since_epoch() == 0,
    {
        CelestialSystem {
            central_body,
            planets: Vec::new(),
            distant_stars: Vec::new(),
            time_since_epoch: 0,
        }
    }

    /// A system as a document holds it: the bodies stand in the order in
    /// which they are given.
    pub fn from_parts(
        central_body: StarData,
        planets: Vec<PlanetData>,
        distant_stars: Vec<DistantStar>,
        time_since_epoch: i64,
    ) -> (system: Self)
        ensures
            system.central_body() == central_body,
            system.planets() == planets@,
            system.distant_stars() == distant_stars@,
            system.time_since_epoch() == time_since_epoch,
    {
        CelestialSystem { central_body, planets, distant_stars, time_since_epoch }
    }

    /// The distant stars, in the order in which the sky holds them.
    pub fn get_distant_stars(&self) -> (stars: &Vec<DistantStar>)
        ensures
            stars@ == self.distant_stars(),
    {
        &self.distant_stars
    }

    /// A system of the blank star alone, at the epoch.
    pub fn empty() -> (system: Self)
        ensures
            system.central_body().is_blank(),
            system.planets() == Seq::<PlanetData>::empty(),
            system.distant_stars() == Seq::<DistantStar>::empty(),
            system.time_since_epoch() == 0,
    {
        CelestialSystem::new(StarData::blank())
    }

    /// Moves the system to another time. `appearances` says, place by place,
    /// what a distant star looks like at that time, where its look has
    /// changed. Only a star whose description is known changes its look. The
    /// order of the stars stays as it is.
    pub fn set_time_since_epoch(
        &mut self,
        time_since_epoch: i64,
        appearances: Vec<Option<StarAppearance>>,
    )
        ensures
            final(self).time_since_epoch() == time_since_epoch,
            final(self).distant_stars() == reappeared(old(self).distant_stars(), appearances@),
            final(self).central_body() == old(self).central_body(),
            final(self).planets() == old(self).planets(),
    {
        self.time_since_epoch = time_since_epoch;
        let mut i: usize = 0;
        while i < self.distant_stars.len()
            invariant
                i <= self.distant_stars@.len(),
                self.distant_stars@.len() == old(self).distant_stars@.len(),
                forall|j: int|
                    0 <= j < i ==> self.distant_stars@[j] == reappeared(
                        old(self).distant_stars@,
                        appearances@,
                    )[j],
                forall|j: int|
                    i <= j < self.distant_stars@.len() ==> self.distant_stars@[j] == old(
                        self,
                    ).distant_stars@[j],
                self.time_since_epoch == time_since_epoch,
                self.central_body == old(self).central_body,
                self.planets@ == old(self).planets@,
            decreases self.distant_stars.len() - i,
        {
            if i < appearances.len() && self.distant_stars[i].data.is_some() {
                if let Some(appearance) = &appearances[i] {
                    let star = DistantStar {
                        data: self.distant_stars[i].data.clone(),
                        appearance: appearance.clone(),
                    };
                    self.distant_stars.set(i, star);
                }
            }
            i += 1;
        }
        assert(self.distant_stars@ =~= reappeared(old(self).distant_stars@, appearances@));
    }

    pub fn get_time_since_epoch(&self) -> (time: i64)
        ensures
            time == self.time_since_epoch(),
    {
        self.time_since_epoch
    }

    /// The stars that are known to end in a supernova, the next to die
    /// first. The central body, seen as `central_body_appearance`, is among
    /// the stars that are looked at.
    pub fn get_supernovae(&self, central_body_appearance: StarAppearance) -> (supernovae: Vec<
        Star,
    >)
        ensures
            supernovae@ == stable_sorted::<Star, ByTimeUntilDeath>(
                supernovae_among(self.stars(central_body_appearance)),
            ),
            is_sorted::<Star, ByTimeUntilDeath>(supernovae@),
    {
        let stars = self.get_stars(central_body_appearance);
        let mut supernovae: Vec<Star> = Vec::new();
        let mut i: usize = 0;
        while i < stars.len()
            invariant
                i <= stars@.len(),
                supernovae@ == supernovae_among(stars@.subrange(0, i as int)),
            decreases stars.len() - i,
        {
            proof {
                assert(stars@.subrange(0, i + 1).drop_last() =~= stars@.subrange(0, i as int));
            }
            if stars[i].ends_in_supernova() {
                supernovae.push(stars[i].clone());
            }
            i += 1;
        }
        assert(stars@.subrange(0, i as int) =~= stars@);
        stable_sort::<Star, ByTimeUntilDeath>(supernovae)
    }

    /// Adds a planet and puts all planets in the order of their orbits.
    pub fn add_planet_data(&mut self, planet: PlanetData)
        ensures
            final(self).planets() == in_orbit_order(old(self).planets().push(planet)),
            is_sorted::<PlanetData, BySemiMajorAxis>(final(self).planets()),
            final(self).differs_in_planets_only(old(self)),
    {
        self.planets.push(planet);
        self.sort_planets_by_semimajor_axis();
    }

    /// Puts `planet` in the place of the planet at `index` and puts all
    /// planets in the order of their orbits.
    pub fn overwrite_planet_data(&mut self, index: usize, planet: PlanetData)
        requires
            index < old(self).planets().len(),
        ensures
            final(self).planets() == in_orbit_order(
                old(self).planets().update(index as int, planet),
            ),
            is_sorted::<PlanetData, BySemiMajorAxis>(final(self).planets()),
            final(self).differs_in_planets_only(old(self)),
    {
        self.planets.set(index, planet);
        self.sort_planets_by_semimajor_axis();
    }

    fn sort_planets_by_semimajor_axis(&mut self)
        ensures
            final(self).planets() == in_orbit_order(old(self).planets()),
            is_sorted::<PlanetData, BySemiMajorAxis>(final(self).planets()),
            final(self).differs_in_planets_only(old(self)),
    {
        let mut planets: Vec<PlanetData> = Vec::new();
        std::mem::swap(&mut planets, &mut self.planets);
        self.planets = stable_sort::<PlanetData, BySemiMajorAxis>(planets);
    }

    /// Puts `planets` in the place of the planets of the system, in the
    /// order of their orbits.
    pub fn load_real_planets(&mut self, planets: Vec<PlanetData>)
        ensures
            final(self).planets() == in_orbit_order(planets@),
            is_sorted::<PlanetData, BySemiMajorAxis>(final(self).planets()),
            final(self).differs_in_planets_only(old(self)),
    {
        self.planets = stable_sort::<PlanetData, BySemiMajorAxis>(planets);
    }

    pub fn get_planets_data(&self) -> (planets: Vec<&PlanetData>)
        ensures
            planets@.len() == self.planets().len(),
            forall|i: int| 0 <= i < planets@.len() ==> *planets@[i] == self.planets()[i],
    {
        let mut bodies: Vec<&PlanetData> = Vec::new();
        let mut i: usize = 0;
        while i < self.planets.len()
            invariant
                i <= self.planets@.len(),
                bodies@.len() == i,
                forall|j: int| 0 <= j < i ==> *bodies@[j] == self.planets@[j],
            decreases self.planets.len() - i,
        {
            bodies.push(&self.planets[i]);
            i += 1;
        }
        bodies
    }

    pub fn get_planet_data(&self, index: usize) -> (planet: Option<&PlanetData>)
        ensures
            planet.is_some() == (index < self.planets().len()),
            planet.is_some() ==> *planet.unwrap() == self.planets()[index as int],
    {
        if index < self.planets.len() {
            Some(&self.planets[index])
        } else {
            None
        }
    }

    /// The planets, each with its place in the order of the orbits.
    pub fn get_planets(&self) -> (planets: Vec<Planet>)
        ensures
            planets@ == indexed_planets(self.planets()),
    {
        let mut bodies: Vec<Planet> = Vec::new();
        let mut i: usize = 0;
        while i < self.planets.len()
            invariant
                i <= self.planets@.len(),
                bodies@.len() == i,
                forall|j: int|
                    0 <= j < i ==> bodies@[j] == (Planet {
                        data: self.planets@[j],
                        index: Some(j as usize),
                    }),
            decreases self.planets.len() - i,
        {
            bodies.push(Planet::new(self.planets[i].clone(), Some(i)));
            i += 1;
        }
        assert(bodies@ =~= indexed_planets(self.planets()));
        bodies
    }

    /// Adds stars whose descriptions are known, each with its appearance, and
    /// puts all distant stars in the order of their brightness.
    pub fn add_stars_from_data(&mut self, star_data: Vec<(StarData, StarAppearance)>)
        ensures
            final(self).distant_stars() == in_brightness_order(
                old(self).distant_stars() + described_stars(star_data@),
            ),
            is_sorted::<DistantStar, ByBrightness>(final(self).distant_stars()),
            final(self).differs_in_distant_stars_only(old(self)),
    {
        let mut i: usize = 0;
        while i < star_data.len()
            invariant
                i <= star_data@.len(),
                self.distant_stars@ == old(self).distant_stars@ + described_stars(
                    star_data@,
                ).subrange(0, i as int),
                self.differs_in_distant_stars_only(old(self)),
            decreases star_data.len() - i,
        {
            let described = &star_data[i];
            self.distant_stars.push(
                DistantStar {
                    data: Some(described.0.clone()),
                    appearance: described.1.clone(),
                },
            );
            i += 1;
            assert(self.distant_stars@ =~= old(self).distant_stars@ + described_stars(
                star_data@,
            ).subrange(0, i as int));
        }
        assert(described_stars(star_data@).subrange(0, i as int) =~= described_stars(star_data@));
        self.process_stars();
    }

    /// Takes out of `star_appearances` the first appearance that `same`
    /// judges to be that of `known_star`.
    pub fn remove_known_star_from_list<F: Fn(&StarAppearance, &StarAppearance) -> bool>(
        star_appearances: &mut Vec<StarAppearance>,
        known_star: &StarAppearance,
        same: &F,
    )
        requires
            is_judgement(*same),
        ensures
            final(star_appearances)@ == without_known(*same, old(star_appearances)@, *known_star),
    {
        let mut index_to_remove: Option<usize> = None;
        let mut index: usize = 0;
        while index < star_appearances.len()
            invariant_except_break
                index_to_remove.is_none(),
            invariant
                is_judgement(*same),
                index <= star_appearances@.len(),
                star_appearances@ == old(star_appearances)@,
                forall|j: int|
                    0 <= j < index ==> !judged_same(
                        *same,
                        #[trigger] star_appearances@[j],
                        *known_star,
                    ),
            ensures
                index_to_remove.is_none() ==> index == star_appearances@.len(),
                index_to_remove.is_some() ==> index_to_remove.unwrap() == index && index
                    < star_appearances@.len() && judged_same(
                    *same,
                    star_appearances@[index as int],
                    *known_star,
                ),
            decreases star_appearances.len() - index,
        {
            if same(&star_appearances[index], known_star) {
                index_to_remove = Some(index);
                break ;
            }
            index += 1;
        }
        proof {
            let list = star_appearances@;
            lemma_place_of_known_skips(*same, list, *known_star, index as int);
            let rest = list.subrange(index as int, list.len() as int);
            if index_to_remove.is_some() {
                assert(rest.first() == list[index as int]);
            }
            assert(place_of_known(*same, list, *known_star) == index);
        }
        if let Some(index) = index_to_remove {
            star_appearances.remove(index);
        }
    }

    /// Adds stars of which only the appearance is known, but for those that
    /// the sky holds already: for each distant star of the system, brightest
    /// first, the first appearance that is left in `star_appearances` and
    /// that `same` judges to be its own is left out. Then all distant stars
    /// are put in the order of their brightness.
    pub fn add_star_appearances_without_duplicates<
        F: Fn(&StarAppearance, &StarAppearance) -> bool,
    >(&mut self, star_appearances: Vec<StarAppearance>, same: &F)
        requires
            is_judgement(*same),
        ensures
            final(self).distant_stars() == in_brightness_order(
                old(self).distant_stars() + seen_stars(
                    without_all_known(
                        *same,
                        star_appearances@,
                        appearances_of(old(self).distant_stars()),
                    ),
                ),
            ),
            is_sorted::<DistantStar, ByBrightness>(final(self).distant_stars()),
            final(self).differs_in_distant_stars_only(old(self)),
    {
        let mut star_appearances = star_appearances;
        let ghost offered = star_appearances@;
        let ghost known = appearances_of(self.distant_stars@);
        assert(known.subrange(0, known.len() as int) =~= known);
        let mut k: usize = 0;
        while k < self.distant_stars.len()
            invariant
                is_judgement(*same),
                k <= self.distant_stars@.len(),
                self.distant_stars@ == old(self).distant_stars@,
                self.differs_in_distant_stars_only(old(self)),
                known == appearances_of(self.distant_stars@),
                without_all_known(
                    *same,
                    star_appearances@,
                    known.subrange(k as int, known.len() as int),
                ) == without_all_known(*same, offered, known),
            decreases self.distant_stars.len() - k,
        {
            let ghost before = star_appearances@;
            Self::remove_known_star_from_list(
                &mut star_appearances,
                &self.distant_stars[k].appearance,
                same,
            );
            proof {
                let left = known.subrange(k as int, known.len() as int);
                assert(left.first() == self.distant_stars@[k as int].appearance);
                assert(left.drop_first() =~= known.subrange(k + 1, known.len() as int));
            }
            k += 1;
        }
        let ghost left = star_appearances@;
        assert(known.subrange(k as int, known.len() as int) =~= Seq::<StarAppearance>::empty());
        let mut i: usize = 0;
        while i < star_appearances.len()
            invariant
                i <= star_appearances@.len(),
                star_appearances@ == left,
                self.distant_stars@ == old(self).distant_stars@ + seen_stars(left).subrange(
                    0,
                    i as int,
                ),
                self.differs_in_distant_stars_only(old(self)),
            decreases star_appearances.len() - i,
        {
            self.distant_stars.push(
                DistantStar { data: None, appearance: star_appearances[i].clone() },
            );
            i += 1;
            assert(self.distant_stars@ =~= old(self).distant_stars@ + seen_stars(left).subrange(
                0,
                i as int,
            ));
        }
        assert(seen_stars(left).subrange(0, i as int) =~= seen_stars(left));
        self.process_stars();
    }

    /// Puts a star in the place of the distant star at `index`, or, where
    /// `index` is `None`, in the place of the central body. Then all distant
    /// stars are put in the order of their brightness. `appearance` is what a
    /// distant star looks like; of a central body it is not kept.
    pub fn overwrite_star_data(
        &mut self,
        index: Option<usize>,
        star_data: StarData,
        appearance: StarAppearance,
    )
        requires
            index.is_some() ==> index.unwrap() < old(self).distant_stars().len(),
        ensures
            index.is_some() ==> final(self).central_body() == old(self).central_body()
                && final(self).distant_stars() == in_brightness_order(
                old(self).distant_stars().update(
                    index.unwrap() as int,
                    DistantStar { data: Some(star_data), appearance },
                ),
            ),
            index.is_none() ==> final(self).central_body() == star_data
                && final(self).distant_stars() == in_brightness_order(old(self).distant_stars()),
            is_sorted::<DistantStar, ByBrightness>(final(self).distant_stars()),
            final(self).differs_in_stars_only(old(self)),
    {
        match index {
            Some(index) => {
                self.distant_stars.set(index, DistantStar { data: Some(star_data), appearance });
            },
            None => {
                self.central_body = star_data;
            },
        }
        self.process_stars();
    }

    fn process_stars(&mut self)
        ensures
            final(self).distant_stars() == in_brightness_order(old(self).distant_stars()),
            is_sorted::<DistantStar, ByBrightness>(final(self).distant_stars()),
            final(self).differs_in_distant_stars_only(old(self)),
    {
        self.sort_stars_by_brightness();
    }

    fn sort_stars_by_brightness(&mut self)
        ensures
            final(self).distant_stars() == in_brightness_order(old(self).distant_stars()),
            is_sorted::<DistantStar, ByBrightness>(final(self).distant_stars()),
            final(self).differs_in_distant_stars_only(old(self)),
    {
        let mut stars: Vec<DistantStar> = Vec::new();
        std::mem::swap(&mut stars, &mut self.distant_stars);
        self.distant_stars = stable_sort::<DistantStar, ByBrightness>(stars);
    }

    /// What `randomize_stars` makes of the system `before`: where making a
    /// central body failed nothing changes. Else the new central body stands,
    /// whatever came of making the distant stars, and the distant stars that
    /// were made are added to those of the sky.
    pub open spec fn is_randomized_from(
        &self,
        before: &Self,
        central_body: Option<Result<StarData, ElenathError>>,
        stars: Result<Vec<(StarData, StarAppearance)>, ElenathError>,
        done: Result<(), ElenathError>,
    ) -> bool {
        &&& self.differs_in_stars_only(before)
        &&& match central_body {
            Some(Err(e)) => done == Err::<(), ElenathError>(e) && self.central_body()
                == before.central_body() && self.distant_stars() == before.distant_stars(),
            _ => {
                &&& self.central_body() == match central_body {
                    Some(Ok(star)) => star,
                    _ => before.central_body(),
                }
                &&& match stars {
                    Ok(made) => done.is_ok() && self.distant_stars() == in_brightness_order(
                        before.distant_stars() + described_stars(made@),
                    ),
                    Err(e) => done == Err::<(), ElenathError>(e) && self.distant_stars()
                        == before.distant_stars(),
                }
            },
        }
    }

    /// Takes in what a generator of random stars has made. `central_body` is
    /// `None` where the central body is to be kept, and else what came of
    /// making a new one.
    pub fn randomize_stars(
        &mut self,
        central_body: Option<Result<StarData, ElenathError>>,
        stars: Result<Vec<(StarData, StarAppearance)>, ElenathError>,
    ) -> (done: Result<(), ElenathError>)
        ensures
            final(self).is_randomized_from(old(self), central_body, stars, done),
    {
        match central_body {
            Some(Ok(star)) => {
                self.central_body = star;
            },
            Some(Err(e)) => {
                return Err(e);
            },
            None => {},
        }
        match stars {
            Ok(made) => {
                self.add_stars_from_data(made);
                Ok(())
            },
            Err(e) => Err(e),
        }
    }

    pub fn number_of_planets(&self) -> (number: usize)
        ensures
            number == self.planets().len(),
    {
        self.planets.len()
    }

    pub fn number_of_distant_stars(&self) -> (number: usize)
        ensures
            number == self.distant_stars().len(),
    {
        self.distant_stars.len()
    }

    /// What `load_real_stars` makes of the system `before`: `sun` is the
    /// central body, and the stars of `source` have taken the place of the
    /// distant stars. Where a catalogue was asked and failed, its error has
    /// come back, and the sky holds what came before the catalogue's turn:
    /// the stars that are known by heart where measurements were asked for,
    /// and else nothing.
    pub open spec fn has_real_stars_from<F: Fn(&StarAppearance, &StarAppearance) -> bool>(
        &self,
        before: &Self,
        sun: StarData,
        source: StarSource,
        same: F,
        done: Result<(), ElenathError>,
    ) -> bool {
        &&& self.differs_in_stars_only(before)
        &&& self.central_body() == sun
        &&& match source {
            StarSource::Hardcoded(stars) => done.is_ok() && self.distant_stars()
                == in_brightness_order(described_stars(stars@)),
            StarSource::GaiaMeasurement { hardcoded, fetched } => match fetched {
                Ok(seen) => done.is_ok() && self.distant_stars() == in_brightness_order(
                    in_brightness_order(described_stars(hardcoded@)) + seen_stars(
                        without_all_known(
                            same,
                            seen@,
                            appearances_of(in_brightness_order(described_stars(hardcoded@))),
                        ),
                    ),
                ),
                Err(e) => done == Err::<(), ElenathError>(e) && self.distant_stars()
                    == in_brightness_order(described_stars(hardcoded@)),
            },
            StarSource::GaiaSimulation(fetched) => match fetched {
                Ok(stars) => done.is_ok() && self.distant_stars() == in_brightness_order(
                    described_stars(stars@),
                ),
                Err(e) => done == Err::<(), ElenathError>(e) && self.distant_stars()
                    == Seq::<DistantStar>::empty(),
            },
        }
    }

    /// Puts `sun` in the place of the central body and the stars of `source`
    /// in the place of the distant stars. Appearances that a catalogue of
    /// measurements brought are added but for those that `same` judges to be
    /// of stars that are known by heart.
    pub fn load_real_stars<F: Fn(&StarAppearance, &StarAppearance) -> bool>(
        &mut self,
        sun: StarData,
        source: StarSource,
        same: &F,
    ) -> (done: Result<(), ElenathError>)
        requires
            is_judgement(*same),
        ensures
            final(self).has_real_stars_from(old(self), sun, source, *same, done),
    {
        self.central_body = sun;
        self.distant_stars.clear();
        proof {
            assert forall|stars: Seq<DistantStar>|
                #[trigger] (Seq::<DistantStar>::empty() + stars) == stars by {
                assert(Seq::<DistantStar>::empty() + stars =~= stars);
            }
        }
        match source {
            StarSource::Hardcoded(stars) => {
                self.add_stars_from_data(stars);
                Ok(())
            },
            StarSource::GaiaMeasurement { hardcoded, fetched } => {
                self.load_gaia_data(hardcoded, fetched, same)
            },
            StarSource::GaiaSimulation(fetched) => {
                match fetched {
                    Ok(stars) => {
                        self.add_stars_from_data(stars);
                        Ok(())
                    },
                    Err(e) => Err(e),
                }
            },
        }
    }

    fn load_gaia_data<F: Fn(&StarAppearance, &StarAppearance) -> bool>(
        &mut self,
        hardcoded: Vec<(StarData, StarAppearance)>,
        fetched: Result<Vec<StarAppearance>, ElenathError>,
        same: &F,
    ) -> (done: Result<(), ElenathError>)
        requires
            is_judgement(*same),
        ensures
            final(self).differs_in_distant_stars_only(old(self)),
            match fetched {
                Ok(seen) => done.is_ok() && final(self).distant_stars() == in_brightness_order(
                    in_brightness_order(old(self).distant_stars() + described_stars(hardcoded@))
                        + seen_stars(
                        without_all_known(
                            *same,
                            seen@,
                            appearances_of(
                                in_brightness_order(
                                    old(self).distant_stars() + described_stars(hardcoded@),
                                ),
                            ),
                        ),
                    ),
                ),
                Err(e) => done == Err::<(), ElenathError>(e) && final(self).distant_stars()
                    == in_brightness_order(old(self).distant_stars() + described_stars(hardcoded@)),
            },
    {
        self.add_stars_from_data(hardcoded);
        match fetched {
            Ok(gaia_stars) => {
                self.add_star_appearances_without_duplicates(gaia_stars, same);
                Ok(())
            },
            Err(e) => Err(e),
        }
    }

    pub fn get_central_body_data(&self) -> (data: &StarData)
        ensures
            *data == self.central_body(),
    {
        &self.central_body
    }

    /// All stars of the system: the central body, seen as
    /// `central_body_appearance` and without an index, and then the distant
    /// stars, each with its place in the order of brightness.
    pub fn get_stars(&self, central_body_appearance: StarAppearance) -> (stars: Vec<Star>)
        ensures
            stars@ == self.stars(central_body_appearance),
    {
        let mut bodies: Vec<Star> = Vec::new();
        bodies.push(Star::from_data(self.central_body.clone(), central_body_appearance, None));
        let mut i: usize = 0;
        while i < self.distant_stars.len()
            invariant
                i <= self.distant_stars@.len(),
                bodies@.len() == i + 1,
                bodies@[0] == (Star {
                    data: Some(self.central_body),
                    appearance: central_body_appearance,
                    index: None,
                }),
                forall|j: int|
                    0 <= j < i ==> bodies@[j + 1] == (Star {
                        data: self.distant_stars@[j].data,
                        appearance: self.distant_stars@[j].appearance,
                        index: Some(j as usize),
                    }),
            decreases self.distant_stars.len() - i,
        {
            let star = self.distant_stars[i].clone();
            bodies.push(Star { data: star.data, appearance: star.appearance, index: Some(i) });
            i += 1;
        }
        assert(bodies@ =~= self.stars(central_body_appearance));
        bodies
    }

    pub fn get_distant_star_appearances(&self) -> (stars: Vec<&StarAppearance>)
        ensures
            stars@.len() == self.distant_stars().len(),
            forall|i: int|
                0 <= i < stars@.len() ==> *stars@[i] == self.distant_stars()[i].appearance,
    {
        let mut stars: Vec<&StarAppearance> = Vec::new();
        let mut i: usize = 0;
        while i < self.distant_stars.len()
            invariant
                i <= self.distant_stars@.len(),
                stars@.len() == i,
                forall|j: int| 0 <= j < i ==> *stars@[j] == self.distant_stars@[j].appearance,
            decreases self.distant_stars.len() - i,
        {
            stars.push(&self.distant_stars[i].appearance);
            i += 1;
        }
        stars
    }

    /// The description of the distant star at `index`, or, where `index` is
    /// `None`, of the central body. A place that the sky does not have, and a
    /// star of which only the appearance is known, have none.
    pub open spec fn star_data(&self, index: Option<usize>) -> Option<StarData> {
        match index {
            Some(index) => if index < self.distant_stars().len() {
                self.distant_stars()[index as int].data
            } else {
                None
            },
            None => Some(self.central_body()),
        }
    }

    pub fn get_star_data(&self, index: Option<usize>) -> (data: Option<&StarData>)
        ensures
            data.is_some() == self.star_data(index).is_some(),
            data.is_some() ==> *data.unwrap() == self.star_data(index).unwrap(),
    {
        match index {
            Some(index) => {
                if index < self.distant_stars.len() {
                    self.distant_stars[index].data.as_ref()
                } else {
                    None
                }
            },
            None => Some(&self.central_body),
        }
    }
}

} // verus!
