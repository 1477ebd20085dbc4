use elenath::model::celestial_system::CelestialSystem;
use elenath::model::part::BodyType;
use elenath::model::part::PartOfCelestialSystem;
use elenath::model::planet::BySemiMajorAxis;
use elenath::model::planet::Planet;
use elenath::model::planet::PlanetData;
use elenath::model::ranking::stable_sort;
use elenath::model::ranking::Ranking;
use elenath::model::star::StarData;
use elenath::model::star::StarFate;

fn sun() -> StarData {
    StarData {
        name: "Sun".to_string(),
        constellation: None,
        fate: StarFate::WhiteDwarf,
        time_until_death: Some(5_000),
        id: 1,
    }
}

/// A planet by its name and the length of its semi-major axis in thousands
/// of kilometres.
fn planet(name: &str, semi_major_axis: i64, id: u64) -> PlanetData {
    PlanetData::new(name.to_string(), semi_major_axis, id)
}

fn names(system: &CelestialSystem) -> Vec<String> {
    system.get_planets_data().iter().map(|p| p.get_name().clone()).collect()
}

#[test]
fn planets_are_sorted_by_semimajor_axis() {
    let mut system = CelestialSystem::empty();
    system.add_planet_data(planet("Venus", 108_210, 2));
    system.add_planet_data(planet("Mercury", 57_909, 1));
    system.add_planet_data(planet("Mars", 227_956, 4));
    system.add_planet_data(planet("Earth", 149_598, 3));
    let planets = system.get_planets_data();
    assert_eq!(planets[0].get_name(), "Mercury");
    assert_eq!(planets[1].get_name(), "Venus");
    assert_eq!(planets[2].get_name(), "Earth");
    assert_eq!(planets[3].get_name(), "Mars");
}

#[test]
fn edited_planets_are_sorted_by_semimajor_axis() {
    let mut system = CelestialSystem::empty();
    system.add_planet_data(planet("Mercury", 57_909, 1));
    system.add_planet_data(planet("Earth", 149_598, 3));
    system.overwrite_planet_data(0, planet("Jupiter", 778_479, 5));
    let planets = system.get_planets_data();
    assert_eq!(planets[0].get_name(), "Earth");
    assert_eq!(planets[1].get_name(), "Jupiter");
}

#[test]
fn an_empty_system_holds_the_blank_star_alone() {
    let system = CelestialSystem::empty();
    assert_eq!(system.get_central_body_data(), &StarData::blank());
    assert_eq!(system.get_central_body_data().id, 0);
    assert_eq!(system.get_central_body_data().name, "");
    assert_eq!(system.number_of_planets(), 0);
    assert_eq!(system.number_of_distant_stars(), 0);
    assert_eq!(system.get_time_since_epoch(), 0);
}

#[test]
fn a_new_system_keeps_its_central_body() {
    let system = CelestialSystem::new(sun());
    assert_eq!(system.get_central_body_data(), &sun());
    assert!(system.get_planets_data().is_empty());
    assert_eq!(system.get_time_since_epoch(), 0);
}

#[test]
fn planets_of_one_orbit_keep_the_order_in_which_they_came() {
    let mut system = CelestialSystem::new(sun());
    system.add_planet_data(planet("Outer", 900, 1));
    system.add_planet_data(planet("First twin", 500, 2));
    system.add_planet_data(planet("Inner", 100, 3));
    system.add_planet_data(planet("Second twin", 500, 4));
    system.add_planet_data(planet("Third twin", 500, 5));
    assert_eq!(
        names(&system),
        vec!["Inner", "First twin", "Second twin", "Third twin", "Outer"]
    );
}

#[test]
fn negative_ranks_come_before_zero() {
    let mut system = CelestialSystem::new(sun());
    system.add_planet_data(planet("Zero", 0, 1));
    system.add_planet_data(planet("Least", i64::MIN, 2));
    system.add_planet_data(planet("Most", i64::MAX, 3));
    system.add_planet_data(planet("Below", -1, 4));
    assert_eq!(names(&system), vec!["Least", "Below", "Zero", "Most"]);
}

#[test]
fn loading_planets_replaces_and_sorts_them() {
    let mut system = CelestialSystem::new(sun());
    system.add_planet_data(planet("Old", 1, 9));
    system.load_real_planets(vec![
        planet("Earth", 149_598, 3),
        planet("Mercury", 57_909, 1),
        planet("Pluto", 5_906_440, 10),
        planet("Venus", 108_210, 2),
    ]);
    assert_eq!(names(&system), vec!["Mercury", "Venus", "Earth", "Pluto"]);
    assert_eq!(system.get_central_body_data(), &sun());
}

#[test]
fn a_planet_is_found_by_its_place() {
    let mut system = CelestialSystem::new(sun());
    system.add_planet_data(planet("Earth", 149_598, 3));
    system.add_planet_data(planet("Mercury", 57_909, 1));
    assert_eq!(system.get_planet_data(0).unwrap().get_name(), "Mercury");
    assert_eq!(system.get_planet_data(1).unwrap().get_name(), "Earth");
    assert!(system.get_planet_data(2).is_none());
    assert!(system.get_planet_data(usize::MAX).is_none());
}

#[test]
fn planets_are_handed_out_with_their_places() {
    let mut system = CelestialSystem::new(sun());
    system.add_planet_data(planet("Earth", 149_598, 3));
    system.add_planet_data(planet("Mercury", 57_909, 1));
    system.add_planet_data(planet("Venus", 108_210, 2));
    let planets = system.get_planets();
    assert_eq!(planets.len(), 3);
    for (i, body) in planets.iter().enumerate() {
        assert_eq!(body.get_index(), Some(i));
        assert_eq!(body.get_body_type(), BodyType::Planet);
    }
    assert_eq!(planets[0], Planet::new(planet("Mercury", 57_909, 1), Some(0)));
    assert_eq!(planets[2].get_data(), &planet("Earth", 149_598, 3));
}

#[test]
fn adding_planets_leaves_the_stars_and_the_time_alone() {
    let mut system = CelestialSystem::new(sun());
    system.set_time_since_epoch(77, vec![]);
    system.add_planet_data(planet("Earth", 149_598, 3));
    assert_eq!(system.get_time_since_epoch(), 77);
    assert_eq!(system.number_of_distant_stars(), 0);
    assert_eq!(system.get_central_body_data(), &sun());
}

#[test]
fn the_blank_planet_has_rank_zero_and_no_name() {
    let blank = PlanetData::blank();
    assert_eq!(blank, planet("", 0, 0));
}

#[test]
fn a_stable_sort_orders_by_rank_and_keeps_ties_in_order() {
    let sorted = stable_sort::<PlanetData, BySemiMajorAxis>(vec![
        planet("c", 3, 0),
        planet("a1", 1, 1),
        planet("b1", 2, 2),
        planet("a2", 1, 3),
        planet("b2", 2, 4),
        planet("a3", 1, 5),
        planet("z", 0, 6),
    ]);
    let order: Vec<&str> = sorted.iter().map(|p| p.name.as_str()).collect();
    assert_eq!(order, vec!["z", "a1", "a2", "a3", "b1", "b2", "c"]);
}

#[test]
fn a_stable_sort_of_nothing_and_of_one_item() {
    let none = stable_sort::<PlanetData, BySemiMajorAxis>(vec![]);
    assert!(none.is_empty());
    let one = stable_sort::<PlanetData, BySemiMajorAxis>(vec![planet("a", 1, 1)]);
    assert_eq!(one, vec![planet("a", 1, 1)]);
}

#[test]
fn a_stable_sort_of_many_items_agrees_with_the_sort_of_the_standard_library() {
    let mut items = Vec::new();
    let mut seed: u64 = 12345;
    for id in 0..1000u64 {
        seed = seed.wrapping_mul(6364136223846793005).wrapping_add(1442695040888963407);
        let rank = ((seed >> 33) % 50) as i64 - 25;
        items.push(planet("p", rank, id));
    }
    let mut expected = items.clone();
    expected.sort_by_key(|p| p.semi_major_axis);
    let sorted = stable_sort::<PlanetData, BySemiMajorAxis>(items);
    assert_eq!(sorted, expected);
}

#[test]
fn an_inner_planet_precedes_an_outer_one() {
    let inner = planet("inner", 1, 1);
    let outer = planet("outer", 2, 2);
    assert!(BySemiMajorAxis::precedes(&inner, &outer));
    assert!(!BySemiMajorAxis::precedes(&outer, &inner));
    assert!(!BySemiMajorAxis::precedes(&inner, &inner));
}

#[test]
fn planets_loaded_at_once_stand_as_planets_added_in_turn() {
    let planets = || {
        vec![
            planet("d", 4, 1),
            planet("b1", 2, 2),
            planet("a", 1, 3),
            planet("b2", 2, 4),
            planet("c", 3, 5),
            planet("b3", 2, 6),
        ]
    };
    let mut at_once = CelestialSystem::new(sun());
    at_once.load_real_planets(planets());
    let mut in_turn = CelestialSystem::new(sun());
    for planet in planets() {
        in_turn.add_planet_data(planet);
    }
    assert_eq!(at_once, in_turn);
    assert_eq!(names(&at_once), vec!["a", "b1", "b2", "b3", "c", "d"]);
}

#[test]
fn sorting_a_second_time_changes_nothing() {
    let once = stable_sort::<PlanetData, BySemiMajorAxis>(vec![
        planet("b1", 2, 2),
        planet("a", 1, 3),
        planet("b2", 2, 4),
    ]);
    let expected = vec![planet("a", 1, 3), planet("b1", 2, 2), planet("b2", 2, 4)];
    assert_eq!(once, expected);
    assert_eq!(stable_sort::<PlanetData, BySemiMajorAxis>(once), expected);
}
