use elenath::error::ElenathError;
use elenath::gui::dialog::planet::PlanetDialog;
use elenath::gui::dialog::planet::PlanetDialogEvent;
use elenath::gui::dialog::planet::PlanetTexts;
use elenath::gui::dialog::randomize_stars::RandomizeStarsDialog;
use elenath::gui::dialog::star::DescribedStar;
use elenath::gui::dialog::star::StarDialog;
use elenath::gui::dialog::star::StarDialogEvent;
use elenath::gui::dialog::star::StarTexts;
use elenath::gui::dialog::Dialog;
use elenath::gui::dialog::DialogType;
use elenath::gui::dialog::DialogUpdate;
use elenath::gui::gui_widget::Canvas;
use elenath::gui::gui_widget::GuiViewMode;
use elenath::gui::message::Action;
use elenath::gui::message::GuiMessage;
use elenath::gui::message::PlanetDialogParts;
use elenath::gui::message::StarDialogParts;
use elenath::gui::surface_view::widget::SurfaceViewState;
use elenath::gui::table_view::col_data::TableDataType;
use elenath::gui::top_view::widget::TopViewState;
use elenath::gui::Gui;
use elenath::model::celestial_system::CelestialSystem;
use elenath::model::celestial_system::StarSource;
use elenath::model::planet::Planet;
use elenath::model::planet::PlanetData;
use elenath::model::star::StarAppearance;
use elenath::model::star::StarData;
use elenath::model::star::StarDataType;
use elenath::model::star::StarFate;

const ONE_DAY: i64 = 86_400;

fn sun() -> StarData {
    StarData {
        name: "Sun".to_string(),
        constellation: None,
        fate: StarFate::WhiteDwarf,
        time_until_death: Some(5_000),
        id: 1,
    }
}

fn planet(name: &str, semi_major_axis: i64, id: u64) -> PlanetData {
    PlanetData::new(name.to_string(), semi_major_axis, id)
}

fn star(name: &str, magnitude: i64, id: u64) -> (StarData, StarAppearance) {
    (
        StarData {
            name: name.to_string(),
            constellation: None,
            fate: StarFate::WhiteDwarf,
            time_until_death: Some(1_000),
            id,
        },
        StarAppearance { name: name.to_string(), illuminance: -magnitude, id },
    )
}

fn planet_texts() -> PlanetTexts {
    PlanetTexts {
        mass: "1.00".to_string(),
        radius: "1.00".to_string(),
        color: Ok("{}".to_string()),
        geometric_albedo: "0.43".to_string(),
        semi_major_axis: "1.00".to_string(),
        eccentricity: "0.0167".to_string(),
        inclination: "0.00".to_string(),
        longitude_of_ascending_node: "0.00".to_string(),
        argument_of_periapsis: "0.00".to_string(),
        siderial_rotation_period: "0.9973".to_string(),
        rotation_axis: Ok("[0,0,1]".to_string()),
    }
}

fn star_texts() -> StarTexts {
    StarTexts {
        mass: "1.00".to_string(),
        radius: "1.00".to_string(),
        luminosity: "4.83".to_string(),
        temperature: "5778".to_string(),
        age: "4.60".to_string(),
        distance: "0.00".to_string(),
        longitude: "0.00".to_string(),
        latitude: "0.00".to_string(),
    }
}

/// A viewer that holds the solar system as far as Mars, and two stars.
fn viewer() -> Gui {
    let mut gui = Gui::new(ONE_DAY);
    let mut system = CelestialSystem::new(sun());
    system.load_real_planets(vec![
        planet("Mercury", 57_909, 1),
        planet("Venus", 108_210, 2),
        planet("Earth", 149_598, 3),
        planet("Mars", 227_956, 4),
    ]);
    system.add_stars_from_data(vec![star("Sirius", -146, 10), star("Vega", 3, 11)]);
    gui.celestial_system = Some(system);
    gui
}

fn planet_names(gui: &Gui) -> Vec<String> {
    gui.get_planet_data().iter().map(|p| p.get_name().clone()).collect()
}

fn star_names(gui: &Gui) -> Vec<String> {
    gui.celestial_system
        .as_ref()
        .unwrap()
        .get_distant_star_appearances()
        .iter()
        .map(|a| a.get_name().clone())
        .collect()
}

fn failure() -> ElenathError {
    ElenathError::Generic("it failed".to_string())
}

#[test]
fn the_viewer_starts_on_the_surface_without_a_system() {
    let gui = Gui::new(ONE_DAY);
    assert_eq!(gui.opened_file, None);
    assert_eq!(gui.mode, GuiViewMode::Surface);
    assert_eq!(gui.surface_view_state, SurfaceViewState::new());
    assert_eq!(gui.top_view_state, TopViewState::new());
    assert_eq!(gui.table_view_state.displayed_body_type, TableDataType::Planet);
    assert_eq!(gui.time_step, ONE_DAY);
    assert_eq!(gui.celestial_system, None);
    assert_eq!(gui.selected_planet_name, "");
    assert!(gui.display_names);
    assert!(!gui.display_constellations);
    assert_eq!(gui.dialog, None);
    assert_eq!(gui.title(), "Elenath - Imaginary Skies");
    assert_eq!(gui.get_system_const(), Err(ElenathError::NoCelestialSystem));
    assert!(gui.get_planet_data().is_empty());
    assert_eq!(gui.get_selected_planet(), None);
}

#[test]
fn only_the_views_of_surface_and_top_have_a_canvas() {
    assert_eq!(GuiViewMode::Surface.canvas(), Some(Canvas::Surface));
    assert_eq!(GuiViewMode::Top.canvas(), Some(Canvas::Top));
    assert_eq!(GuiViewMode::Table.canvas(), None);
}

#[test]
fn the_view_that_is_shown_is_drawn_anew() {
    let mut gui = Gui::new(ONE_DAY);
    gui.redraw();
    assert!(gui.surface_view_state.bodies_stale);
    assert_eq!(gui.top_view_state, TopViewState::new());
    gui.surface_view_state.drawn();
    assert!(!gui.surface_view_state.bodies_stale);
    gui.mode = GuiViewMode::Top;
    gui.redraw();
    assert!(!gui.surface_view_state.bodies_stale);
    assert!(gui.top_view_state.bodies_stale);
    assert!(gui.top_view_state.scale_stale);
    gui.top_view_state.drawn();
    assert_eq!(gui.top_view_state, TopViewState::new());
    gui.mode = GuiViewMode::Table;
    gui.redraw();
    assert_eq!(gui.surface_view_state, SurfaceViewState::new());
    assert_eq!(gui.top_view_state, TopViewState::new());
}

#[test]
fn a_handled_message_makes_the_drawing_stale() {
    let mut gui = viewer();
    assert_eq!(gui.handle_message(GuiMessage::SetDisplayNames(false)), Ok(Action::Done));
    assert!(!gui.display_names);
    assert!(gui.surface_view_state.bodies_stale);
    assert!(!gui.top_view_state.bodies_stale);
}

#[test]
fn the_mode_that_is_selected_is_the_one_that_is_drawn_anew() {
    let mut gui = viewer();
    assert_eq!(gui.handle_message(GuiMessage::ModeSelected(GuiViewMode::Top)), Ok(Action::Done));
    assert_eq!(gui.mode, GuiViewMode::Top);
    assert!(!gui.surface_view_state.bodies_stale);
    assert!(gui.top_view_state.bodies_stale);
    assert!(gui.top_view_state.scale_stale);
    gui.top_view_state.drawn();
    assert_eq!(gui.handle_message(GuiMessage::ModeSelected(GuiViewMode::Table)), Ok(Action::Done));
    assert_eq!(gui.top_view_state, TopViewState::new());
}

#[test]
fn a_failed_message_leaves_the_drawing() {
    let mut gui = Gui::new(ONE_DAY);
    assert_eq!(
        gui.handle_message(GuiMessage::NewPlanet(planet("Earth", 1, 1))),
        Err(ElenathError::NoCelestialSystem)
    );
    assert_eq!(gui, Gui::new(ONE_DAY));
}

#[test]
fn plain_settings_are_taken() {
    let mut gui = viewer();
    gui.handle_message(GuiMessage::UpdateTimeStep(2 * ONE_DAY)).unwrap();
    gui.handle_message(GuiMessage::PlanetSelected("Earth".to_string())).unwrap();
    gui.handle_message(GuiMessage::SetDisplayConstellations(true)).unwrap();
    gui.handle_message(GuiMessage::TableDataTypeSelected(TableDataType::Supernova)).unwrap();
    assert_eq!(gui.time_step, 2 * ONE_DAY);
    assert_eq!(gui.selected_planet_name, "Earth");
    assert!(gui.display_constellations);
    assert_eq!(gui.table_view_state.displayed_body_type, TableDataType::Supernova);
    assert_eq!(gui.get_selected_planet_data(), Some(&planet("Earth", 149_598, 3)));
    assert_eq!(gui.get_selected_planet(), Some(Planet::new(planet("Earth", 149_598, 3), None)));
}

#[test]
fn the_first_planet_of_the_selected_name_is_found() {
    let mut gui = viewer();
    gui.handle_message(GuiMessage::NewPlanet(planet("Earth", 999_999, 33))).unwrap();
    gui.selected_planet_name = "Earth".to_string();
    assert_eq!(gui.get_selected_planet_data().unwrap().id, 3);
    gui.selected_planet_name = "Vulcan".to_string();
    assert_eq!(gui.get_selected_planet_data(), None);
    gui.selected_planet_name = String::new();
    assert_eq!(gui.get_selected_planet_data(), None);
}

#[test]
fn turning_a_view_is_left_to_the_caller() {
    let mut gui = viewer();
    assert_eq!(gui.handle_message(GuiMessage::UpdateSurfaceView), Ok(Action::ChangeSurfaceView));
    assert_eq!(gui.handle_message(GuiMessage::UpdateTopView), Ok(Action::ChangeTopView));
    let mut expected = viewer();
    expected.redraw();
    assert_eq!(gui, expected);
}

#[test]
fn a_new_planet_joins_the_system_and_closes_the_dialog() {
    let mut gui = viewer();
    gui.dialog = Some(Dialog::LoadRealPlanets);
    assert_eq!(
        gui.handle_message(GuiMessage::NewPlanet(planet("Ceres", 413_700, 5))),
        Ok(Action::Done)
    );
    assert_eq!(planet_names(&gui), vec!["Mercury", "Venus", "Earth", "Mars", "Ceres"]);
    assert_eq!(gui.dialog, None);
    assert_eq!(star_names(&gui), vec!["Sirius", "Vega"]);
}

#[test]
fn an_edited_planet_takes_its_place_in_the_order() {
    let mut gui = viewer();
    assert!(gui.can_handle(&GuiMessage::PlanetEdited(3, planet("Vulcan", 10_000, 6))));
    assert!(!gui.can_handle(&GuiMessage::PlanetEdited(4, planet("Vulcan", 10_000, 6))));
    assert_eq!(
        gui.handle_message(GuiMessage::PlanetEdited(3, planet("Vulcan", 10_000, 6))),
        Ok(Action::Done)
    );
    assert_eq!(planet_names(&gui), vec!["Vulcan", "Mercury", "Venus", "Earth"]);
}

#[test]
fn a_new_star_joins_the_sky() {
    let mut gui = viewer();
    let (data, appearance) = star("Canopus", -74, 12);
    assert_eq!(gui.handle_message(GuiMessage::NewStar(data, appearance)), Ok(Action::Done));
    assert_eq!(star_names(&gui), vec!["Sirius", "Canopus", "Vega"]);
    assert_eq!(planet_names(&gui), vec!["Mercury", "Venus", "Earth", "Mars"]);
}

#[test]
fn an_edited_star_takes_its_place_in_the_order() {
    let mut gui = viewer();
    let (data, appearance) = star("Nova", -900, 13);
    assert!(gui.can_handle(&GuiMessage::StarEdited(Some(1), data.clone(), appearance.clone())));
    assert!(!gui.can_handle(&GuiMessage::StarEdited(Some(2), data.clone(), appearance.clone())));
    assert!(gui.can_handle(&GuiMessage::StarEdited(None, data.clone(), appearance.clone())));
    assert_eq!(
        gui.handle_message(GuiMessage::StarEdited(Some(1), data.clone(), appearance.clone())),
        Ok(Action::Done)
    );
    assert_eq!(star_names(&gui), vec!["Nova", "Sirius"]);
    assert_eq!(gui.handle_message(GuiMessage::StarEdited(None, data.clone(), appearance)), Ok(Action::Done));
    assert_eq!(gui.get_system_const().unwrap().get_central_body_data(), &data);
    assert_eq!(star_names(&gui), vec!["Nova", "Sirius"]);
}

#[test]
fn a_new_system_is_empty() {
    let mut gui = viewer();
    gui.dialog = Some(Dialog::NewSystem);
    gui.opened_file = Some("old.json".to_string());
    assert_eq!(gui.handle_message(GuiMessage::NewSystem), Ok(Action::Done));
    assert_eq!(gui.celestial_system, Some(CelestialSystem::empty()));
    assert_eq!(gui.dialog, None);
    assert_eq!(gui.opened_file, Some("old.json".to_string()));
}

#[test]
fn messages_on_the_system_fail_without_a_system() {
    let (data, appearance) = star("Nova", -900, 13);
    let messages = vec![
        GuiMessage::NewPlanet(planet("Earth", 1, 1)),
        GuiMessage::PlanetEdited(0, planet("Earth", 1, 1)),
        GuiMessage::NewStar(data.clone(), appearance.clone()),
        GuiMessage::StarEdited(Some(0), data.clone(), appearance.clone()),
        GuiMessage::StarEdited(None, data.clone(), appearance),
        GuiMessage::UpdateTime(5, vec![]),
        GuiMessage::RandomizePlanets,
        GuiMessage::LoadRealPlanets,
        GuiMessage::RealPlanetsFetched(vec![]),
        GuiMessage::RandomizeStars(true, 1000),
        GuiMessage::RandomStarsMade(None, Ok(vec![])),
        GuiMessage::LoadStars(StarDataType::Hardcoded),
        GuiMessage::OpenDialog(DialogType::NewPlanet),
        GuiMessage::OpenDialog(DialogType::EditPlanet(0)),
        GuiMessage::OpenDialog(DialogType::NewStar),
        GuiMessage::OpenDialog(DialogType::EditStar(None)),
    ];
    for message in messages {
        let mut gui = Gui::new(ONE_DAY);
        gui.dialog = Some(Dialog::NewSystem);
        assert!(gui.can_handle(&message));
        assert_eq!(gui.handle_message(message), Err(ElenathError::NoCelestialSystem));
        let mut expected = Gui::new(ONE_DAY);
        expected.dialog = Some(Dialog::NewSystem);
        assert_eq!(gui, expected);
    }
}

#[test]
fn planets_cannot_be_made_at_random() {
    let gui = viewer();
    assert!(!gui.can_handle(&GuiMessage::RandomizePlanets));
    let mut gui = viewer();
    gui.dialog = Some(Dialog::RandomizePlanets);
    assert!(!gui.can_handle(&GuiMessage::DialogSubmit));
    assert!(gui.can_handle(&GuiMessage::DialogClosed));
}

#[test]
fn saving_to_a_known_file_writes_it() {
    let mut gui = viewer();
    gui.opened_file = Some("sky.json".to_string());
    assert_eq!(
        gui.handle_message(GuiMessage::SaveToFile),
        Ok(Action::WriteFile("sky.json".to_string()))
    );
    assert_eq!(gui.handle_message(GuiMessage::FileWritten(Ok(()))), Ok(Action::Done));
    assert_eq!(gui.opened_file, Some("sky.json".to_string()));
    assert_eq!(gui.handle_message(GuiMessage::FileWritten(Err(failure()))), Err(failure()));
}

#[test]
fn saving_without_a_file_asks_for_one() {
    let mut gui = viewer();
    assert_eq!(gui.handle_message(GuiMessage::SaveToFile), Ok(Action::ChooseFileToSave));
    assert_eq!(gui.opened_file, None);
    assert_eq!(
        gui.handle_message(GuiMessage::FileToSaveChosen(Some("new.json".to_string()))),
        Ok(Action::WriteFile("new.json".to_string()))
    );
    assert_eq!(gui.opened_file, Some("new.json".to_string()));
}

#[test]
fn saving_to_a_new_file_always_asks_for_one() {
    let mut gui = viewer();
    gui.opened_file = Some("sky.json".to_string());
    assert_eq!(gui.handle_message(GuiMessage::SaveToNewFile), Ok(Action::ChooseFileToSave));
    assert_eq!(gui.opened_file, Some("sky.json".to_string()));
    // The user chooses nothing: no file is known any more.
    assert_eq!(gui.handle_message(GuiMessage::FileToSaveChosen(None)), Ok(Action::Done));
    assert_eq!(gui.opened_file, None);
}

#[test]
fn saving_nothing_fails_once_the_file_is_chosen() {
    let mut gui = Gui::new(ONE_DAY);
    assert_eq!(gui.handle_message(GuiMessage::SaveToFile), Ok(Action::ChooseFileToSave));
    assert_eq!(
        gui.handle_message(GuiMessage::FileToSaveChosen(Some("new.json".to_string()))),
        Err(ElenathError::NoCelestialSystem)
    );
    assert_eq!(gui.opened_file, Some("new.json".to_string()));
    assert_eq!(gui.handle_message(GuiMessage::SaveToFile), Err(ElenathError::NoCelestialSystem));
}

#[test]
fn opening_a_file_reads_a_system() {
    let mut gui = Gui::new(ONE_DAY);
    assert_eq!(gui.handle_message(GuiMessage::OpenFile), Ok(Action::ChooseFileToOpen));
    assert_eq!(
        gui.handle_message(GuiMessage::FileToOpenChosen(Some("sky.json".to_string()))),
        Ok(Action::ReadFile("sky.json".to_string()))
    );
    assert_eq!(gui.opened_file, Some("sky.json".to_string()));
    let system = viewer().celestial_system.unwrap();
    assert_eq!(gui.handle_message(GuiMessage::FileRead(Ok(system))), Ok(Action::Done));
    assert_eq!(gui.celestial_system, viewer().celestial_system);
}

#[test]
fn a_file_that_cannot_be_read_leaves_the_system() {
    let mut gui = viewer();
    gui.handle_message(GuiMessage::FileToOpenChosen(Some("broken.json".to_string()))).unwrap();
    assert_eq!(gui.handle_message(GuiMessage::FileRead(Err(failure()))), Err(failure()));
    assert_eq!(gui.celestial_system, viewer().celestial_system);
    assert_eq!(gui.opened_file, Some("broken.json".to_string()));
    assert_eq!(gui.handle_message(GuiMessage::FileToOpenChosen(None)), Ok(Action::Done));
    assert_eq!(gui.opened_file, None);
}

#[test]
fn the_system_moves_in_time() {
    let mut gui = viewer();
    let brighter = StarAppearance { name: "Vega".to_string(), illuminance: 1_000, id: 11 };
    assert_eq!(
        gui.handle_message(GuiMessage::UpdateTime(ONE_DAY, vec![None, Some(brighter.clone())])),
        Ok(Action::Done)
    );
    let system = gui.get_system_const().unwrap();
    assert_eq!(system.get_time_since_epoch(), ONE_DAY);
    assert_eq!(system.get_distant_star_appearances()[1], &brighter);
    assert_eq!(star_names(&gui), vec!["Sirius", "Vega"]);
}

#[test]
fn real_planets_are_fetched_and_loaded() {
    let mut gui = viewer();
    gui.dialog = Some(Dialog::LoadRealPlanets);
    assert_eq!(gui.handle_message(GuiMessage::DialogSubmit), Ok(Action::FetchRealPlanets));
    assert_eq!(gui.dialog, Some(Dialog::LoadRealPlanets));
    assert_eq!(
        gui.handle_message(GuiMessage::RealPlanetsFetched(vec![
            planet("Saturn", 1_432_041, 6),
            planet("Jupiter", 778_479, 5),
        ])),
        Ok(Action::Done)
    );
    assert_eq!(planet_names(&gui), vec!["Jupiter", "Saturn"]);
    assert_eq!(gui.dialog, None);
}

#[test]
fn random_stars_are_asked_for_and_taken_in() {
    let mut gui = viewer();
    let mut dialog = RandomizeStarsDialog::new();
    dialog.keep_central_body = false;
    gui.dialog = Some(Dialog::RandomizeStars(dialog));
    assert_eq!(
        gui.handle_message(GuiMessage::DialogSubmit),
        Ok(Action::MakeRandomStars { keep_central_body: false, max_distance: 1000 })
    );
    let (made, _) = star("Made", 0, 20);
    assert_eq!(
        gui.handle_message(GuiMessage::RandomStarsMade(
            Some(Ok(made.clone())),
            Ok(vec![star("Random", -50, 21)])
        )),
        Ok(Action::Done)
    );
    assert_eq!(gui.get_system_const().unwrap().get_central_body_data(), &made);
    assert_eq!(star_names(&gui), vec!["Sirius", "Random", "Vega"]);
    assert_eq!(gui.dialog, None);
}

#[test]
fn random_stars_that_could_not_be_made_keep_the_dialog() {
    let mut gui = viewer();
    gui.dialog = Some(Dialog::RandomizeStars(RandomizeStarsDialog::new()));
    let (made, _) = star("Made", 0, 20);
    assert_eq!(
        gui.handle_message(GuiMessage::RandomStarsMade(Some(Ok(made.clone())), Err(failure()))),
        Err(failure())
    );
    assert_eq!(gui.get_system_const().unwrap().get_central_body_data(), &made);
    assert_eq!(star_names(&gui), vec!["Sirius", "Vega"]);
    assert_eq!(gui.dialog, Some(Dialog::RandomizeStars(RandomizeStarsDialog::new())));
    assert!(!gui.surface_view_state.bodies_stale);
}

#[test]
fn real_stars_are_loaded_by_the_caller() {
    let mut gui = viewer();
    gui.dialog = Some(Dialog::LoadRealStars(StarDataType::GaiaMeasurementSmall));
    assert_eq!(
        gui.handle_message(GuiMessage::DialogSubmit),
        Ok(Action::LoadStars(StarDataType::GaiaMeasurementSmall))
    );
    let same = |a: &StarAppearance, b: &StarAppearance| a.id == b.id;
    let loaded = gui.load_real_stars(
        sun(),
        StarSource::GaiaMeasurement {
            hardcoded: vec![star("Altair", 76, 30)],
            fetched: Ok(vec![
                StarAppearance { name: "Gaia 30".to_string(), illuminance: -76, id: 30 },
                StarAppearance { name: "Gaia 31".to_string(), illuminance: -900, id: 31 },
            ]),
        },
        &same,
    );
    assert_eq!(loaded, Ok(()));
    assert_eq!(star_names(&gui), vec!["Altair", "Gaia 31"]);
    assert_eq!(gui.dialog, Some(Dialog::LoadRealStars(StarDataType::GaiaMeasurementSmall)));
    assert_eq!(gui.handle_message(GuiMessage::StarsLoaded(loaded)), Ok(Action::Done));
    assert_eq!(gui.dialog, None);
}

#[test]
fn real_stars_are_not_loaded_without_a_system() {
    let mut gui = Gui::new(ONE_DAY);
    let same = |a: &StarAppearance, b: &StarAppearance| a.id == b.id;
    let loaded = gui.load_real_stars(sun(), StarSource::Hardcoded(vec![]), &same);
    assert_eq!(loaded, Err(ElenathError::NoCelestialSystem));
    assert_eq!(gui, Gui::new(ONE_DAY));
    gui.dialog = Some(Dialog::LoadRealStars(StarDataType::Hardcoded));
    assert_eq!(
        gui.handle_message(GuiMessage::StarsLoaded(loaded)),
        Err(ElenathError::NoCelestialSystem)
    );
    assert_eq!(gui.dialog, Some(Dialog::LoadRealStars(StarDataType::Hardcoded)));
}

#[test]
fn dialogs_without_a_form_open_at_once() {
    let opened = vec![
        (DialogType::NewSystem, Dialog::NewSystem),
        (DialogType::RandomizePlanets, Dialog::RandomizePlanets),
        (DialogType::LoadRealPlanets, Dialog::LoadRealPlanets),
        (DialogType::RandomizeStars, Dialog::RandomizeStars(RandomizeStarsDialog::new())),
        (DialogType::LoadGaiaData, Dialog::LoadRealStars(StarDataType::Hardcoded)),
    ];
    for (dialog_type, dialog) in opened {
        let mut gui = Gui::new(ONE_DAY);
        assert_eq!(gui.handle_message(GuiMessage::OpenDialog(dialog_type)), Ok(Action::Done));
        assert_eq!(gui.dialog, Some(dialog));
    }
}

#[test]
fn the_form_of_a_new_planet_is_prepared_by_the_caller() {
    let mut gui = viewer();
    assert_eq!(
        gui.handle_message(GuiMessage::OpenDialog(DialogType::NewPlanet)),
        Ok(Action::PreparePlanetDialog {
            planet: None,
            previous_planet: None,
            central_body: sun()
        })
    );
    assert_eq!(gui.dialog, None);
    assert_eq!(
        gui.handle_message(GuiMessage::PlanetDialogPrepared(PlanetDialogParts {
            planet: None,
            previous_planet: Ok(Some(99)),
            central_body: sun(),
            texts: planet_texts(),
        })),
        Ok(Action::Done)
    );
    assert_eq!(
        gui.dialog,
        Some(Dialog::Planet(PlanetDialog::new(sun(), planet_texts()).unwrap()))
    );
}

#[test]
fn the_form_of_a_planet_names_the_planet_before_it() {
    let mut gui = viewer();
    assert_eq!(
        gui.handle_message(GuiMessage::OpenDialog(DialogType::EditPlanet(2))),
        Ok(Action::PreparePlanetDialog {
            planet: Some((2, planet("Earth", 149_598, 3))),
            previous_planet: Some(planet("Venus", 108_210, 2)),
            central_body: sun()
        })
    );
    assert_eq!(
        gui.handle_message(GuiMessage::OpenDialog(DialogType::EditPlanet(0))),
        Ok(Action::PreparePlanetDialog {
            planet: Some((0, planet("Mercury", 57_909, 1))),
            previous_planet: None,
            central_body: sun()
        })
    );
    assert_eq!(
        gui.handle_message(GuiMessage::OpenDialog(DialogType::EditPlanet(4))),
        Err(ElenathError::BodyNotFound)
    );
    assert_eq!(
        gui.handle_message(GuiMessage::PlanetDialogPrepared(PlanetDialogParts {
            planet: Some((2, planet("Earth", 149_598, 3))),
            previous_planet: Ok(Some(99)),
            central_body: sun(),
            texts: planet_texts(),
        })),
        Ok(Action::Done)
    );
    assert_eq!(
        gui.dialog,
        Some(Dialog::Planet(
            PlanetDialog::edit(planet("Earth", 149_598, 3), 2, Some(99), sun(), planet_texts())
                .unwrap()
        ))
    );
}

#[test]
fn a_form_of_a_planet_that_could_not_be_prepared_opens_no_dialog() {
    let other = ElenathError::Generic("no colour".to_string());
    let mut texts = planet_texts();
    texts.color = Err(other.clone());
    let mut gui = viewer();
    assert_eq!(
        gui.handle_message(GuiMessage::PlanetDialogPrepared(PlanetDialogParts {
            planet: Some((2, planet("Earth", 149_598, 3))),
            previous_planet: Err(failure()),
            central_body: sun(),
            texts,
        })),
        Err(failure())
    );
    let mut texts = planet_texts();
    texts.color = Err(other.clone());
    assert_eq!(
        gui.handle_message(GuiMessage::PlanetDialogPrepared(PlanetDialogParts {
            planet: None,
            previous_planet: Ok(None),
            central_body: sun(),
            texts,
        })),
        Err(other)
    );
    assert_eq!(gui, viewer());
}

#[test]
fn the_form_of_a_star_is_prepared_by_the_caller() {
    let mut gui = viewer();
    gui.handle_message(GuiMessage::UpdateTime(7, vec![])).unwrap();
    assert_eq!(
        gui.handle_message(GuiMessage::OpenDialog(DialogType::NewStar)),
        Ok(Action::PrepareStarDialog { star: None, time_since_epoch: 7 })
    );
    assert_eq!(
        gui.handle_message(GuiMessage::OpenDialog(DialogType::EditStar(Some(1)))),
        Ok(Action::PrepareStarDialog {
            star: Some((Some(1), star("Vega", 3, 11).0)),
            time_since_epoch: 7
        })
    );
    assert_eq!(
        gui.handle_message(GuiMessage::OpenDialog(DialogType::EditStar(None))),
        Ok(Action::PrepareStarDialog { star: Some((None, sun())), time_since_epoch: 7 })
    );
    assert_eq!(
        gui.handle_message(GuiMessage::OpenDialog(DialogType::EditStar(Some(2)))),
        Err(ElenathError::BodyNotFound)
    );
    let (data, appearance) = star("Vega", 3, 11);
    assert_eq!(
        gui.handle_message(GuiMessage::StarDialogPrepared(StarDialogParts {
            star: Some((Some(1), DescribedStar { data: data.clone(), appearance: appearance.clone() })),
            time_since_epoch: 7,
            texts: star_texts(),
        })),
        Ok(Action::Done)
    );
    assert_eq!(
        gui.dialog,
        Some(Dialog::Star(StarDialog::edit(
            DescribedStar { data, appearance },
            Some(1),
            7,
            star_texts()
        )))
    );
    assert_eq!(
        gui.handle_message(GuiMessage::StarDialogPrepared(StarDialogParts {
            star: None,
            time_since_epoch: 7,
            texts: star_texts(),
        })),
        Ok(Action::Done)
    );
    assert_eq!(gui.dialog, Some(Dialog::Star(StarDialog::new(7, star_texts()))));
}

#[test]
fn a_star_that_is_only_seen_cannot_be_edited() {
    let mut gui = viewer();
    let same = |a: &StarAppearance, b: &StarAppearance| a.id == b.id;
    gui.celestial_system.as_mut().unwrap().add_star_appearances_without_duplicates(
        vec![StarAppearance { name: "Seen".to_string(), illuminance: 0, id: 40 }],
        &same,
    );
    assert_eq!(star_names(&gui), vec!["Sirius", "Seen", "Vega"]);
    assert_eq!(
        gui.handle_message(GuiMessage::OpenDialog(DialogType::EditStar(Some(1)))),
        Err(ElenathError::BodyNotFound)
    );
}

#[test]
fn the_open_dialog_hears_what_the_user_does() {
    let mut gui = viewer();
    gui.dialog = Some(Dialog::Planet(PlanetDialog::new(sun(), planet_texts()).unwrap()));
    assert_eq!(
        gui.handle_message(GuiMessage::DialogUpdate(DialogUpdate::PlanetUpdated(
            PlanetDialogEvent::NameChanged("Vulcan".to_string())
        ))),
        Ok(Action::Done)
    );
    assert_eq!(gui.handle_message(GuiMessage::DialogSubmit), Ok(Action::Done));
    assert_eq!(planet_names(&gui), vec!["Vulcan", "Mercury", "Venus", "Earth", "Mars"]);
    assert_eq!(gui.dialog, None);
    // Without a dialog nobody hears, and nothing is submitted.
    let before = planet_names(&gui);
    assert_eq!(
        gui.handle_message(GuiMessage::DialogUpdate(DialogUpdate::PlanetUpdated(
            PlanetDialogEvent::NameChanged("Nobody".to_string())
        ))),
        Ok(Action::Done)
    );
    assert_eq!(gui.handle_message(GuiMessage::DialogSubmit), Ok(Action::Done));
    assert_eq!(planet_names(&gui), before);
    assert_eq!(gui.dialog, None);
}

#[test]
fn a_submitted_dialog_on_a_star_changes_the_star() {
    let mut gui = viewer();
    let (data, appearance) = star("Vega", 3, 11);
    gui.dialog = Some(Dialog::Star(StarDialog::edit(
        DescribedStar { data, appearance },
        Some(1),
        0,
        star_texts(),
    )));
    let (brighter, brighter_appearance) = star("Vega", -500, 12);
    gui.handle_message(GuiMessage::DialogUpdate(DialogUpdate::StarUpdated(
        StarDialogEvent::LuminosityChanged(
            "-5".to_string(),
            Some(DescribedStar { data: brighter, appearance: brighter_appearance }),
        ),
    )))
    .unwrap();
    assert!(gui.can_handle(&GuiMessage::DialogSubmit));
    assert_eq!(gui.handle_message(GuiMessage::DialogSubmit), Ok(Action::Done));
    assert_eq!(star_names(&gui), vec!["Vega", "Sirius"]);
    assert_eq!(gui.dialog, None);
}

#[test]
fn a_submitted_dialog_fails_as_its_message_does() {
    let mut gui = Gui::new(ONE_DAY);
    gui.dialog = Some(Dialog::Planet(PlanetDialog::new(sun(), planet_texts()).unwrap()));
    assert_eq!(gui.handle_message(GuiMessage::DialogSubmit), Err(ElenathError::NoCelestialSystem));
    assert!(gui.dialog.is_some());
    assert_eq!(gui.update(GuiMessage::DialogSubmit), Action::Done);
    assert_eq!(gui.dialog, Some(Dialog::Error(ElenathError::NoCelestialSystem)));
    // The dialog that shows the error is closed when it is submitted.
    assert_eq!(gui.update(GuiMessage::DialogSubmit), Action::Done);
    assert_eq!(gui.dialog, None);
}

#[test]
fn a_dialog_is_closed() {
    let mut gui = viewer();
    gui.dialog = Some(Dialog::NewSystem);
    assert_eq!(gui.handle_message(GuiMessage::DialogClosed), Ok(Action::Done));
    assert_eq!(gui.dialog, None);
    assert_eq!(gui.celestial_system, viewer().celestial_system);
}

#[test]
fn an_error_that_is_met_is_shown_in_a_dialog() {
    let mut gui = viewer();
    gui.dialog = Some(Dialog::NewSystem);
    assert_eq!(gui.handle_message(GuiMessage::ErrorEncountered(failure())), Err(failure()));
    assert_eq!(gui.dialog, Some(Dialog::NewSystem));
    assert_eq!(gui.update(GuiMessage::ErrorEncountered(failure())), Action::Done);
    assert_eq!(gui.dialog, Some(Dialog::Error(failure())));
    assert!(!gui.surface_view_state.bodies_stale);
}

#[test]
fn an_update_hands_on_what_is_asked() {
    let mut gui = viewer();
    assert_eq!(gui.update(GuiMessage::OpenFile), Action::ChooseFileToOpen);
    assert_eq!(gui.dialog, None);
    assert_eq!(gui.update(GuiMessage::SetDisplayNames(false)), Action::Done);
    assert!(!gui.display_names);
}

#[test]
fn the_error_of_a_dialog_comes_before_every_message() {
    let broken = || {
        let mut dialog = PlanetDialog::new(sun(), planet_texts()).unwrap();
        dialog.error = Some(failure());
        dialog
    };
    let mut gui = viewer();
    gui.dialog = Some(Dialog::Planet(broken()));
    assert!(gui.can_handle(&GuiMessage::RandomizePlanets));
    assert_eq!(gui.handle_message(GuiMessage::SetDisplayNames(false)), Err(failure()));
    assert!(gui.display_names);
    assert_eq!(gui.handle_message(GuiMessage::DialogClosed), Err(failure()));
    assert_eq!(gui.dialog, Some(Dialog::Planet(broken())));
    assert_eq!(gui.update(GuiMessage::DialogClosed), Action::Done);
    assert_eq!(gui.dialog, Some(Dialog::Error(failure())));
    assert_eq!(gui.handle_message(GuiMessage::DialogClosed), Ok(Action::Done));
    assert_eq!(gui.dialog, None);
}

#[test]
fn the_error_of_a_dialog_on_a_star_comes_before_every_message_too() {
    let mut gui = viewer();
    gui.dialog = Some(Dialog::Star(StarDialog::new(0, star_texts())));
    gui.handle_message(GuiMessage::DialogUpdate(DialogUpdate::StarUpdated(
        StarDialogEvent::Randomize(Err(failure())),
    )))
    .unwrap();
    assert_eq!(gui.handle_message(GuiMessage::DialogSubmit), Err(failure()));
    assert_eq!(star_names(&gui), vec!["Sirius", "Vega"]);
}
