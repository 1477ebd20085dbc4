//! The messages that the viewer takes, and what it asks of its caller.

use crate::error::ElenathError;
use crate::gui::dialog::planet::PlanetDialog;
use crate::gui::dialog::randomize_stars::GenerationDistance;
use crate::gui::dialog::randomize_stars::RandomizeStarsDialog;
use crate::gui::dialog::star::StarDialog;
use crate::gui::dialog::star::StarDialogType;
use crate::gui::dialog::Dialog;
use crate::gui::table_view::widget::TableViewState;
use crate::gui::Gui;
use crate::model::celestial_system::described_stars;
use crate::model::celestial_system::is_judgement;
use crate::model::celestial_system::StarSource;
use crate::model::celestial_system::in_brightness_order;
use crate::model::celestial_system::in_orbit_order;
use crate::model::celestial_system::reappeared;
use crate::model::star::DistantStar;
use crate::gui::dialog::planet::PlanetTexts;
use crate::gui::dialog::star::DescribedStar;
use crate::gui::dialog::star::StarTexts;
use crate::gui::dialog::DialogType;
use crate::gui::dialog::DialogUpdate;
use crate::gui::gui_widget::GuiViewMode;
use crate::gui::table_view::col_data::TableDataType;
use crate::model::celestial_system::CelestialSystem;
use crate::model::planet::PlanetData;
use crate::model::star::StarAppearance;
use crate::model::star::StarData;
use crate::model::star::StarDataType;
use vstd::prelude::*;

verus! {

/// What the caller has worked out for the dialog on a planet.
#[derive(Debug, PartialEq, Eq)]
pub struct PlanetDialogParts {
    /// The planet that is changed, with its place; `None` for a new planet.
    pub planet: Option<(usize, PlanetData)>,
    /// The id of what was worked out of the planet on the next orbit inward,
    /// where there is such a planet, or why that could not be worked out.
    pub previous_planet: Result<Option<u64>, ElenathError>,
    pub central_body: StarData,
    pub texts: PlanetTexts,
}

/// What the caller has worked out for the dialog on a star.
#[derive(Debug, PartialEq, Eq)]
pub struct StarDialogParts {
    /// The star that is changed, with its place, which is `None` for the
    /// central body; `None` for a new star.
    pub star: Option<(Option<usize>, DescribedStar)>,
    pub time_since_epoch: i64,
    pub texts: StarTexts,
}

/// What happens to the viewer: what its user does, and what its caller
/// answers when it was asked to do something.
#[derive(Debug, PartialEq, Eq)]
pub enum GuiMessage {
    /// The user turned the surface view. The caller keeps that view.
    UpdateSurfaceView,
    /// The user turned the top view. The caller keeps that view.
    UpdateTopView,
    NewSystem,
    SaveToFile,
    SaveToNewFile,
    OpenFile,
    ModeSelected(GuiViewMode),
    NewPlanet(PlanetData),
    PlanetEdited(usize, PlanetData),
    NewStar(StarData, StarAppearance),
    StarEdited(Option<usize>, StarData, StarAppearance),
    /// The time that the system moves to, and what its distant stars look
    /// like then, place by place, where their look has changed.
    UpdateTime(i64, Vec<Option<StarAppearance>>),
    UpdateTimeStep(i64),
    PlanetSelected(String),
    SetDisplayNames(bool),
    SetDisplayConstellations(bool),
    TableDataTypeSelected(TableDataType),
    RandomizePlanets,
    LoadRealPlanets,
    /// Whether the central body is kept, and the greatest distance of the
    /// new stars in light years.
    RandomizeStars(bool, u32),
    LoadStars(StarDataType),
    OpenDialog(DialogType),
    DialogUpdate(DialogUpdate),
    DialogSubmit,
    DialogClosed,
    ErrorEncountered(ElenathError),
    /// The answer to `Action::ChooseFileToSave`: the path that the user
    /// chose, if any.
    FileToSaveChosen(Option<String>),
    /// The answer to `Action::ChooseFileToOpen`.
    FileToOpenChosen(Option<String>),
    /// The answer to `Action::WriteFile`.
    FileWritten(Result<(), ElenathError>),
    /// The answer to `Action::ReadFile`.
    FileRead(Result<CelestialSystem, ElenathError>),
    /// The answer to `Action::FetchRealPlanets`.
    RealPlanetsFetched(Vec<PlanetData>),
    /// The answer to `Action::MakeRandomStars`: what came of making a
    /// central body, where one was asked for, and of making the stars.
    RandomStarsMade(
        Option<Result<StarData, ElenathError>>,
        Result<Vec<(StarData, StarAppearance)>, ElenathError>,
    ),
    /// The answer to `Action::LoadStars`: what came of loading the stars
    /// into the system.
    StarsLoaded(Result<(), ElenathError>),
    /// The answer to `Action::PreparePlanetDialog`.
    PlanetDialogPrepared(PlanetDialogParts),
    /// The answer to `Action::PrepareStarDialog`.
    StarDialogPrepared(StarDialogParts),
}

/// What the viewer asks of its caller after a message. The caller does it
/// and answers with the message that is named.
#[derive(Debug, PartialEq, Eq)]
pub enum Action {
    /// Nothing is left to do.
    Done,
    /// Turn the surface view as the user asked.
    ChangeSurfaceView,
    /// Turn the top view as the user asked.
    ChangeTopView,
    /// Ask the user for the path of a new file; answer with
    /// `FileToSaveChosen`.
    ChooseFileToSave,
    /// Ask the user for the path of a file; answer with `FileToOpenChosen`.
    ChooseFileToOpen,
    /// Write the system to the file at the path; answer with `FileWritten`.
    WriteFile(String),
    /// Read a system from the file at the path; answer with `FileRead`.
    ReadFile(String),
    /// Answer with the planets of the solar system, in `RealPlanetsFetched`.
    FetchRealPlanets,
    /// Make stars at random, and a central body unless it is kept; answer
    /// with `RandomStarsMade`.
    MakeRandomStars { keep_central_body: bool, max_distance: u32 },
    /// Fetch the real stars and load them into the system; answer with
    /// `StarsLoaded`.
    LoadStars(StarDataType),
    /// Work out what the dialog on a planet shows; answer with
    /// `PlanetDialogPrepared`. `planet` is the planet that is changed, with
    /// its place, and `None` for a new planet. `previous_planet` is the
    /// planet on the next orbit inward.
    PreparePlanetDialog {
        planet: Option<(usize, PlanetData)>,
        previous_planet: Option<PlanetData>,
        central_body: StarData,
    },
    /// Work out what the dialog on a star shows; answer with
    /// `StarDialogPrepared`. `star` is the star that is changed, with its
    /// place, and `None` for a new star.
    PrepareStarDialog { star: Option<(Option<usize>, StarData)>, time_since_epoch: i64 },
}

/// The dialog that a request for a dialog without a form opens at once;
/// `None` for the dialogs on planets and stars, whose forms the caller has
/// to prepare.
pub open spec fn plain_dialog_of(dialog_type: DialogType) -> Option<Dialog> {
    match dialog_type {
        DialogType::NewSystem => Some(Dialog::NewSystem),
        DialogType::RandomizePlanets => Some(Dialog::RandomizePlanets),
        DialogType::LoadRealPlanets => Some(Dialog::LoadRealPlanets),
        DialogType::RandomizeStars => Some(
            Dialog::RandomizeStars(
                RandomizeStarsDialog {
                    keep_central_body: true,
                    generation_distance: GenerationDistance::Decent,
                },
            ),
        ),
        DialogType::LoadGaiaData => Some(Dialog::LoadRealStars(StarDataType::Hardcoded)),
        _ => None,
    }
}

/// What a request for a dialog on a planet or a star asks of the caller,
/// given the system: to prepare the form, or the error that says that the
/// body is not there.
pub open spec fn form_request_of(system: CelestialSystem, dialog_type: DialogType) -> Result<
    Action,
    ElenathError,
> {
    match dialog_type {
        DialogType::NewPlanet => Ok(
            Action::PreparePlanetDialog {
                planet: None,
                previous_planet: None,
                central_body: system.central_body(),
            },
        ),
        DialogType::EditPlanet(index) => if index < system.planets().len() {
            Ok(
                Action::PreparePlanetDialog {
                    planet: Some((index, system.planets()[index as int])),
                    previous_planet: if index > 0 {
                        Some(system.planets()[index - 1])
                    } else {
                        None
                    },
                    central_body: system.central_body(),
                },
            )
        } else {
            Err(ElenathError::BodyNotFound)
        },
        DialogType::NewStar => Ok(
            Action::PrepareStarDialog { star: None, time_since_epoch: system.time_since_epoch() },
        ),
        DialogType::EditStar(index) => match system.star_data(index) {
            Some(star) => Ok(
                Action::PrepareStarDialog {
                    star: Some((index, star)),
                    time_since_epoch: system.time_since_epoch(),
                },
            ),
            None => Err(ElenathError::BodyNotFound),
        },
        _ => Ok(Action::Done),
    }
}

impl Gui {
    /// The error that the open dialog has run into, if it has.
    pub open spec fn dialog_error(&self) -> Option<ElenathError> {
        match self.dialog {
            Some(dialog) => dialog.error_of(),
            None => None,
        }
    }

    /// Whether `message` can be applied: a body that is to be replaced must
    /// be in the system, and there is no way yet to make planets at random.
    pub open spec fn can_apply(&self, message: GuiMessage) -> bool {
        match self.celestial_system {
            None => true,
            Some(system) => match message {
                GuiMessage::RandomizePlanets => false,
                GuiMessage::PlanetEdited(index, _) => index < system.planets().len(),
                GuiMessage::StarEdited(Some(index), _, _) => index < system.distant_stars().len(),
                _ => true,
            },
        }
    }

    /// Whether the viewer takes `message` as it is now. A dialog that is
    /// submitted stands for the message that it asks for.
    pub open spec fn accepts(&self, message: GuiMessage) -> bool {
        self.dialog_error().is_some() || match message {
            GuiMessage::DialogSubmit => match self.dialog {
                Some(dialog) => self.can_apply(dialog.submission()),
                None => true,
            },
            _ => self.can_apply(message),
        }
    }

    fn is_applicable(&self, message: &GuiMessage) -> (yes: bool)
        ensures
            yes == self.can_apply(*message),
    {
        match &self.celestial_system {
            None => true,
            Some(system) => match message {
                GuiMessage::RandomizePlanets => false,
                GuiMessage::PlanetEdited(index, _) => *index < system.number_of_planets(),
                GuiMessage::StarEdited(Some(index), _, _) => *index
                    < system.number_of_distant_stars(),
                _ => true,
            },
        }
    }

    /// Whether the viewer takes `message` as it is now.
    pub fn can_handle(&self, message: &GuiMessage) -> (yes: bool)
        ensures
            yes == self.accepts(*message),
    {
        if let Some(dialog) = &self.dialog {
            if dialog.get_error().is_some() {
                return true;
            }
        }
        match message {
            GuiMessage::DialogSubmit => match &self.dialog {
                Some(dialog) => {
                    let submitted = dialog.on_submit();
                    self.is_applicable(&submitted)
                },
                None => true,
            },
            _ => self.is_applicable(message),
        }
    }

    /// Whether `self` is `before` but for its system and its dialog.
    pub open spec fn keeps_all_but_system_and_dialog(self, before: Gui) -> bool {
        &&& self.opened_file == before.opened_file
        &&& self.mode == before.mode
        &&& self.surface_view_state == before.surface_view_state
        &&& self.top_view_state == before.top_view_state
        &&& self.table_view_state == before.table_view_state
        &&& self.time_step == before.time_step
        &&& self.selected_planet_name == before.selected_planet_name
        &&& self.display_names == before.display_names
        &&& self.display_constellations == before.display_constellations
    }

    /// A message that changes the system: without a system it fails and
    /// nothing changes. With one it is done; all but the system and the
    /// dialog stays as it is, and the dialog is closed or kept.
    pub open spec fn changes_system(
        before: Gui,
        after: Gui,
        result: Result<Action, ElenathError>,
        closes_dialog: bool,
    ) -> bool {
        match before.celestial_system {
            None => result == Err::<Action, ElenathError>(ElenathError::NoCelestialSystem)
                && after == before,
            Some(_) => {
                &&& result == Ok::<Action, ElenathError>(Action::Done)
                &&& after.celestial_system.is_some()
                &&& after.keeps_all_but_system_and_dialog(before)
                &&& after.dialog == if closes_dialog {
                    None
                } else {
                    before.dialog
                }
            },
        }
    }

    /// A message that asks for work on the system: without a system it
    /// fails. With one the caller is asked for `action`. Nothing changes.
    pub open spec fn asks_for(
        before: Gui,
        after: Gui,
        result: Result<Action, ElenathError>,
        action: Action,
    ) -> bool {
        &&& after == before
        &&& result == match before.celestial_system {
            None => Err::<Action, ElenathError>(ElenathError::NoCelestialSystem),
            Some(_) => Ok::<Action, ElenathError>(action),
        }
    }

    /// What applying `message` to `before` makes of it, and what comes back.
    /// The message is not the submission of a dialog.
    pub open spec fn applied(
        before: Gui,
        message: GuiMessage,
        after: Gui,
        result: Result<Action, ElenathError>,
    ) -> bool {
        match message {
            GuiMessage::UpdateSurfaceView => after == before && result == Ok::<
                Action,
                ElenathError,
            >(Action::ChangeSurfaceView),
            GuiMessage::UpdateTopView => after == before && result == Ok::<Action, ElenathError>(
                Action::ChangeTopView,
            ),
            GuiMessage::NewPlanet(planet) => {
                &&& Self::changes_system(before, after, result, true)
                &&& before.celestial_system matches Some(old_system) ==> {
                    &&& after.celestial_system.unwrap().planets() == in_orbit_order(
                        old_system.planets().push(planet),
                    )
                    &&& after.celestial_system.unwrap().differs_in_planets_only(&old_system)
                }
            },
            GuiMessage::PlanetEdited(index, planet) => {
                &&& Self::changes_system(before, after, result, true)
                &&& before.celestial_system matches Some(old_system) ==> {
                    &&& after.celestial_system.unwrap().planets() == in_orbit_order(
                        old_system.planets().update(index as int, planet),
                    )
                    &&& after.celestial_system.unwrap().differs_in_planets_only(&old_system)
                }
            },
            GuiMessage::NewStar(star, appearance) => {
                &&& Self::changes_system(before, after, result, true)
                &&& before.celestial_system matches Some(old_system) ==> {
                    &&& after.celestial_system.unwrap().distant_stars() == in_brightness_order(
                        old_system.distant_stars().push(
                            DistantStar { data: Some(star), appearance },
                        ),
                    )
                    &&& after.celestial_system.unwrap().differs_in_distant_stars_only(
                        &old_system,
                    )
                }
            },
            GuiMessage::StarEdited(index, star, appearance) => {
                &&& Self::changes_system(before, after, result, true)
                &&& before.celestial_system matches Some(old_system) ==> {
                    let new_system = after.celestial_system.unwrap();
                    &&& new_system.differs_in_stars_only(&old_system)
                    &&& match index {
                        Some(index) => new_system.central_body() == old_system.central_body()
                            && new_system.distant_stars() == in_brightness_order(
                            old_system.distant_stars().update(
                                index as int,
                                DistantStar { data: Some(star), appearance },
                            ),
                        ),
                        None => new_system.central_body() == star && new_system.distant_stars()
                            == in_brightness_order(old_system.distant_stars()),
                    }
                }
            },
            GuiMessage::NewSystem => {
                &&& result == Ok::<Action, ElenathError>(Action::Done)
                &&& after.keeps_all_but_system_and_dialog(before)
                &&& after.dialog.is_none()
                &&& after.celestial_system matches Some(system)
                &&& system.central_body().is_blank()
                &&& system.planets() == Seq::<PlanetData>::empty()
                &&& system.distant_stars() == Seq::<DistantStar>::empty()
                &&& system.time_since_epoch() == 0
            },
            GuiMessage::SaveToFile => {
                &&& after == before
                &&& result == match before.opened_file {
                    None => Ok::<Action, ElenathError>(Action::ChooseFileToSave),
                    Some(path) => match before.celestial_system {
                        None => Err::<Action, ElenathError>(ElenathError::NoCelestialSystem),
                        Some(_) => Ok::<Action, ElenathError>(Action::WriteFile(path)),
                    },
                }
            },
            GuiMessage::SaveToNewFile => after == before && result == Ok::<Action, ElenathError>(
                Action::ChooseFileToSave,
            ),
            GuiMessage::FileToSaveChosen(choice) => {
                &&& after == (Gui { opened_file: choice, ..before })
                &&& result == match choice {
                    None => Ok::<Action, ElenathError>(Action::Done),
                    Some(path) => match before.celestial_system {
                        None => Err::<Action, ElenathError>(ElenathError::NoCelestialSystem),
                        Some(_) => Ok::<Action, ElenathError>(Action::WriteFile(path)),
                    },
                }
            },
            GuiMessage::FileWritten(written) => {
                &&& after == before
                &&& result == match written {
                    Ok(_) => Ok::<Action, ElenathError>(Action::Done),
                    Err(e) => Err::<Action, ElenathError>(e),
                }
            },
            GuiMessage::OpenFile => after == before && result == Ok::<Action, ElenathError>(
                Action::ChooseFileToOpen,
            ),
            GuiMessage::FileToOpenChosen(choice) => {
                &&& after == (Gui { opened_file: choice, ..before })
                &&& result == match choice {
                    None => Ok::<Action, ElenathError>(Action::Done),
                    Some(path) => Ok::<Action, ElenathError>(Action::ReadFile(path)),
                }
            },
            GuiMessage::FileRead(read) => match read {
                Ok(system) => after == (Gui { celestial_system: Some(system), ..before })
                    && result == Ok::<Action, ElenathError>(Action::Done),
                Err(e) => after == before && result == Err::<Action, ElenathError>(e),
            },
            GuiMessage::ModeSelected(mode) => after == (Gui { mode, ..before }) && result == Ok::<
                Action,
                ElenathError,
            >(Action::Done),
            GuiMessage::UpdateTime(time, appearances) => {
                &&& Self::changes_system(before, after, result, false)
                &&& before.celestial_system matches Some(old_system) ==> {
                    let new_system = after.celestial_system.unwrap();
                    &&& new_system.time_since_epoch() == time
                    &&& new_system.distant_stars() == reappeared(
                        old_system.distant_stars(),
                        appearances@,
                    )
                    &&& new_system.central_body() == old_system.central_body()
                    &&& new_system.planets() == old_system.planets()
                }
            },
            GuiMessage::UpdateTimeStep(time_step) => after == (Gui { time_step, ..before })
                && result == Ok::<Action, ElenathError>(Action::Done),
            GuiMessage::PlanetSelected(name) => after == (Gui {
                selected_planet_name: name,
                ..before
            }) && result == Ok::<Action, ElenathError>(Action::Done),
            GuiMessage::SetDisplayNames(display_names) => after == (Gui {
                display_names,
                ..before
            }) && result == Ok::<Action, ElenathError>(Action::Done),
            GuiMessage::SetDisplayConstellations(display_constellations) => after == (Gui {
                display_constellations,
                ..before
            }) && result == Ok::<Action, ElenathError>(Action::Done),
            GuiMessage::TableDataTypeSelected(body_type) => after == (Gui {
                table_view_state: TableViewState { displayed_body_type: body_type },
                ..before
            }) && result == Ok::<Action, ElenathError>(Action::Done),
            GuiMessage::RandomizePlanets => after == before && result == Err::<
                Action,
                ElenathError,
            >(ElenathError::NoCelestialSystem),
            GuiMessage::LoadRealPlanets => Self::asks_for(
                before,
                after,
                result,
                Action::FetchRealPlanets,
            ),
            GuiMessage::RealPlanetsFetched(planets) => {
                &&& Self::changes_system(before, after, result, true)
                &&& before.celestial_system matches Some(old_system) ==> {
                    &&& after.celestial_system.unwrap().planets() == in_orbit_order(planets@)
                    &&& after.celestial_system.unwrap().differs_in_planets_only(&old_system)
                }
            },
            GuiMessage::RandomizeStars(keep_central_body, max_distance) => Self::asks_for(
                before,
                after,
                result,
                Action::MakeRandomStars { keep_central_body, max_distance },
            ),
            GuiMessage::RandomStarsMade(central_body, stars) => match before.celestial_system {
                None => after == before && result == Err::<Action, ElenathError>(
                    ElenathError::NoCelestialSystem,
                ),
                Some(old_system) => {
                    &&& after.keeps_all_but_system_and_dialog(before)
                    &&& after.celestial_system matches Some(new_system)
                    &&& match result {
                        Ok(action) => action == Action::Done && after.dialog.is_none()
                            && new_system.is_randomized_from(
                            &old_system,
                            central_body,
                            stars,
                            Ok(()),
                        ),
                        Err(e) => after.dialog == before.dialog && new_system.is_randomized_from(
                            &old_system,
                            central_body,
                            stars,
                            Err(e),
                        ),
                    }
                },
            },
            GuiMessage::LoadStars(data_type) => Self::asks_for(
                before,
                after,
                result,
                Action::LoadStars(data_type),
            ),
            GuiMessage::StarsLoaded(loaded) => match loaded {
                Ok(_) => after == (Gui { dialog: None, ..before }) && result == Ok::<
                    Action,
                    ElenathError,
                >(Action::Done),
                Err(e) => after == before && result == Err::<Action, ElenathError>(e),
            },
            GuiMessage::OpenDialog(dialog_type) => match plain_dialog_of(dialog_type) {
                Some(dialog) => after == (Gui { dialog: Some(dialog), ..before }) && result
                    == Ok::<Action, ElenathError>(Action::Done),
                None => after == before && result == match before.celestial_system {
                    None => Err::<Action, ElenathError>(ElenathError::NoCelestialSystem),
                    Some(system) => form_request_of(system, dialog_type),
                },
            },
            GuiMessage::PlanetDialogPrepared(parts) => match parts.previous_planet {
                Err(e) => after == before && result == Err::<Action, ElenathError>(e),
                Ok(previous_planet) => match PlanetDialog::first_failure(parts.texts) {
                    Some(e) => after == before && result == Err::<Action, ElenathError>(e),
                    None => {
                        &&& result == Ok::<Action, ElenathError>(Action::Done)
                        &&& after.keeps_all_but_system_and_dialog(before)
                        &&& after.celestial_system == before.celestial_system
                        &&& after.dialog matches Some(Dialog::Planet(dialog))
                        &&& dialog.previous_planet == match parts.planet {
                            Some(_) => previous_planet,
                            None => None,
                        }
                        &&& dialog.central_body == parts.central_body
                        &&& dialog.error.is_none()
                        &&& dialog.shows(parts.texts)
                        &&& match parts.planet {
                            Some((index, planet)) => dialog.planet == planet
                                && dialog.planet_index == Some(index),
                            None => dialog.planet.is_blank() && dialog.planet_index.is_none(),
                        }
                    },
                },
            },
            GuiMessage::StarDialogPrepared(parts) => {
                &&& result == Ok::<Action, ElenathError>(Action::Done)
                &&& after.keeps_all_but_system_and_dialog(before)
                &&& after.celestial_system == before.celestial_system
                &&& after.dialog matches Some(Dialog::Star(dialog))
                &&& dialog.time_since_epoch == parts.time_since_epoch
                &&& dialog.error.is_none()
                &&& dialog.shows(parts.texts)
                &&& match parts.star {
                    Some((index, star)) => dialog.star_dialog_type == StarDialogType::Edit
                        && dialog.star == star.data && dialog.appearance == star.appearance
                        && dialog.star_index == index,
                    None => dialog.star_dialog_type == StarDialogType::New
                        && dialog.star.is_blank() && dialog.appearance.is_blank()
                        && dialog.star_index.is_none(),
                }
            },
            GuiMessage::DialogUpdate(update) => after == (Gui {
                dialog: match before.dialog {
                    Some(dialog) => Some(dialog.updated(update)),
                    None => None,
                },
                ..before
            }) && result == Ok::<Action, ElenathError>(Action::Done),
            GuiMessage::DialogClosed => after == (Gui { dialog: None, ..before }) && result
                == Ok::<Action, ElenathError>(Action::Done),
            GuiMessage::ErrorEncountered(error) => after == before && result == Err::<
                Action,
                ElenathError,
            >(error),
            GuiMessage::DialogSubmit => false,
        }
    }

    /// Applies a message that is not the submission of a dialog.
    fn apply(&mut self, message: GuiMessage) -> (result: Result<Action, ElenathError>)
        requires
            old(self).can_apply(message),
            !(message is DialogSubmit),
        ensures
            Self::applied(*old(self), message, *final(self), result),
    {
        match message {
            GuiMessage::UpdateSurfaceView => Ok(Action::ChangeSurfaceView),
            GuiMessage::UpdateTopView => Ok(Action::ChangeTopView),
            GuiMessage::NewPlanet(planet) => {
                match &mut self.celestial_system {
                    Some(system) => {
                        system.add_planet_data(planet);
                    },
                    None => {
                        return Err(ElenathError::NoCelestialSystem);
                    },
                }
                self.dialog = None;
                Ok(Action::Done)
            },
            GuiMessage::PlanetEdited(index, planet_data) => {
                match &mut self.celestial_system {
                    Some(system) => {
                        system.overwrite_planet_data(index, planet_data);
                    },
                    None => {
                        return Err(ElenathError::NoCelestialSystem);
                    },
                }
                self.dialog = None;
                Ok(Action::Done)
            },
            GuiMessage::NewStar(star, appearance) => {
                match &mut self.celestial_system {
                    Some(system) => {
                        let ghost before = system.distant_stars();
                        let stars = vec![(star, appearance)];
                        proof {
                            assert(before + described_stars(stars@) =~= before.push(
                                DistantStar { data: Some(star), appearance },
                            ));
                        }
                        system.add_stars_from_data(stars);
                    },
                    None => {
                        return Err(ElenathError::NoCelestialSystem);
                    },
                }
                self.dialog = None;
                Ok(Action::Done)
            },
            GuiMessage::StarEdited(index, star_data, appearance) => {
                match &mut self.celestial_system {
                    Some(system) => {
                        system.overwrite_star_data(index, star_data, appearance);
                    },
                    None => {
                        return Err(ElenathError::NoCelestialSystem);
                    },
                }
                self.dialog = None;
                Ok(Action::Done)
            },
            GuiMessage::NewSystem => {
                self.celestial_system = Some(CelestialSystem::empty());
                self.dialog = None;
                Ok(Action::Done)
            },
            GuiMessage::SaveToFile => {
                match &self.opened_file {
                    None => Ok(Action::ChooseFileToSave),
                    Some(path) => {
                        if self.celestial_system.is_none() {
                            Err(ElenathError::NoCelestialSystem)
                        } else {
                            Ok(Action::WriteFile(path.clone()))
                        }
                    },
                }
            },
            GuiMessage::SaveToNewFile => Ok(Action::ChooseFileToSave),
            GuiMessage::FileToSaveChosen(choice) => {
                let result = match &choice {
                    None => Ok(Action::Done),
                    Some(path) => {
                        if self.celestial_system.is_none() {
                            Err(ElenathError::NoCelestialSystem)
                        } else {
                            Ok(Action::WriteFile(path.clone()))
                        }
                    },
                };
                self.opened_file = choice;
                result
            },
            GuiMessage::FileWritten(written) => {
                match written {
                    Ok(()) => Ok(Action::Done),
                    Err(e) => Err(e),
                }
            },
            GuiMessage::OpenFile => Ok(Action::ChooseFileToOpen),
            GuiMessage::FileToOpenChosen(choice) => {
                let result = match &choice {
                    None => Ok(Action::Done),
                    Some(path) => Ok(Action::ReadFile(path.clone())),
                };
                self.opened_file = choice;
                result
            },
            GuiMessage::FileRead(read) => {
                match read {
                    Ok(system) => {
                        self.celestial_system = Some(system);
                        Ok(Action::Done)
                    },
                    Err(e) => Err(e),
                }
            },
            GuiMessage::ModeSelected(mode) => {
                self.mode = mode;
                Ok(Action::Done)
            },
            GuiMessage::UpdateTime(time, appearances) => {
                match &mut self.celestial_system {
                    Some(system) => {
                        system.set_time_since_epoch(time, appearances);
                    },
                    None => {
                        return Err(ElenathError::NoCelestialSystem);
                    },
                }
                Ok(Action::Done)
            },
            GuiMessage::UpdateTimeStep(time_step) => {
                self.time_step = time_step;
                Ok(Action::Done)
            },
            GuiMessage::PlanetSelected(name) => {
                self.selected_planet_name = name;
                Ok(Action::Done)
            },
            GuiMessage::SetDisplayNames(display_names) => {
                self.display_names = display_names;
                Ok(Action::Done)
            },
            GuiMessage::SetDisplayConstellations(display_constellations) => {
                self.display_constellations = display_constellations;
                Ok(Action::Done)
            },
            GuiMessage::TableDataTypeSelected(body_type) => {
                self.table_view_state.displayed_body_type = body_type;
                Ok(Action::Done)
            },
            GuiMessage::RandomizePlanets => Err(ElenathError::NoCelestialSystem),
            GuiMessage::LoadRealPlanets => {
                match self.get_system_const() {
                    Ok(_) => Ok(Action::FetchRealPlanets),
                    Err(e) => Err(e),
                }
            },
            GuiMessage::RealPlanetsFetched(planets) => {
                match &mut self.celestial_system {
                    Some(system) => {
                        system.load_real_planets(planets);
                    },
                    None => {
                        return Err(ElenathError::NoCelestialSystem);
                    },
                }
                self.dialog = None;
                Ok(Action::Done)
            },
            GuiMessage::RandomizeStars(keep_central_body, max_distance) => {
                match self.get_system_const() {
                    Ok(_) => Ok(Action::MakeRandomStars { keep_central_body, max_distance }),
                    Err(e) => Err(e),
                }
            },
            GuiMessage::RandomStarsMade(central_body, stars) => {
                let done = match &mut self.celestial_system {
                    Some(system) => system.randomize_stars(central_body, stars),
                    None => {
                        return Err(ElenathError::NoCelestialSystem);
                    },
                };
                match done {
                    Ok(()) => {
                        self.dialog = None;
                        Ok(Action::Done)
                    },
                    Err(e) => Err(e),
                }
            },
            GuiMessage::LoadStars(data_type) => {
                match self.get_system_const() {
                    Ok(_) => Ok(Action::LoadStars(data_type)),
                    Err(e) => Err(e),
                }
            },
            GuiMessage::StarsLoaded(loaded) => {
                match loaded {
                    Ok(()) => {
                        self.dialog = None;
                        Ok(Action::Done)
                    },
                    Err(e) => Err(e),
                }
            },
            GuiMessage::OpenDialog(dialog_type) => self.open_dialog(dialog_type),
            GuiMessage::PlanetDialogPrepared(parts) => {
                let previous_planet = match parts.previous_planet {
                    Ok(previous_planet) => previous_planet,
                    Err(e) => {
                        return Err(e);
                    },
                };
                let made = match parts.planet {
                    Some((index, planet)) => PlanetDialog::edit(
                        planet,
                        index,
                        previous_planet,
                        parts.central_body,
                        parts.texts,
                    ),
                    None => PlanetDialog::new(parts.central_body, parts.texts),
                };
                match made {
                    Ok(dialog) => {
                        self.dialog = Some(Dialog::Planet(dialog));
                        Ok(Action::Done)
                    },
                    Err(e) => Err(e),
                }
            },
            GuiMessage::StarDialogPrepared(parts) => {
                let dialog = match parts.star {
                    Some((index, star)) => StarDialog::edit(
                        star,
                        index,
                        parts.time_since_epoch,
                        parts.texts,
                    ),
                    None => StarDialog::new(parts.time_since_epoch, parts.texts),
                };
                self.dialog = Some(Dialog::Star(dialog));
                Ok(Action::Done)
            },
            GuiMessage::DialogUpdate(update) => {
                if let Some(dialog) = &mut self.dialog {
                    dialog.update(update);
                }
                Ok(Action::Done)
            },
            GuiMessage::DialogClosed => {
                self.dialog = None;
                Ok(Action::Done)
            },
            GuiMessage::ErrorEncountered(error) => Err(error),
            GuiMessage::DialogSubmit => Ok(Action::Done),
        }
    }

    /// Opens a dialog, or asks the caller to prepare its form.
    fn open_dialog(&mut self, dialog_type: DialogType) -> (result: Result<Action, ElenathError>)
        ensures
            Self::applied(*old(self), GuiMessage::OpenDialog(dialog_type), *final(self), result),
    {
        match dialog_type {
            DialogType::NewSystem => {
                self.dialog = Some(Dialog::NewSystem);
                Ok(Action::Done)
            },
            DialogType::NewPlanet => {
                match self.get_system_const() {
                    Ok(celestial_system) => {
                        let central_body = celestial_system.get_central_body_data().clone();
                        Ok(
                            Action::PreparePlanetDialog {
                                planet: None,
                                previous_planet: None,
                                central_body,
                            },
                        )
                    },
                    Err(e) => Err(e),
                }
            },
            DialogType::EditPlanet(index) => {
                match self.get_system_const() {
                    Ok(celestial_system) => {
                        let central_body = celestial_system.get_central_body_data().clone();
                        let planet = match celestial_system.get_planet_data(index) {
                            Some(planet) => planet.clone(),
                            None => {
                                return Err(ElenathError::BodyNotFound);
                            },
                        };
                        let previous_planet = if index > 0 {
                            match celestial_system.get_planet_data(index - 1) {
                                Some(previous) => Some(previous.clone()),
                                None => None,
                            }
                        } else {
                            None
                        };
                        Ok(
                            Action::PreparePlanetDialog {
                                planet: Some((index, planet)),
                                previous_planet,
                                central_body,
                            },
                        )
                    },
                    Err(e) => Err(e),
                }
            },
            DialogType::NewStar => {
                match self.get_system_const() {
                    Ok(system) => Ok(
                        Action::PrepareStarDialog {
                            star: None,
                            time_since_epoch: system.get_time_since_epoch(),
                        },
                    ),
                    Err(e) => Err(e),
                }
            },
            DialogType::EditStar(index) => {
                match self.get_system_const() {
                    Ok(system) => {
                        match system.get_star_data(index) {
                            Some(star) => Ok(
                                Action::PrepareStarDialog {
                                    star: Some((index, star.clone())),
                                    time_since_epoch: system.get_time_since_epoch(),
                                },
                            ),
                            None => Err(ElenathError::BodyNotFound),
                        }
                    },
                    Err(e) => Err(e),
                }
            },
            DialogType::RandomizePlanets => {
                self.dialog = Some(Dialog::RandomizePlanets);
                Ok(Action::Done)
            },
            DialogType::LoadRealPlanets => {
                self.dialog = Some(Dialog::LoadRealPlanets);
                Ok(Action::Done)
            },
            DialogType::RandomizeStars => {
                self.dialog = Some(Dialog::RandomizeStars(RandomizeStarsDialog::new()));
                Ok(Action::Done)
            },
            DialogType::LoadGaiaData => {
                self.dialog = Some(Dialog::LoadRealStars(StarDataType::Hardcoded));
                Ok(Action::Done)
            },
        }
    }

    /// Loads real stars into the system, as `Action::LoadStars` asks. What
    /// comes back is the answer that `GuiMessage::StarsLoaded` carries.
    /// Without a system nothing is loaded.
    pub fn load_real_stars<F: Fn(&StarAppearance, &StarAppearance) -> bool>(
        &mut self,
        sun: StarData,
        source: StarSource,
        same: &F,
    ) -> (loaded: Result<(), ElenathError>)
        requires
            is_judgement(*same),
        ensures
            final(self).keeps_all_but_system_and_dialog(*old(self)),
            final(self).dialog == old(self).dialog,
            match old(self).celestial_system {
                None => loaded == Err::<(), ElenathError>(ElenathError::NoCelestialSystem)
                    && final(self).celestial_system.is_none(),
                Some(old_system) => final(self).celestial_system matches Some(new_system)
                    && new_system.has_real_stars_from(&old_system, sun, source, *same, loaded),
            },
    {
        match &mut self.celestial_system {
            Some(system) => system.load_real_stars(sun, source, same),
            None => Err(ElenathError::NoCelestialSystem),
        }
    }

    /// `after` as it was before the drawings of the views were declared
    /// stale: with the drawings of `before`.
    pub open spec fn with_drawings_of(self, before: Gui) -> Gui {
        Gui {
            surface_view_state: before.surface_view_state,
            top_view_state: before.top_view_state,
            ..self
        }
    }

    /// What handling `message` makes of `before`, and what comes back.
    ///
    /// Where the open dialog has run into an error, that error comes back
    /// and nothing changes. A dialog that is submitted stands for the
    /// message that it asks for; without a dialog nothing is submitted. Every
    /// other message is applied. Whenever a message is handled without an
    /// error, the drawing of the bodies in the view that is then shown is
    /// declared stale.
    pub open spec fn handled(
        before: Gui,
        message: GuiMessage,
        after: Gui,
        result: Result<Action, ElenathError>,
    ) -> bool {
        match before.dialog_error() {
            Some(e) => after == before && result == Err::<Action, ElenathError>(e),
            None => {
                let submitted = match message {
                    GuiMessage::DialogSubmit => match before.dialog {
                        Some(dialog) => Some(dialog.submission()),
                        None => None,
                    },
                    _ => Some(message),
                };
                match submitted {
                    None => after == before.redrawn() && result == Ok::<Action, ElenathError>(
                        Action::Done,
                    ),
                    Some(message) => {
                        &&& Self::applied(before, message, after.with_drawings_of(before), result)
                        &&& after == if result.is_ok() {
                            after.with_drawings_of(before).redrawn()
                        } else {
                            after.with_drawings_of(before)
                        }
                    },
                }
            },
        }
    }

    /// Handles a message and says what the caller is asked to do next, or
    /// what went wrong.
    pub fn handle_message(&mut self, message: GuiMessage) -> (result: Result<
        Action,
        ElenathError,
    >)
        requires
            old(self).accepts(message),
        ensures
            Self::handled(*old(self), message, *final(self), result),
    {
        if let Some(dialog) = &self.dialog {
            if let Some(e) = dialog.get_error() {
                return Err(e);
            }
        }
        let message = match message {
            GuiMessage::DialogSubmit => match &self.dialog {
                Some(dialog) => dialog.on_submit(),
                None => {
                    self.redraw();
                    return Ok(Action::Done);
                },
            },
            message => message,
        };
        let result = self.apply(message);
        proof {
            assert(self.with_drawings_of(*old(self)) == *self);
        }
        if result.is_ok() {
            self.redraw();
        }
        proof {
            let mid = final(self).with_drawings_of(*old(self));
            assert(mid.mode == self.mode);
        }
        result
    }

    /// Handles a message. Where that fails, the error is shown in a dialog,
    /// which takes the place of the dialog that was open.
    pub fn update(&mut self, message: GuiMessage) -> (action: Action)
        requires
            old(self).accepts(message),
        ensures
            Self::handled(*old(self), message, *final(self), Ok(action)) || {
                &&& action == Action::Done
                &&& final(self).dialog matches Some(Dialog::Error(e))
                &&& Self::handled(
                    *old(self),
                    message,
                    Gui { dialog: old(self).dialog, ..*final(self) },
                    Err(e),
                )
            },
    {
        let result = self.handle_message(message);
        match result {
            Ok(action) => action,
            Err(e) => {
                proof {
                    Self::lemma_failure_keeps_dialog(*old(self), message, *self, e);
                    assert((Gui { dialog: old(self).dialog, ..*self }) == *self);
                }
                self.dialog = Some(Dialog::Error(e));
                Action::Done
            },
        }
    }

    /// A message that fails leaves the dialog as it is.
    pub proof fn lemma_failure_keeps_dialog(
        before: Gui,
        message: GuiMessage,
        after: Gui,
        error: ElenathError,
    )
        requires
            Self::handled(before, message, after, Err(error)),
        ensures
            after.dialog == before.dialog,
    {
    }
}

} // verus!
