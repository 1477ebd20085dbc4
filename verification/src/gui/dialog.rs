//! The dialogs that lie over the viewer.

pub mod planet;
pub mod randomize_stars;
pub mod star;

use crate::error::ElenathError;
use crate::gui::dialog::planet::PlanetDialog;
use crate::gui::dialog::planet::PlanetDialogEvent;
use crate::gui::dialog::randomize_stars::RandomizeStarsDialog;
use crate::gui::dialog::randomize_stars::RandomizeStarsDialogEvent;
use crate::gui::dialog::star::StarDialog;
use crate::gui::dialog::star::StarDialogEvent;
use crate::gui::message::GuiMessage;
use crate::model::star::StarDataType;
use vstd::prelude::*;

verus! {

/// The dialogs that can be asked for.
#[derive(Debug, Clone, Copy, PartialEq, Eq)]
pub enum DialogType {
    NewSystem,
    NewPlanet,
    EditPlanet(usize),
    NewStar,
    EditStar(Option<usize>),
    RandomizePlanets,
    LoadRealPlanets,
    RandomizeStars,
    LoadGaiaData,
}

/// What the user did in a dialog.
#[derive(Debug, PartialEq, Eq)]
pub enum DialogUpdate {
    PlanetUpdated(PlanetDialogEvent),
    StarUpdated(StarDialogEvent),
    RandmoizeStarsUpdated(RandomizeStarsDialogEvent),
    /// The user chose where the real stars are to be taken from.
    LoadRealStarsUpdated(StarDataType),
}

/// The dialog that is open.
#[derive(Debug, PartialEq, Eq)]
pub enum Dialog {
    NewSystem,
    Planet(PlanetDialog),
    Star(StarDialog),
    RandomizePlanets,
    LoadRealPlanets,
    RandomizeStars(RandomizeStarsDialog),
    /// The dialog that loads real stars, with the source that is chosen.
    LoadRealStars(StarDataType),
    /// The dialog that shows an error.
    Error(ElenathError),
}

impl Dialog {
    /// The error that the dialog has run into, if it has.
    pub open spec fn error_of(&self) -> Option<ElenathError> {
        match self {
            Dialog::Planet(dialog) => dialog.error,
            Dialog::Star(dialog) => dialog.error,
            _ => None,
        }
    }

    pub fn get_error(&self) -> (error: Option<ElenathError>)
        ensures
            error == self.error_of(),
    {
        match self {
            Dialog::Planet(dialog) => dialog.get_error(),
            Dialog::Star(dialog) => dialog.get_error(),
            _ => None,
        }
    }

    /// The dialog after `message`. A message for another dialog changes
    /// nothing.
    pub open spec fn updated(self, message: DialogUpdate) -> Self {
        match self {
            Dialog::Planet(dialog) => match message {
                DialogUpdate::PlanetUpdated(event) => Dialog::Planet(dialog.updated(event)),
                _ => self,
            },
            Dialog::Star(dialog) => match message {
                DialogUpdate::StarUpdated(event) => Dialog::Star(dialog.updated(event)),
                _ => self,
            },
            Dialog::RandomizeStars(dialog) => Dialog::RandomizeStars(dialog.updated(message)),
            Dialog::LoadRealStars(_) => match message {
                DialogUpdate::LoadRealStarsUpdated(data_type) => Dialog::LoadRealStars(data_type),
                _ => self,
            },
            _ => self,
        }
    }

    pub fn update(&mut self, message: DialogUpdate)
        ensures
            *final(self) == old(self).updated(message),
    {
        match self {
            Dialog::Planet(dialog) => {
                dialog.update(message);
            },
            Dialog::Star(dialog) => {
                dialog.update(message);
            },
            Dialog::RandomizeStars(dialog) => {
                dialog.update(message);
            },
            Dialog::LoadRealStars(data_type) => {
                if let DialogUpdate::LoadRealStarsUpdated(chosen) = message {
                    *data_type = chosen;
                }
            },
            _ => {},
        }
    }

    /// What the dialog asks for when it is submitted.
    pub open spec fn submission(&self) -> GuiMessage {
        match self {
            Dialog::NewSystem => GuiMessage::NewSystem,
            Dialog::Planet(dialog) => match dialog.planet_index {
                Some(index) => GuiMessage::PlanetEdited(index, dialog.planet),
                None => GuiMessage::NewPlanet(dialog.planet),
            },
            Dialog::Star(dialog) => match dialog.star_dialog_type {
                crate::gui::dialog::star::StarDialogType::Edit => GuiMessage::StarEdited(
                    dialog.star_index,
                    dialog.star,
                    dialog.appearance,
                ),
                crate::gui::dialog::star::StarDialogType::New => GuiMessage::NewStar(
                    dialog.star,
                    dialog.appearance,
                ),
            },
            Dialog::RandomizePlanets => GuiMessage::RandomizePlanets,
            Dialog::LoadRealPlanets => GuiMessage::LoadRealPlanets,
            Dialog::RandomizeStars(dialog) => GuiMessage::RandomizeStars(
                dialog.keep_central_body,
                crate::gui::dialog::randomize_stars::max_generation_distance_of(
                    dialog.generation_distance,
                ),
            ),
            Dialog::LoadRealStars(data_type) => GuiMessage::LoadStars(*data_type),
            Dialog::Error(_) => GuiMessage::DialogClosed,
        }
    }

    pub fn on_submit(&self) -> (message: GuiMessage)
        ensures
            message == self.submission(),
    {
        match self {
            Dialog::NewSystem => GuiMessage::NewSystem,
            Dialog::Planet(dialog) => dialog.on_submit(),
            Dialog::Star(dialog) => dialog.on_submit(),
            Dialog::RandomizePlanets => GuiMessage::RandomizePlanets,
            Dialog::LoadRealPlanets => GuiMessage::LoadRealPlanets,
            Dialog::RandomizeStars(dialog) => dialog.on_submit(),
            Dialog::LoadRealStars(data_type) => GuiMessage::LoadStars(*data_type),
            Dialog::Error(_) => GuiMessage::DialogClosed,
        }
    }
}

} // verus!
