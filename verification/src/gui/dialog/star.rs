//! The dialog in which a star is made or changed.

use crate::error::ElenathError;
use crate::gui::dialog::DialogUpdate;
use crate::gui::message::GuiMessage;
use crate::model::star::StarAppearance;
use crate::model::star::StarData;
use crate::text::decimal;
use crate::text::decimal_text;
use vstd::prelude::*;
use vstd::string::StringExecFns;

verus! {

/// The greatest distance from the central body, in light years, at which the
/// dialog has a star made at random.
pub const RANDOM_STAR_MAX_DISTANCE: u32 = 2000;

/// What the fields of the dialog show for a star.
#[derive(Debug, PartialEq, Eq)]
pub struct StarTexts {
    pub mass: String,
    pub radius: String,
    pub luminosity: String,
    pub temperature: String,
    pub age: String,
    pub distance: String,
    pub longitude: String,
    pub latitude: String,
}

/// A star and what it looks like.
#[derive(Debug, PartialEq, Eq)]
pub struct DescribedStar {
    pub data: StarData,
    pub appearance: StarAppearance,
}

/// What the user did in the dialog. An event on a field holds the text that
/// the field now shows and, where that text holds a value, the star with
/// that value.
#[derive(Debug, PartialEq, Eq)]
pub enum StarDialogEvent {
    NameChanged(String),
    MassChanged(String, Option<DescribedStar>),
    RadiusChanged(String, Option<DescribedStar>),
    LuminosityChanged(String, Option<DescribedStar>),
    TemperatureChanged(String, Option<DescribedStar>),
    AgeChanged(String, Option<DescribedStar>),
    DistanceChanged(String, Option<DescribedStar>),
    LongitudeChanged(String, Option<DescribedStar>),
    LatitudeChanged(String, Option<DescribedStar>),
    ConstellationChanged(String),
    /// What came of making a star at random: the star and what the fields
    /// show for it, or why none was made.
    Randomize(Result<(DescribedStar, StarTexts), ElenathError>),
}

#[derive(Debug, Clone, Copy, PartialEq, Eq, Structural)]
pub enum StarDialogType {
    New,
    Edit,
}

#[derive(Debug, PartialEq, Eq)]
pub struct StarDialog {
    pub star_dialog_type: StarDialogType,
    pub star: StarData,
    pub appearance: StarAppearance,
    /// The place of the star among the distant stars; `None` for a new star
    /// and for the central body.
    pub star_index: Option<usize>,
    pub time_since_epoch: i64,
    pub mass_string: String,
    pub radius_string: String,
    pub luminosity_string: String,
    pub temperature_string: String,
    pub age_string: String,
    pub distance_string: String,
    pub longitude_string: String,
    pub latitude_string: String,
    pub error: Option<ElenathError>,
}

impl StarDialog {
    /// Whether every field shows the text that `texts` has for it.
    pub open spec fn shows(&self, texts: StarTexts) -> bool {
        &&& self.mass_string == texts.mass
        &&& self.radius_string == texts.radius
        &&& self.luminosity_string == texts.luminosity
        &&& self.temperature_string == texts.temperature
        &&& self.age_string == texts.age
        &&& self.distance_string == texts.distance
        &&& self.longitude_string == texts.longitude
        &&& self.latitude_string == texts.latitude
    }

    /// The dialog with its fields filled from `texts`.
    pub open spec fn filled(self, texts: StarTexts) -> Self {
        StarDialog {
            mass_string: texts.mass,
            radius_string: texts.radius,
            luminosity_string: texts.luminosity,
            temperature_string: texts.temperature,
            age_string: texts.age,
            distance_string: texts.distance,
            longitude_string: texts.longitude,
            latitude_string: texts.latitude,
            ..self
        }
    }

    /// The dialog on a new star, which is blank, its fields filled from
    /// `texts`.
    pub fn new(time_since_epoch: i64, texts: StarTexts) -> (dialog: Self)
        ensures
            dialog.star_dialog_type == StarDialogType::New,
            dialog.star.is_blank(),
            dialog.appearance.is_blank(),
            dialog.star_index.is_none(),
            dialog.time_since_epoch == time_since_epoch,
            dialog.error.is_none(),
            dialog.shows(texts),
    {
        StarDialog {
            star_dialog_type: StarDialogType::New,
            star: StarData::blank(),
            appearance: StarAppearance::blank(),
            star_index: None,
            time_since_epoch,
            mass_string: texts.mass,
            radius_string: texts.radius,
            luminosity_string: texts.luminosity,
            temperature_string: texts.temperature,
            age_string: texts.age,
            distance_string: texts.distance,
            longitude_string: texts.longitude,
            latitude_string: texts.latitude,
            error: None,
        }
    }

    /// The dialog on the distant star at `star_index`, or on the central
    /// body where `star_index` is `None`, its fields filled from `texts`.
    pub fn edit(
        star: DescribedStar,
        star_index: Option<usize>,
        time_since_epoch: i64,
        texts: StarTexts,
    ) -> (dialog: Self)
        ensures
            dialog.star_dialog_type == StarDialogType::Edit,
            dialog.star == star.data,
            dialog.appearance == star.appearance,
            dialog.star_index == star_index,
            dialog.time_since_epoch == time_since_epoch,
            dialog.error.is_none(),
            dialog.shows(texts),
    {
        StarDialog {
            star_dialog_type: StarDialogType::Edit,
            star: star.data,
            appearance: star.appearance,
            star_index,
            time_since_epoch,
            mass_string: texts.mass,
            radius_string: texts.radius,
            luminosity_string: texts.luminosity,
            temperature_string: texts.temperature,
            age_string: texts.age,
            distance_string: texts.distance,
            longitude_string: texts.longitude,
            latitude_string: texts.latitude,
            error: None,
        }
    }

    /// Fills the fields from `texts`.
    pub fn fill_string_members(&mut self, texts: StarTexts)
        ensures
            *final(self) == old(self).filled(texts),
    {
        self.mass_string = texts.mass;
        self.radius_string = texts.radius;
        self.luminosity_string = texts.luminosity;
        self.temperature_string = texts.temperature;
        self.age_string = texts.age;
        self.distance_string = texts.distance;
        self.longitude_string = texts.longitude;
        self.latitude_string = texts.latitude;
    }

    /// Whether the dialog is on the central body: it changes a star that has
    /// no place among the distant stars. The fields of distance, longitude,
    /// latitude and constellation are not for the central body.
    pub open spec fn on_central_body(&self) -> bool {
        self.star_dialog_type == StarDialogType::Edit && self.star_index.is_none()
    }

    pub fn is_central_body(&self) -> (central: bool)
        ensures
            central == self.on_central_body(),
    {
        self.star_dialog_type == StarDialogType::Edit && self.star_index.is_none()
    }

    /// The words above the dialog.
    pub open spec fn header_of(&self) -> Seq<char> {
        match self.star_index {
            Some(index) => "Edit Star "@ + decimal(index as nat),
            None => "Create Star"@,
        }
    }

    pub fn header(&self) -> (header: String)
        ensures
            header@ == self.header_of(),
    {
        match self.star_index {
            Some(index) => {
                let mut header = String::from_str("Edit Star ");
                let number = decimal_text(index);
                header.append(number.as_str());
                header
            },
            None => String::from_str("Create Star"),
        }
    }

    /// The dialog with the star of `parsed`, where there is one.
    pub open spec fn with_star(self, parsed: Option<DescribedStar>) -> Self {
        match parsed {
            Some(star) => StarDialog { star: star.data, appearance: star.appearance, ..self },
            None => self,
        }
    }

    /// The dialog after `event`.
    ///
    /// The text of a field is taken as it comes, and the star follows where
    /// the text holds a value. A name is the star's and its appearance's. An
    /// empty text means no constellation. A star made at random keeps the
    /// name that the dialog had, and the fields are filled for it; where none
    /// could be made, the dialog keeps the error and nothing else changes.
    pub open spec fn updated(self, event: StarDialogEvent) -> Self {
        match event {
            StarDialogEvent::NameChanged(name) => StarDialog {
                star: StarData { name, ..self.star },
                appearance: StarAppearance { name, ..self.appearance },
                ..self
            },
            StarDialogEvent::MassChanged(text, parsed) => StarDialog {
                mass_string: text,
                ..self.with_star(parsed)
            },
            StarDialogEvent::RadiusChanged(text, parsed) => StarDialog {
                radius_string: text,
                ..self.with_star(parsed)
            },
            StarDialogEvent::LuminosityChanged(text, parsed) => StarDialog {
                luminosity_string: text,
                ..self.with_star(parsed)
            },
            StarDialogEvent::TemperatureChanged(text, parsed) => StarDialog {
                temperature_string: text,
                ..self.with_star(parsed)
            },
            StarDialogEvent::AgeChanged(text, parsed) => StarDialog {
                age_string: text,
                ..self.with_star(parsed)
            },
            StarDialogEvent::DistanceChanged(text, parsed) => StarDialog {
                distance_string: text,
                ..self.with_star(parsed)
            },
            StarDialogEvent::LongitudeChanged(text, parsed) => StarDialog {
                longitude_string: text,
                ..self.with_star(parsed)
            },
            StarDialogEvent::LatitudeChanged(text, parsed) => StarDialog {
                latitude_string: text,
                ..self.with_star(parsed)
            },
            StarDialogEvent::ConstellationChanged(constellation) => StarDialog {
                star: StarData {
                    constellation: if constellation@.len() == 0 {
                        None
                    } else {
                        Some(constellation)
                    },
                    ..self.star
                },
                ..self
            },
            StarDialogEvent::Randomize(made) => match made {
                Ok((star, texts)) => StarDialog {
                    star: StarData { name: self.star.name, ..star.data },
                    appearance: StarAppearance { name: self.star.name, ..star.appearance },
                    ..self
                }.filled(texts),
                Err(e) => StarDialog { error: Some(e), ..self },
            },
        }
    }

    fn take_star(&mut self, parsed: Option<DescribedStar>)
        ensures
            *final(self) == old(self).with_star(parsed),
    {
        if let Some(star) = parsed {
            self.star = star.data;
            self.appearance = star.appearance;
        }
    }

    /// Takes in what the user did. A message for another dialog changes
    /// nothing.
    pub fn update(&mut self, message: DialogUpdate)
        ensures
            *final(self) == match message {
                DialogUpdate::StarUpdated(event) => old(self).updated(event),
                _ => *old(self),
            },
    {
        if let DialogUpdate::StarUpdated(event) = message {
            match event {
                StarDialogEvent::NameChanged(name) => {
                    self.appearance.name = name.clone();
                    self.star.name = name;
                },
                StarDialogEvent::MassChanged(mass_string, parsed) => {
                    self.take_star(parsed);
                    self.mass_string = mass_string;
                },
                StarDialogEvent::RadiusChanged(radius_string, parsed) => {
                    self.take_star(parsed);
                    self.radius_string = radius_string;
                },
                StarDialogEvent::LuminosityChanged(luminosity_string, parsed) => {
                    self.take_star(parsed);
                    self.luminosity_string = luminosity_string;
                },
                StarDialogEvent::TemperatureChanged(temperature_string, parsed) => {
                    self.take_star(parsed);
                    self.temperature_string = temperature_string;
                },
                StarDialogEvent::AgeChanged(age_string, parsed) => {
                    self.take_star(parsed);
                    self.age_string = age_string;
                },
                StarDialogEvent::DistanceChanged(distance_string, parsed) => {
                    self.take_star(parsed);
                    self.distance_string = distance_string;
                },
                StarDialogEvent::LongitudeChanged(longitude_string, parsed) => {
                    self.take_star(parsed);
                    self.longitude_string = longitude_string;
                },
                StarDialogEvent::LatitudeChanged(latitude_string, parsed) => {
                    self.take_star(parsed);
                    self.latitude_string = latitude_string;
                },
                StarDialogEvent::ConstellationChanged(constellation) => {
                    if constellation.as_str().unicode_len() == 0 {
                        self.star.constellation = None;
                    } else {
                        self.star.constellation = Some(constellation);
                    }
                },
                StarDialogEvent::Randomize(made) => {
                    match made {
                        Ok((star, texts)) => {
                            let name = self.star.name.clone();
                            self.star = star.data;
                            self.appearance = star.appearance;
                            self.appearance.name = name.clone();
                            self.star.name = name;
                            self.fill_string_members(texts);
                        },
                        Err(e) => {
                            self.error = Some(e);
                        },
                    }
                },
            }
        }
    }

    /// What the dialog asks for when it is submitted: the star to be put in
    /// its place, or to be added where it is new.
    pub fn on_submit(&self) -> (message: GuiMessage)
        ensures
            message == match self.star_dialog_type {
                StarDialogType::Edit => GuiMessage::StarEdited(
                    self.star_index,
                    self.star,
                    self.appearance,
                ),
                StarDialogType::New => GuiMessage::NewStar(self.star, self.appearance),
            },
    {
        match self.star_dialog_type {
            StarDialogType::Edit => GuiMessage::StarEdited(
                self.star_index,
                self.star.clone(),
                self.appearance.clone(),
            ),
            StarDialogType::New => GuiMessage::NewStar(self.star.clone(), self.appearance.clone()),
        }
    }

    pub fn get_error(&self) -> (error: Option<ElenathError>)
        ensures
            error == self.error,
    {
        match &self.error {
            Some(e) => Some(e.clone()),
            None => None,
        }
    }
}

} // verus!
