//! The dialog in which a planet is made or changed.

use crate::error::ElenathError;
use crate::gui::dialog::DialogUpdate;
use crate::gui::message::GuiMessage;
use crate::model::planet::PlanetData;
use crate::model::star::StarData;
use crate::text::decimal;
use crate::text::decimal_text;
use vstd::prelude::*;
use vstd::string::StringExecFns;

verus! {

/// What the fields of the dialog show for a planet. The texts of the colour
/// and of the rotation axis are made in a way that can fail.
#[derive(Debug, PartialEq, Eq)]
pub struct PlanetTexts {
    pub mass: String,
    pub radius: String,
    pub color: Result<String, ElenathError>,
    pub geometric_albedo: String,
    pub semi_major_axis: String,
    pub eccentricity: String,
    pub inclination: String,
    pub longitude_of_ascending_node: String,
    pub argument_of_periapsis: String,
    pub siderial_rotation_period: String,
    pub rotation_axis: Result<String, ElenathError>,
}

/// What the user did in the dialog. An event on a field holds the text that
/// the field now shows and, where that text holds a value, the planet with
/// that value.
#[derive(Debug, PartialEq, Eq)]
pub enum PlanetDialogEvent {
    NameChanged(String),
    MassChanged(String, Option<PlanetData>),
    RadiusChanged(String, Option<PlanetData>),
    ColorChanged(String, Option<PlanetData>),
    GeometricAlbedoChanged(String, Option<PlanetData>),
    SemiMajorAxisChanged(String, Option<PlanetData>),
    EccentricityChanged(String, Option<PlanetData>),
    InclinationChanged(String, Option<PlanetData>),
    LongitudeOfAscendingNodeChanged(String, Option<PlanetData>),
    ArgumentOfPeriapsisChanged(String, Option<PlanetData>),
    SiderialRotationPeriodChanged(String, Option<PlanetData>),
    RotationAxisChanged(String, Option<PlanetData>),
    /// A planet made at random, and what the fields show for it.
    Randomize(PlanetData, PlanetTexts),
}

#[derive(Debug, PartialEq, Eq)]
pub struct PlanetDialog {
    pub planet: PlanetData,
    /// The place of the planet in the system; `None` for a new planet.
    pub planet_index: Option<usize>,
    /// The id under which the caller keeps what it has worked out of the
    /// planet on the next orbit inward.
    pub previous_planet: Option<u64>,
    pub central_body: StarData,
    pub mass_string: String,
    pub radius_string: String,
    pub color_string: String,
    pub geometric_albedo_string: String,
    pub semi_major_axis_string: String,
    pub eccentricity_string: String,
    pub inclination_string: String,
    pub longitude_of_ascending_node_string: String,
    pub argument_of_periapsis_string: String,
    pub siderial_rotation_period_string: String,
    pub rotation_axis_string: String,
    pub error: Option<ElenathError>,
}

impl PlanetDialog {
    /// The dialog on `planet` with every field empty.
    pub open spec fn with_empty_fields(
        planet: PlanetData,
        planet_index: Option<usize>,
        previous_planet: Option<u64>,
        central_body: StarData,
        dialog: PlanetDialog,
    ) -> bool {
        &&& dialog.planet == planet
        &&& dialog.planet_index == planet_index
        &&& dialog.previous_planet == previous_planet
        &&& dialog.central_body == central_body
        &&& dialog.mass_string@ == Seq::<char>::empty()
        &&& dialog.radius_string@ == Seq::<char>::empty()
        &&& dialog.color_string@ == Seq::<char>::empty()
        &&& dialog.geometric_albedo_string@ == Seq::<char>::empty()
        &&& dialog.semi_major_axis_string@ == Seq::<char>::empty()
        &&& dialog.eccentricity_string@ == Seq::<char>::empty()
        &&& dialog.inclination_string@ == Seq::<char>::empty()
        &&& dialog.longitude_of_ascending_node_string@ == Seq::<char>::empty()
        &&& dialog.argument_of_periapsis_string@ == Seq::<char>::empty()
        &&& dialog.siderial_rotation_period_string@ == Seq::<char>::empty()
        &&& dialog.rotation_axis_string@ == Seq::<char>::empty()
        &&& dialog.error.is_none()
    }

    fn unfilled(
        planet: PlanetData,
        planet_index: Option<usize>,
        previous_planet: Option<u64>,
        central_body: StarData,
    ) -> (dialog: Self)
        ensures
            Self::with_empty_fields(planet, planet_index, previous_planet, central_body, dialog),
    {
        PlanetDialog {
            planet,
            planet_index,
            previous_planet,
            central_body,
            mass_string: String::new(),
            radius_string: String::new(),
            color_string: String::new(),
            geometric_albedo_string: String::new(),
            semi_major_axis_string: String::new(),
            eccentricity_string: String::new(),
            inclination_string: String::new(),
            longitude_of_ascending_node_string: String::new(),
            argument_of_periapsis_string: String::new(),
            siderial_rotation_period_string: String::new(),
            rotation_axis_string: String::new(),
            error: None,
        }
    }

    /// The dialog on the planet at `planet_index`, its fields filled from
    /// `texts`. It fails where one of the texts could not be made.
    pub fn edit(
        planet: PlanetData,
        planet_index: usize,
        previous_planet: Option<u64>,
        central_body: StarData,
        texts: PlanetTexts,
    ) -> (made: Result<Self, ElenathError>)
        ensures
            made.is_ok() == Self::first_failure(texts).is_none(),
            made matches Err(e) ==> Some(e) == Self::first_failure(texts),
            made matches Ok(dialog) ==> {
                &&& dialog.planet == planet
                &&& dialog.planet_index == Some(planet_index)
                &&& dialog.previous_planet == previous_planet
                &&& dialog.central_body == central_body
                &&& dialog.error.is_none()
                &&& dialog.shows(texts)
            },
    {
        let mut dialog = Self::unfilled(planet, Some(planet_index), previous_planet, central_body);
        match dialog.fill_string_members(texts) {
            Ok(()) => Ok(dialog),
            Err(e) => Err(e),
        }
    }

    /// The dialog on a new planet, which is blank, its fields filled from
    /// `texts`. It fails where one of the texts could not be made.
    pub fn new(central_body: StarData, texts: PlanetTexts) -> (made: Result<Self, ElenathError>)
        ensures
            made.is_ok() == Self::first_failure(texts).is_none(),
            made matches Err(e) ==> Some(e) == Self::first_failure(texts),
            made matches Ok(dialog) ==> {
                &&& dialog.planet.is_blank()
                &&& dialog.planet_index.is_none()
                &&& dialog.previous_planet.is_none()
                &&& dialog.central_body == central_body
                &&& dialog.error.is_none()
                &&& dialog.shows(texts)
            },
    {
        let mut dialog = Self::unfilled(PlanetData::blank(), None, None, central_body);
        match dialog.fill_string_members(texts) {
            Ok(()) => Ok(dialog),
            Err(e) => Err(e),
        }
    }

    /// The first text of `texts` that could not be made, if there is one: the
    /// colour comes before the rotation axis.
    pub open spec fn first_failure(texts: PlanetTexts) -> Option<ElenathError> {
        match texts.color {
            Err(e) => Some(e),
            Ok(_) => match texts.rotation_axis {
                Err(e) => Some(e),
                Ok(_) => None,
            },
        }
    }

    /// Whether every field shows the text that `texts` has for it, where all
    /// texts could be made.
    pub open spec fn shows(&self, texts: PlanetTexts) -> bool {
        &&& self.mass_string == texts.mass
        &&& self.radius_string == texts.radius
        &&& texts.color == Ok::<String, ElenathError>(self.color_string)
        &&& self.geometric_albedo_string == texts.geometric_albedo
        &&& self.semi_major_axis_string == texts.semi_major_axis
        &&& self.eccentricity_string == texts.eccentricity
        &&& self.inclination_string == texts.inclination
        &&& self.longitude_of_ascending_node_string == texts.longitude_of_ascending_node
        &&& self.argument_of_periapsis_string == texts.argument_of_periapsis
        &&& self.siderial_rotation_period_string == texts.siderial_rotation_period
        &&& texts.rotation_axis == Ok::<String, ElenathError>(self.rotation_axis_string)
    }

    /// The dialog after its fields have been filled from `texts`, one after
    /// the other, up to the first text that could not be made.
    pub open spec fn filled(self, texts: PlanetTexts) -> Self {
        let first = PlanetDialog { mass_string: texts.mass, radius_string: texts.radius, ..self };
        match texts.color {
            Err(_) => first,
            Ok(color) => {
                let second = PlanetDialog {
                    color_string: color,
                    geometric_albedo_string: texts.geometric_albedo,
                    semi_major_axis_string: texts.semi_major_axis,
                    eccentricity_string: texts.eccentricity,
                    inclination_string: texts.inclination,
                    longitude_of_ascending_node_string: texts.longitude_of_ascending_node,
                    argument_of_periapsis_string: texts.argument_of_periapsis,
                    siderial_rotation_period_string: texts.siderial_rotation_period,
                    ..first
                };
                match texts.rotation_axis {
                    Err(_) => second,
                    Ok(rotation_axis) => PlanetDialog { rotation_axis_string: rotation_axis, ..second },
                }
            },
        }
    }

    /// Fills the fields from `texts`, one after the other, and stops at the
    /// first text that could not be made.
    pub fn fill_string_members(&mut self, texts: PlanetTexts) -> (done: Result<(), ElenathError>)
        ensures
            *final(self) == old(self).filled(texts),
            done.is_ok() == Self::first_failure(texts).is_none(),
            done matches Err(e) ==> Some(e) == Self::first_failure(texts),
    {
        self.mass_string = texts.mass;
        self.radius_string = texts.radius;
        match texts.color {
            Ok(color) => {
                self.color_string = color;
            },
            Err(e) => {
                return Err(e);
            },
        }
        self.geometric_albedo_string = texts.geometric_albedo;
        self.semi_major_axis_string = texts.semi_major_axis;
        self.eccentricity_string = texts.eccentricity;
        self.inclination_string = texts.inclination;
        self.longitude_of_ascending_node_string = texts.longitude_of_ascending_node;
        self.argument_of_periapsis_string = texts.argument_of_periapsis;
        self.siderial_rotation_period_string = texts.siderial_rotation_period;
        match texts.rotation_axis {
            Ok(rotation_axis) => {
                self.rotation_axis_string = rotation_axis;
            },
            Err(e) => {
                return Err(e);
            },
        }
        Ok(())
    }

    /// The words above the dialog.
    pub open spec fn header_of(&self) -> Seq<char> {
        match self.planet_index {
            Some(index) => "Edit Planet "@ + decimal(index as nat),
            None => "Create Planet"@,
        }
    }

    pub fn header(&self) -> (header: String)
        ensures
            header@ == self.header_of(),
    {
        match self.planet_index {
            Some(index) => {
                let mut header = String::from_str("Edit Planet ");
                let number = decimal_text(index);
                header.append(number.as_str());
                header
            },
            None => String::from_str("Create Planet"),
        }
    }

    /// The planet after a field has changed: the planet with the value of
    /// the field's text, where the text holds one.
    pub open spec fn planet_after(self, parsed: Option<PlanetData>) -> PlanetData {
        match parsed {
            Some(planet) => planet,
            None => self.planet,
        }
    }

    /// The dialog after `event`.
    ///
    /// The text of a number is taken only where it holds a number, and the
    /// planet then has that number. The texts of the colour and of the
    /// rotation axis are taken as they come, and the planet follows where
    /// they hold a value. A planet made at random keeps the name that the
    /// dialog had, and the fields are filled for it; where a text for it
    /// could not be made, the dialog keeps the error.
    pub open spec fn updated(self, event: PlanetDialogEvent) -> Self {
        match event {
            PlanetDialogEvent::NameChanged(name) => PlanetDialog {
                planet: PlanetData { name, ..self.planet },
                ..self
            },
            PlanetDialogEvent::MassChanged(text, parsed) => match parsed {
                Some(planet) => PlanetDialog { planet, mass_string: text, ..self },
                None => self,
            },
            PlanetDialogEvent::RadiusChanged(text, parsed) => match parsed {
                Some(planet) => PlanetDialog { planet, radius_string: text, ..self },
                None => self,
            },
            PlanetDialogEvent::ColorChanged(text, parsed) => PlanetDialog {
                planet: self.planet_after(parsed),
                color_string: text,
                ..self
            },
            PlanetDialogEvent::GeometricAlbedoChanged(text, parsed) => match parsed {
                Some(planet) => PlanetDialog { planet, geometric_albedo_string: text, ..self },
                None => self,
            },
            PlanetDialogEvent::SemiMajorAxisChanged(text, parsed) => match parsed {
                Some(planet) => PlanetDialog { planet, semi_major_axis_string: text, ..self },
                None => self,
            },
            PlanetDialogEvent::EccentricityChanged(text, parsed) => match parsed {
                Some(planet) => PlanetDialog { planet, eccentricity_string: text, ..self },
                None => self,
            },
            PlanetDialogEvent::InclinationChanged(text, parsed) => match parsed {
                Some(planet) => PlanetDialog { planet, inclination_string: text, ..self },
                None => self,
            },
            PlanetDialogEvent::LongitudeOfAscendingNodeChanged(text, parsed) => match parsed {
                Some(planet) => PlanetDialog {
                    planet,
                    longitude_of_ascending_node_string: text,
                    ..self
                },
                None => self,
            },
            PlanetDialogEvent::ArgumentOfPeriapsisChanged(text, parsed) => match parsed {
                Some(planet) => PlanetDialog { planet, argument_of_periapsis_string: text, ..self },
                None => self,
            },
            PlanetDialogEvent::SiderialRotationPeriodChanged(text, parsed) => match parsed {
                Some(planet) => PlanetDialog {
                    planet,
                    siderial_rotation_period_string: text,
                    ..self
                },
                None => self,
            },
            PlanetDialogEvent::RotationAxisChanged(text, parsed) => PlanetDialog {
                planet: self.planet_after(parsed),
                rotation_axis_string: text,
                ..self
            },
            PlanetDialogEvent::Randomize(planet, texts) => {
                let renamed = PlanetDialog {
                    planet: PlanetData { name: self.planet.name, ..planet },
                    ..self
                };
                let filled = renamed.filled(texts);
                match Self::first_failure(texts) {
                    Some(e) => PlanetDialog { error: Some(e), ..filled },
                    None => filled,
                }
            },
        }
    }

    /// Takes in what the user did. A message for another dialog changes
    /// nothing.
    pub fn update(&mut self, event: DialogUpdate)
        ensures
            *final(self) == match event {
                DialogUpdate::PlanetUpdated(event) => old(self).updated(event),
                _ => *old(self),
            },
    {
        if let DialogUpdate::PlanetUpdated(event) = event {
            match event {
                PlanetDialogEvent::NameChanged(name) => {
                    self.planet.name = name;
                },
                PlanetDialogEvent::MassChanged(mass_string, parsed) => {
                    if let Some(planet) = parsed {
                        self.planet = planet;
                        self.mass_string = mass_string;
                    }
                },
                PlanetDialogEvent::RadiusChanged(radius_string, parsed) => {
                    if let Some(planet) = parsed {
                        self.planet = planet;
                        self.radius_string = radius_string;
                    }
                },
                PlanetDialogEvent::ColorChanged(color_string, parsed) => {
                    if let Some(planet) = parsed {
                        self.planet = planet;
                    }
                    self.color_string = color_string;
                },
                PlanetDialogEvent::GeometricAlbedoChanged(geometric_albedo_string, parsed) => {
                    if let Some(planet) = parsed {
                        self.planet = planet;
                        self.geometric_albedo_string = geometric_albedo_string;
                    }
                },
                PlanetDialogEvent::SemiMajorAxisChanged(semi_major_axis_string, parsed) => {
                    if let Some(planet) = parsed {
                        self.planet = planet;
                        self.semi_major_axis_string = semi_major_axis_string;
                    }
                },
                PlanetDialogEvent::EccentricityChanged(eccentricity_string, parsed) => {
                    if let Some(planet) = parsed {
                        self.planet = planet;
                        self.eccentricity_string = eccentricity_string;
                    }
                },
                PlanetDialogEvent::InclinationChanged(inclination_string, parsed) => {
                    if let Some(planet) = parsed {
                        self.planet = planet;
                        self.inclination_string = inclination_string;
                    }
                },
                PlanetDialogEvent::LongitudeOfAscendingNodeChanged(
                    longitude_of_ascending_node_string,
                    parsed,
                ) => {
                    if let Some(planet) = parsed {
                        self.planet = planet;
                        self.longitude_of_ascending_node_string =
                        longitude_of_ascending_node_string;
                    }
                },
                PlanetDialogEvent::ArgumentOfPeriapsisChanged(
                    argument_of_periapsis_string,
                    parsed,
                ) => {
                    if let Some(planet) = parsed {
                        self.planet = planet;
                        self.argument_of_periapsis_string = argument_of_periapsis_string;
                    }
                },
                PlanetDialogEvent::SiderialRotationPeriodChanged(
                    siderial_rotation_period_string,
                    parsed,
                ) => {
                    if let Some(planet) = parsed {
                        self.planet = planet;
                        self.siderial_rotation_period_string = siderial_rotation_period_string;
                    }
                },
                PlanetDialogEvent::RotationAxisChanged(rotation_axis_string, parsed) => {
                    if let Some(planet) = parsed {
                        self.planet = planet;
                    }
                    self.rotation_axis_string = rotation_axis_string;
                },
                PlanetDialogEvent::Randomize(planet, texts) => {
                    let name = self.planet.name.clone();
                    self.planet = planet;
                    self.planet.name = name;
                    if let Err(e) = self.fill_string_members(texts) {
                        self.error = Some(e);
                    }
                },
            }
        }
    }

    /// What the dialog asks for when it is submitted: the planet to be put
    /// in its place, or to be added where it is new.
    pub fn on_submit(&self) -> (message: GuiMessage)
        ensures
            message == match self.planet_index {
                Some(index) => GuiMessage::PlanetEdited(index, self.planet),
                None => GuiMessage::NewPlanet(self.planet),
            },
    {
        match self.planet_index {
            Some(index) => GuiMessage::PlanetEdited(index, self.planet.clone()),
            None => GuiMessage::NewPlanet(self.planet.clone()),
        }
    }

    pub fn get_error(&self) -> (error: Option<ElenathError>)
        ensures
            error == self.error,
    {
        match &self.error {
            Some(e) => Some(e.clone()),
            None => None,
        }
    }
}

} // verus!
