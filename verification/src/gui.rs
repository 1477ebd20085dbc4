//! The rules by which the viewer answers what its user does.

pub mod dialog;
pub mod gui_widget;
pub mod message;
pub mod shared_canvas_functionality;
pub mod shared_widgets;
pub mod surface_view;
pub mod table_view;
pub mod top_view;

use crate::error::ElenathError;
use crate::gui::dialog::Dialog;
use crate::gui::gui_widget::GuiViewMode;
use crate::gui::surface_view::widget::SurfaceViewState;
use crate::gui::table_view::widget::TableViewState;
use crate::gui::top_view::widget::TopViewState;
use crate::model::celestial_system::CelestialSystem;
use crate::model::planet::Planet;
use crate::model::planet::PlanetData;
use vstd::prelude::*;
use vstd::string::StringExecFns;

verus! {

/// All that the viewer remembers.
#[derive(Debug, PartialEq, Eq)]
pub struct Gui {
    /// The path of the file that the system was read from or written to.
    pub opened_file: Option<String>,
    pub mode: GuiViewMode,
    pub surface_view_state: SurfaceViewState,
    pub top_view_state: TopViewState,
    pub table_view_state: TableViewState,
    /// The rank of the time by which one step moves the system.
    pub time_step: i64,
    pub celestial_system: Option<CelestialSystem>,
    /// The name of the planet that the views look from or at; no name where
    /// they look at the central body.
    pub selected_planet_name: String,
    pub display_names: bool,
    pub display_constellations: bool,
    pub dialog: Option<Dialog>,
}

/// The place of the first planet of `planets` that is called `name`; the
/// length of `planets` where there is none.
pub open spec fn place_of_name(planets: Seq<PlanetData>, name: Seq<char>) -> int
    decreases planets.len(),
{
    if planets.len() == 0 {
        0
    } else if planets.first().name@ == name {
        0
    } else {
        1 + place_of_name(planets.drop_first(), name)
    }
}

proof fn lemma_place_of_name_skips(planets: Seq<PlanetData>, name: Seq<char>, place: int)
    requires
        0 <= place <= planets.len(),
        forall|j: int| 0 <= j < place ==> (#[trigger] planets[j]).name@ != name,
    ensures
        place_of_name(planets, name) == place + place_of_name(
            planets.subrange(place, planets.len() as int),
            name,
        ),
    decreases place,
{
    if place == 0 {
        assert(planets.subrange(0, planets.len() as int) =~= planets);
    } else {
        let rest = planets.drop_first();
        assert(planets[0].name@ != name);
        assert forall|j: int| 0 <= j < place - 1 implies (#[trigger] rest[j]).name@ != name by {
            assert(rest[j] == planets[j + 1]);
        }
        lemma_place_of_name_skips(rest, name, place - 1);
        assert(rest.subrange(place - 1, rest.len() as int) =~= planets.subrange(
            place,
            planets.len() as int,
        ));
    }
}

impl Gui {
    /// The viewer as it starts: it shows the surface view, holds no system
    /// and no dialog, writes the names of the bodies and draws no
    /// constellations. `time_step` is the rank of one day.
    pub fn new(time_step: i64) -> (gui: Self)
        ensures
            gui.opened_file.is_none(),
            gui.mode == GuiViewMode::Surface,
            gui.surface_view_state == (SurfaceViewState { bodies_stale: false }),
            gui.top_view_state == (TopViewState { bodies_stale: false, scale_stale: false }),
            gui.table_view_state == (TableViewState {
                displayed_body_type: crate::gui::table_view::col_data::TableDataType::Planet,
            }),
            gui.time_step == time_step,
            gui.celestial_system.is_none(),
            gui.selected_planet_name@ == Seq::<char>::empty(),
            gui.display_names,
            !gui.display_constellations,
            gui.dialog.is_none(),
    {
        Gui {
            opened_file: None,
            mode: GuiViewMode::Surface,
            surface_view_state: SurfaceViewState::new(),
            top_view_state: TopViewState::new(),
            table_view_state: TableViewState::new(),
            time_step,
            celestial_system: None,
            selected_planet_name: String::new(),
            display_names: true,
            display_constellations: false,
            dialog: None,
        }
    }

    pub fn title(&self) -> (title: String)
        ensures
            title@ == "Elenath - Imaginary Skies"@,
    {
        String::from_str("Elenath - Imaginary Skies")
    }

    /// The viewer after the drawing of the bodies in the view that it shows
    /// has been declared stale. The table has no drawing.
    pub open spec fn redrawn(self) -> Self {
        match self.mode {
            GuiViewMode::Surface => Gui {
                surface_view_state: SurfaceViewState { bodies_stale: true },
                ..self
            },
            GuiViewMode::Top => Gui {
                top_view_state: TopViewState { bodies_stale: true, scale_stale: true },
                ..self
            },
            GuiViewMode::Table => self,
        }
    }

    /// Asks for a new drawing of the bodies in the view that is shown.
    pub fn redraw(&mut self)
        ensures
            *final(self) == old(self).redrawn(),
    {
        match self.mode {
            GuiViewMode::Surface => {
                self.surface_view_state.redraw();
            },
            GuiViewMode::Top => {
                self.top_view_state.redraw();
            },
            _ => (),
        };
    }

    /// The planets of the system; none where there is no system.
    pub open spec fn planets(&self) -> Seq<PlanetData> {
        match self.celestial_system {
            Some(system) => system.planets(),
            None => Seq::empty(),
        }
    }

    /// The first planet that has the selected name, if any has.
    pub fn get_selected_planet_data(&self) -> (planet: Option<&PlanetData>)
        ensures
            planet.is_some() == (place_of_name(self.planets(), self.selected_planet_name@)
                < self.planets().len()),
            planet.is_some() ==> *planet.unwrap() == self.planets()[place_of_name(
                self.planets(),
                self.selected_planet_name@,
            )],
    {
        match &self.celestial_system {
            None => None,
            Some(system) => {
                let planets = system.get_planets_data();
                let mut i: usize = 0;
                while i < planets.len()
                    invariant
                        i <= planets@.len(),
                        planets@.len() == self.planets().len(),
                        forall|j: int|
                            0 <= j < planets@.len() ==> *planets@[j] == self.planets()[j],
                        forall|j: int|
                            0 <= j < i ==> (#[trigger] self.planets()[j]).name@
                                != self.selected_planet_name@,
                    decreases planets.len() - i,
                {
                    if planets[i].name == self.selected_planet_name {
                        proof {
                            let all = self.planets();
                            lemma_place_of_name_skips(all, self.selected_planet_name@, i as int);
                            assert(all.subrange(i as int, all.len() as int).first() == all[i as int]);
                        }
                        return Some(planets[i]);
                    }
                    i += 1;
                }
                proof {
                    let all = self.planets();
                    lemma_place_of_name_skips(all, self.selected_planet_name@, i as int);
                    assert(all.subrange(i as int, all.len() as int).len() == 0);
                }
                None
            },
        }
    }

    /// The planet that the views look from or at, without a place of its
    /// own; `None` where no planet has the selected name.
    pub fn get_selected_planet(&self) -> (planet: Option<Planet>)
        ensures
            planet.is_some() == (place_of_name(self.planets(), self.selected_planet_name@)
                < self.planets().len()),
            planet.is_some() ==> planet.unwrap() == (Planet {
                data: self.planets()[place_of_name(self.planets(), self.selected_planet_name@)],
                index: None,
            }),
    {
        match self.get_selected_planet_data() {
            Some(data) => Some(Planet::new(data.clone(), None)),
            None => None,
        }
    }

    /// The planets of the system; none where there is no system.
    pub fn get_planet_data(&self) -> (planets: Vec<&PlanetData>)
        ensures
            planets@.len() == self.planets().len(),
            forall|i: int| 0 <= i < planets@.len() ==> *planets@[i] == self.planets()[i],
    {
        match &self.celestial_system {
            Some(system) => system.get_planets_data(),
            None => Vec::new(),
        }
    }

    /// The system, or the error that says that there is none.
    pub fn get_system_const(&self) -> (system: Result<&CelestialSystem, ElenathError>)
        ensures
            match system {
                Ok(system) => self.celestial_system == Some(*system),
                Err(e) => self.celestial_system.is_none() && e == ElenathError::NoCelestialSystem,
            },
    {
        match &self.celestial_system {
            Some(system) => Ok(system),
            None => Err(ElenathError::NoCelestialSystem),
        }
    }
}

} // verus!
