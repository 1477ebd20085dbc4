//! The columns of the tables.

use vstd::prelude::*;

verus! {

/// The kind of body that the table shows.
#[derive(Debug, Clone, Copy, PartialEq, Eq, Structural)]
pub enum TableDataType {
    Planet,
    Star,
    Supernova,
}

/// A column of a table: the words above it and what its cells hold.
#[derive(Debug, PartialEq, Eq)]
pub struct TableColData<C> {
    pub header: &'static str,
    pub content: C,
}

/// What a cell of the planets' table holds.
#[derive(Debug, Clone, Copy, PartialEq, Eq, Structural)]
pub enum PlanetColumn {
    Name,
    Mass,
    Radius,
    Density,
    SurfaceGravity,
    EscapeVelocity,
    Color,
    GeometricAlbedo,
    BlackBodyTemperature,
    SemiMajorAxis,
    Eccentricity,
    Inclination,
    AscendingNode,
    ArgumentOfPeriapsis,
    OrbitalPeriod,
    OrbitalResonance,
    SideralDay,
    SynodicDay,
    RotationAxis,
    AxialTilt,
}

/// What a cell of a table of stars holds.
#[derive(Debug, Clone, Copy, PartialEq, Eq, Structural)]
pub enum StarColumn {
    Name,
    Mass,
    Radius,
    LuminousIntensity,
    Temperature,
    Color,
    Age,
    Distance,
    VisualMagnitude,
    EclipticLongitude,
    EclipticLatitude,
    Constellation,
    Lifetime,
    Fate,
    TimeUntilDeath,
}

impl PlanetColumn {
    /// Whether the cell is worked out of the planet and its central body, and
    /// so is empty where that could not be done.
    pub open spec fn is_derived(self) -> bool {
        match self {
            PlanetColumn::Density => true,
            PlanetColumn::SurfaceGravity => true,
            PlanetColumn::EscapeVelocity => true,
            PlanetColumn::BlackBodyTemperature => true,
            PlanetColumn::OrbitalPeriod => true,
            PlanetColumn::OrbitalResonance => true,
            PlanetColumn::SynodicDay => true,
            PlanetColumn::AxialTilt => true,
            _ => false,
        }
    }

    pub fn needs_derived_data(self) -> (derived: bool)
        ensures
            derived == self.is_derived(),
    {
        match self {
            PlanetColumn::Density => true,
            PlanetColumn::SurfaceGravity => true,
            PlanetColumn::EscapeVelocity => true,
            PlanetColumn::BlackBodyTemperature => true,
            PlanetColumn::OrbitalPeriod => true,
            PlanetColumn::OrbitalResonance => true,
            PlanetColumn::SynodicDay => true,
            PlanetColumn::AxialTilt => true,
            _ => false,
        }
    }
}

impl StarColumn {
    /// Whether the cell is read from what a star looks like, and so is filled
    /// for every star. Every other cell is empty for a star of which only
    /// the appearance is known.
    pub open spec fn is_of_appearance(self) -> bool {
        match self {
            StarColumn::Name => true,
            StarColumn::Color => true,
            StarColumn::VisualMagnitude => true,
            StarColumn::EclipticLongitude => true,
            StarColumn::EclipticLatitude => true,
            _ => false,
        }
    }

    pub fn needs_data(self) -> (needed: bool)
        ensures
            needed == !self.is_of_appearance(),
    {
        match self {
            StarColumn::Name => false,
            StarColumn::Color => false,
            StarColumn::VisualMagnitude => false,
            StarColumn::EclipticLongitude => false,
            StarColumn::EclipticLatitude => false,
            _ => true,
        }
    }
}

/// The columns of the planets' table, from left to right.
pub open spec fn planet_columns() -> Seq<TableColData<PlanetColumn>> {
    seq![
        TableColData { header: "Planet Name", content: PlanetColumn::Name },
        TableColData { header: "Mass", content: PlanetColumn::Mass },
        TableColData { header: "Radius", content: PlanetColumn::Radius },
        TableColData { header: "Density", content: PlanetColumn::Density },
        TableColData { header: "Surface Gravity", content: PlanetColumn::SurfaceGravity },
        TableColData { header: "Escape Velocity", content: PlanetColumn::EscapeVelocity },
        TableColData { header: "Color", content: PlanetColumn::Color },
        TableColData { header: "Geometric Albedo", content: PlanetColumn::GeometricAlbedo },
        TableColData { header: "Black Body Temp.", content: PlanetColumn::BlackBodyTemperature },
        TableColData { header: "Semi-major Axis", content: PlanetColumn::SemiMajorAxis },
        TableColData { header: "Eccentricity", content: PlanetColumn::Eccentricity },
        TableColData { header: "Inclination", content: PlanetColumn::Inclination },
        TableColData { header: "Ascending Node", content: PlanetColumn::AscendingNode },
        TableColData { header: "Arg. of Periapsis", content: PlanetColumn::ArgumentOfPeriapsis },
        TableColData { header: "Orbital Period", content: PlanetColumn::OrbitalPeriod },
        TableColData { header: "Orbital Resonance", content: PlanetColumn::OrbitalResonance },
        TableColData { header: "Sideral Day", content: PlanetColumn::SideralDay },
        TableColData { header: "Synodic Day", content: PlanetColumn::SynodicDay },
        TableColData { header: "Rotation Axis", content: PlanetColumn::RotationAxis },
        TableColData { header: "Axial Tilt", content: PlanetColumn::AxialTilt },
    ]
}

/// The columns of the stars' table, from left to right.
pub open spec fn star_columns() -> Seq<TableColData<StarColumn>> {
    seq![
        TableColData { header: "Star Name", content: StarColumn::Name },
        TableColData { header: "Mass", content: StarColumn::Mass },
        TableColData { header: "Radius", content: StarColumn::Radius },
        TableColData { header: "Luminous Intensity", content: StarColumn::LuminousIntensity },
        TableColData { header: "Temperature", content: StarColumn::Temperature },
        TableColData { header: "Color", content: StarColumn::Color },
        TableColData { header: "Age", content: StarColumn::Age },
        TableColData { header: "Distance", content: StarColumn::Distance },
        TableColData { header: "Vis. Mag.", content: StarColumn::VisualMagnitude },
        TableColData { header: "Ecl. Lon.", content: StarColumn::EclipticLongitude },
        TableColData { header: "Ecl. Lat.", content: StarColumn::EclipticLatitude },
        TableColData { header: "Const.", content: StarColumn::Constellation },
        TableColData { header: "Lifetime", content: StarColumn::Lifetime },
        TableColData { header: "Fate", content: StarColumn::Fate },
    ]
}

/// The columns of the supernovae's table, from left to right.
pub open spec fn supernova_columns() -> Seq<TableColData<StarColumn>> {
    seq![
        TableColData { header: "Star Name", content: StarColumn::Name },
        TableColData { header: "Time Until Death", content: StarColumn::TimeUntilDeath },
        TableColData { header: "Mass", content: StarColumn::Mass },
        TableColData { header: "Distance", content: StarColumn::Distance },
        TableColData { header: "Vis. Mag.", content: StarColumn::VisualMagnitude },
    ]
}

impl TableColData<PlanetColumn> {
    pub fn default_planet_col_data() -> (columns: Vec<TableColData<PlanetColumn>>)
        ensures
            columns@ == planet_columns(),
    {
        let columns = vec![
            TableColData { header: "Planet Name", content: PlanetColumn::Name },
            TableColData { header: "Mass", content: PlanetColumn::Mass },
            TableColData { header: "Radius", content: PlanetColumn::Radius },
            TableColData { header: "Density", content: PlanetColumn::Density },
            TableColData { header: "Surface Gravity", content: PlanetColumn::SurfaceGravity },
            TableColData { header: "Escape Velocity", content: PlanetColumn::EscapeVelocity },
            TableColData { header: "Color", content: PlanetColumn::Color },
            TableColData { header: "Geometric Albedo", content: PlanetColumn::GeometricAlbedo },
            TableColData {
                header: "Black Body Temp.",
                content: PlanetColumn::BlackBodyTemperature,
            },
            TableColData { header: "Semi-major Axis", content: PlanetColumn::SemiMajorAxis },
            TableColData { header: "Eccentricity", content: PlanetColumn::Eccentricity },
            TableColData { header: "Inclination", content: PlanetColumn::Inclination },
            TableColData { header: "Ascending Node", content: PlanetColumn::AscendingNode },
            TableColData {
                header: "Arg. of Periapsis",
                content: PlanetColumn::ArgumentOfPeriapsis,
            },
            TableColData { header: "Orbital Period", content: PlanetColumn::OrbitalPeriod },
            TableColData { header: "Orbital Resonance", content: PlanetColumn::OrbitalResonance },
            TableColData { header: "Sideral Day", content: PlanetColumn::SideralDay },
            TableColData { header: "Synodic Day", content: PlanetColumn::SynodicDay },
            TableColData { header: "Rotation Axis", content: PlanetColumn::RotationAxis },
            TableColData { header: "Axial Tilt", content: PlanetColumn::AxialTilt },
        ];
        assert(columns@ =~= planet_columns());
        columns
    }
}

impl TableColData<StarColumn> {
    pub fn default_star_col_data() -> (columns: Vec<TableColData<StarColumn>>)
        ensures
            columns@ == star_columns(),
    {
        let columns = vec![
            TableColData { header: "Star Name", content: StarColumn::Name },
            TableColData { header: "Mass", content: StarColumn::Mass },
            TableColData { header: "Radius", content: StarColumn::Radius },
            TableColData { header: "Luminous Intensity", content: StarColumn::LuminousIntensity },
            TableColData { header: "Temperature", content: StarColumn::Temperature },
            TableColData { header: "Color", content: StarColumn::Color },
            TableColData { header: "Age", content: StarColumn::Age },
            TableColData { header: "Distance", content: StarColumn::Distance },
            TableColData { header: "Vis. Mag.", content: StarColumn::VisualMagnitude },
            TableColData { header: "Ecl. Lon.", content: StarColumn::EclipticLongitude },
            TableColData { header: "Ecl. Lat.", content: StarColumn::EclipticLatitude },
            TableColData { header: "Const.", content: StarColumn::Constellation },
            TableColData { header: "Lifetime", content: StarColumn::Lifetime },
            TableColData { header: "Fate", content: StarColumn::Fate },
        ];
        assert(columns@ =~= star_columns());
        columns
    }

    pub fn default_supernova_col_data() -> (columns: Vec<TableColData<StarColumn>>)
        ensures
            columns@ == supernova_columns(),
    {
        let columns = vec![
            TableColData { header: "Star Name", content: StarColumn::Name },
            TableColData { header: "Time Until Death", content: StarColumn::TimeUntilDeath },
            TableColData { header: "Mass", content: StarColumn::Mass },
            TableColData { header: "Distance", content: StarColumn::Distance },
            TableColData { header: "Vis. Mag.", content: StarColumn::VisualMagnitude },
        ];
        assert(columns@ =~= supernova_columns());
        columns
    }
}

} // verus!
