use vstd::prelude::*;
use crate::coordinates::SpaceCoordinates;

verus! {

/// A list of settings used to configure the division levels, divisions and hexes generation.
#[derive(Copy, Clone, Debug, Hash)]
pub struct SectorSettings {
    /// How many parsecs the building block of a galactic map spans, on the (x, y, z) axis.
    pub hex_size: (u8, u8, u8),
    /// How many inferior level divisions level 1 spans, on the (x, y, z) axis.
    pub level_1_size: (u8, u8, u8),
    /// How many inferior level divisions level 2 spans, on the (x, y, z) axis.
    pub level_2_size: (u8, u8, u8),
    /// How many inferior level divisions level 3 spans, on the (x, y, z) axis.
    pub level_3_size: (u8, u8, u8),
    /// How many inferior level divisions level 4 spans, on the (x, y, z) axis.
    pub level_4_size: (u8, u8, u8),
    /// How many inferior level divisions level 5 spans, on the (x, y, z) axis.
    pub level_5_size: (u8, u8, u8),
    /// How many inferior level divisions level 6 spans, on the (x, y, z) axis.
    pub level_6_size: (u8, u8, u8),
    /// How many inferior level divisions level 7 spans, on the (x, y, z) axis.
    pub level_7_size: (u8, u8, u8),
    /// How many inferior level divisions level 8 spans, on the (x, y, z) axis.
    pub level_8_size: (u8, u8, u8),
    /// How many inferior level divisions level 9 spans, on the (x, y, z) axis.
    pub level_9_size: (u8, u8, u8),
    /// If set to true, a single z level will be generated above level 0.
    pub flat_map: bool,
    /// If set to true, only one roll will occur to determine how much star systems there are per
    /// hex. If set to false, a roll will be made for each cubic parsec inside the hex.
    pub density_by_hex_instead_of_parsec: bool,
    /// If set to true, the maximum number of systems per hex is one.
    pub max_one_system_per_hex: bool,
}

impl Default for SectorSettings {
    fn default() -> (r: Self)
        ensures
            r.hex_size == (1u8, 1u8, 1u8),
            r.level_1_size == (10u8, 10u8, 10u8),
            r.level_2_size == (4u8, 4u8, 4u8),
            r.level_3_size == (10u8, 10u8, 10u8),
            r.level_4_size == (10u8, 10u8, 10u8),
            r.level_5_size == (10u8, 10u8, 10u8),
            r.level_6_size == (10u8, 10u8, 10u8),
            r.level_7_size == (10u8, 10u8, 10u8),
            r.level_8_size == (10u8, 10u8, 10u8),
            r.level_9_size == (10u8, 10u8, 10u8),
            r.flat_map,
            r.density_by_hex_instead_of_parsec,
            r.max_one_system_per_hex,
    {
        SectorSettings {
            hex_size: (1, 1, 1),
            level_1_size: (10, 10, 10),
            level_2_size: (4, 4, 4),
            level_3_size: (10, 10, 10),
            level_4_size: (10, 10, 10),
            level_5_size: (10, 10, 10),
            level_6_size: (10, 10, 10),
            level_7_size: (10, 10, 10),
            level_8_size: (10, 10, 10),
            level_9_size: (10, 10, 10),
            flat_map: true,
            density_by_hex_instead_of_parsec: true,
            max_one_system_per_hex: true,
        }
    }
}

/// Represents the different kind of places a star could be in the galaxy.
#[derive(Copy, Clone, PartialEq, Eq, Structural, PartialOrd, Ord, Hash, Debug)]
pub enum GalacticRegion {
    /// This division spawns accross a number of different regions.
    Multiple,
    /// The core of an elliptical galaxy.
    Core,
    /// The core of a spiral or dwarf lenticular galaxy.
    Nucleus,
    /// The bulge of a spiral or lenticular galaxy.
    Bulge,
    /// The central bar of barred spiral galaxies.
    Bar,
    /// The arms of a spiral galaxy.
    Arm,
    /// The disk of a lenticular galaxy, or the space between the arms in a spiral one.
    Disk,
    /// The majority of an elliptical galaxy's content.
    Ellipse,
    /// The area in the outskirts of a galaxy.
    Halo,
    /// The area in the outskirts of an irregular galaxy.
    Aura,
    /// The void outside the limits of the galaxy proper.
    Void,
    /// A spheroidal conglomeration of stars bound together by their gravity.
    GlobularCluster,
    /// A cluster of stars made up from the same giant molecular cloud.
    OpenCluster,
    /// A very loose cluster of stars that share a common origin.
    Association,
    /// A former cluster torn apart and stretched out along the orbit of a galaxy.
    Stream,
    /// Some stars lost into the void.
    Exile,
}

impl Default for GalacticRegion {
    fn default() -> (r: Self)
        ensures
            r == GalacticRegion::Void,
    {
        GalacticRegion::Void
    }
}

/// Data pertaining how space is divided on a galactic scale.
#[derive(Copy, Clone, PartialEq, Eq, Structural, PartialOrd, Ord, Hash, Debug, Default)]
pub struct GalacticMapDivisionLevel {
    /// The divisions' "level" this object represents. 0 is a single hex, 1 a subsector, 2 a
    /// sector, and so on.
    pub level: u8,
    /// How many inferior level divisions this level spans on the x axis, or how many parsecs for
    /// level 0.
    pub x_subdivisions: u8,
    /// How many inferior level divisions this level spans on the y axis, or how many parsecs for
    /// level 0.
    pub y_subdivisions: u8,
    /// How many inferior level divisions this level spans on the z axis, or how many parsecs for
    /// level 0.
    pub z_subdivisions: u8,
}

/// The subdivisions of a level as a point.
pub open spec fn level_as_coord(l: GalacticMapDivisionLevel) -> SpaceCoordinates {
    SpaceCoordinates { x: l.x_subdivisions as i64, y: l.y_subdivisions as i64, z: l.z_subdivisions as i64 }
}

impl GalacticMapDivisionLevel {
    /// Creates a new instance of [GalacticMapDivisionLevel].
    pub fn new(level: u8, x_subdivisions: u8, y_subdivisions: u8, z_subdivisions: u8) -> (r: Self)
        ensures
            r.level == level,
            r.x_subdivisions == x_subdivisions,
            r.y_subdivisions == y_subdivisions,
            r.z_subdivisions == z_subdivisions,
    {
        GalacticMapDivisionLevel { level, x_subdivisions, y_subdivisions, z_subdivisions }
    }

    /// Returns the number of subdivisions on the x, y and z axis in the form of a
    /// [SpaceCoordinates] object.
    pub fn as_coord(self) -> (r: SpaceCoordinates)
        ensures
            r == level_as_coord(self),
    {
        SpaceCoordinates { x: self.x_subdivisions as i64, y: self.y_subdivisions as i64, z: self.z_subdivisions as i64 }
    }
}

/// The size of level `i` (0 to 9) in the settings, before the flat map is applied.
pub open spec fn level_size(s: SectorSettings, i: int) -> (u8, u8, u8) {
    if i == 0 {
        s.hex_size
    } else if i == 1 {
        s.level_1_size
    } else if i == 2 {
        s.level_2_size
    } else if i == 3 {
        s.level_3_size
    } else if i == 4 {
        s.level_4_size
    } else if i == 5 {
        s.level_5_size
    } else if i == 6 {
        s.level_6_size
    } else if i == 7 {
        s.level_7_size
    } else if i == 8 {
        s.level_8_size
    } else {
        s.level_9_size
    }
}

/// The division level `i` (0 to 9) the settings describe: level 0 is a hex of the hex size, and
/// the levels above take their sizes from the settings, with a single z subdivision on a flat map.
pub open spec fn settings_level(s: SectorSettings, i: int) -> GalacticMapDivisionLevel {
    let size = level_size(s, i);
    GalacticMapDivisionLevel {
        level: i as u8,
        x_subdivisions: size.0,
        y_subdivisions: size.1,
        z_subdivisions: if i > 0 && s.flat_map { 1 } else { size.2 },
    }
}

fn make_level(level: u8, size: (u8, u8, u8), flat_map: bool) -> (r: GalacticMapDivisionLevel)
    ensures
        r == (GalacticMapDivisionLevel {
            level,
            x_subdivisions: size.0,
            y_subdivisions: size.1,
            z_subdivisions: if level > 0 && flat_map { 1 } else { size.2 },
        }),
{
    GalacticMapDivisionLevel {
        level,
        x_subdivisions: size.0,
        y_subdivisions: size.1,
        z_subdivisions: if level > 0 && flat_map { 1 } else { size.2 },
    }
}

impl GalacticMapDivisionLevel {
    /// Returns a list of [GalacticMapDivisionLevel], one for each level from 0 to 9, using the
    /// given settings.
    pub fn generate_division_levels(sector_settings: &SectorSettings) -> (r: Vec<Self>)
        ensures
            r.len() == 10,
            forall|i: int| 0 <= i < 10 ==> #[trigger] r@[i] == settings_level(*sector_settings, i),
    {
        let flat_map = sector_settings.flat_map;
        let mut division_levels = Vec::new();
        division_levels.push(make_level(0, sector_settings.hex_size, flat_map));
        division_levels.push(make_level(1, sector_settings.level_1_size, flat_map));
        division_levels.push(make_level(2, sector_settings.level_2_size, flat_map));
        division_levels.push(make_level(3, sector_settings.level_3_size, flat_map));
        division_levels.push(make_level(4, sector_settings.level_4_size, flat_map));
        division_levels.push(make_level(5, sector_settings.level_5_size, flat_map));
        division_levels.push(make_level(6, sector_settings.level_6_size, flat_map));
        division_levels.push(make_level(7, sector_settings.level_7_size, flat_map));
        division_levels.push(make_level(8, sector_settings.level_8_size, flat_map));
        division_levels.push(make_level(9, sector_settings.level_9_size, flat_map));
        division_levels
    }
}

} // verus!
