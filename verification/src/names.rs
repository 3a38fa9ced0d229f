use vstd::prelude::*;
use crate::celestial_types::{
    TelluricVolatileDensityDifference, TelluricRotationDifference, TideLockTarget, TelluricAxialTiltDifference, TelluricCoreDifference, TelluricGeologicActivity, TelluricMagneticFieldDifference, TelluricTerrainRelief, TelluricBodyComposition, CelestialBodyWorldType, CelestialBodyCoreHeat, MagneticFieldStrength, CelestialBodyComposition, CelestialBodySize, LifeLevel,
    CelestialBodySpecialTrait, TelluricSpecialTrait,
};
use crate::disks::{CelestialRingComposition, CelestialRingLevel, CelestialBeltType, CelestialDiskType};
use crate::galaxy_types::{
    GalaxySubCategory, GalaxySatellites, GalaxySpecialTrait, GalacticNeighborhood, GalacticNeighborhoodDensity,
};
use crate::coordinates::SpaceCoordinates;
use crate::text::{append_coordinates, append_decimal, coordinates_text, decimal};

verus! {

/// How a telluric volatile density difference is written.
pub open spec fn telluric_volatile_density_difference_text(x: TelluricVolatileDensityDifference) -> Seq<char> {
    match x {
        TelluricVolatileDensityDifference::Poor => "Volatile Poor"@,
        TelluricVolatileDensityDifference::Rich => "Volatile Rich"@,
    }
}

/// How a telluric rotation difference is written.
pub open spec fn telluric_rotation_difference_text(x: TelluricRotationDifference) -> Seq<char> {
    match x {
        TelluricRotationDifference::Slow => "Slow Rotation"@,
        TelluricRotationDifference::Fast => "Fast Rotation"@,
        TelluricRotationDifference::Retrograde => "Retrograde Rotation"@,
        TelluricRotationDifference::Resonant => "3:2 Spin-Orbit Resonance"@,
    }
}

/// How a tide lock target is written.
pub open spec fn tide_lock_target_text(x: TideLockTarget) -> Seq<char> {
    match x {
        TideLockTarget::Orbited => "to orbited"@,
        TideLockTarget::Satellite => "to main satellite"@,
    }
}

/// How a telluric axial tilt difference is written.
pub open spec fn telluric_axial_tilt_difference_text(x: TelluricAxialTiltDifference) -> Seq<char> {
    match x {
        TelluricAxialTiltDifference::Minimal => "Minimal Axial Tilt"@,
        TelluricAxialTiltDifference::Extreme => "Extreme Axial Tilt"@,
    }
}

/// How a telluric core difference is written.
pub open spec fn telluric_core_difference_text(x: TelluricCoreDifference) -> Seq<char> {
    match x {
        TelluricCoreDifference::Coreless => "Coreless"@,
        TelluricCoreDifference::Smaller => "Smaller Core"@,
        TelluricCoreDifference::Larger => "Larger Core"@,
    }
}

/// How a telluric geologic activity is written.
pub open spec fn telluric_geologic_activity_text(x: TelluricGeologicActivity) -> Seq<char> {
    match x {
        TelluricGeologicActivity::GeologicallyDead => "Geologically Dead"@,
        TelluricGeologicActivity::GeologicallyExtinct => "Geologically Extinct"@,
        TelluricGeologicActivity::GeologicallyActive => "Geologically Active"@,
    }
}

/// How a telluric magnetic field difference is written.
pub open spec fn telluric_magnetic_field_difference_text(x: TelluricMagneticFieldDifference) -> Seq<char> {
    match x {
        TelluricMagneticFieldDifference::MuchWeaker => "Much Weaker Magnetic Field"@,
        TelluricMagneticFieldDifference::Weaker => "Weaker Magnetic Field"@,
        TelluricMagneticFieldDifference::Stronger => "Stronger Magnetic Field"@,
        TelluricMagneticFieldDifference::MuchStronger => "Much Stronger Magnetic Field"@,
    }
}

/// How a telluric terrain relief is written.
pub open spec fn telluric_terrain_relief_text(x: TelluricTerrainRelief) -> Seq<char> {
    match x {
        TelluricTerrainRelief::FlatTerrain => "Flat Terrain"@,
        TelluricTerrainRelief::VariedTerrain => "Varied Terrain"@,
        TelluricTerrainRelief::EquatorialRidge => "Equatorial Ridge"@,
    }
}

/// How a telluric body composition is written.
pub open spec fn telluric_body_composition_text(x: TelluricBodyComposition) -> Seq<char> {
    match x {
        TelluricBodyComposition::Metallic => "Metallic"@,
        TelluricBodyComposition::Rocky => "Rocky"@,
        TelluricBodyComposition::Icy => "Icy"@,
    }
}

/// How a celestial body world type is written.
pub open spec fn celestial_body_world_type_text(x: CelestialBodyWorldType) -> Seq<char> {
    match x {
        CelestialBodyWorldType::Ice => "Ice"@,
        CelestialBodyWorldType::DirtySnowball => "Dirty Snowball"@,
        CelestialBodyWorldType::Sulfur => "Sulfur"@,
        CelestialBodyWorldType::Rock => "Rock"@,
        CelestialBodyWorldType::Hadean => "Hadean"@,
        CelestialBodyWorldType::Ammonia => "Ammonia"@,
        CelestialBodyWorldType::Ocean => "Ocean"@,
        CelestialBodyWorldType::Terrestrial => "Terrestrial"@,
        CelestialBodyWorldType::Greenhouse => "Greenhouse"@,
        CelestialBodyWorldType::Chthonian => "Chthonian"@,
        CelestialBodyWorldType::VolatilesGiant => "Volatiles Giant"@,
    }
}

/// How a celestial body core heat is written.
pub open spec fn celestial_body_core_heat_text(x: CelestialBodyCoreHeat) -> Seq<char> {
    match x {
        CelestialBodyCoreHeat::FrozenCore => "Frozen Core"@,
        CelestialBodyCoreHeat::WarmCore => "Warm Core"@,
        CelestialBodyCoreHeat::ActiveCore => "Active Core"@,
        CelestialBodyCoreHeat::IntenseCore => "Intense Core"@,
    }
}

/// How a magnetic field strength is written.
pub open spec fn magnetic_field_strength_text(x: MagneticFieldStrength) -> Seq<char> {
    match x {
        MagneticFieldStrength::NoField => "No Magnetic Field"@,
        MagneticFieldStrength::Weak => "Weak Magnetic Field"@,
        MagneticFieldStrength::Moderate => "Moderate Magnetic Field"@,
        MagneticFieldStrength::Strong => "Strong Magnetic Field"@,
        MagneticFieldStrength::VeryStrong => "Very Strong Magnetic Field"@,
        MagneticFieldStrength::Extreme => "Extreme Magnetic Field"@,
    }
}

/// How a celestial body composition is written.
pub open spec fn celestial_body_composition_text(x: CelestialBodyComposition) -> Seq<char> {
    match x {
        CelestialBodyComposition::Metallic => "Metallic"@,
        CelestialBodyComposition::Rocky => "Rocky"@,
        CelestialBodyComposition::Gaseous => "Gaseous"@,
        CelestialBodyComposition::Icy => "Icy"@,
    }
}

/// How a celestial body size is written.
pub open spec fn celestial_body_size_text(x: CelestialBodySize) -> Seq<char> {
    match x {
        CelestialBodySize::Hypergiant => "Hypergiant"@,
        CelestialBodySize::Supergiant => "Supergiant"@,
        CelestialBodySize::Giant => "Giant"@,
        CelestialBodySize::Large => "Large"@,
        CelestialBodySize::Standard => "Standard"@,
        CelestialBodySize::Small => "Small"@,
        CelestialBodySize::Tiny => "Tiny"@,
        CelestialBodySize::Puny => "Asteroid-sized"@,
    }
}

/// How a celestial ring composition is written.
pub open spec fn celestial_ring_composition_text(x: CelestialRingComposition) -> Seq<char> {
    match x {
        CelestialRingComposition::Ice => "Icy"@,
        CelestialRingComposition::Rock => "Rocky"@,
        CelestialRingComposition::Metal => "Metallic"@,
        CelestialRingComposition::Dust => "Dusty"@,
    }
}

/// How a celestial ring level is written.
pub open spec fn celestial_ring_level_text(x: CelestialRingLevel) -> Seq<char> {
    match x {
        CelestialRingLevel::Unnoticeable => "Unnoticeable"@,
        CelestialRingLevel::Noticeable => "Noticeable"@,
        CelestialRingLevel::Visible => "Visible"@,
        CelestialRingLevel::Spectacular => "Spectacular"@,
    }
}

/// How a celestial belt type is written.
pub open spec fn celestial_belt_type_text(x: CelestialBeltType) -> Seq<char> {
    match x {
        CelestialBeltType::Dust => "Dust"@,
        CelestialBeltType::Meteoroid => "Meteoroid"@,
        CelestialBeltType::Ore => "Ore"@,
        CelestialBeltType::Debris => "Debris"@,
        CelestialBeltType::Asteroid => "Asteroid"@,
        CelestialBeltType::Ash => "Ash"@,
        CelestialBeltType::Frost => "Frost"@,
        CelestialBeltType::Comet => "Comet"@,
        CelestialBeltType::GasBelt => "Gas"@,
    }
}

/// How a life level is written.
pub open spec fn life_level_text(x: LifeLevel) -> Seq<char> {
    match x {
        LifeLevel::NoLife => "None"@,
        LifeLevel::UniCellular => "UniCellular"@,
        LifeLevel::PluriCellular => "PluriCellular"@,
        LifeLevel::PlantLike => "PlantLike"@,
        LifeLevel::AnimalLike => "AnimalLike"@,
        LifeLevel::Sentient => "Sentient"@,
    }
}

/// How a galaxy sub category is written.
pub open spec fn galaxy_sub_category_text(x: GalaxySubCategory) -> Seq<char> {
    match x {
        GalaxySubCategory::DwarfAmorphous => "Dwarf Amorphous"@,
        GalaxySubCategory::Amorphous => "Amorphous"@,
        GalaxySubCategory::DwarfSpiral => "Dwarf Spiral"@,
        GalaxySubCategory::FlatSpiral => "Flat Spiral"@,
        GalaxySubCategory::BarredSpiral => "Barred Spiral"@,
        GalaxySubCategory::ClassicSpiral => "Classic Spiral"@,
        GalaxySubCategory::DwarfLenticular => "Dwarf Lenticular"@,
        GalaxySubCategory::CommonLenticular => "Common Lenticular"@,
        GalaxySubCategory::GiantLenticular => "Giant Lenticular"@,
        GalaxySubCategory::DwarfElliptical => "Dwarf Elliptical"@,
        GalaxySubCategory::CommonElliptical => "Common Elliptical"@,
        GalaxySubCategory::GiantElliptical => "Giant Elliptical"@,
    }
}

/// How a galaxy satellites is written.
pub open spec fn galaxy_satellites_text(x: GalaxySatellites) -> Seq<char> {
    match x {
        GalaxySatellites::MuchMore => "Much More Satellites"@,
        GalaxySatellites::More => "More Satellites"@,
        GalaxySatellites::Less => "Less Satellites"@,
        GalaxySatellites::MuchLess => "Much Less Satellites"@,
        GalaxySatellites::NoSatellites => "No Satellites"@,
        GalaxySatellites::Special => "Special Satellites"@,
    }
}

impl TelluricVolatileDensityDifference {
    /// Returns how this value is written.
    pub fn to_string(&self) -> (r: String)
        ensures
            r@ == telluric_volatile_density_difference_text(*self),
    {
        match self {
            TelluricVolatileDensityDifference::Poor => String::from_str("Volatile Poor"),
            TelluricVolatileDensityDifference::Rich => String::from_str("Volatile Rich"),
        }
    }
}

impl TelluricRotationDifference {
    /// Returns how this value is written.
    pub fn to_string(&self) -> (r: String)
        ensures
            r@ == telluric_rotation_difference_text(*self),
    {
        match self {
            TelluricRotationDifference::Slow => String::from_str("Slow Rotation"),
            TelluricRotationDifference::Fast => String::from_str("Fast Rotation"),
            TelluricRotationDifference::Retrograde => String::from_str("Retrograde Rotation"),
            TelluricRotationDifference::Resonant => String::from_str("3:2 Spin-Orbit Resonance"),
        }
    }
}

impl TideLockTarget {
    /// Returns how this value is written.
    pub fn to_string(&self) -> (r: String)
        ensures
            r@ == tide_lock_target_text(*self),
    {
        match self {
            TideLockTarget::Orbited => String::from_str("to orbited"),
            TideLockTarget::Satellite => String::from_str("to main satellite"),
        }
    }
}

impl TelluricAxialTiltDifference {
    /// Returns how this value is written.
    pub fn to_string(&self) -> (r: String)
        ensures
            r@ == telluric_axial_tilt_difference_text(*self),
    {
        match self {
            TelluricAxialTiltDifference::Minimal => String::from_str("Minimal Axial Tilt"),
            TelluricAxialTiltDifference::Extreme => String::from_str("Extreme Axial Tilt"),
        }
    }
}

impl TelluricCoreDifference {
    /// Returns how this value is written.
    pub fn to_string(&self) -> (r: String)
        ensures
            r@ == telluric_core_difference_text(*self),
    {
        match self {
            TelluricCoreDifference::Coreless => String::from_str("Coreless"),
            TelluricCoreDifference::Smaller => String::from_str("Smaller Core"),
            TelluricCoreDifference::Larger => String::from_str("Larger Core"),
        }
    }
}

impl TelluricGeologicActivity {
    /// Returns how this value is written.
    pub fn to_string(&self) -> (r: String)
        ensures
            r@ == telluric_geologic_activity_text(*self),
    {
        match self {
            TelluricGeologicActivity::GeologicallyDead => String::from_str("Geologically Dead"),
            TelluricGeologicActivity::GeologicallyExtinct => String::from_str("Geologically Extinct"),
            TelluricGeologicActivity::GeologicallyActive => String::from_str("Geologically Active"),
        }
    }
}

impl TelluricMagneticFieldDifference {
    /// Returns how this value is written.
    pub fn to_string(&self) -> (r: String)
        ensures
            r@ == telluric_magnetic_field_difference_text(*self),
    {
        match self {
            TelluricMagneticFieldDifference::MuchWeaker => String::from_str("Much Weaker Magnetic Field"),
            TelluricMagneticFieldDifference::Weaker => String::from_str("Weaker Magnetic Field"),
            TelluricMagneticFieldDifference::Stronger => String::from_str("Stronger Magnetic Field"),
            TelluricMagneticFieldDifference::MuchStronger => String::from_str("Much Stronger Magnetic Field"),
        }
    }
}

impl TelluricTerrainRelief {
    /// Returns how this value is written.
    pub fn to_string(&self) -> (r: String)
        ensures
            r@ == telluric_terrain_relief_text(*self),
    {
        match self {
            TelluricTerrainRelief::FlatTerrain => String::from_str("Flat Terrain"),
            TelluricTerrainRelief::VariedTerrain => String::from_str("Varied Terrain"),
            TelluricTerrainRelief::EquatorialRidge => String::from_str("Equatorial Ridge"),
        }
    }
}

impl TelluricBodyComposition {
    /// Returns how this value is written.
    pub fn to_string(&self) -> (r: String)
        ensures
            r@ == telluric_body_composition_text(*self),
    {
        match self {
            TelluricBodyComposition::Metallic => String::from_str("Metallic"),
            TelluricBodyComposition::Rocky => String::from_str("Rocky"),
            TelluricBodyComposition::Icy => String::from_str("Icy"),
        }
    }
}

impl CelestialBodyWorldType {
    /// Returns how this value is written.
    pub fn to_string(&self) -> (r: String)
        ensures
            r@ == celestial_body_world_type_text(*self),
    {
        match self {
            CelestialBodyWorldType::Ice => String::from_str("Ice"),
            CelestialBodyWorldType::DirtySnowball => String::from_str("Dirty Snowball"),
            CelestialBodyWorldType::Sulfur => String::from_str("Sulfur"),
            CelestialBodyWorldType::Rock => String::from_str("Rock"),
            CelestialBodyWorldType::Hadean => String::from_str("Hadean"),
            CelestialBodyWorldType::Ammonia => String::from_str("Ammonia"),
            CelestialBodyWorldType::Ocean => String::from_str("Ocean"),
            CelestialBodyWorldType::Terrestrial => String::from_str("Terrestrial"),
            CelestialBodyWorldType::Greenhouse => String::from_str("Greenhouse"),
            CelestialBodyWorldType::Chthonian => String::from_str("Chthonian"),
            CelestialBodyWorldType::VolatilesGiant => String::from_str("Volatiles Giant"),
        }
    }
}

impl CelestialBodyCoreHeat {
    /// Returns how this value is written.
    pub fn to_string(&self) -> (r: String)
        ensures
            r@ == celestial_body_core_heat_text(*self),
    {
        match self {
            CelestialBodyCoreHeat::FrozenCore => String::from_str("Frozen Core"),
            CelestialBodyCoreHeat::WarmCore => String::from_str("Warm Core"),
            CelestialBodyCoreHeat::ActiveCore => String::from_str("Active Core"),
            CelestialBodyCoreHeat::IntenseCore => String::from_str("Intense Core"),
        }
    }
}

impl MagneticFieldStrength {
    /// Returns how this value is written.
    pub fn to_string(&self) -> (r: String)
        ensures
            r@ == magnetic_field_strength_text(*self),
    {
        match self {
            MagneticFieldStrength::NoField => String::from_str("No Magnetic Field"),
            MagneticFieldStrength::Weak => String::from_str("Weak Magnetic Field"),
            MagneticFieldStrength::Moderate => String::from_str("Moderate Magnetic Field"),
            MagneticFieldStrength::Strong => String::from_str("Strong Magnetic Field"),
            MagneticFieldStrength::VeryStrong => String::from_str("Very Strong Magnetic Field"),
            MagneticFieldStrength::Extreme => String::from_str("Extreme Magnetic Field"),
        }
    }
}

impl CelestialBodyComposition {
    /// Returns how this value is written.
    pub fn to_string(&self) -> (r: String)
        ensures
            r@ == celestial_body_composition_text(*self),
    {
        match self {
            CelestialBodyComposition::Metallic => String::from_str("Metallic"),
            CelestialBodyComposition::Rocky => String::from_str("Rocky"),
            CelestialBodyComposition::Gaseous => String::from_str("Gaseous"),
            CelestialBodyComposition::Icy => String::from_str("Icy"),
        }
    }
}

impl CelestialBodySize {
    /// Returns how this value is written.
    pub fn to_string(&self) -> (r: String)
        ensures
            r@ == celestial_body_size_text(*self),
    {
        match self {
            CelestialBodySize::Hypergiant => String::from_str("Hypergiant"),
            CelestialBodySize::Supergiant => String::from_str("Supergiant"),
            CelestialBodySize::Giant => String::from_str("Giant"),
            CelestialBodySize::Large => String::from_str("Large"),
            CelestialBodySize::Standard => String::from_str("Standard"),
            CelestialBodySize::Small => String::from_str("Small"),
            CelestialBodySize::Tiny => String::from_str("Tiny"),
            CelestialBodySize::Puny => String::from_str("Asteroid-sized"),
        }
    }
}

impl CelestialRingComposition {
    /// Returns how this value is written.
    pub fn to_string(&self) -> (r: String)
        ensures
            r@ == celestial_ring_composition_text(*self),
    {
        match self {
            CelestialRingComposition::Ice => String::from_str("Icy"),
            CelestialRingComposition::Rock => String::from_str("Rocky"),
            CelestialRingComposition::Metal => String::from_str("Metallic"),
            CelestialRingComposition::Dust => String::from_str("Dusty"),
        }
    }
}

impl CelestialRingLevel {
    /// Returns how this value is written.
    pub fn to_string(&self) -> (r: String)
        ensures
            r@ == celestial_ring_level_text(*self),
    {
        match self {
            CelestialRingLevel::Unnoticeable => String::from_str("Unnoticeable"),
            CelestialRingLevel::Noticeable => String::from_str("Noticeable"),
            CelestialRingLevel::Visible => String::from_str("Visible"),
            CelestialRingLevel::Spectacular => String::from_str("Spectacular"),
        }
    }
}

impl CelestialBeltType {
    /// Returns how this value is written.
    pub fn to_string(&self) -> (r: String)
        ensures
            r@ == celestial_belt_type_text(*self),
    {
        match self {
            CelestialBeltType::Dust => String::from_str("Dust"),
            CelestialBeltType::Meteoroid => String::from_str("Meteoroid"),
            CelestialBeltType::Ore => String::from_str("Ore"),
            CelestialBeltType::Debris => String::from_str("Debris"),
            CelestialBeltType::Asteroid => String::from_str("Asteroid"),
            CelestialBeltType::Ash => String::from_str("Ash"),
            CelestialBeltType::Frost => String::from_str("Frost"),
            CelestialBeltType::Comet => String::from_str("Comet"),
            CelestialBeltType::GasBelt => String::from_str("Gas"),
        }
    }
}

impl LifeLevel {
    /// Returns how this value is written.
    pub fn to_string(&self) -> (r: String)
        ensures
            r@ == life_level_text(*self),
    {
        match self {
            LifeLevel::NoLife => String::from_str("None"),
            LifeLevel::UniCellular => String::from_str("UniCellular"),
            LifeLevel::PluriCellular => String::from_str("PluriCellular"),
            LifeLevel::PlantLike => String::from_str("PlantLike"),
            LifeLevel::AnimalLike => String::from_str("AnimalLike"),
            LifeLevel::Sentient => String::from_str("Sentient"),
        }
    }
}

impl GalaxySubCategory {
    /// Returns how this value is written.
    pub fn to_string(&self) -> (r: String)
        ensures
            r@ == galaxy_sub_category_text(*self),
    {
        match self {
            GalaxySubCategory::DwarfAmorphous => String::from_str("Dwarf Amorphous"),
            GalaxySubCategory::Amorphous => String::from_str("Amorphous"),
            GalaxySubCategory::DwarfSpiral => String::from_str("Dwarf Spiral"),
            GalaxySubCategory::FlatSpiral => String::from_str("Flat Spiral"),
            GalaxySubCategory::BarredSpiral => String::from_str("Barred Spiral"),
            GalaxySubCategory::ClassicSpiral => String::from_str("Classic Spiral"),
            GalaxySubCategory::DwarfLenticular => String::from_str("Dwarf Lenticular"),
            GalaxySubCategory::CommonLenticular => String::from_str("Common Lenticular"),
            GalaxySubCategory::GiantLenticular => String::from_str("Giant Lenticular"),
            GalaxySubCategory::DwarfElliptical => String::from_str("Dwarf Elliptical"),
            GalaxySubCategory::CommonElliptical => String::from_str("Common Elliptical"),
            GalaxySubCategory::GiantElliptical => String::from_str("Giant Elliptical"),
        }
    }
}

impl GalaxySatellites {
    /// Returns how this value is written.
    pub fn to_string(&self) -> (r: String)
        ensures
            r@ == galaxy_satellites_text(*self),
    {
        match self {
            GalaxySatellites::MuchMore => String::from_str("Much More Satellites"),
            GalaxySatellites::More => String::from_str("More Satellites"),
            GalaxySatellites::Less => String::from_str("Less Satellites"),
            GalaxySatellites::MuchLess => String::from_str("Much Less Satellites"),
            GalaxySatellites::NoSatellites => String::from_str("No Satellites"),
            GalaxySatellites::Special => String::from_str("Special Satellites"),
        }
    }
}

/// How a peculiarity of a celestial body is written.
pub open spec fn celestial_body_special_trait_text(x: CelestialBodySpecialTrait) -> Seq<char> {
    match x {
        CelestialBodySpecialTrait::NoPeculiarity => "No Peculiarity"@,
        CelestialBodySpecialTrait::ProtoGiant => "Proto-Giant"@,
        CelestialBodySpecialTrait::RetrogradeOrbit => "Retrograde Orbit"@,
        CelestialBodySpecialTrait::SpecificGeologicActivity(s) => telluric_geologic_activity_text(s),
        CelestialBodySpecialTrait::SpecificTerrainRelief(s) => telluric_terrain_relief_text(s),
        CelestialBodySpecialTrait::UnusualVolatileDensity(s) => telluric_volatile_density_difference_text(s),
        CelestialBodySpecialTrait::UnusualMagneticField(s) => telluric_magnetic_field_difference_text(s),
        CelestialBodySpecialTrait::UnusualAxialTilt(s) => telluric_axial_tilt_difference_text(s),
        CelestialBodySpecialTrait::UnusualRotation(s) => telluric_rotation_difference_text(s),
        CelestialBodySpecialTrait::UnusualCore(s) => telluric_core_difference_text(s),
        CelestialBodySpecialTrait::TideLocked(s) => "Tide-Locked "@ + tide_lock_target_text(s),
    }
}

impl CelestialBodySpecialTrait {
    /// Returns how this peculiarity is written.
    pub fn to_string(&self) -> (r: String)
        ensures
            r@ == celestial_body_special_trait_text(*self),
    {
        match self {
            CelestialBodySpecialTrait::NoPeculiarity => String::from_str("No Peculiarity"),
            CelestialBodySpecialTrait::ProtoGiant => String::from_str("Proto-Giant"),
            CelestialBodySpecialTrait::RetrogradeOrbit => String::from_str("Retrograde Orbit"),
            CelestialBodySpecialTrait::SpecificGeologicActivity(s) => s.to_string(),
            CelestialBodySpecialTrait::SpecificTerrainRelief(s) => s.to_string(),
            CelestialBodySpecialTrait::UnusualVolatileDensity(s) => s.to_string(),
            CelestialBodySpecialTrait::UnusualMagneticField(s) => s.to_string(),
            CelestialBodySpecialTrait::UnusualAxialTilt(s) => s.to_string(),
            CelestialBodySpecialTrait::UnusualRotation(s) => s.to_string(),
            CelestialBodySpecialTrait::UnusualCore(s) => s.to_string(),
            CelestialBodySpecialTrait::TideLocked(s) => {
                let mut r = String::from_str("Tide-Locked ");
                r.append(s.to_string().as_str());
                r
            },
        }
    }
}

/// How a peculiarity of a telluric body is written.
pub open spec fn telluric_special_trait_text(x: TelluricSpecialTrait) -> Seq<char> {
    match x {
        TelluricSpecialTrait::NoPeculiarity => "No Peculiarity"@,
        TelluricSpecialTrait::UnusualVolatileDensity(s) => telluric_volatile_density_difference_text(s),
        TelluricSpecialTrait::UnusualRotation(s) => telluric_rotation_difference_text(s),
        TelluricSpecialTrait::UnusualAxialTilt(s) => telluric_axial_tilt_difference_text(s),
        TelluricSpecialTrait::UnusualCore(s) => telluric_core_difference_text(s),
        TelluricSpecialTrait::SpecificGeologicActivity(s) => telluric_geologic_activity_text(s),
        TelluricSpecialTrait::UnusualMagneticField(s) => telluric_magnetic_field_difference_text(s),
        TelluricSpecialTrait::SpecificTerrainRelief(s) => telluric_terrain_relief_text(s),
    }
}

impl TelluricSpecialTrait {
    /// Returns how this peculiarity is written.
    pub fn to_string(&self) -> (r: String)
        ensures
            r@ == telluric_special_trait_text(*self),
    {
        match self {
            TelluricSpecialTrait::NoPeculiarity => String::from_str("No Peculiarity"),
            TelluricSpecialTrait::UnusualVolatileDensity(s) => s.to_string(),
            TelluricSpecialTrait::UnusualRotation(s) => s.to_string(),
            TelluricSpecialTrait::UnusualAxialTilt(s) => s.to_string(),
            TelluricSpecialTrait::UnusualCore(s) => s.to_string(),
            TelluricSpecialTrait::SpecificGeologicActivity(s) => s.to_string(),
            TelluricSpecialTrait::UnusualMagneticField(s) => s.to_string(),
            TelluricSpecialTrait::SpecificTerrainRelief(s) => s.to_string(),
        }
    }
}

/// How a kind of disk is written: a ring by its level and composition, a belt by its
/// composition.
pub open spec fn celestial_disk_type_text(x: CelestialDiskType) -> Seq<char> {
    match x {
        CelestialDiskType::ProtoplanetaryDisk => "Protoplanetary Disk"@,
        CelestialDiskType::Ring(ring) => celestial_ring_level_text(ring.level) + " "@ + celestial_ring_composition_text(
            ring.composition,
        ) + " Ring"@,
        CelestialDiskType::Belt(belt) => celestial_belt_type_text(belt.composition) + " Belt"@,
        CelestialDiskType::Shell => "Shell"@,
    }
}

impl CelestialDiskType {
    /// Returns how this kind of disk is written.
    pub fn to_string(&self) -> (r: String)
        ensures
            r@ == celestial_disk_type_text(*self),
    {
        match self {
            CelestialDiskType::ProtoplanetaryDisk => String::from_str("Protoplanetary Disk"),
            CelestialDiskType::Ring(ring) => {
                let mut r = ring.level.to_string();
                r.append(" ");
                r.append(ring.composition.to_string().as_str());
                r.append(" Ring");
                r
            },
            CelestialDiskType::Belt(belt) => {
                let mut r = belt.composition.to_string();
                r.append(" Belt");
                r
            },
            CelestialDiskType::Shell => String::from_str("Shell"),
        }
    }
}

/// How a peculiarity of a galaxy is written, with the percentages of the compact, expansive and
/// size variations.
pub open spec fn galaxy_special_trait_text(x: GalaxySpecialTrait) -> Seq<char> {
    match x {
        GalaxySpecialTrait::NoPeculiarity => "No Peculiarity"@,
        GalaxySpecialTrait::ActiveNucleus => "Active Nucleus"@,
        GalaxySpecialTrait::DoubleNuclei => "Double Nuclei"@,
        GalaxySpecialTrait::Compact(d) => "Compact ("@ + decimal(d as nat) + "% density)"@,
        GalaxySpecialTrait::Expansive(d) => "Expansive ("@ + decimal(d as nat) + "% density)"@,
        GalaxySpecialTrait::ExtendedHalo => "Extended Halo"@,
        GalaxySpecialTrait::MetalPoor => "Metal Poor"@,
        GalaxySpecialTrait::Dusty => "Dusty"@,
        GalaxySpecialTrait::GasPoor => "Gas Poor"@,
        GalaxySpecialTrait::GasRich => "Gas Rich"@,
        GalaxySpecialTrait::Starburst => "Starburst"@,
        GalaxySpecialTrait::Dead => "Dead"@,
        GalaxySpecialTrait::Dormant => "Dormant"@,
        GalaxySpecialTrait::Satellites(s) => galaxy_satellites_text(s),
        GalaxySpecialTrait::Interacting => "Interacting"@,
        GalaxySpecialTrait::Tail => "Tail"@,
        GalaxySpecialTrait::Younger => "Younger"@,
        GalaxySpecialTrait::Older => "Older"@,
        GalaxySpecialTrait::SubSize(m) => "Sub-Size ("@ + decimal(m as nat) + "% mass)"@,
        GalaxySpecialTrait::SuperSize(m) => "Super-Size ("@ + decimal(m as nat) + "% mass)"@,
    }
}

fn number_between(prefix: &str, n: u64, suffix: &str) -> (r: String)
    ensures
        r@ == prefix@ + decimal(n as nat) + suffix@,
{
    let mut r = String::from_str(prefix);
    append_decimal(&mut r, n);
    r.append(suffix);
    r
}

impl GalaxySpecialTrait {
    /// Returns how this peculiarity is written.
    pub fn to_string(&self) -> (r: String)
        ensures
            r@ == galaxy_special_trait_text(*self),
    {
        match self {
            GalaxySpecialTrait::NoPeculiarity => String::from_str("No Peculiarity"),
            GalaxySpecialTrait::ActiveNucleus => String::from_str("Active Nucleus"),
            GalaxySpecialTrait::DoubleNuclei => String::from_str("Double Nuclei"),
            GalaxySpecialTrait::Compact(d) => number_between("Compact (", *d as u64, "% density)"),
            GalaxySpecialTrait::Expansive(d) => number_between("Expansive (", *d as u64, "% density)"),
            GalaxySpecialTrait::ExtendedHalo => String::from_str("Extended Halo"),
            GalaxySpecialTrait::MetalPoor => String::from_str("Metal Poor"),
            GalaxySpecialTrait::Dusty => String::from_str("Dusty"),
            GalaxySpecialTrait::GasPoor => String::from_str("Gas Poor"),
            GalaxySpecialTrait::GasRich => String::from_str("Gas Rich"),
            GalaxySpecialTrait::Starburst => String::from_str("Starburst"),
            GalaxySpecialTrait::Dead => String::from_str("Dead"),
            GalaxySpecialTrait::Dormant => String::from_str("Dormant"),
            GalaxySpecialTrait::Satellites(s) => s.to_string(),
            GalaxySpecialTrait::Interacting => String::from_str("Interacting"),
            GalaxySpecialTrait::Tail => String::from_str("Tail"),
            GalaxySpecialTrait::Younger => String::from_str("Younger"),
            GalaxySpecialTrait::Older => String::from_str("Older"),
            GalaxySpecialTrait::SubSize(m) => number_between("Sub-Size (", *m as u64, "% mass)"),
            GalaxySpecialTrait::SuperSize(m) => number_between("Super-Size (", *m as u64, "% mass)"),
        }
    }
}

/// The count of a kind of galaxies when there are some, written as `{n} {kind}`.
pub open spec fn count_text(n: nat, kind: Seq<char>) -> Seq<char> {
    if n > 0 {
        decimal(n) + " "@ + kind
    } else {
        Seq::empty()
    }
}

/// How the density of a neighborhood is written, such as `Cluster with 1 dominant, 8 major and 209
/// minor galaxies`; the plural follows the minor galaxies.
pub open spec fn density_text(d: GalacticNeighborhoodDensity) -> Seq<char> {
    match d {
        GalacticNeighborhoodDensity::Void(g, m) => "Void with "@ + count_text(g as nat, "major"@) + (if g > 0 && m > 0 {
            " and "@
        } else {
            Seq::empty()
        }) + count_text(m as nat, "minor"@) + " galax"@ + (if m == 1 { "y"@ } else { "ies"@ }),
        GalacticNeighborhoodDensity::Group(g, m) => "Group with "@ + count_text(g as nat, "major"@) + (if g > 0 && m > 0 {
            " and "@
        } else {
            Seq::empty()
        }) + count_text(m as nat, "minor"@) + " galax"@ + (if m == 1 { "y"@ } else { "ies"@ }),
        GalacticNeighborhoodDensity::Cluster(dominant, g, m) => "Cluster with "@ + count_text(dominant as nat, "dominant"@)
            + (if dominant > 0 && g > 0 && m > 0 {
            ", "@
        } else if (dominant > 0 && m > 0) || (dominant > 0 && g > 0) {
            " and "@
        } else {
            Seq::empty()
        }) + count_text(g as nat, "major"@) + (if (m > 0 && dominant > 0) || (m > 0 && g > 0) {
            " and "@
        } else {
            Seq::empty()
        }) + count_text(m as nat, "minor"@) + " galax"@ + (if m == 1 { "y"@ } else { "ies"@ }),
    }
}

fn append_count(s: &mut String, n: u64, kind: &str)
    ensures
        final(s)@ == old(s)@ + count_text(n as nat, kind@),
{
    if n > 0 {
        append_decimal(s, n);
        s.append(" ");
        s.append(kind);
        proof {
            assert(final(s)@ =~= old(s)@ + count_text(n as nat, kind@));
        }
    } else {
        proof {
            assert(final(s)@ =~= old(s)@ + count_text(n as nat, kind@));
        }
    }
}

fn append_galaxies(s: &mut String, minor: u16)
    ensures
        final(s)@ == old(s)@ + " galax"@ + (if minor == 1 { "y"@ } else { "ies"@ }),
{
    s.append(" galax");
    if minor == 1 {
        s.append("y");
    } else {
        s.append("ies");
    }
}

impl GalacticNeighborhoodDensity {
    /// Returns how this density is written, such as `Group with 2 major and 36 minor galaxies`.
    pub fn to_string(&self) -> (r: String)
        ensures
            r@ == density_text(*self),
    {
        match *self {
            GalacticNeighborhoodDensity::Void(g, m) | GalacticNeighborhoodDensity::Group(g, m) => {
                let mut s = match *self {
                    GalacticNeighborhoodDensity::Void(..) => String::from_str("Void with "),
                    _ => String::from_str("Group with "),
                };
                append_count(&mut s, g as u64, "major");
                if g > 0 && m > 0 {
                    s.append(" and ");
                }
                append_count(&mut s, m as u64, "minor");
                append_galaxies(&mut s, m);
                proof {
                    assert(s@ =~= density_text(*self));
                }
                s
            },
            GalacticNeighborhoodDensity::Cluster(dominant, g, m) => {
                let mut s = String::from_str("Cluster with ");
                append_count(&mut s, dominant as u64, "dominant");
                if dominant > 0 && g > 0 && m > 0 {
                    s.append(", ");
                } else if (dominant > 0 && m > 0) || (dominant > 0 && g > 0) {
                    s.append(" and ");
                }
                append_count(&mut s, g as u64, "major");
                if (m > 0 && dominant > 0) || (m > 0 && g > 0) {
                    s.append(" and ");
                }
                append_count(&mut s, m as u64, "minor");
                append_galaxies(&mut s, m);
                proof {
                    assert(s@ =~= density_text(*self));
                }
                s
            },
        }
    }
}

impl GalacticNeighborhood {
    /// Returns how this neighborhood is written: `Galactic` and its density.
    pub fn to_string(&self) -> (r: String)
        ensures
            r@ == "Galactic "@ + density_text(self.density),
    {
        let mut s = String::from_str("Galactic ");
        s.append(self.density.to_string().as_str());
        s
    }
}

impl SpaceCoordinates {
    /// Returns how this point is written: `(x: 1, y: -2, z: 3)`.
    pub fn to_string(&self) -> (r: String)
        ensures
            r@ == coordinates_text(*self),
    {
        let mut s = String::new();
        append_coordinates(&mut s, *self);
        s
    }
}

} // verus!
