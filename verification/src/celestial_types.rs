use vstd::prelude::*;

verus! {

/// How the volatiles of a telluric body differ from the usual.
#[derive(Copy, Clone, PartialEq, Eq, Structural, PartialOrd, Ord, Hash, Debug)]
pub enum TelluricVolatileDensityDifference {
    /// Fewer volatiles than usual.
    Poor,
    /// More volatiles than usual.
    Rich,
}

impl Default for TelluricVolatileDensityDifference {
    fn default() -> (r: Self)
        ensures
            r == TelluricVolatileDensityDifference::Rich,
    {
        TelluricVolatileDensityDifference::Rich
    }
}

/// How the rotation of a telluric body differs from the usual.
#[derive(Copy, Clone, PartialEq, Eq, Structural, PartialOrd, Ord, Hash, Debug)]
pub enum TelluricRotationDifference {
    /// A slower rotation than usual.
    Slow,
    /// A faster rotation than usual.
    Fast,
    /// A rotation against the direction of its orbit.
    Retrograde,
    /// A 3:2 spin-orbit resonance.
    Resonant,
}

impl Default for TelluricRotationDifference {
    fn default() -> (r: Self)
        ensures
            r == TelluricRotationDifference::Fast,
    {
        TelluricRotationDifference::Fast
    }
}

/// What a tide-locked body always shows the same face to.
#[derive(Copy, Clone, PartialEq, Eq, Structural, PartialOrd, Ord, Hash, Debug)]
pub enum TideLockTarget {
    /// The body it orbits.
    Orbited,
    /// Its main satellite.
    Satellite,
}

impl Default for TideLockTarget {
    fn default() -> (r: Self)
        ensures
            r == TideLockTarget::Orbited,
    {
        TideLockTarget::Orbited
    }
}

/// How the axial tilt of a telluric body differs from the usual.
#[derive(Copy, Clone, PartialEq, Eq, Structural, PartialOrd, Ord, Hash, Debug)]
pub enum TelluricAxialTiltDifference {
    /// An axial tilt close to nothing.
    Minimal,
    /// An extreme axial tilt.
    Extreme,
}

impl Default for TelluricAxialTiltDifference {
    fn default() -> (r: Self)
        ensures
            r == TelluricAxialTiltDifference::Extreme,
    {
        TelluricAxialTiltDifference::Extreme
    }
}

/// How the core of a telluric body differs from the usual.
#[derive(Copy, Clone, PartialEq, Eq, Structural, PartialOrd, Ord, Hash, Debug)]
pub enum TelluricCoreDifference {
    /// No core at all.
    Coreless,
    /// A smaller core than usual.
    Smaller,
    /// A larger core than usual.
    Larger,
}

impl Default for TelluricCoreDifference {
    fn default() -> (r: Self)
        ensures
            r == TelluricCoreDifference::Smaller,
    {
        TelluricCoreDifference::Smaller
    }
}

/// A specific level of geologic activity of a telluric body.
#[derive(Copy, Clone, PartialEq, Eq, Structural, PartialOrd, Ord, Hash, Debug)]
pub enum TelluricGeologicActivity {
    /// No geologic activity, ever.
    GeologicallyDead,
    /// No geologic activity anymore.
    GeologicallyExtinct,
    /// An intense geologic activity.
    GeologicallyActive,
}

impl Default for TelluricGeologicActivity {
    fn default() -> (r: Self)
        ensures
            r == TelluricGeologicActivity::GeologicallyExtinct,
    {
        TelluricGeologicActivity::GeologicallyExtinct
    }
}

/// How the magnetic field of a telluric body differs from the usual.
#[derive(Copy, Clone, PartialEq, Eq, Structural, PartialOrd, Ord, Hash, Debug)]
pub enum TelluricMagneticFieldDifference {
    /// A much weaker magnetic field.
    MuchWeaker,
    /// A weaker magnetic field.
    Weaker,
    /// A stronger magnetic field.
    Stronger,
    /// A much stronger magnetic field.
    MuchStronger,
}

impl Default for TelluricMagneticFieldDifference {
    fn default() -> (r: Self)
        ensures
            r == TelluricMagneticFieldDifference::Weaker,
    {
        TelluricMagneticFieldDifference::Weaker
    }
}

/// A specific terrain relief of a telluric body.
#[derive(Copy, Clone, PartialEq, Eq, Structural, PartialOrd, Ord, Hash, Debug)]
pub enum TelluricTerrainRelief {
    /// A mostly flat terrain.
    FlatTerrain,
    /// A very varied terrain.
    VariedTerrain,
    /// A ridge along the equator.
    EquatorialRidge,
}

impl Default for TelluricTerrainRelief {
    fn default() -> (r: Self)
        ensures
            r == TelluricTerrainRelief::FlatTerrain,
    {
        TelluricTerrainRelief::FlatTerrain
    }
}

/// What a telluric body is mostly made of.
#[derive(Copy, Clone, PartialEq, Eq, Structural, PartialOrd, Ord, Hash, Debug)]
pub enum TelluricBodyComposition {
    /// Mostly metals.
    Metallic,
    /// Mostly rocks.
    Rocky,
    /// Mostly ices.
    Icy,
}

impl Default for TelluricBodyComposition {
    fn default() -> (r: Self)
        ensures
            r == TelluricBodyComposition::Rocky,
    {
        TelluricBodyComposition::Rocky
    }
}

/// What a celestial body is mostly made of.
#[derive(Copy, Clone, PartialEq, Eq, Structural, PartialOrd, Ord, Hash, Debug)]
pub enum CelestialBodyComposition {
    /// Mostly metals.
    Metallic,
    /// Mostly rocks.
    Rocky,
    /// Mostly gases.
    Gaseous,
    /// Mostly ices.
    Icy,
}

/// The size class of a celestial body, from the largest to the smallest.
#[derive(Copy, Clone, PartialEq, Eq, Structural, PartialOrd, Ord, Hash, Debug)]
pub enum CelestialBodySize {
    /// The largest gas giants.
    Hypergiant,
    /// Very large gas giants.
    Supergiant,
    /// Gas giants.
    Giant,
    /// Large planets.
    Large,
    /// Earth-like sizes.
    Standard,
    /// Small planets.
    Small,
    /// Dwarf planets.
    Tiny,
    /// Asteroid-sized bodies.
    Puny,
}

/// The kind of world a celestial body is.
#[derive(Copy, Clone, PartialEq, Eq, Structural, PartialOrd, Ord, Hash, Debug)]
pub enum CelestialBodyWorldType {
    /// A world of ice.
    Ice,
    /// Ice mixed with rock and dust.
    DirtySnowball,
    /// A world covered in sulfur.
    Sulfur,
    /// A bare rock.
    Rock,
    /// A very cold world.
    Hadean,
    /// A world of ammonia oceans.
    Ammonia,
    /// A world covered by an ocean.
    Ocean,
    /// An earth-like world.
    Terrestrial,
    /// A world heated by its atmosphere.
    Greenhouse,
    /// The remains of a stripped gas giant.
    Chthonian,
    /// A giant made of volatiles.
    VolatilesGiant,
}

impl Default for CelestialBodyWorldType {
    fn default() -> (r: Self)
        ensures
            r == CelestialBodyWorldType::Rock,
    {
        CelestialBodyWorldType::Rock
    }
}

/// How hot the core of a celestial body is.
#[derive(Copy, Clone, PartialEq, Eq, Structural, PartialOrd, Ord, Hash, Debug)]
pub enum CelestialBodyCoreHeat {
    /// A frozen core.
    FrozenCore,
    /// A warm core.
    WarmCore,
    /// An active core.
    ActiveCore,
    /// An intensely hot core.
    IntenseCore,
}

impl Default for CelestialBodyCoreHeat {
    fn default() -> (r: Self)
        ensures
            r == CelestialBodyCoreHeat::FrozenCore,
    {
        CelestialBodyCoreHeat::FrozenCore
    }
}

/// How strong the magnetic field of a celestial body is.
#[derive(Copy, Clone, PartialEq, Eq, Structural, PartialOrd, Ord, Hash, Debug)]
pub enum MagneticFieldStrength {
    /// No magnetic field.
    NoField,
    /// A weak magnetic field.
    Weak,
    /// A moderate magnetic field.
    Moderate,
    /// A strong magnetic field.
    Strong,
    /// A very strong magnetic field.
    VeryStrong,
    /// An extreme magnetic field.
    Extreme,
}

impl Default for MagneticFieldStrength {
    fn default() -> (r: Self)
        ensures
            r == MagneticFieldStrength::NoField,
    {
        MagneticFieldStrength::NoField
    }
}

/// Where a moon can orbit its planet.
#[derive(Copy, Clone, PartialEq, Eq, Structural, PartialOrd, Ord, Hash, Debug)]
pub enum MoonDistance {
    /// Anywhere.
    Any,
    /// Within the rings.
    Ring,
    /// Closer than the major moons.
    BeforeMajor,
    /// Close to the planet.
    Close,
    /// Close to a major planet.
    MajorPlanetClose,
    /// Close to a major giant.
    MajorGiantClose,
    /// At a medium distance.
    Medium,
    /// At a medium or far distance.
    MediumOrFar,
    /// Far from the planet.
    Far,
}

impl Default for MoonDistance {
    fn default() -> (r: Self)
        ensures
            r == MoonDistance::Close,
    {
        MoonDistance::Close
    }
}

/// How hot a world is, from its blackbody temperature.
#[derive(Copy, Clone, PartialEq, Eq, Structural, PartialOrd, Ord, Hash, Debug)]
pub enum WorldTemperatureCategory {
    /// Below 244 K.
    Frozen,
    /// From 244 K to 254 K.
    VeryCold,
    /// From 255 K to 265 K.
    Cold,
    /// From 266 K to 277 K.
    Chilly,
    /// From 278 K to 288 K.
    Cool,
    /// From 289 K to 299 K.
    Temperate,
    /// From 300 K to 310 K.
    Warm,
    /// From 311 K to 321 K.
    Hot,
    /// From 322 K to 332 K.
    VeryHot,
    /// From 333 K to 343 K.
    Scorching,
    /// From 344 K up.
    Infernal,
}

/// A peculiarity of a celestial body.
#[derive(Copy, Clone, PartialEq, Eq, Structural, PartialOrd, Ord, Hash, Debug)]
pub enum CelestialBodySpecialTrait {
    /// Nothing peculiar.
    NoPeculiarity,
    /// A body that would have become a giant.
    ProtoGiant,
    /// A body orbiting against the direction of the others.
    RetrogradeOrbit,
    /// A specific level of geologic activity.
    SpecificGeologicActivity(TelluricGeologicActivity),
    /// A specific terrain relief.
    SpecificTerrainRelief(TelluricTerrainRelief),
    /// Always showing the same face to something.
    TideLocked(TideLockTarget),
    /// An unusual amount of volatiles.
    UnusualVolatileDensity(TelluricVolatileDensityDifference),
    /// An unusual magnetic field.
    UnusualMagneticField(TelluricMagneticFieldDifference),
    /// An unusual axial tilt.
    UnusualAxialTilt(TelluricAxialTiltDifference),
    /// An unusual rotation.
    UnusualRotation(TelluricRotationDifference),
    /// An unusual core.
    UnusualCore(TelluricCoreDifference),
}

impl Default for CelestialBodySpecialTrait {
    fn default() -> (r: Self)
        ensures
            r == CelestialBodySpecialTrait::NoPeculiarity,
    {
        CelestialBodySpecialTrait::NoPeculiarity
    }
}

/// The kind of a peculiarity, regardless of what it holds: a number for each variant.
pub open spec fn celestial_trait_kind(t: CelestialBodySpecialTrait) -> u8 {
    match t {
        CelestialBodySpecialTrait::NoPeculiarity => 0,
        CelestialBodySpecialTrait::ProtoGiant => 1,
        CelestialBodySpecialTrait::RetrogradeOrbit => 2,
        CelestialBodySpecialTrait::SpecificGeologicActivity(_) => 3,
        CelestialBodySpecialTrait::SpecificTerrainRelief(_) => 4,
        CelestialBodySpecialTrait::TideLocked(_) => 5,
        CelestialBodySpecialTrait::UnusualVolatileDensity(_) => 6,
        CelestialBodySpecialTrait::UnusualMagneticField(_) => 7,
        CelestialBodySpecialTrait::UnusualAxialTilt(_) => 8,
        CelestialBodySpecialTrait::UnusualRotation(_) => 9,
        CelestialBodySpecialTrait::UnusualCore(_) => 10,
    }
}

impl CelestialBodySpecialTrait {
    /// The kind of this peculiarity, regardless of what it holds.
    pub fn kind(&self) -> (r: u8)
        ensures
            r == celestial_trait_kind(*self),
    {
        match self {
            CelestialBodySpecialTrait::NoPeculiarity => 0,
            CelestialBodySpecialTrait::ProtoGiant => 1,
            CelestialBodySpecialTrait::RetrogradeOrbit => 2,
            CelestialBodySpecialTrait::SpecificGeologicActivity(_) => 3,
            CelestialBodySpecialTrait::SpecificTerrainRelief(_) => 4,
            CelestialBodySpecialTrait::TideLocked(_) => 5,
            CelestialBodySpecialTrait::UnusualVolatileDensity(_) => 6,
            CelestialBodySpecialTrait::UnusualMagneticField(_) => 7,
            CelestialBodySpecialTrait::UnusualAxialTilt(_) => 8,
            CelestialBodySpecialTrait::UnusualRotation(_) => 9,
            CelestialBodySpecialTrait::UnusualCore(_) => 10,
        }
    }
}

/// A peculiarity of a telluric body.
#[derive(Copy, Clone, PartialEq, Eq, Structural, PartialOrd, Ord, Hash, Debug)]
pub enum TelluricSpecialTrait {
    /// Nothing peculiar.
    NoPeculiarity,
    /// An unusual amount of volatiles.
    UnusualVolatileDensity(TelluricVolatileDensityDifference),
    /// An unusual rotation.
    UnusualRotation(TelluricRotationDifference),
    /// An unusual axial tilt.
    UnusualAxialTilt(TelluricAxialTiltDifference),
    /// An unusual core.
    UnusualCore(TelluricCoreDifference),
    /// A specific level of geologic activity.
    SpecificGeologicActivity(TelluricGeologicActivity),
    /// An unusual magnetic field.
    UnusualMagneticField(TelluricMagneticFieldDifference),
    /// A specific terrain relief.
    SpecificTerrainRelief(TelluricTerrainRelief),
}

impl Default for TelluricSpecialTrait {
    fn default() -> (r: Self)
        ensures
            r == TelluricSpecialTrait::NoPeculiarity,
    {
        TelluricSpecialTrait::NoPeculiarity
    }
}

/// The settings of the generation of telluric bodies.
#[derive(Copy, Clone, PartialEq, Eq, Structural, Debug, Default)]
pub struct TelluricBodySettings {}

/// The settings of the generation of gaseous bodies.
#[derive(Clone, PartialEq, Debug, Default)]
pub struct GaseousBodySettings {
    /// The peculiarities to give gaseous bodies, if any.
    pub fixed_special_traits: Option<Vec<CelestialBodySpecialTrait>>,
    /// The peculiarities gaseous bodies cannot have, if any.
    pub forbidden_special_traits: Option<Vec<CelestialBodySpecialTrait>>,
}

/// What makes an icy body.
#[derive(Clone, Debug)]
pub struct IcyBodyDetails {
    /// The kind of world it is.
    pub world_type: CelestialBodyWorldType,
    /// Its peculiarities.
    pub special_traits: Vec<CelestialBodySpecialTrait>,
}

impl IcyBodyDetails {
    /// Creates a new [IcyBodyDetails].
    pub fn new(world_type: CelestialBodyWorldType, special_traits: Vec<CelestialBodySpecialTrait>) -> (r: Self)
        ensures
            r.world_type == world_type,
            r.special_traits@ == special_traits@,
    {
        IcyBodyDetails { world_type, special_traits }
    }
}

/// How developed the life on a world is, from none to sentient.
#[derive(Copy, Clone, PartialEq, Eq, Structural, PartialOrd, Ord, Hash, Debug)]
pub enum LifeLevel {
    /// No life at all.
    NoLife,
    /// Single cells.
    UniCellular,
    /// Organisms of many cells.
    PluriCellular,
    /// Plant-like organisms.
    PlantLike,
    /// Animal-like organisms.
    AnimalLike,
    /// Sentient beings.
    Sentient,
}

impl Default for LifeLevel {
    fn default() -> (r: Self)
        ensures
            r == LifeLevel::NoLife,
    {
        LifeLevel::NoLife
    }
}

/// The rank of a level of life, from 0 for none to 5 for sentient beings.
pub open spec fn life_rank(l: LifeLevel) -> u8 {
    match l {
        LifeLevel::NoLife => 0,
        LifeLevel::UniCellular => 1,
        LifeLevel::PluriCellular => 2,
        LifeLevel::PlantLike => 3,
        LifeLevel::AnimalLike => 4,
        LifeLevel::Sentient => 5,
    }
}

impl LifeLevel {
    /// Returns the rank of this level of life, from 0 for none to 5 for sentient beings.
    pub fn as_u8(&self) -> (r: u8)
        ensures
            r == life_rank(*self),
    {
        match self {
            LifeLevel::NoLife => 0,
            LifeLevel::UniCellular => 1,
            LifeLevel::PluriCellular => 2,
            LifeLevel::PlantLike => 3,
            LifeLevel::AnimalLike => 4,
            LifeLevel::Sentient => 5,
        }
    }
}

/// The temperature category of a world of the given blackbody temperature in kelvins: each
/// category spans about eleven kelvins from 244 K up to 344 K.
pub open spec fn temperature_category(t: u32) -> WorldTemperatureCategory {
    if t < 244 {
        WorldTemperatureCategory::Frozen
    } else if t < 255 {
        WorldTemperatureCategory::VeryCold
    } else if t < 266 {
        WorldTemperatureCategory::Cold
    } else if t < 278 {
        WorldTemperatureCategory::Chilly
    } else if t < 289 {
        WorldTemperatureCategory::Cool
    } else if t < 300 {
        WorldTemperatureCategory::Temperate
    } else if t < 311 {
        WorldTemperatureCategory::Warm
    } else if t < 322 {
        WorldTemperatureCategory::Hot
    } else if t < 333 {
        WorldTemperatureCategory::VeryHot
    } else if t < 344 {
        WorldTemperatureCategory::Scorching
    } else {
        WorldTemperatureCategory::Infernal
    }
}

/// Returns the temperature category of a world of the given blackbody temperature in kelvins.
pub fn get_category_from_temperature(blackbody_temperature: u32) -> (r: WorldTemperatureCategory)
    ensures
        r == temperature_category(blackbody_temperature),
{
    if blackbody_temperature < 244 {
        WorldTemperatureCategory::Frozen
    } else if blackbody_temperature < 255 {
        WorldTemperatureCategory::VeryCold
    } else if blackbody_temperature < 266 {
        WorldTemperatureCategory::Cold
    } else if blackbody_temperature < 278 {
        WorldTemperatureCategory::Chilly
    } else if blackbody_temperature < 289 {
        WorldTemperatureCategory::Cool
    } else if blackbody_temperature < 300 {
        WorldTemperatureCategory::Temperate
    } else if blackbody_temperature < 311 {
        WorldTemperatureCategory::Warm
    } else if blackbody_temperature < 322 {
        WorldTemperatureCategory::Hot
    } else if blackbody_temperature < 333 {
        WorldTemperatureCategory::VeryHot
    } else if blackbody_temperature < 344 {
        WorldTemperatureCategory::Scorching
    } else {
        WorldTemperatureCategory::Infernal
    }
}

/// Whether a body of the given temperature in kelvins is cold enough to keep water: below 321 K.
pub fn is_temperature_low_enough_to_retain_water(temperature: u32) -> (r: bool)
    ensures
        r == (temperature < 321),
{
    temperature < 321
}

} // verus!
