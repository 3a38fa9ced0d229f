use vstd::prelude::*;

verus! {

/// The periods of the universe's star-forming life, from the youngest to the oldest.
#[derive(Copy, Clone, PartialEq, Eq, Structural, PartialOrd, Ord, Hash, Debug)]
pub enum StelliferousEra {
    /// The first billions of years, when the first stars and galaxies appear.
    AncientStelliferous,
    /// Galaxies are young and star formation is intense.
    EarlyStelliferous,
    /// The era of our own universe.
    MiddleStelliferous,
    /// Star formation slows down as the gas runs out.
    LateStelliferous,
    /// The last stars are formed.
    EndStelliferous,
}

/// What the generators read of the universe a neighborhood belongs to.
#[derive(Copy, Clone, PartialEq, Eq, Structural, Debug)]
pub struct Universe {
    /// The era the universe is in.
    pub era: StelliferousEra,
    /// The age of the universe, in hundredths of a billion years.
    pub age: i64,
}

/// Defines the density of a galactic neighborhood. The first associated number indicates how many
/// major galaxies we find in that neighborhood, the second how many minor ones. In a cluster, the
/// first number is the count of dominant galaxies, then major, then minor ones.
#[derive(Copy, Clone, PartialEq, Eq, Structural, PartialOrd, Ord, Hash, Debug)]
pub enum GalacticNeighborhoodDensity {
    /// The emptiest parts of the universe: 0 to 3 major galaxies and a few minor ones.
    Void(u8, u16),
    /// A zone filled with a "regular" amount of galaxies: 1 to 5 major galaxies and minor ones.
    Group(u8, u16),
    /// The most crowded parts of the universe, revolving around dominant galaxies.
    Cluster(u8, u8, u16),
}

impl Default for GalacticNeighborhoodDensity {
    fn default() -> (r: Self)
        ensures
            r == GalacticNeighborhoodDensity::Group(2, 23),
    {
        GalacticNeighborhoodDensity::Group(2, 23)
    }
}

/// Data allowing us to model a galaxy neighborhood (a section of the universe containing
/// multiple galaxies).
#[derive(Copy, Clone, PartialEq, Eq, Structural, Debug)]
pub struct GalacticNeighborhood {
    /// The universe this neighborhood belongs to.
    pub universe: Universe,
    /// How dense is this neighborhood, with the number of galaxies present.
    pub density: GalacticNeighborhoodDensity,
}

impl GalacticNeighborhood {
    /// Returns a new [GalacticNeighborhood] using the given arguments.
    pub fn new(universe: Universe, density: GalacticNeighborhoodDensity) -> (r: Self)
        ensures
            r.universe == universe,
            r.density == density,
    {
        GalacticNeighborhood { universe, density }
    }
}

/// The type of a given galaxy, with its dimensions in parsecs.
#[derive(Copy, Clone, PartialEq, Eq, Structural, PartialOrd, Ord, Hash, Debug)]
pub enum GalaxyCategory {
    /// Loose cloud of gas and stars lost in the void between galaxies: length, width and height.
    Intergalactic(u32, u32, u32),
    /// Dwarf galaxies that do not fit clearly into any other category: length, width and height.
    Irregular(u32, u32, u32),
    /// Disk galaxies with prominent arms rotating around a central bulge: radius and thickness.
    Spiral(u32, u32),
    /// Disk galaxies common to galaxy clusters: radius and thickness.
    Lenticular(u32, u32),
    /// Spherical or ovoid galaxies: radius.
    Elliptical(u32),
    /// Loose cloud of gas and stars between galaxies of a cluster: length, width and height.
    Intracluster(u32, u32, u32),
    /// Giant ellipticals found near the centres of rich clusters: radius.
    DominantElliptical(u32),
}

impl Default for GalaxyCategory {
    fn default() -> (r: Self)
        ensures
            r == GalaxyCategory::Spiral(10000, 100),
    {
        GalaxyCategory::Spiral(10000, 100)
    }
}

/// The subtype of a given galaxy.
#[derive(Copy, Clone, PartialEq, Eq, Structural, PartialOrd, Ord, Hash, Debug)]
pub enum GalaxySubCategory {
    /// Small congregation of star clusters without discernable order.
    DwarfAmorphous,
    /// A galaxy that has a highly unconventional form.
    Amorphous,
    /// Small galaxy similar to a spiral one, with higher star formation rates.
    DwarfSpiral,
    /// Flat spiral galaxy with an almost non-existent galactic bulge.
    FlatSpiral,
    /// Spiral galaxy with gas-rich bar-shaped elongations of stars in the center.
    BarredSpiral,
    /// Spiral galaxy with a gas-poor elliptical bulge in the center.
    ClassicSpiral,
    /// Small galaxy similar to a lenticular one, with higher star formation rates.
    DwarfLenticular,
    /// Lenticular galaxy with thick disks and extensive halos of globular clusters.
    CommonLenticular,
    /// A giant galaxy looking like a flattened elliptical.
    GiantLenticular,
    /// Small galaxy similar to an elliptical one, with higher star formation rates.
    DwarfElliptical,
    /// Elliptical galaxy born of intense starbursts or of galaxy interactions.
    CommonElliptical,
    /// The most massive elliptical galaxies.
    GiantElliptical,
}

impl Default for GalaxySubCategory {
    fn default() -> (r: Self)
        ensures
            r == GalaxySubCategory::BarredSpiral,
    {
        GalaxySubCategory::BarredSpiral
    }
}

/// Describes the noticeable variation in galactic satellites a galaxy might have.
#[derive(Copy, Clone, PartialEq, Eq, Structural, PartialOrd, Ord, Hash, Debug)]
pub enum GalaxySatellites {
    /// This galaxy has much more satellites than expected for its type.
    MuchMore,
    /// This galaxy has more satellites than expected for its type.
    More,
    /// This galaxy has less satellites than expected for its type.
    Less,
    /// This galaxy has much less satellites than expected for its type.
    MuchLess,
    /// This galaxy has no satellites whatsoever.
    NoSatellites,
    /// This galaxy has one or multiple very special satellites.
    Special,
}

impl Default for GalaxySatellites {
    fn default() -> (r: Self)
        ensures
            r == GalaxySatellites::More,
    {
        GalaxySatellites::More
    }
}

/// Peculiarities a galaxy might have.
#[derive(Copy, Clone, PartialEq, Eq, Structural, PartialOrd, Ord, Hash, Debug)]
pub enum GalaxySpecialTrait {
    /// The exact traits one might expect for a member of its type and subtype.
    NoPeculiarity,
    /// A massive central black hole with a much-higher-than-normal luminosity.
    ActiveNucleus,
    /// Two massive central black holes, from two merging galaxies.
    DoubleNuclei,
    /// Stars much more densely packed than usual, as a percentage of the usual density.
    Compact(u8),
    /// Stars much less densely packed than usual, as a percentage of the usual density.
    Expansive(u8),
    /// A sizeable stellar population outside the core and disk/ellipse.
    ExtendedHalo,
    /// Stars with lower metallicity than expected.
    MetalPoor,
    /// Stars with higher metallicity than expected.
    Dusty,
    /// Much less gas than other galaxies, thus slower star formation.
    GasPoor,
    /// Much more gas than other galaxies, thus faster star formation.
    GasRich,
    /// Very high star formation rates.
    Starburst,
    /// Ran out of the cold hydrogen gas needed to make stars earlier than it should have.
    Dead,
    /// Lost too much of its gas while interacting with other galaxies.
    Dormant,
    /// A noticeable variation in satellites.
    Satellites(GalaxySatellites),
    /// Close enough to other galaxies for their gravity to distort each others.
    Interacting,
    /// A tail of gas and stars left by a recent interaction.
    Tail,
    /// A larger population of hot bright stars.
    Younger,
    /// Older stellar populations.
    Older,
    /// Less massive than expected, as a percentage.
    SubSize(u8),
    /// More massive than expected, as a percentage.
    SuperSize(u16),
}

impl Default for GalaxySpecialTrait {
    fn default() -> (r: Self)
        ensures
            r == GalaxySpecialTrait::NoPeculiarity,
    {
        GalaxySpecialTrait::NoPeculiarity
    }
}

/// The variant of a trait, regardless of the value it carries: its position in the declaration.
pub open spec fn trait_kind(t: GalaxySpecialTrait) -> int {
    match t {
        GalaxySpecialTrait::NoPeculiarity => 0,
        GalaxySpecialTrait::ActiveNucleus => 1,
        GalaxySpecialTrait::DoubleNuclei => 2,
        GalaxySpecialTrait::Compact(_) => 3,
        GalaxySpecialTrait::Expansive(_) => 4,
        GalaxySpecialTrait::ExtendedHalo => 5,
        GalaxySpecialTrait::MetalPoor => 6,
        GalaxySpecialTrait::Dusty => 7,
        GalaxySpecialTrait::GasPoor => 8,
        GalaxySpecialTrait::GasRich => 9,
        GalaxySpecialTrait::Starburst => 10,
        GalaxySpecialTrait::Dead => 11,
        GalaxySpecialTrait::Dormant => 12,
        GalaxySpecialTrait::Satellites(_) => 13,
        GalaxySpecialTrait::Interacting => 14,
        GalaxySpecialTrait::Tail => 15,
        GalaxySpecialTrait::Younger => 16,
        GalaxySpecialTrait::Older => 17,
        GalaxySpecialTrait::SubSize(_) => 18,
        GalaxySpecialTrait::SuperSize(_) => 19,
    }
}

/// The variant of a category, regardless of its dimensions.
pub open spec fn category_kind(c: GalaxyCategory) -> int {
    match c {
        GalaxyCategory::Intergalactic(..) => 0,
        GalaxyCategory::Irregular(..) => 1,
        GalaxyCategory::Spiral(..) => 2,
        GalaxyCategory::Lenticular(..) => 3,
        GalaxyCategory::Elliptical(..) => 4,
        GalaxyCategory::Intracluster(..) => 5,
        GalaxyCategory::DominantElliptical(..) => 6,
    }
}

/// The variant of a density, regardless of its counts.
pub open spec fn density_kind(d: GalacticNeighborhoodDensity) -> int {
    match d {
        GalacticNeighborhoodDensity::Void(..) => 0,
        GalacticNeighborhoodDensity::Group(..) => 1,
        GalacticNeighborhoodDensity::Cluster(..) => 2,
    }
}

impl GalaxySpecialTrait {
    /// The variant of this trait, regardless of the value it carries.
    pub fn kind(&self) -> (r: u8)
        ensures
            r == trait_kind(*self),
    {
        match self {
            GalaxySpecialTrait::NoPeculiarity => 0,
            GalaxySpecialTrait::ActiveNucleus => 1,
            GalaxySpecialTrait::DoubleNuclei => 2,
            GalaxySpecialTrait::Compact(_) => 3,
            GalaxySpecialTrait::Expansive(_) => 4,
            GalaxySpecialTrait::ExtendedHalo => 5,
            GalaxySpecialTrait::MetalPoor => 6,
            GalaxySpecialTrait::Dusty => 7,
            GalaxySpecialTrait::GasPoor => 8,
            GalaxySpecialTrait::GasRich => 9,
            GalaxySpecialTrait::Starburst => 10,
            GalaxySpecialTrait::Dead => 11,
            GalaxySpecialTrait::Dormant => 12,
            GalaxySpecialTrait::Satellites(_) => 13,
            GalaxySpecialTrait::Interacting => 14,
            GalaxySpecialTrait::Tail => 15,
            GalaxySpecialTrait::Younger => 16,
            GalaxySpecialTrait::Older => 17,
            GalaxySpecialTrait::SubSize(_) => 18,
            GalaxySpecialTrait::SuperSize(_) => 19,
        }
    }
}

impl GalaxyCategory {
    /// The variant of this category, regardless of its dimensions.
    pub fn kind(&self) -> (r: u8)
        ensures
            r == category_kind(*self),
    {
        match self {
            GalaxyCategory::Intergalactic(..) => 0,
            GalaxyCategory::Irregular(..) => 1,
            GalaxyCategory::Spiral(..) => 2,
            GalaxyCategory::Lenticular(..) => 3,
            GalaxyCategory::Elliptical(..) => 4,
            GalaxyCategory::Intracluster(..) => 5,
            GalaxyCategory::DominantElliptical(..) => 6,
        }
    }
}

/// A list of settings used to configure the galaxy generation.
#[derive(Clone, PartialEq, Debug, Default)]
pub struct GalaxySettings {
    /// The specific [GalacticNeighborhoodDensity] if any.
    pub fixed_neighborhood: Option<GalacticNeighborhoodDensity>,
    /// The specific [GalaxyCategory] if any.
    pub fixed_category: Option<GalaxyCategory>,
    /// The specific [GalaxySubCategory] if any.
    pub fixed_sub_category: Option<GalaxySubCategory>,
    /// A list of specific [GalaxySpecialTrait]s to use, if any.
    pub fixed_special_traits: Option<Vec<GalaxySpecialTrait>>,
    /// A list of [GalaxySpecialTrait]s forbidden to use in galaxy generation.
    pub forbidden_special_traits: Option<Vec<GalaxySpecialTrait>>,
    /// The specific age to use for galaxy generation, if any, in hundredths of a billion years.
    pub fixed_age: Option<i64>,
    /// Skip the galaxy generation and just uses a copy of ours.
    pub use_ours: bool,
}

} // verus!
