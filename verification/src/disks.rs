use vstd::prelude::*;

verus! {

/// What a belt is made of.
#[derive(Copy, Clone, PartialEq, Eq, Structural, PartialOrd, Ord, Hash, Debug)]
pub enum CelestialBeltType {
    /// Metallic dust.
    Dust,
    /// Metallic meteoroids.
    Meteoroid,
    /// Metallic ore.
    Ore,
    /// Rocky debris.
    Debris,
    /// Rocky asteroids.
    Asteroid,
    /// Rocky ash.
    Ash,
    /// Frost.
    Frost,
    /// Comets.
    Comet,
    /// Gas.
    GasBelt,
}

/// What a ring is made of.
#[derive(Copy, Clone, PartialEq, Eq, Structural, PartialOrd, Ord, Hash, Debug)]
pub enum CelestialRingComposition {
    /// Ice.
    Ice,
    /// Rock.
    Rock,
    /// Metal.
    Metal,
    /// Dust.
    Dust,
}

/// How visible a ring is.
#[derive(Copy, Clone, PartialEq, Eq, Structural, PartialOrd, Ord, Hash, Debug)]
pub enum CelestialRingLevel {
    /// Hardly noticeable.
    Unnoticeable,
    /// Noticeable.
    Noticeable,
    /// Clearly visible.
    Visible,
    /// Spectacular.
    Spectacular,
}

/// What makes a belt.
#[derive(Copy, Clone, PartialEq, Eq, Structural, PartialOrd, Ord, Hash, Debug)]
pub struct CelestialBeltDetails {
    /// What the belt is made of.
    pub composition: CelestialBeltType,
}

impl CelestialBeltDetails {
    /// Creates a new [CelestialBeltDetails].
    pub fn new(composition: CelestialBeltType) -> (r: Self)
        ensures
            r.composition == composition,
    {
        CelestialBeltDetails { composition }
    }
}

/// The settings of the generation of belts.
#[derive(Copy, Clone, PartialEq, Eq, Structural, Debug, Default)]
pub struct CelestialBeltSettings {}

/// What makes a ring around a body.
#[derive(Copy, Clone, PartialEq, Eq, Structural, PartialOrd, Ord, Hash, Debug)]
pub struct CelestialRingDetails {
    /// How visible the ring is.
    pub level: CelestialRingLevel,
    /// What the ring is made of.
    pub composition: CelestialRingComposition,
}

impl CelestialRingDetails {
    /// Creates a new [CelestialRingDetails].
    pub fn new(level: CelestialRingLevel, composition: CelestialRingComposition) -> (r: Self)
        ensures
            r.level == level,
            r.composition == composition,
    {
        CelestialRingDetails { level, composition }
    }
}

/// The settings of the generation of rings.
#[derive(Copy, Clone, PartialEq, Eq, Structural, Debug, Default)]
pub struct CelestialRingSettings {}

/// The settings of the generation of disks.
#[derive(Copy, Clone, PartialEq, Eq, Structural, Debug, Default)]
pub struct CelestialDiskSettings {}

/// The kind of a disk of matter orbiting a body.
#[derive(Copy, Clone, PartialEq, Eq, Structural, PartialOrd, Ord, Hash, Debug)]
pub enum CelestialDiskType {
    /// The disk of matter a system forms from.
    ProtoplanetaryDisk,
    /// A ring around a body.
    Ring(CelestialRingDetails),
    /// A belt around a star.
    Belt(CelestialBeltDetails),
    /// A shell of matter around a star.
    Shell,
}

/// What makes a ring of gas.
#[derive(Copy, Clone, PartialEq, Eq, Structural, Debug)]
pub struct GaseousRingDetails {}

impl GaseousRingDetails {
    /// Creates a new [GaseousRingDetails].
    pub fn new() -> (r: Self)
        ensures
            r == (GaseousRingDetails {}),
    {
        GaseousRingDetails {}
    }
}

/// What makes a ring of ice.
#[derive(Copy, Clone, PartialEq, Eq, Structural, Debug)]
pub struct IcyRingDetails {}

impl IcyRingDetails {
    /// Creates a new [IcyRingDetails].
    pub fn new() -> (r: Self)
        ensures
            r == (IcyRingDetails {}),
    {
        IcyRingDetails {}
    }
}

} // verus!
