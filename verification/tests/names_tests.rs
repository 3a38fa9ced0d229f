use planet_generator::coordinates::SpaceCoordinates;
use planet_generator::celestial_types::{
    CelestialBodySize, CelestialBodySpecialTrait, LifeLevel, MagneticFieldStrength, TelluricSpecialTrait,
    TelluricTerrainRelief, TideLockTarget,
};
use planet_generator::disks::{
    CelestialBeltDetails, CelestialBeltType, CelestialDiskType, CelestialRingComposition, CelestialRingDetails,
    CelestialRingLevel,
};
use planet_generator::galaxy_types::{
    GalacticNeighborhood, GalacticNeighborhoodDensity, GalaxySatellites, GalaxySpecialTrait, GalaxySubCategory,
    StelliferousEra, Universe,
};

#[test]
fn densities_are_written_with_their_counts() {
    assert_eq!(GalacticNeighborhoodDensity::Group(2, 36).to_string(), "Group with 2 major and 36 minor galaxies");
    assert_eq!(GalacticNeighborhoodDensity::Void(0, 1).to_string(), "Void with 1 minor galaxy");
    assert_eq!(GalacticNeighborhoodDensity::Void(3, 0).to_string(), "Void with 3 major galaxies");
    assert_eq!(
        GalacticNeighborhoodDensity::Cluster(1, 8, 209).to_string(),
        "Cluster with 1 dominant, 8 major and 209 minor galaxies"
    );
    assert_eq!(GalacticNeighborhoodDensity::Cluster(2, 0, 0).to_string(), "Cluster with 2 dominant galaxies");
    assert_eq!(GalacticNeighborhoodDensity::Cluster(0, 3, 0).to_string(), "Cluster with 3 major galaxies");
    let neighborhood = GalacticNeighborhood::new(
        Universe { era: StelliferousEra::MiddleStelliferous, age: 1380 },
        GalacticNeighborhoodDensity::Group(2, 36),
    );
    assert_eq!(neighborhood.to_string(), "Galactic Group with 2 major and 36 minor galaxies");
}

#[test]
fn galaxy_traits_are_written_with_their_percentages() {
    assert_eq!(GalaxySpecialTrait::Compact(150).to_string(), "Compact (150% density)");
    assert_eq!(GalaxySpecialTrait::SuperSize(1000).to_string(), "Super-Size (1000% mass)");
    assert_eq!(GalaxySpecialTrait::Satellites(GalaxySatellites::NoSatellites).to_string(), "No Satellites");
    assert_eq!(GalaxySpecialTrait::GasRich.to_string(), "Gas Rich");
    assert_eq!(GalaxySubCategory::BarredSpiral.to_string(), "Barred Spiral");
}

#[test]
fn bodies_and_disks_are_written() {
    assert_eq!(CelestialBodySize::Puny.to_string(), "Asteroid-sized");
    assert_eq!(MagneticFieldStrength::NoField.to_string(), "No Magnetic Field");
    assert_eq!(LifeLevel::NoLife.to_string(), "None");
    assert_eq!(CelestialBodySpecialTrait::TideLocked(TideLockTarget::Satellite).to_string(), "Tide-Locked to main satellite");
    assert_eq!(
        TelluricSpecialTrait::SpecificTerrainRelief(TelluricTerrainRelief::EquatorialRidge).to_string(),
        "Equatorial Ridge"
    );
    let ring = CelestialDiskType::Ring(CelestialRingDetails::new(CelestialRingLevel::Visible, CelestialRingComposition::Ice));
    assert_eq!(ring.to_string(), "Visible Icy Ring");
    let belt = CelestialDiskType::Belt(CelestialBeltDetails::new(CelestialBeltType::GasBelt));
    assert_eq!(belt.to_string(), "Gas Belt");
    assert_eq!(CelestialDiskType::ProtoplanetaryDisk.to_string(), "Protoplanetary Disk");
}

#[test]
fn points_are_written_axis_by_axis() {
    assert_eq!(SpaceCoordinates::new(1, -2, 30).to_string(), "(x: 1, y: -2, z: 30)");
}
