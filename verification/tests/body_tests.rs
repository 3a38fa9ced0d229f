use planet_generator::body_gen::{
    downsize_world_by, generate_giant_ring_details, generate_magnetic_field_difference, generate_moon_size,
    generate_peculiarities, get_world_type, magnetic_field_difference_from_roll, moon_size_from_roll,
    peculiarity_turn,
    select_peculiarity, Peculiarity,
};
use planet_generator::celestial_types::{
    get_category_from_temperature, is_temperature_low_enough_to_retain_water, CelestialBodyComposition,
    CelestialBodySize, CelestialBodySpecialTrait, CelestialBodyWorldType, IcyBodyDetails, LifeLevel,
    TelluricCoreDifference, TelluricMagneticFieldDifference, TelluricRotationDifference, TelluricSpecialTrait,
    TelluricTerrainRelief,
    TelluricVolatileDensityDifference, WorldTemperatureCategory,
};
use planet_generator::body_sizes::{determine_icy_size, determine_metallic_body_size, determine_rocky_body_size, BodySizeOutcome};
use planet_generator::coordinates::SpaceCoordinates;
use planet_generator::disks::{
    CelestialBeltDetails, CelestialBeltType, CelestialDiskType, CelestialRingComposition, CelestialRingDetails,
    CelestialRingLevel, GaseousRingDetails, IcyRingDetails,
};
use seeded_dice_roller::SeededDiceRoller;

#[test]
fn peculiarities_follow_the_size_tables() {
    let none = vec![];
    assert_eq!(
        select_peculiarity(CelestialBodySize::Large, 2, &none),
        Some(Peculiarity::Gains(CelestialBodySpecialTrait::UnusualVolatileDensity(
            TelluricVolatileDensityDifference::Poor
        )))
    );
    assert_eq!(select_peculiarity(CelestialBodySize::Large, 79, &none), Some(Peculiarity::MagneticField));
    assert_eq!(select_peculiarity(CelestialBodySize::Standard, 81, &none), Some(Peculiarity::LessDense));
    assert_eq!(select_peculiarity(CelestialBodySize::Tiny, 84, &none), Some(Peculiarity::Denser));
    assert_eq!(select_peculiarity(CelestialBodySize::Large, 100, &none), None);
    // A kind the body already has gives way to the next entry.
    let rich = vec![CelestialBodySpecialTrait::UnusualVolatileDensity(TelluricVolatileDensityDifference::Rich)];
    assert_eq!(
        select_peculiarity(CelestialBodySize::Large, 2, &rich),
        Some(Peculiarity::Gains(CelestialBodySpecialTrait::UnusualRotation(TelluricRotationDifference::Slow)))
    );
    // Puny bodies have no volatile entries at all.
    assert_eq!(
        select_peculiarity(CelestialBodySize::Puny, 1, &none),
        Some(Peculiarity::Gains(CelestialBodySpecialTrait::UnusualRotation(TelluricRotationDifference::Slow)))
    );
    assert_eq!(
        select_peculiarity(CelestialBodySize::Puny, 69, &none),
        Some(Peculiarity::Gains(CelestialBodySpecialTrait::SpecificTerrainRelief(TelluricTerrainRelief::FlatTerrain)))
    );
}

#[test]
fn generated_peculiarities_never_repeat_a_kind() {
    for i in 0..300u32 {
        let mut traits = vec![CelestialBodySpecialTrait::ProtoGiant];
        let size = [CelestialBodySize::Large, CelestialBodySize::Standard, CelestialBodySize::Tiny, CelestialBodySize::Puny]
            [(i % 4) as usize];
        let _shift = generate_peculiarities("seed", SpaceCoordinates::new(1, 2, 3), 4, i, 5, size, &mut traits);
        assert_eq!(traits[0], CelestialBodySpecialTrait::ProtoGiant);
        for a in 0..traits.len() {
            for b in (a + 1)..traits.len() {
                assert_ne!(traits[a].kind(), traits[b].kind());
            }
        }
        if size == CelestialBodySize::Puny {
            for t in &traits[1..] {
                assert!(matches!(
                    t,
                    CelestialBodySpecialTrait::UnusualRotation(_)
                        | CelestialBodySpecialTrait::UnusualAxialTilt(_)
                        | CelestialBodySpecialTrait::UnusualMagneticField(_)
                        | CelestialBodySpecialTrait::SpecificTerrainRelief(_)
                ));
            }
        }
    }
}

#[test]
fn magnetic_fields_follow_a_four_sided_die() {
    assert_eq!(magnetic_field_difference_from_roll(1), TelluricMagneticFieldDifference::MuchWeaker);
    assert_eq!(magnetic_field_difference_from_roll(2), TelluricMagneticFieldDifference::Weaker);
    assert_eq!(magnetic_field_difference_from_roll(3), TelluricMagneticFieldDifference::Stronger);
    assert_eq!(magnetic_field_difference_from_roll(4), TelluricMagneticFieldDifference::MuchStronger);
    let mut rng = SeededDiceRoller::new("seed", "mag");
    let _ = generate_magnetic_field_difference(&mut rng);
}

#[test]
fn downsizing_always_goes_one_size_down() {
    assert_eq!(downsize_world_by(CelestialBodySize::Hypergiant, 0), CelestialBodySize::Supergiant);
    assert_eq!(downsize_world_by(CelestialBodySize::Hypergiant, 3), CelestialBodySize::Supergiant);
    assert_eq!(downsize_world_by(CelestialBodySize::Large, 1), CelestialBodySize::Standard);
    assert_eq!(downsize_world_by(CelestialBodySize::Tiny, 2), CelestialBodySize::Puny);
    assert_eq!(downsize_world_by(CelestialBodySize::Puny, 255), CelestialBodySize::Puny);
}

#[test]
fn moon_sizes_follow_the_roll() {
    assert_eq!(moon_size_from_roll(CelestialBodySize::Hypergiant, 3), CelestialBodySize::Large);
    assert_eq!(moon_size_from_roll(CelestialBodySize::Supergiant, 11), CelestialBodySize::Standard);
    assert_eq!(moon_size_from_roll(CelestialBodySize::Giant, 12), CelestialBodySize::Standard);
    assert_eq!(moon_size_from_roll(CelestialBodySize::Standard, 14), CelestialBodySize::Tiny);
    assert_eq!(moon_size_from_roll(CelestialBodySize::Small, 15), CelestialBodySize::Tiny);
    assert_eq!(moon_size_from_roll(CelestialBodySize::Small, 11), CelestialBodySize::Puny);
    let mut rng = SeededDiceRoller::new("seed", "moon");
    for _ in 0..100 {
        let size = generate_moon_size(&mut rng, CelestialBodySize::Giant);
        assert!(matches!(size, CelestialBodySize::Small | CelestialBodySize::Standard | CelestialBodySize::Large));
    }
}

#[test]
fn world_types_follow_size_and_temperature() {
    let rocky = CelestialBodyComposition::Rocky;
    let icy = CelestialBodyComposition::Icy;
    assert_eq!(get_world_type(CelestialBodySize::Tiny, rocky, 100, false), CelestialBodyWorldType::DirtySnowball);
    assert_eq!(get_world_type(CelestialBodySize::Tiny, icy, 100, false), CelestialBodyWorldType::Ice);
    assert_eq!(get_world_type(CelestialBodySize::Small, icy, 80, false), CelestialBodyWorldType::Hadean);
    assert_eq!(get_world_type(CelestialBodySize::Standard, rocky, 200, true), CelestialBodyWorldType::Ammonia);
    assert_eq!(get_world_type(CelestialBodySize::Standard, rocky, 200, false), CelestialBodyWorldType::DirtySnowball);
    assert_eq!(get_world_type(CelestialBodySize::Standard, rocky, 288, false), CelestialBodyWorldType::Terrestrial);
    assert_eq!(get_world_type(CelestialBodySize::Standard, icy, 288, false), CelestialBodyWorldType::Ocean);
    assert_eq!(get_world_type(CelestialBodySize::Large, icy, 288, false), CelestialBodyWorldType::Terrestrial);
    assert_eq!(get_world_type(CelestialBodySize::Large, rocky, 400, false), CelestialBodyWorldType::Greenhouse);
    assert_eq!(get_world_type(CelestialBodySize::Large, rocky, 501, false), CelestialBodyWorldType::Chthonian);
    assert_eq!(get_world_type(CelestialBodySize::Giant, rocky, 288, false), CelestialBodyWorldType::VolatilesGiant);
}

#[test]
fn temperature_categories() {
    assert_eq!(get_category_from_temperature(0), WorldTemperatureCategory::Frozen);
    assert_eq!(get_category_from_temperature(243), WorldTemperatureCategory::Frozen);
    assert_eq!(get_category_from_temperature(244), WorldTemperatureCategory::VeryCold);
    assert_eq!(get_category_from_temperature(288), WorldTemperatureCategory::Cool);
    assert_eq!(get_category_from_temperature(289), WorldTemperatureCategory::Temperate);
    assert_eq!(get_category_from_temperature(343), WorldTemperatureCategory::Scorching);
    assert_eq!(get_category_from_temperature(344), WorldTemperatureCategory::Infernal);
    assert!(is_temperature_low_enough_to_retain_water(320));
    assert!(!is_temperature_low_enough_to_retain_water(321));
}

#[test]
fn giant_rings_follow_their_moonlets() {
    let mut rng = SeededDiceRoller::new("seed", "ring");
    let dusty = generate_giant_ring_details(&mut rng, 3, 100);
    assert_eq!(dusty, CelestialRingDetails::new(CelestialRingLevel::Unnoticeable, CelestialRingComposition::Dust));
    for moonlets in 4..20i8 {
        let ring = generate_giant_ring_details(&mut rng, moonlets, 350);
        assert!(matches!(ring.composition, CelestialRingComposition::Rock | CelestialRingComposition::Metal));
        let expected = if moonlets < 6 {
            CelestialRingLevel::Noticeable
        } else if moonlets < 10 {
            CelestialRingLevel::Visible
        } else {
            CelestialRingLevel::Spectacular
        };
        assert_eq!(ring.level, expected);
    }
}

#[test]
fn details_keep_what_they_are_given() {
    assert_eq!(CelestialBeltDetails::new(CelestialBeltType::Comet).composition, CelestialBeltType::Comet);
    let ring = CelestialRingDetails::new(CelestialRingLevel::Visible, CelestialRingComposition::Ice);
    assert_eq!((ring.level, ring.composition), (CelestialRingLevel::Visible, CelestialRingComposition::Ice));
    assert_eq!(GaseousRingDetails::new(), GaseousRingDetails {});
    assert_eq!(IcyRingDetails::new(), IcyRingDetails {});
    let icy = IcyBodyDetails::new(CelestialBodyWorldType::Ice, vec![CelestialBodySpecialTrait::RetrogradeOrbit]);
    assert_eq!(icy.world_type, CelestialBodyWorldType::Ice);
    assert_eq!(icy.special_traits, vec![CelestialBodySpecialTrait::RetrogradeOrbit]);
    assert_eq!(LifeLevel::NoLife.as_u8(), 0);
    assert_eq!(LifeLevel::PlantLike.as_u8(), 3);
    assert_eq!(LifeLevel::Sentient.as_u8(), 5);
    assert_eq!(LifeLevel::default(), LifeLevel::NoLife);
    assert_eq!(CelestialBodySpecialTrait::default(), CelestialBodySpecialTrait::NoPeculiarity);
}

#[test]
fn rocky_and_metallic_sizes_follow_the_roll() {
    let mut traits = vec![];
    assert_eq!(determine_rocky_body_size(true, 1, &mut traits), BodySizeOutcome::Body(CelestialBodySize::Puny, 300, 550));
    assert_eq!(
        determine_rocky_body_size(false, 50, &mut traits),
        BodySizeOutcome::Disk(CelestialDiskType::Belt(CelestialBeltDetails::new(CelestialBeltType::Asteroid)))
    );
    assert!(traits.is_empty());
    assert_eq!(determine_rocky_body_size(false, 162, &mut traits), BodySizeOutcome::Body(CelestialBodySize::Tiny, 300, 450));
    assert_eq!(traits, vec![CelestialBodySpecialTrait::UnusualCore(TelluricCoreDifference::Coreless)]);
    assert_eq!(determine_rocky_body_size(false, 400, &mut traits), BodySizeOutcome::Body(CelestialBodySize::Large, 490, 700));
    assert_eq!(traits.len(), 1);
    assert_eq!(
        determine_metallic_body_size(false, 141),
        BodySizeOutcome::Disk(CelestialDiskType::Belt(CelestialBeltDetails::new(CelestialBeltType::Ore)))
    );
    assert_eq!(determine_metallic_body_size(false, 300), BodySizeOutcome::Body(CelestialBodySize::Tiny, 700, 1500));
    assert_eq!(determine_metallic_body_size(false, 394), BodySizeOutcome::Body(CelestialBodySize::Large, 600, 900));
}

#[test]
fn icy_sizes_follow_the_roll_and_the_temperature() {
    let mut rng = SeededDiceRoller::new("seed", "icy");
    let mut traits = vec![];
    assert_eq!(determine_icy_size(&mut rng, false, 63, 100, &mut traits), (BodySizeOutcome::Disk(CelestialDiskType::Shell), 0));
    assert_eq!(
        determine_icy_size(&mut rng, false, 63, 200, &mut traits).0,
        BodySizeOutcome::Disk(CelestialDiskType::Belt(CelestialBeltDetails::new(CelestialBeltType::Asteroid)))
    );
    assert_eq!(determine_icy_size(&mut rng, false, 100, 100, &mut traits).0, BodySizeOutcome::Body(CelestialBodySize::Tiny, 100, 183));
    assert_eq!(traits, vec![TelluricSpecialTrait::UnusualCore(TelluricCoreDifference::Coreless)]);
    let (giant, mass) = determine_icy_size(&mut rng, false, 350, 100, &mut traits);
    assert_eq!(giant, BodySizeOutcome::Body(CelestialBodySize::Giant, 60, 130));
    assert!((200..=1599).contains(&mass));
    let (supergiant, mass) = determine_icy_size(&mut rng, false, 396, 100, &mut traits);
    assert_eq!(supergiant, BodySizeOutcome::Body(CelestialBodySize::Supergiant, 90, 160));
    assert!((40000..=1199 * 1199).contains(&mass));
    let (hot, mass) = determine_icy_size(&mut rng, false, 396, 321, &mut traits);
    assert_eq!(hot, BodySizeOutcome::Body(CelestialBodySize::Standard, 150, 550));
    assert_eq!(mass, 0);
}

#[test]
fn a_peculiarity_turn_rerolls_on_121_and_uses_the_second_roll() {
    let none = vec![];
    assert_eq!(
        peculiarity_turn(CelestialBodySize::Puny, 121, 60, &none),
        (true, Some(Peculiarity::Denser), 1)
    );
    assert_eq!(
        peculiarity_turn(CelestialBodySize::Puny, 50, 0, &none),
        (false, Some(Peculiarity::LessDense), -1)
    );
    assert_eq!(
        peculiarity_turn(CelestialBodySize::Puny, 121, 1, &none),
        (
            true,
            Some(Peculiarity::Gains(CelestialBodySpecialTrait::UnusualRotation(TelluricRotationDifference::Slow))),
            0
        )
    );
    assert_eq!(peculiarity_turn(CelestialBodySize::Large, 120, 1, &none), (false, None, 0));
}
