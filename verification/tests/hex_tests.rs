use planet_generator::coordinates::SpaceCoordinates;
use planet_generator::hex::{count_systems, get_hex_turns, get_number_of_systems_to_generate, get_region_roll};
use planet_generator::sector::{GalacticRegion, SectorSettings};

#[test]
fn regions_roll_their_own_dice() {
    assert_eq!(get_region_roll(GalacticRegion::Void), (50, 1));
    assert_eq!(get_region_roll(GalacticRegion::Halo), (10, 1));
    assert_eq!(get_region_roll(GalacticRegion::Arm), (4, 4));
    assert_eq!(get_region_roll(GalacticRegion::Bar), (20, 20));
    assert_eq!(get_region_roll(GalacticRegion::GlobularCluster), (100, 100));
    assert_eq!(get_region_roll(GalacticRegion::Nucleus), (500, 500));
}

#[test]
fn hexes_roll_once_or_once_per_parsec() {
    let by_hex = SectorSettings { hex_size: (2, 3, 4), ..Default::default() };
    assert_eq!(get_hex_turns(&by_hex), 1);
    let by_parsec = SectorSettings { hex_size: (2, 3, 4), density_by_hex_instead_of_parsec: false, ..Default::default() };
    assert_eq!(get_hex_turns(&by_parsec), 24);
}

#[test]
fn systems_are_counted_from_successful_rolls() {
    // 1 and 4 succeed on 4, 5 does not; brown dwarfs add one per five.
    assert_eq!(count_systems(&vec![1, 5, 4], &vec![4, 4, 3], 4, false), 5 + 2);
    assert_eq!(count_systems(&vec![1, 5, 4], &vec![4, 4, 3], 4, true), 1);
    assert_eq!(count_systems(&vec![], &vec![], 4, true), 0);
    assert_eq!(count_systems(&vec![2], &vec![], 1, false), 0);
}

#[test]
fn a_hex_holds_at_most_one_system_when_asked() {
    let settings = SectorSettings { hex_size: (4, 4, 4), density_by_hex_instead_of_parsec: false, ..Default::default() };
    for i in 0..200 {
        let index = SpaceCoordinates::new(i, 0, 0);
        let n = get_number_of_systems_to_generate("seed", &settings, index, GalacticRegion::Core);
        assert!(n <= 1);
        let void = get_number_of_systems_to_generate("seed", &settings, index, GalacticRegion::Void);
        assert!(void <= 1);
    }
    let many = SectorSettings {
        hex_size: (4, 4, 4),
        density_by_hex_instead_of_parsec: false,
        max_one_system_per_hex: false,
        ..Default::default()
    };
    // 64 rolls of a two-sided die that succeed on 1: between 0 and 64 systems, plus brown dwarfs.
    let n = get_number_of_systems_to_generate("seed", &many, SpaceCoordinates::new(0, 0, 0), GalacticRegion::Disk);
    assert!(n <= 64 + 12);
}
