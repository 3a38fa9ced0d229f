use planet_generator::coordinates::SpaceCoordinates;
use planet_generator::division::{region_from_samples, region_sample_points, GalacticMapDivision};
use planet_generator::galactic_map::{division_size_fits_in_i64, find_division, levels_are_ready, GalacticMap};
use planet_generator::galaxy_map::{get_division_indexes, get_hex_index};
use planet_generator::galaxy_types::GalaxyCategory;
use planet_generator::sector::{GalacticMapDivisionLevel, GalacticRegion, SectorSettings};

fn void_samples() -> Vec<Vec<GalacticRegion>> {
    (0..10).map(|_| vec![GalacticRegion::Void; 27]).collect()
}

fn test_sector() -> SectorSettings {
    SectorSettings {
        hex_size: (4, 2, 4),
        level_1_size: (2, 2, 2),
        level_2_size: (3, 3, 3),
        level_3_size: (2, 2, 2),
        flat_map: true,
        ..Default::default()
    }
}

#[test]
fn returns_proper_start_center_and_end_points() {
    let category = GalaxyCategory::Irregular(5, 4, 1);
    let start = category.get_galactic_start();
    let center = category.get_galactic_center();
    let end = category.get_galactic_end();
    assert_eq!(start, SpaceCoordinates::new(-2, -1, 0));
    assert_eq!(center, SpaceCoordinates::new(0, 0, 0));
    assert_eq!(end, SpaceCoordinates::new(2, 2, 0));
}

#[test]
fn checks_coordinates_validity_properly() {
    let galaxy = GalaxyCategory::Irregular(5, 4, 1);
    let start = galaxy.get_galactic_start();
    let center = galaxy.get_galactic_center();
    let end = galaxy.get_galactic_end();
    assert_eq!(start, SpaceCoordinates::new(-2, -1, 0));
    assert_eq!(center, SpaceCoordinates::new(0, 0, 0));
    assert_eq!(end, SpaceCoordinates::new(2, 2, 0));

    assert!(galaxy.are_coord_valid(SpaceCoordinates::new(-2, -1, 0)));
    assert!(galaxy.are_coord_valid(SpaceCoordinates::new(-1, -1, 0)));
    assert!(galaxy.are_coord_valid(SpaceCoordinates::new(0, -1, 0)));
    assert!(galaxy.are_coord_valid(SpaceCoordinates::new(1, -1, 0)));
    assert!(galaxy.are_coord_valid(SpaceCoordinates::new(2, -1, 0)));
    assert!(galaxy.are_coord_valid(SpaceCoordinates::new(2, 0, 0)));
    assert!(galaxy.are_coord_valid(SpaceCoordinates::new(2, 1, 0)));
    assert!(galaxy.are_coord_valid(SpaceCoordinates::new(2, 2, 0)));

    assert!(!galaxy.are_coord_valid(SpaceCoordinates::new(-3, -2, -1)));
    assert!(!galaxy.are_coord_valid(SpaceCoordinates::new(-3, -2, 0)));
    assert!(!galaxy.are_coord_valid(SpaceCoordinates::new(-3, -1, 0)));
    assert!(!galaxy.are_coord_valid(SpaceCoordinates::new(-2, -2, 0)));
    assert!(!galaxy.are_coord_valid(SpaceCoordinates::new(-2, -1, -1)));
    assert!(!galaxy.are_coord_valid(SpaceCoordinates::new(-2, -1, 1)));
    assert!(!galaxy.are_coord_valid(SpaceCoordinates::new(2, 3, 0)));
    assert!(!galaxy.are_coord_valid(SpaceCoordinates::new(3, 2, 0)));
    assert!(!galaxy.are_coord_valid(SpaceCoordinates::new(2, 2, 60)));
}

#[test]
fn hexes_and_divs_are_at_expected_coordinates() {
    let settings = test_sector();
    let category = GalaxyCategory::Irregular(100, 5, 1);
    let levels = GalacticMapDivisionLevel::generate_division_levels(&settings);
    let mut galaxy = GalacticMap { category, division_levels: levels.clone(), divisions: vec![] };
    let samples = void_samples();

    let first_hex = get_hex_index(category, &levels, SpaceCoordinates::new(-49, -2, 0)).expect("Should return a hex.");
    assert!(first_hex == SpaceCoordinates::new(0, 0, 0));
    let first_hex_but_second_parsec =
        get_hex_index(category, &levels, SpaceCoordinates::new(-48, -2, 0)).expect("Should return a hex.");
    assert!(first_hex_but_second_parsec == SpaceCoordinates::new(0, 0, 0));
    let another_hex = get_hex_index(category, &levels, SpaceCoordinates::new(-10, -2, 0)).expect("Should return a hex.");
    assert!(another_hex == SpaceCoordinates::new(9, 0, 0));
    let another_hex_with_different_y =
        get_hex_index(category, &levels, SpaceCoordinates::new(-10, 0, 0)).expect("Should return a hex.");
    assert!(another_hex_with_different_y == SpaceCoordinates::new(9, 1, 0));
    let last_hex = get_hex_index(category, &levels, SpaceCoordinates::new(50, 2, 0)).expect("Should return a hex.");
    assert!(last_hex == SpaceCoordinates::new(24, 2, 0));

    let first_div = galaxy
        .get_division_at_level(SpaceCoordinates::new(-49, -2, 0), 1, &samples)
        .expect("Should return a div.");
    assert!(first_div.index == SpaceCoordinates::new(0, 0, 0));
    let first_div_but_fourth_parsec = galaxy
        .get_division_at_level(SpaceCoordinates::new(-46, -2, 0), 1, &samples)
        .expect("Should return a div.");
    assert!(first_div_but_fourth_parsec.index == SpaceCoordinates::new(0, 0, 0));
    let another_div = galaxy
        .get_division_at_level(SpaceCoordinates::new(-10, -2, 0), 1, &samples)
        .expect("Should return a div.");
    assert!(another_div.index == SpaceCoordinates::new(4, 0, 0));
    let another_div_with_different_y = galaxy
        .get_division_at_level(SpaceCoordinates::new(-10, 0, 0), 1, &samples)
        .expect("Should return a div.");
    assert!(another_div_with_different_y.index == SpaceCoordinates::new(4, 0, 0));
    let last_div = galaxy
        .get_division_at_level(SpaceCoordinates::new(50, 2, 0), 1, &samples)
        .expect("Should return a div.");
    assert!(last_div.index == SpaceCoordinates::new(12, 1, 0));

    let first_second_level_div = galaxy
        .get_division_at_level(SpaceCoordinates::new(-49, -2, 0), 2, &samples)
        .expect("Should return a div.");
    assert!(first_second_level_div.index == SpaceCoordinates::new(0, 0, 0));
    let first_second_level_div_but_fourth_parsec = galaxy
        .get_division_at_level(SpaceCoordinates::new(-46, -2, 0), 2, &samples)
        .expect("Should return a div.");
    assert!(first_second_level_div_but_fourth_parsec.index == SpaceCoordinates::new(0, 0, 0));
    let another_second_level_div = galaxy
        .get_division_at_level(SpaceCoordinates::new(-10, -2, 0), 2, &samples)
        .expect("Should return a div.");
    assert!(another_second_level_div.index == SpaceCoordinates::new(1, 0, 0));
    let another_second_level_div_with_different_y = galaxy
        .get_division_at_level(SpaceCoordinates::new(-10, 0, 0), 2, &samples)
        .expect("Should return a div.");
    assert!(another_second_level_div_with_different_y.index == SpaceCoordinates::new(1, 0, 0));
    let last_second_level_div = galaxy
        .get_division_at_level(SpaceCoordinates::new(50, 2, 0), 2, &samples)
        .expect("Should return a div.");
    assert!(last_second_level_div.index == SpaceCoordinates::new(4, 0, 0));
}

#[test]
fn division_levels_follow_the_settings() {
    let levels = GalacticMapDivisionLevel::generate_division_levels(&test_sector());
    assert_eq!(levels.len(), 10);
    assert_eq!(levels[0], GalacticMapDivisionLevel::new(0, 4, 2, 4));
    assert_eq!(levels[1], GalacticMapDivisionLevel::new(1, 2, 2, 1));
    assert_eq!(levels[2], GalacticMapDivisionLevel::new(2, 3, 3, 1));
    assert_eq!(levels[9], GalacticMapDivisionLevel::new(9, 10, 10, 1));
    assert_eq!(levels[2].as_coord(), SpaceCoordinates::new(3, 3, 1));
}

#[test]
fn division_sizes_multiply_the_levels_up_to_their_own() {
    let levels = GalacticMapDivisionLevel::generate_division_levels(&test_sector());
    let mut division = GalacticMapDivision::new(
        String::from("d"),
        GalacticRegion::Void,
        2,
        0,
        0,
        0,
        SpaceCoordinates::new(1, 0, 0),
    );
    assert_eq!(division.size, SpaceCoordinates::new(-1, -1, -1));
    assert_eq!(division.get_size(&levels), SpaceCoordinates::new(24, 12, 4));
    assert_eq!(division.size, SpaceCoordinates::new(24, 12, 4));
    assert_eq!(division.get_width(&levels), 24);
    assert_eq!(division.get_height(&levels), 12);
    assert_eq!(division.get_depth(&levels), 4);
    // Once computed, the size is kept even if other levels are given.
    assert_eq!(division.get_size(&vec![]), SpaceCoordinates::new(24, 12, 4));
}

#[test]
fn division_corners_and_center() {
    let levels = GalacticMapDivisionLevel::generate_division_levels(&test_sector());
    let category = GalaxyCategory::Irregular(100, 5, 1);
    let mut division =
        GalacticMapDivision::new(String::from("d"), GalacticRegion::Void, 1, 0, 0, 0, SpaceCoordinates::new(1, 0, 0));
    assert_eq!(division.get_top_left_up(category), SpaceCoordinates::new(-48, -2, 0));
    assert_eq!(division.get_bottom_right_down(category, &levels), SpaceCoordinates::new(-40, 2, 4));
    // The middle of (-48, -2, 0) and (-40, 2, 4).
    assert_eq!(division.get_center(category, &levels), SpaceCoordinates::new(-44, 0, 2));
    let one_level = vec![GalacticMapDivisionLevel::new(0, 4, 2, 4)];
    let mut hex = GalacticMapDivision::new(String::from("d"), GalacticRegion::Void, 0, 0, 0, 0, SpaceCoordinates::new(0, 0, 0));
    assert_eq!(hex.get_center(GalaxyCategory::Irregular(5, 4, 1), &one_level), SpaceCoordinates::new(0, 0, 2));
}

#[test]
fn generated_divisions_take_their_cell_region_and_size() {
    let levels = GalacticMapDivisionLevel::generate_division_levels(&test_sector());
    let parent = GalacticMapDivisionLevel::new(2, 3, 3, 1);
    let d = GalacticMapDivision::generate(
        SpaceCoordinates::new(4, 1, 0),
        1,
        &parent,
        &levels,
        &vec![GalacticRegion::Arm; 27],
    );
    assert_eq!(d.name, "GalaxyDivision");
    assert_eq!((d.x, d.y, d.z), (1, 1, 0));
    assert_eq!(d.region, GalacticRegion::Arm);
    assert_eq!(d.size, SpaceCoordinates::new(8, 4, 4));
    let negative = GalacticMapDivision::generate(SpaceCoordinates::new(-4, 0, 0), 1, &parent, &levels, &vec![]);
    assert_eq!(negative.x, 255);
    assert_eq!(negative.region, GalacticRegion::Multiple);
}

#[test]
fn regions_from_samples() {
    assert_eq!(region_from_samples(&vec![]), GalacticRegion::Multiple);
    assert_eq!(region_from_samples(&vec![GalacticRegion::Halo; 27]), GalacticRegion::Halo);
    let mut mixed = vec![GalacticRegion::Halo; 27];
    mixed[26] = GalacticRegion::Void;
    assert_eq!(region_from_samples(&mixed), GalacticRegion::Multiple);
}

#[test]
fn sample_points_cover_start_half_and_size() {
    let points = region_sample_points(SpaceCoordinates::new(-5, -6, -7), SpaceCoordinates::new(10, 20, 30));
    assert_eq!(points.len(), 27);
    assert_eq!(points[0], SpaceCoordinates::new(-5, -6, -7));
    assert_eq!(points[1], SpaceCoordinates::new(-5, -6, 15));
    assert_eq!(points[2], SpaceCoordinates::new(-5, -6, 30));
    assert_eq!(points[3], SpaceCoordinates::new(-5, 10, -7));
    assert_eq!(points[9], SpaceCoordinates::new(5, -6, -7));
    assert_eq!(points[26], SpaceCoordinates::new(10, 20, 30));
}

#[test]
fn a_second_lookup_finds_what_the_first_kept() {
    let levels = GalacticMapDivisionLevel::generate_division_levels(&test_sector());
    let mut map = GalacticMap { category: GalaxyCategory::Irregular(100, 5, 1), division_levels: levels, divisions: vec![] };
    let samples = void_samples();
    let first = map.get_divisions_for_coord(SpaceCoordinates::new(-10, 0, 0), &samples).unwrap();
    assert_eq!(first.len(), 10);
    assert_eq!(map.divisions.len(), 10);
    for (i, d) in first.iter().enumerate() {
        assert_eq!(d.level as usize, i);
        assert_eq!(d.region, GalacticRegion::Void);
    }
    let second = map.get_divisions_for_coord(SpaceCoordinates::new(-10, 0, 0), &samples).unwrap();
    assert_eq!(first, second);
    assert_eq!(map.divisions.len(), 10);
    // A neighbouring parsec in the same hex shares every division.
    map.get_divisions_for_coord(SpaceCoordinates::new(-11, 0, 0), &samples).unwrap();
    assert_eq!(map.divisions.len(), 10);
    assert_eq!(find_division(&map.divisions, 1, SpaceCoordinates::new(4, 0, 0)), Some(1));
    assert_eq!(find_division(&map.divisions, 1, SpaceCoordinates::new(5, 0, 0)), None);
}

#[test]
fn map_lookups_refuse_bad_requests() {
    let levels = GalacticMapDivisionLevel::generate_division_levels(&test_sector());
    let category = GalaxyCategory::Irregular(100, 5, 1);
    let mut map = GalacticMap { category, division_levels: levels.clone(), divisions: vec![] };
    let samples = void_samples();
    assert_eq!(
        map.get_divisions_for_coord(SpaceCoordinates::new(51, 0, 0), &samples).unwrap_err(),
        "Invalid coordinates."
    );
    assert_eq!(
        map.get_division_at_level(SpaceCoordinates::new(0, 0, 0), 0, &samples).unwrap_err(),
        "Level must be higher than 0 and less than 10."
    );
    assert_eq!(
        map.get_division_at_level(SpaceCoordinates::new(0, 0, 0), 10, &samples).unwrap_err(),
        "Level must be higher than 0 and less than 10."
    );
    assert_eq!(
        map.get_division_at_level(SpaceCoordinates::new(0, 9, 0), 3, &samples).unwrap_err(),
        "Invalid coordinates."
    );
    assert!(map.divisions.is_empty());
    assert_eq!(get_hex_index(category, &levels, SpaceCoordinates::new(0, 0, 2)).unwrap_err(), "Invalid coordinates.");
    assert_eq!(get_division_indexes(category, &levels, SpaceCoordinates::new(0, 0, 2)).unwrap_err(), "Invalid coordinates.");
}

#[test]
fn division_indexes_divide_level_by_level() {
    let levels = GalacticMapDivisionLevel::generate_division_levels(&test_sector());
    let category = GalaxyCategory::Irregular(100, 5, 1);
    let indexes = get_division_indexes(category, &levels, SpaceCoordinates::new(50, 2, 0)).unwrap();
    assert_eq!(indexes.len(), 10);
    assert_eq!(indexes[0], SpaceCoordinates::new(24, 2, 0));
    assert_eq!(indexes[1], SpaceCoordinates::new(12, 1, 0));
    assert_eq!(indexes[2], SpaceCoordinates::new(4, 0, 0));
    assert_eq!(indexes[3], SpaceCoordinates::new(2, 0, 0));
    assert_eq!(indexes[9], SpaceCoordinates::new(0, 0, 0));
}

#[test]
fn sample_points_follow_each_division() {
    let levels = GalacticMapDivisionLevel::generate_division_levels(&test_sector());
    let map = GalacticMap { category: GalaxyCategory::Irregular(100, 5, 1), division_levels: levels, divisions: vec![] };
    let points = map.get_division_sample_points(SpaceCoordinates::new(-10, 0, 0)).unwrap();
    assert_eq!(points.len(), 10);
    // The hex (9, 1, 0) starts at (-40, -1, 0) and measures (4, 2, 4).
    assert_eq!(points[0][0], SpaceCoordinates::new(-40, -1, 0));
    assert_eq!(points[0][26], SpaceCoordinates::new(4, 2, 4));
    assert_eq!(points[0][13], SpaceCoordinates::new(2, 1, 2));
    assert_eq!(map.get_division_sample_points(SpaceCoordinates::new(-50, 0, 0)).unwrap_err(), "Invalid coordinates.");
}

#[test]
fn galaxy_sizes_span_their_maps() {
    let spiral = GalaxyCategory::Spiral(10, 3);
    assert_eq!(spiral.get_galaxy_size(), SpaceCoordinates::new(20, 20, 3));
    assert_eq!(spiral.get_galactic_start(), SpaceCoordinates::new(-9, -9, -1));
    assert_eq!(spiral.get_galactic_end(), SpaceCoordinates::new(10, 10, 1));
    let elliptical = GalaxyCategory::Elliptical(7);
    assert_eq!(elliptical.get_galaxy_size(), SpaceCoordinates::new(14, 14, 14));
    assert_eq!(elliptical.get_galactic_start(), SpaceCoordinates::new(-6, -6, -6));
    assert_eq!(elliptical.get_galactic_end(), SpaceCoordinates::new(7, 7, 7));
}

#[test]
fn division_levels_are_checked_before_use() {
    let levels = GalacticMapDivisionLevel::generate_division_levels(&test_sector());
    assert!(levels_are_ready(&levels));
    assert!(!levels_are_ready(&vec![]));
    let mut missing_z = levels.clone();
    missing_z[4] = GalacticMapDivisionLevel::new(4, 10, 10, 0);
    assert!(!levels_are_ready(&missing_z));
    let huge: Vec<GalacticMapDivisionLevel> = (0..10).map(|l| GalacticMapDivisionLevel::new(l, 255, 255, 255)).collect();
    assert!(division_size_fits_in_i64(&huge, 6));
    assert!(!division_size_fits_in_i64(&huge, 9));
    assert!(!levels_are_ready(&huge));
    let mut zero_parent = levels.clone();
    zero_parent.push(GalacticMapDivisionLevel::new(10, 0, 1, 1));
    assert!(!levels_are_ready(&zero_parent));
}

#[test]
fn invalid_coordinates_are_refused_before_the_levels_are_read() {
    let category = GalaxyCategory::Irregular(5, 4, 1);
    let no_levels: Vec<GalacticMapDivisionLevel> = vec![];
    let outside = SpaceCoordinates::new(9, 9, 9);
    assert_eq!(get_hex_index(category, &no_levels, outside).unwrap_err(), "Invalid coordinates.");
    assert_eq!(get_division_indexes(category, &no_levels, outside).unwrap_err(), "Invalid coordinates.");
    let mut map = GalacticMap { category, division_levels: vec![], divisions: vec![] };
    let no_samples: Vec<Vec<GalacticRegion>> = vec![];
    assert_eq!(map.get_divisions_for_coord(outside, &no_samples).unwrap_err(), "Invalid coordinates.");
    assert_eq!(map.get_division_at_level(outside, 1, &no_samples).unwrap_err(), "Invalid coordinates.");
    assert_eq!(
        map.get_division_at_level(SpaceCoordinates::new(0, 0, 0), 0, &no_samples).unwrap_err(),
        "Level must be higher than 0 and less than 10."
    );
    assert_eq!(map.get_division_sample_points(outside).unwrap_err(), "Invalid coordinates.");
    assert!(map.divisions.is_empty());
}
