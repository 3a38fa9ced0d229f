use planet_generator::coordinates::SpaceCoordinates;
use planet_generator::hex::hex_step;
use planet_generator::body_gen::peculiarity_step;
use planet_generator::text::numbered_step;

#[test]
fn coordinates_arithmetic_works_axis_by_axis() {
    let a = SpaceCoordinates::new(7, -8, 9);
    let b = SpaceCoordinates::new(2, 3, -4);
    assert_eq!(a.add(b), SpaceCoordinates::new(9, -5, 5));
    assert_eq!(a.sub(b), SpaceCoordinates::new(5, -11, 13));
    assert_eq!(a.mul(b), SpaceCoordinates::new(14, -24, -36));
    // Division rounds towards zero, as Rust's does.
    assert_eq!(a.div(b), SpaceCoordinates::new(3, -2, -2));
}

#[test]
fn absolute_and_relative_coordinates_undo_each_other() {
    let start = SpaceCoordinates::new(-49, -2, 0);
    let c = SpaceCoordinates::new(-10, 1, 0);
    let abs = c.abs(start);
    assert_eq!(abs, SpaceCoordinates::new(39, 3, 0));
    assert_eq!(abs.rel(start), c);
    assert_eq!(c.rel(start).abs(start), c);
}

#[test]
fn step_names_write_numbers_and_points() {
    assert_eq!(numbered_step("gal_", 42, "_cat"), "gal_42_cat");
    assert_eq!(numbered_step("gal_", 0, "_age"), "gal_0_age");
    assert_eq!(hex_step(SpaceCoordinates::new(1, -2, 30), "_nbr_sys"), "hex_(x: 1, y: -2, z: 30)_nbr_sys");
    assert_eq!(
        peculiarity_step(SpaceCoordinates::new(0, 0, 0), 3, 1, 12),
        "sys_(x: 0, y: 0, z: 0)_3_str_1_bdy12_spec"
    );
}
