use vstd::prelude::*;
use seeded_dice_roller::SeededDiceRoller;
use crate::dice::{new_roller, roll_dice};
use crate::galaxy_types::{GalaxyCategory, GalaxySubCategory};
use crate::text::numbered_step;

verus! {

/// Whether `r` is a possible result of rolling `dice` dice of `sides` faces and adding `modifier`.
pub open spec fn roll_in_range(r: i64, dice: int, sides: int, modifier: int) -> bool {
    dice + modifier <= r <= dice * sides + modifier
}

/// The larger of two integers.
pub open spec fn at_least(v: int, floor: int) -> int {
    if v > floor { v } else { floor }
}

/// Whether the rolls `r1`, `r2` and `r3` are possible results of the dice that give the size of a
/// galaxy of this category and sub-category. Rolls that the sub-category does not use are free.
pub open spec fn size_rolls_in_range(c: GalaxyCategory, s: GalaxySubCategory, r1: i64, r2: i64, r3: i64) -> bool {
    match s {
        GalaxySubCategory::DwarfAmorphous => roll_in_range(r1, 1, 390, 9) && roll_in_range(r2, 1, 390, 9) && roll_in_range(r3, 1, 2925, 74),
        GalaxySubCategory::Amorphous => roll_in_range(r1, 1, 1125, 124) && roll_in_range(r2, 1, 1125, 124) && roll_in_range(r3, 1, 900, 99),
        GalaxySubCategory::DwarfSpiral => roll_in_range(r1, 1, 475, 24) && roll_in_range(r2, 1, 3, 0),
        GalaxySubCategory::FlatSpiral | GalaxySubCategory::BarredSpiral | GalaxySubCategory::ClassicSpiral => roll_in_range(r1, 5, 4, 0),
        GalaxySubCategory::DwarfLenticular => roll_in_range(r1, 1, 475, 24) && roll_in_range(r2, 1, 6, 0),
        GalaxySubCategory::CommonLenticular => roll_in_range(r1, 5, 6, 0) && roll_in_range(r2, 2, 6, 0),
        GalaxySubCategory::GiantLenticular => roll_in_range(r1, 1, 31, 29) && roll_in_range(r2, 3, 6, 0),
        GalaxySubCategory::DwarfElliptical => roll_in_range(r1, 1, 500, 0) && (
            if c == GalaxyCategory::Intergalactic(0, 0, 0) || c == GalaxyCategory::Irregular(0, 0, 0) {
                roll_in_range(r2, 10, 3, 0)
            } else if c == GalaxyCategory::Intracluster(0, 0, 0) {
                roll_in_range(r2, 10, 4, 0)
            } else {
                true
            }),
        GalaxySubCategory::CommonElliptical => if c == GalaxyCategory::DominantElliptical(0) {
            roll_in_range(r1, 5, 31, 45)
        } else {
            roll_in_range(r1, 10, 20, 0)
        },
        GalaxySubCategory::GiantElliptical => roll_in_range(r1, 5, 61, 195),
    }
}

/// A three-dimension category of the same kind as `c` (intergalactic, irregular, or intracluster
/// otherwise) with the given dimensions.
pub open spec fn shaped_like(c: GalaxyCategory, l: int, w: int, h: int) -> GalaxyCategory {
    if c == GalaxyCategory::Intergalactic(0, 0, 0) {
        GalaxyCategory::Intergalactic(l as u32, w as u32, h as u32)
    } else if c == GalaxyCategory::Irregular(0, 0, 0) {
        GalaxyCategory::Irregular(l as u32, w as u32, h as u32)
    } else {
        GalaxyCategory::Intracluster(l as u32, w as u32, h as u32)
    }
}

/// The category of a galaxy once given its dimensions by the rolls `r1`, `r2` and `r3`.
pub open spec fn sized_category(c: GalaxyCategory, s: GalaxySubCategory, r1: i64, r2: i64, r3: i64) -> GalaxyCategory {
    let dwarf_flat = c == GalaxyCategory::Intergalactic(0, 0, 0) || c == GalaxyCategory::Irregular(0, 0, 0)
        || c == GalaxyCategory::Intracluster(0, 0, 0);
    match s {
        GalaxySubCategory::DwarfAmorphous => shaped_like(c, r1 * 10, r2 * 10, r3 as int),
        GalaxySubCategory::Amorphous => shaped_like(c, r1 * 10, r2 * 10, r3 * 10),
        GalaxySubCategory::DwarfSpiral => {
            let radius = r1 * 10;
            let thickness = at_least(radius * r2 / 100, 10);
            if dwarf_flat {
                shaped_like(c, radius * 2, radius * 2, thickness)
            } else {
                GalaxyCategory::Spiral(radius as u32, thickness as u32)
            }
        },
        GalaxySubCategory::FlatSpiral | GalaxySubCategory::BarredSpiral | GalaxySubCategory::ClassicSpiral => {
            let radius = r1 * 1000;
            GalaxyCategory::Spiral(radius as u32, at_least(radius / 100, 10) as u32)
        },
        GalaxySubCategory::DwarfLenticular => {
            let radius = r1 * 10;
            let thickness = at_least(radius * r2 / 100, 10);
            if dwarf_flat {
                shaped_like(c, radius * 2, radius * 2, thickness)
            } else {
                GalaxyCategory::Lenticular(radius as u32, thickness as u32)
            }
        },
        GalaxySubCategory::CommonLenticular | GalaxySubCategory::GiantLenticular => {
            let radius = r1 * 1000;
            GalaxyCategory::Lenticular(radius as u32, at_least(radius * r2 / 100, 10) as u32)
        },
        GalaxySubCategory::DwarfElliptical => {
            let radius = r1 * 10;
            if c == GalaxyCategory::Intracluster(0, 0, 0) {
                shaped_like(c, radius * 2, radius * 2, at_least(radius * (r2 / 20), 5))
            } else if dwarf_flat {
                shaped_like(c, radius * 2, radius * 2, at_most(at_least(radius * (r2 / 10), 5), 10000))
            } else {
                GalaxyCategory::Elliptical(radius as u32)
            }
        },
        GalaxySubCategory::CommonElliptical | GalaxySubCategory::GiantElliptical => {
            if c == GalaxyCategory::DominantElliptical(0) {
                GalaxyCategory::DominantElliptical((r1 * 1000) as u32)
            } else {
                GalaxyCategory::Elliptical((r1 * 100) as u32)
            }
        },
    }
}

/// Whether the dimensions of a three-dimension category lie in the given ranges.
pub open spec fn box_within(c: GalaxyCategory, min_lw: int, max_lw: int, min_h: int, max_h: int) -> bool {
    match c {
        GalaxyCategory::Intergalactic(l, w, h) | GalaxyCategory::Irregular(l, w, h) | GalaxyCategory::Intracluster(l, w, h) =>
            min_lw <= l <= max_lw && min_lw <= w <= max_lw && min_h <= h <= max_h,
        _ => true,
    }
}

/// The dimensions, in parsecs, that a galaxy of each sub-category is promised to have: a box for
/// the three-dimension categories, and a radius (and thickness) for the others.
pub open spec fn size_within_documented_bounds(c: GalaxyCategory, s: GalaxySubCategory) -> bool {
    match s {
        GalaxySubCategory::DwarfAmorphous => box_within(c, 100, 4000, 75, 3000),
        GalaxySubCategory::Amorphous => box_within(c, 1250, 12500, 1000, 10000),
        GalaxySubCategory::DwarfSpiral => box_within(c, 500, 10000, 2, 300) && (c matches GalaxyCategory::Spiral(r, t) ==> 250 <= r <= 5000 && 2 <= t <= 300),
        GalaxySubCategory::FlatSpiral | GalaxySubCategory::BarredSpiral | GalaxySubCategory::ClassicSpiral =>
            c matches GalaxyCategory::Spiral(r, t) && 5000 <= r <= 20000 && 50 <= t <= 400,
        GalaxySubCategory::DwarfLenticular => box_within(c, 500, 10000, 2, 300) && (c matches GalaxyCategory::Lenticular(r, t) ==> 250 <= r <= 5000 && 2 <= t <= 300),
        GalaxySubCategory::CommonLenticular => c matches GalaxyCategory::Lenticular(r, t) && 5000 <= r <= 30000 && 100 <= t <= 3600,
        GalaxySubCategory::GiantLenticular => c matches GalaxyCategory::Lenticular(r, t) && 30000 <= r <= 60000 && 900 <= t <= 10800,
        GalaxySubCategory::DwarfElliptical => match c {
            GalaxyCategory::Intracluster(..) => box_within(c, 20, 10000, 5, 10000),
            GalaxyCategory::Intergalactic(..) | GalaxyCategory::Irregular(..) => box_within(c, 20, 10000, 5, 10000),
            GalaxyCategory::Elliptical(r) => 10 <= r <= 5000,
            _ => false,
        },
        GalaxySubCategory::CommonElliptical => match c {
            GalaxyCategory::DominantElliptical(r) => 50000 <= r <= 200000,
            GalaxyCategory::Elliptical(r) => 1000 <= r <= 20000,
            _ => false,
        },
        GalaxySubCategory::GiantElliptical => match c {
            GalaxyCategory::DominantElliptical(r) => 200000 <= r <= 500000,
            GalaxyCategory::Elliptical(r) => 20000 <= r <= 50000,
            _ => false,
        },
    }
}

/// The smaller of two integers.
pub open spec fn at_most(v: int, ceiling: int) -> int {
    if v < ceiling { v } else { ceiling }
}

fn at_most_u32(v: u32, ceiling: u32) -> (r: u32)
    ensures
        r == at_most(v as int, ceiling as int),
{
    if v < ceiling { v } else { ceiling }
}

fn at_least_u32(v: u32, floor: u32) -> (r: u32)
    ensures
        r == at_least(v as int, floor as int),
{
    if v > floor { v } else { floor }
}

/// Gives the category `c` of a galaxy of sub-category `s` the dimensions that the rolls `r1`,
/// `r2` and `r3` decide, in the order the rolls are made.
pub fn category_with_size(category: GalaxyCategory, sub_category: GalaxySubCategory, r1: i64, r2: i64, r3: i64) -> (r: GalaxyCategory)
    requires
        size_rolls_in_range(category, sub_category, r1, r2, r3),
    ensures
        r == sized_category(category, sub_category, r1, r2, r3),
        size_within_documented_bounds(r, sub_category),
{
    let is_intergalactic = category == GalaxyCategory::Intergalactic(0, 0, 0);
    let is_irregular = category == GalaxyCategory::Irregular(0, 0, 0);
    let is_intracluster = category == GalaxyCategory::Intracluster(0, 0, 0);
    match sub_category {
        GalaxySubCategory::DwarfAmorphous | GalaxySubCategory::Amorphous => {
            let l = r1 as u32 * 10;
            let w = r2 as u32 * 10;
            let h = if sub_category == GalaxySubCategory::DwarfAmorphous { r3 as u32 } else { r3 as u32 * 10 };
            if is_intergalactic {
                GalaxyCategory::Intergalactic(l, w, h)
            } else if is_irregular {
                GalaxyCategory::Irregular(l, w, h)
            } else {
                GalaxyCategory::Intracluster(l, w, h)
            }
        },
        GalaxySubCategory::DwarfSpiral | GalaxySubCategory::DwarfLenticular => {
            let radius = r1 as u32 * 10;
            proof {
                let rr = r2 as int;
                assert(radius * rr <= 5000 * 6 && radius * rr >= 0) by (nonlinear_arith)
                    requires
                        0 <= radius <= 5000,
                        0 <= rr <= 6,
                ;
                assert(250 * 1 <= radius * rr) by (nonlinear_arith)
                    requires
                        250 <= radius,
                        1 <= rr,
                ;
            }
            let thickness = at_least_u32(radius * r2 as u32 / 100, 10);
            if is_intergalactic {
                GalaxyCategory::Intergalactic(radius * 2, radius * 2, thickness)
            } else if is_irregular {
                GalaxyCategory::Irregular(radius * 2, radius * 2, thickness)
            } else if is_intracluster {
                GalaxyCategory::Intracluster(radius * 2, radius * 2, thickness)
            } else if sub_category == GalaxySubCategory::DwarfSpiral {
                GalaxyCategory::Spiral(radius, thickness)
            } else {
                GalaxyCategory::Lenticular(radius, thickness)
            }
        },
        GalaxySubCategory::FlatSpiral | GalaxySubCategory::BarredSpiral | GalaxySubCategory::ClassicSpiral => {
            let radius = r1 as u32 * 1000;
            GalaxyCategory::Spiral(radius, at_least_u32(radius / 100, 10))
        },
        GalaxySubCategory::CommonLenticular | GalaxySubCategory::GiantLenticular => {
            let radius = r1 as u32 * 1000;
            proof {
                let rr = r2 as int;
                assert(radius * rr <= 60000 * 18 && radius * rr >= 0) by (nonlinear_arith)
                    requires
                        0 <= radius <= 60000,
                        0 <= rr <= 18,
                ;
                if sub_category == GalaxySubCategory::CommonLenticular {
                    assert(5000 * 2 <= radius * rr <= 30000 * 12) by (nonlinear_arith)
                        requires
                            5000 <= radius <= 30000,
                            2 <= rr <= 12,
                    ;
                } else {
                    assert(30000 * 3 <= radius * rr <= 60000 * 18) by (nonlinear_arith)
                        requires
                            30000 <= radius <= 60000,
                            3 <= rr <= 18,
                    ;
                }
            }
            GalaxyCategory::Lenticular(radius, at_least_u32(radius * r2 as u32 / 100, 10))
        },
        GalaxySubCategory::DwarfElliptical => {
            let radius = r1 as u32 * 10;
            if is_intergalactic || is_irregular {
                proof {
                    let q = r2 / 10;
                    assert(1 <= q <= 3);
                    assert(0 <= radius * q <= 5000 * 3) by (nonlinear_arith)
                        requires
                            0 <= radius <= 5000,
                            1 <= q <= 3,
                    ;
                }
                let h = at_most_u32(at_least_u32(radius * (r2 / 10) as u32, 5), 10000);
                if is_intergalactic {
                    GalaxyCategory::Intergalactic(radius * 2, radius * 2, h)
                } else {
                    GalaxyCategory::Irregular(radius * 2, radius * 2, h)
                }
            } else if is_intracluster {
                proof {
                    let q = r2 / 20;
                    assert(0 <= q <= 2);
                    assert(0 <= radius * q <= 5000 * 2) by (nonlinear_arith)
                        requires
                            0 <= radius <= 5000,
                            0 <= q <= 2,
                    ;
                }
                GalaxyCategory::Intracluster(radius * 2, radius * 2, at_least_u32(radius * (r2 / 20) as u32, 5))
            } else {
                GalaxyCategory::Elliptical(radius)
            }
        },
        GalaxySubCategory::CommonElliptical | GalaxySubCategory::GiantElliptical => {
            if category == GalaxyCategory::DominantElliptical(0) {
                GalaxyCategory::DominantElliptical(r1 as u32 * 1000)
            } else {
                GalaxyCategory::Elliptical(r1 as u32 * 100)
            }
        },
    }
}

/// Fills the size parameters of a galaxy category, rolling dice that depend on the sub-category.
pub fn get_category_with_size(category: GalaxyCategory, sub_category: GalaxySubCategory, index: u16, seed: &str) -> (r: GalaxyCategory)
    ensures
        exists|r1: i64, r2: i64, r3: i64|
            size_rolls_in_range(category, sub_category, r1, r2, r3)
                && #[trigger] sized_category(category, sub_category, r1, r2, r3) == r,
        size_within_documented_bounds(r, sub_category),
{
    let mut rng = new_roller(seed, numbered_step("gal_", index as u64, "_cws").as_str());
    let (r1, r2, r3) = roll_size_dice(&mut rng, category, sub_category);
    category_with_size(category, sub_category, r1, r2, r3)
}

fn roll_size_dice(rng: &mut SeededDiceRoller, category: GalaxyCategory, sub_category: GalaxySubCategory) -> (r: (i64, i64, i64))
    ensures
        size_rolls_in_range(category, sub_category, r.0, r.1, r.2),
{
    match sub_category {
        GalaxySubCategory::DwarfAmorphous => {
            let a = roll_dice(rng, 1, 390, 9);
            let b = roll_dice(rng, 1, 390, 9);
            let c = roll_dice(rng, 1, 2925, 74);
            (a, b, c)
        },
        GalaxySubCategory::Amorphous => {
            let a = roll_dice(rng, 1, 1125, 124);
            let b = roll_dice(rng, 1, 1125, 124);
            let c = roll_dice(rng, 1, 900, 99);
            (a, b, c)
        },
        GalaxySubCategory::DwarfSpiral => {
            let a = roll_dice(rng, 1, 475, 24);
            let b = roll_dice(rng, 1, 3, 0);
            (a, b, 0)
        },
        GalaxySubCategory::FlatSpiral | GalaxySubCategory::BarredSpiral | GalaxySubCategory::ClassicSpiral => {
            let a = roll_dice(rng, 5, 4, 0);
            (a, 0, 0)
        },
        GalaxySubCategory::DwarfLenticular => {
            let a = roll_dice(rng, 1, 475, 24);
            let b = roll_dice(rng, 1, 6, 0);
            (a, b, 0)
        },
        GalaxySubCategory::CommonLenticular => {
            let a = roll_dice(rng, 5, 6, 0);
            let b = roll_dice(rng, 2, 6, 0);
            (a, b, 0)
        },
        GalaxySubCategory::GiantLenticular => {
            let a = roll_dice(rng, 1, 31, 29);
            let b = roll_dice(rng, 3, 6, 0);
            (a, b, 0)
        },
        GalaxySubCategory::DwarfElliptical => {
            let a = roll_dice(rng, 1, 500, 0);
            if category == GalaxyCategory::Intergalactic(0, 0, 0) || category == GalaxyCategory::Irregular(0, 0, 0) {
                let b = roll_dice(rng, 10, 3, 0);
                (a, b, 0)
            } else if category == GalaxyCategory::Intracluster(0, 0, 0) {
                let b = roll_dice(rng, 10, 4, 0);
                (a, b, 0)
            } else {
                (a, 0, 0)
            }
        },
        GalaxySubCategory::CommonElliptical => {
            if category == GalaxyCategory::DominantElliptical(0) {
                let a = roll_dice(rng, 5, 31, 45);
                (a, 0, 0)
            } else {
                let a = roll_dice(rng, 10, 20, 0);
                (a, 0, 0)
            }
        },
        GalaxySubCategory::GiantElliptical => {
            let a = roll_dice(rng, 5, 61, 195);
            (a, 0, 0)
        },
    }
}

} // verus!
