use vstd::prelude::*;
use crate::coordinates::{
    SpaceCoordinates, can_sub, can_div, spec_sub, spec_div,
};
use crate::galaxy_types::GalaxyCategory;
use crate::sector::{GalacticMapDivisionLevel, level_as_coord};

verus! {

/// The first parsec of an axis of `n` parsecs centered on 0: `1 - n / 2` for an even length,
/// `-(n / 2)` for an odd one.
pub open spec fn axis_start(n: int) -> int {
    if n % 2 == 0 {
        1 - n / 2
    } else {
        -(n / 2)
    }
}

/// The starting point (first parsec) of the map of a galaxy of the given category.
pub open spec fn galactic_start(c: GalaxyCategory) -> SpaceCoordinates {
    match c {
        GalaxyCategory::Intergalactic(l, w, h) | GalaxyCategory::Irregular(l, w, h) | GalaxyCategory::Intracluster(l, w, h) =>
            SpaceCoordinates { x: axis_start(l as int) as i64, y: axis_start(w as int) as i64, z: axis_start(h as int) as i64 },
        GalaxyCategory::Spiral(r, d) | GalaxyCategory::Lenticular(r, d) =>
            SpaceCoordinates { x: (1 - r) as i64, y: (1 - r) as i64, z: axis_start(d as int) as i64 },
        GalaxyCategory::Elliptical(r) | GalaxyCategory::DominantElliptical(r) =>
            SpaceCoordinates { x: (1 - r) as i64, y: (1 - r) as i64, z: (1 - r) as i64 },
    }
}

/// The point of the map of a galaxy of the given category that is the farthest from the center.
pub open spec fn galactic_end(c: GalaxyCategory) -> SpaceCoordinates {
    match c {
        GalaxyCategory::Intergalactic(l, w, h) | GalaxyCategory::Irregular(l, w, h) | GalaxyCategory::Intracluster(l, w, h) =>
            SpaceCoordinates { x: (l / 2) as i64, y: (w / 2) as i64, z: (h / 2) as i64 },
        GalaxyCategory::Spiral(r, d) | GalaxyCategory::Lenticular(r, d) =>
            SpaceCoordinates { x: r as i64, y: r as i64, z: (d / 2) as i64 },
        GalaxyCategory::Elliptical(r) | GalaxyCategory::DominantElliptical(r) =>
            SpaceCoordinates { x: r as i64, y: r as i64, z: r as i64 },
    }
}

/// The size in parsecs, on the (x, y, z) axis, of a galaxy of the given category.
pub open spec fn galaxy_size(c: GalaxyCategory) -> SpaceCoordinates {
    match c {
        GalaxyCategory::Intergalactic(l, w, h) | GalaxyCategory::Irregular(l, w, h) | GalaxyCategory::Intracluster(l, w, h) =>
            SpaceCoordinates { x: l as i64, y: w as i64, z: h as i64 },
        GalaxyCategory::Spiral(r, d) | GalaxyCategory::Lenticular(r, d) =>
            SpaceCoordinates { x: (2 * r) as i64, y: (2 * r) as i64, z: d as i64 },
        GalaxyCategory::Elliptical(r) | GalaxyCategory::DominantElliptical(r) =>
            SpaceCoordinates { x: (2 * r) as i64, y: (2 * r) as i64, z: (2 * r) as i64 },
    }
}

/// Whether a point lies between the starting point and the end point of the map of a galaxy.
pub open spec fn coordinates_valid(c: GalaxyCategory, p: SpaceCoordinates) -> bool {
    let start = galactic_start(c);
    let end = galactic_end(c);
    &&& start.x <= p.x <= end.x
    &&& start.y <= p.y <= end.y
    &&& start.z <= p.z <= end.z
}

fn axis_start_of(n: u32) -> (r: i64)
    ensures
        r == axis_start(n as int),
{
    if n % 2 == 0 {
        1 - (n as i64 / 2)
    } else {
        -(n as i64 / 2)
    }
}

impl GalaxyCategory {
    /// Returns the starting point of the galactic 3D map of a galaxy of this category.
    pub fn get_galactic_start(&self) -> (r: SpaceCoordinates)
        ensures
            r == galactic_start(*self),
    {
        match *self {
            GalaxyCategory::Intergalactic(l, w, h) | GalaxyCategory::Irregular(l, w, h) | GalaxyCategory::Intracluster(l, w, h) =>
                SpaceCoordinates::new(axis_start_of(l), axis_start_of(w), axis_start_of(h)),
            GalaxyCategory::Spiral(r, d) | GalaxyCategory::Lenticular(r, d) => {
                let x: i64 = 1 - (r as i64);
                SpaceCoordinates::new(x, x, axis_start_of(d))
            },
            GalaxyCategory::Elliptical(r) | GalaxyCategory::DominantElliptical(r) => {
                let x: i64 = 1 - (r as i64);
                SpaceCoordinates::new(x, x, x)
            },
        }
    }

    /// Returns the center point of a galactic 3D map.
    pub fn get_galactic_center(&self) -> (r: SpaceCoordinates)
        ensures
            r == (SpaceCoordinates { x: 0, y: 0, z: 0 }),
    {
        SpaceCoordinates::new(0, 0, 0)
    }

    /// Returns the point of the galactic 3D map of a galaxy of this category that is the farthest
    /// from (0, 0, 0).
    pub fn get_galactic_end(&self) -> (r: SpaceCoordinates)
        ensures
            r == galactic_end(*self),
    {
        match *self {
            GalaxyCategory::Intergalactic(l, w, h) | GalaxyCategory::Irregular(l, w, h) | GalaxyCategory::Intracluster(l, w, h) =>
                SpaceCoordinates::new(l as i64 / 2, w as i64 / 2, h as i64 / 2),
            GalaxyCategory::Spiral(r, d) | GalaxyCategory::Lenticular(r, d) =>
                SpaceCoordinates::new(r as i64, r as i64, d as i64 / 2),
            GalaxyCategory::Elliptical(r) | GalaxyCategory::DominantElliptical(r) =>
                SpaceCoordinates::new(r as i64, r as i64, r as i64),
        }
    }

    /// Returns the size of a galaxy of this category in parsecs on the (x, y, z) axis.
    pub fn get_galaxy_size(&self) -> (r: SpaceCoordinates)
        ensures
            r == galaxy_size(*self),
    {
        match *self {
            GalaxyCategory::Intergalactic(l, w, h) | GalaxyCategory::Irregular(l, w, h) | GalaxyCategory::Intracluster(l, w, h) =>
                SpaceCoordinates::new(l as i64, w as i64, h as i64),
            GalaxyCategory::Spiral(r, d) | GalaxyCategory::Lenticular(r, d) =>
                SpaceCoordinates::new(r as i64 * 2, r as i64 * 2, d as i64),
            GalaxyCategory::Elliptical(r) | GalaxyCategory::DominantElliptical(r) =>
                SpaceCoordinates::new(r as i64 * 2, r as i64 * 2, r as i64 * 2),
        }
    }

    /// Checks whether the given coordinates are within the bounds of a galaxy of this category.
    pub fn are_coord_valid(&self, coord: SpaceCoordinates) -> (r: bool)
        ensures
            r == coordinates_valid(*self, coord),
    {
        let start = self.get_galactic_start();
        let end = self.get_galactic_end();
        coord.x >= start.x && coord.y >= start.y && coord.z >= start.z && coord.x <= end.x
            && coord.y <= end.y && coord.z <= end.z
    }
}

/// On every axis, the map of a galaxy runs from its starting point to its end point over exactly
/// as many parsecs as the galaxy's size.
pub proof fn lemma_map_spans_galaxy_size(c: GalaxyCategory)
    ensures
        galactic_end(c).x - galactic_start(c).x + 1 == galaxy_size(c).x,
        galactic_end(c).y - galactic_start(c).y + 1 == galaxy_size(c).y,
        galactic_end(c).z - galactic_start(c).z + 1 == galaxy_size(c).z,
{
}

/// A point is within the map of a galaxy exactly when, taken from the map's starting point, it
/// lies between 0 and the galaxy's size (excluded) on every axis.
pub proof fn lemma_valid_coordinates_within_size(c: GalaxyCategory, p: SpaceCoordinates)
    requires
        can_sub(p, galactic_start(c)),
    ensures
        coordinates_valid(c, p) <==> {
            let a = spec_sub(p, galactic_start(c));
            let s = galaxy_size(c);
            &&& 0 <= a.x < s.x
            &&& 0 <= a.y < s.y
            &&& 0 <= a.z < s.z
        },
{
    lemma_map_spans_galaxy_size(c);
}

/// The center of the map lies within a galaxy whose dimensions are all at least one parsec.
pub proof fn lemma_center_is_valid(c: GalaxyCategory)
    requires
        galaxy_size(c).x >= 1,
        galaxy_size(c).y >= 1,
        galaxy_size(c).z >= 1,
    ensures
        coordinates_valid(c, SpaceCoordinates { x: 0, y: 0, z: 0 }),
{
}

/// The position of the first level of `levels` numbered `level`, or -1 if there is none.
pub open spec fn level_position(levels: Seq<GalacticMapDivisionLevel>, level: u8) -> int
    decreases levels.len(),
{
    if levels.len() == 0 {
        -1
    } else if levels[0].level == level {
        0
    } else {
        let r = level_position(levels.drop_first(), level);
        if r < 0 {
            -1
        } else {
            r + 1
        }
    }
}

pub proof fn lemma_level_position(levels: Seq<GalacticMapDivisionLevel>, level: u8)
    ensures
        level_position(levels, level) < 0 <==> (forall|j: int| 0 <= j < levels.len() ==> levels[j].level != level),
        level_position(levels, level) >= 0 ==> {
            &&& level_position(levels, level) < levels.len()
            &&& levels[level_position(levels, level)].level == level
            &&& forall|j: int| 0 <= j < level_position(levels, level) ==> levels[j].level != level
        },
    decreases levels.len(),
{
    if levels.len() > 0 && levels[0].level != level {
        lemma_level_position(levels.drop_first(), level);
        let r = level_position(levels.drop_first(), level);
        if r < 0 {
            assert forall|j: int| 0 <= j < levels.len() implies levels[j].level != level by {
                if j > 0 {
                    assert(levels.drop_first()[j - 1] == levels[j]);
                }
            }
        } else {
            assert forall|j: int| 0 <= j < r + 1 implies levels[j].level != level by {
                if j > 0 {
                    assert(levels.drop_first()[j - 1] == levels[j]);
                }
            }
        }
    }
}

/// Whether `levels` has a level numbered `level`, with subdivisions on all three axes.
pub open spec fn has_usable_level(levels: Seq<GalacticMapDivisionLevel>, level: u8) -> bool {
    let i = level_position(levels, level);
    &&& i >= 0
    &&& levels[i].x_subdivisions > 0
    &&& levels[i].y_subdivisions > 0
    &&& levels[i].z_subdivisions > 0
}

/// The subdivisions of the first level of `levels` numbered `level`, as a point.
pub open spec fn level_size_of(levels: Seq<GalacticMapDivisionLevel>, level: u8) -> SpaceCoordinates {
    level_as_coord(levels[level_position(levels, level)])
}

/// Returns the first level of `levels` numbered `level`, if any.
pub fn find_level(levels: &Vec<GalacticMapDivisionLevel>, level: u8) -> (r: Option<GalacticMapDivisionLevel>)
    ensures
        match r {
            Some(l) => level_position(levels@, level) >= 0 && l == levels@[level_position(levels@, level)],
            None => level_position(levels@, level) < 0,
        },
{
    let mut i: usize = 0;
    while i < levels.len()
        invariant
            0 <= i <= levels.len(),
            forall|j: int| 0 <= j < i ==> levels@[j].level != level,
        decreases levels.len() - i,
    {
        if levels[i].level == level {
            proof {
                lemma_level_position(levels@, level);
                let p = level_position(levels@, level);
                if p < 0 {
                    assert(levels@[i as int].level != level);
                } else if p < i {
                    assert(levels@[p].level != level);
                } else if p > i {
                    assert(levels@[i as int].level != level);
                }
            }
            return Some(levels[i]);
        }
        i = i + 1;
    }
    proof {
        lemma_level_position(levels@, level);
    }
    None
}

/// Calculates the index of a division at `level` from the index `index` it has at the level
/// below, dividing it by the subdivisions of that level.
pub fn calculate_next_index(levels: &Vec<GalacticMapDivisionLevel>, level: u8, index: SpaceCoordinates) -> (r: SpaceCoordinates)
    requires
        has_usable_level(levels@, level),
    ensures
        r == spec_div(index, level_size_of(levels@, level)),
{
    match find_level(levels, level) {
        Some(l) => index.div(l.as_coord()),
        None => index,
    }
}

/// The index of the hex holding a point of the map of a galaxy: the point taken from the map's
/// starting point, divided by the size of a hex.
pub open spec fn hex_index_of(c: GalaxyCategory, levels: Seq<GalacticMapDivisionLevel>, p: SpaceCoordinates) -> SpaceCoordinates {
    spec_div(spec_sub(p, galactic_start(c)), level_size_of(levels, 0))
}

/// Returns the index of the hex whose coordinates have been given, or an error when they are out
/// of the galaxy's map.
pub fn get_hex_index(
    category: GalaxyCategory,
    levels: &Vec<GalacticMapDivisionLevel>,
    coord: SpaceCoordinates,
) -> (r: Result<SpaceCoordinates, String>)
    requires
        coordinates_valid(category, coord) ==> has_usable_level(levels@, 0),
    ensures
        match r {
            Ok(i) => coordinates_valid(category, coord) && i == hex_index_of(category, levels@, coord),
            Err(e) => !coordinates_valid(category, coord) && e@ == "Invalid coordinates."@,
        },
{
    if !category.are_coord_valid(coord) {
        return Err(String::from_str("Invalid coordinates."));
    }
    let starting_point = category.get_galactic_start();
    let abs_coord = coord.abs(starting_point);
    Ok(calculate_next_index(levels, 0, abs_coord))
}

/// The index, at each level from 0 to `level`, of the divisions holding a point taken from the
/// map's starting point: each index is the one below divided by that level's subdivisions.
pub open spec fn division_index(levels: Seq<GalacticMapDivisionLevel>, a: SpaceCoordinates, level: nat) -> SpaceCoordinates
    decreases level,
{
    if level == 0 {
        spec_div(a, level_size_of(levels, 0))
    } else {
        spec_div(division_index(levels, a, (level - 1) as nat), level_size_of(levels, level as u8))
    }
}

/// Whether `levels` has a usable level for each number from 0 to 9.
pub open spec fn all_levels_usable(levels: Seq<GalacticMapDivisionLevel>) -> bool {
    forall|l: u8| 0 <= l <= 9 ==> #[trigger] has_usable_level(levels, l)
}

/// The quotient of a non-negative point by positive subdivisions is non-negative.
pub proof fn lemma_div_nonnegative(a: SpaceCoordinates, s: SpaceCoordinates)
    requires
        a.x >= 0 && a.y >= 0 && a.z >= 0,
        s.x > 0 && s.y > 0 && s.z > 0,
    ensures
        can_div(a, s),
        spec_div(a, s).x >= 0 && spec_div(a, s).y >= 0 && spec_div(a, s).z >= 0,
        spec_div(a, s).x <= a.x && spec_div(a, s).y <= a.y && spec_div(a, s).z <= a.z,
{
    assert(0 <= a.x / s.x <= a.x) by (nonlinear_arith)
        requires
            a.x >= 0,
            s.x > 0,
    ;
    assert(0 <= a.y / s.y <= a.y) by (nonlinear_arith)
        requires
            a.y >= 0,
            s.y > 0,
    ;
    assert(0 <= a.z / s.z <= a.z) by (nonlinear_arith)
        requires
            a.z >= 0,
            s.z > 0,
    ;
}

/// Returns the index of the division holding the given point at each level from 0 to 9, or an
/// error when the point is out of the galaxy's map.
pub fn get_division_indexes(
    category: GalaxyCategory,
    levels: &Vec<GalacticMapDivisionLevel>,
    coord: SpaceCoordinates,
) -> (r: Result<Vec<SpaceCoordinates>, String>)
    requires
        coordinates_valid(category, coord) ==> all_levels_usable(levels@),
    ensures
        match r {
            Ok(v) => {
                &&& coordinates_valid(category, coord)
                &&& v.len() == 10
                &&& forall|i: int| 0 <= i < 10 ==> #[trigger] v@[i] == division_index(levels@, spec_sub(coord, galactic_start(category)), i as nat)
            },
            Err(e) => !coordinates_valid(category, coord) && e@ == "Invalid coordinates."@,
        },
{
    if !category.are_coord_valid(coord) {
        return Err(String::from_str("Invalid coordinates."));
    }
    let starting_point = category.get_galactic_start();
    let abs_coord = coord.abs(starting_point);
    let ghost a = spec_sub(coord, galactic_start(category));
    let mut result: Vec<SpaceCoordinates> = Vec::new();
    let mut index = abs_coord;
    let mut i: u8 = 0;
    while i <= 9
        invariant
            0 <= i <= 10,
            all_levels_usable(levels@),
            a == abs_coord,
            a.x >= 0 && a.y >= 0 && a.z >= 0,
            index.x >= 0 && index.y >= 0 && index.z >= 0,
            result.len() == i,
            i == 0 ==> index == a,
            i > 0 ==> index == division_index(levels@, a, (i - 1) as nat),
            forall|j: int| 0 <= j < i ==> #[trigger] result@[j] == division_index(levels@, a, j as nat),
        decreases 10 - i,
    {
        assert(has_usable_level(levels@, i));
        proof {
            lemma_div_nonnegative(index, level_size_of(levels@, i));
        }
        index = calculate_next_index(levels, i, index);
        result.push(index);
        i = i + 1;
    }
    Ok(result)
}

} // verus!
