use vstd::prelude::*;
use crate::coordinates::{
    SpaceCoordinates, can_add, can_sub, spec_add, spec_sub, spec_div, trunc_div,
};
use crate::galaxy_types::GalaxyCategory;
use crate::galaxy_map::galactic_start;
use crate::sector::{GalacticMapDivisionLevel, GalacticRegion};

verus! {

/// The subdivisions of a level on one axis: 0 for x, 1 for y, 2 for z.
pub open spec fn axis_subdivisions(l: GalacticMapDivisionLevel, axis: int) -> int {
    if axis == 0 {
        l.x_subdivisions as int
    } else if axis == 1 {
        l.y_subdivisions as int
    } else {
        l.z_subdivisions as int
    }
}

/// The product, on one axis, of the subdivisions of every level of `levels` numbered `level` or
/// lower.
pub open spec fn axis_product(levels: Seq<GalacticMapDivisionLevel>, level: u8, axis: int) -> int
    decreases levels.len(),
{
    if levels.len() == 0 {
        1
    } else {
        let l = levels.last();
        axis_product(levels.drop_last(), level, axis) * (if l.level <= level {
            axis_subdivisions(l, axis)
        } else {
            1
        })
    }
}

/// The size in parsecs of a division of level `level`: on each axis, the product of the
/// subdivisions of every level up to its own.
pub open spec fn division_size(levels: Seq<GalacticMapDivisionLevel>, level: u8) -> SpaceCoordinates {
    SpaceCoordinates {
        x: axis_product(levels, level, 0) as i64,
        y: axis_product(levels, level, 1) as i64,
        z: axis_product(levels, level, 2) as i64,
    }
}

/// Whether every partial product met while computing the size of a division of level `level`
/// fits in an `i64`.
pub open spec fn division_size_fits(levels: Seq<GalacticMapDivisionLevel>, level: u8) -> bool {
    forall|k: int, axis: int|
        0 <= k <= levels.len() && 0 <= axis < 3 ==> #[trigger] axis_product(levels.take(k), level, axis)
            <= i64::MAX
}

/// A product of subdivisions is never negative.
pub proof fn lemma_axis_product_nonnegative(levels: Seq<GalacticMapDivisionLevel>, level: u8, axis: int)
    ensures
        axis_product(levels, level, axis) >= 0,
    decreases levels.len(),
{
    if levels.len() > 0 {
        lemma_axis_product_nonnegative(levels.drop_last(), level, axis);
        let p = axis_product(levels.drop_last(), level, axis);
        let f = if levels.last().level <= level {
            axis_subdivisions(levels.last(), axis)
        } else {
            1
        };
        assert(p * f >= 0) by (nonlinear_arith)
            requires
                p >= 0,
                f >= 0,
        ;
    }
}

/// The cell a division occupies in its parent's grid on one axis: the remainder of its index by
/// the parent's subdivisions as Rust's `%` computes it, read as a byte.
pub open spec fn cell_of(index: int, subdivisions: int) -> int {
    if index >= 0 {
        index % subdivisions
    } else {
        let r = (-index) % subdivisions;
        if r == 0 {
            0
        } else {
            256 - r
        }
    }
}

/// The region of a division from the regions found at its sample points: the one region they all
/// share, or [GalacticRegion::Multiple] when they differ or there are none.
pub open spec fn region_of_samples(samples: Seq<GalacticRegion>) -> GalacticRegion {
    if samples.len() > 0 && (forall|i: int| 0 <= i < samples.len() ==> #[trigger] samples[i] == samples[0]) {
        samples[0]
    } else {
        GalacticRegion::Multiple
    }
}

/// One of the three values a sample point takes on an axis: the start, half the size or the size.
pub open spec fn sample_value(which: int, start: i64, size: i64) -> i64 {
    if which == 0 {
        start
    } else if which == 1 {
        trunc_div(size as int, 2) as i64
    } else {
        size
    }
}

/// The 27 points at which the region of a division is sampled, for a division starting at `start`
/// with the size `size`: on each axis the start, half the size and the size, x varying slowest
/// and z fastest.
pub open spec fn sample_points(start: SpaceCoordinates, size: SpaceCoordinates) -> Seq<SpaceCoordinates> {
    Seq::new(
        27,
        |k: int|
            SpaceCoordinates {
                x: sample_value(k / 9, start.x, size.x),
                y: sample_value((k / 3) % 3, start.y, size.y),
                z: sample_value(k % 3, start.z, size.z),
            },
    )
}

/// The cell of index `index` in a grid of `subdivisions` cells on one axis.
fn cell_in_parent(index: i64, subdivisions: u8) -> (r: u8)
    requires
        subdivisions > 0,
    ensures
        r == cell_of(index as int, subdivisions as int),
{
    if index >= 0 {
        let u = index as u64;
        let rem = u % (subdivisions as u64);
        rem as u8
    } else {
        let magnitude: u64 = ((-(index + 1)) as u64) + 1;
        let rem = magnitude % (subdivisions as u64);
        if rem == 0 {
            0
        } else {
            (256 - rem) as u8
        }
    }
}

/// The region of a division's samples is a single region only when every sample is of that
/// region: two samples that differ make it mixed, and samples that all agree give their region.
pub proof fn lemma_region_of_samples(samples: Seq<GalacticRegion>)
    ensures
        region_of_samples(samples) != GalacticRegion::Multiple ==> forall|i: int|
            0 <= i < samples.len() ==> #[trigger] samples[i] == region_of_samples(samples),
        (exists|i: int, j: int| 0 <= i < samples.len() && 0 <= j < samples.len() && #[trigger] samples[i]
            != #[trigger] samples[j]) ==> region_of_samples(samples) == GalacticRegion::Multiple,
        samples.len() > 0 && (forall|i: int| 0 <= i < samples.len() ==> #[trigger] samples[i] == samples[0])
            ==> region_of_samples(samples) == samples[0],
        samples.len() == 0 ==> region_of_samples(samples) == GalacticRegion::Multiple,
{
    if exists|i: int, j: int| 0 <= i < samples.len() && 0 <= j < samples.len() && #[trigger] samples[i]
        != #[trigger] samples[j] {
        let (i, j) = choose|i: int, j: int| 0 <= i < samples.len() && 0 <= j < samples.len() && #[trigger] samples[i]
            != #[trigger] samples[j];
        if samples[i] == samples[0] {
            assert(samples[j] != samples[0]);
        }
    }
}

/// Returns the region of a division from the regions found at its sample points: the one region
/// they all share, or [GalacticRegion::Multiple] when they differ or there are none.
pub fn region_from_samples(samples: &Vec<GalacticRegion>) -> (r: GalacticRegion)
    ensures
        r == region_of_samples(samples@),
{
    if samples.len() == 0 {
        return GalacticRegion::Multiple;
    }
    let first = samples[0];
    let mut i: usize = 1;
    while i < samples.len()
        invariant
            1 <= i <= samples.len(),
            first == samples@[0],
            forall|j: int| 0 <= j < i ==> #[trigger] samples@[j] == first,
        decreases samples.len() - i,
    {
        if samples[i] != first {
            return GalacticRegion::Multiple;
        }
        i = i + 1;
    }
    first
}

fn sample_value_of(which: usize, start: i64, size: i64) -> (r: i64)
    requires
        which < 3,
    ensures
        r == sample_value(which as int, start, size),
{
    if which == 0 {
        start
    } else if which == 1 {
        SpaceCoordinates::new(size, 0, 0).div(SpaceCoordinates::new(2, 1, 1)).x
    } else {
        size
    }
}

/// Returns the 27 points at which the region of a division starting at `start` with the size
/// `size` is sampled: on each axis the start, half the size and the size, x varying slowest and
/// z fastest.
pub fn region_sample_points(start: SpaceCoordinates, size: SpaceCoordinates) -> (r: Vec<SpaceCoordinates>)
    ensures
        r@ == sample_points(start, size),
{
    let mut points: Vec<SpaceCoordinates> = Vec::new();
    let mut k: usize = 0;
    while k < 27
        invariant
            0 <= k <= 27,
            points.len() == k,
            forall|j: int| 0 <= j < k ==> #[trigger] points@[j] == sample_points(start, size)[j],
        decreases 27 - k,
    {
        let p = SpaceCoordinates::new(
            sample_value_of(k / 9, start.x, size.x),
            sample_value_of((k / 3) % 3, start.y, size.y),
            sample_value_of(k % 3, start.z, size.z),
        );
        points.push(p);
        k = k + 1;
    }
    proof {
        assert(points@ =~= sample_points(start, size));
    }
    points
}

/// Computes the size in parsecs of a division of level `level`: on each axis, the product of the
/// subdivisions of every level up to its own.
pub fn compute_division_size(levels: &Vec<GalacticMapDivisionLevel>, level: u8) -> (r: SpaceCoordinates)
    requires
        division_size_fits(levels@, level),
    ensures
        r == division_size(levels@, level),
{
    let mut size = SpaceCoordinates::new(1, 1, 1);
    let mut i: usize = 0;
    while i < levels.len()
        invariant
            0 <= i <= levels.len(),
            division_size_fits(levels@, level),
            size.x == axis_product(levels@.take(i as int), level, 0),
            size.y == axis_product(levels@.take(i as int), level, 1),
            size.z == axis_product(levels@.take(i as int), level, 2),
        decreases levels.len() - i,
    {
        let l = levels[i];
        let ghost next = levels@.take(i + 1);
        proof {
            assert(next.drop_last() == levels@.take(i as int));
            assert(next.last() == l);
            assert(axis_product(next, level, 0) <= i64::MAX);
            assert(axis_product(next, level, 1) <= i64::MAX);
            assert(axis_product(next, level, 2) <= i64::MAX);
            lemma_axis_product_nonnegative(next, level, 0);
            lemma_axis_product_nonnegative(next, level, 1);
            lemma_axis_product_nonnegative(next, level, 2);
        }
        if l.level <= level {
            size = size.mul(l.as_coord());
        }
        i = i + 1;
    }
    proof {
        assert(levels@.take(levels@.len() as int) == levels@);
    }
    size
}

/// Represents a specific part of the galaxy.
#[derive(PartialEq, Eq, PartialOrd, Ord, Hash, Debug)]
pub struct GalacticMapDivision {
    /// The denomination by which this particular partition of space is known.
    pub name: String,
    /// Which region of space makes the most of the division.
    pub region: GalacticRegion,
    /// The level of division this partition belongs to. See [GalacticMapDivisionLevel].
    pub level: u8,
    /// Which cell this division occupies on the X axis in its parent's grid.
    pub x: u8,
    /// Which cell this division occupies on the Y axis in its parent's grid.
    pub y: u8,
    /// Which cell this division occupies on the Z axis in its parent's grid.
    pub z: u8,
    /// The index of this division on the x, y and z axis.
    pub index: SpaceCoordinates,
    /// This division's size in parsecs once it has been computed; below one parsec on some axis
    /// until then.
    pub size: SpaceCoordinates,
}

impl Clone for GalacticMapDivision {
    fn clone(&self) -> (r: Self)
        ensures
            r == *self,
    {
        GalacticMapDivision {
            name: self.name.clone(),
            region: self.region,
            level: self.level,
            x: self.x,
            y: self.y,
            z: self.z,
            index: self.index,
            size: self.size,
        }
    }
}

impl GalacticMapDivision {
    /// The size this division remembers, whether or not it has been computed.
    pub open spec fn cached_size(&self) -> SpaceCoordinates {
        self.size
    }

    /// Whether this division has computed and kept its size: a size is kept when it is at least
    /// one parsec on every axis.
    pub open spec fn size_is_cached(&self) -> bool {
        &&& self.cached_size().x >= 1
        &&& self.cached_size().y >= 1
        &&& self.cached_size().z >= 1
    }

    /// The size [GalacticMapDivision::get_size] gives for this division with the given levels.
    pub open spec fn current_size(&self, levels: Seq<GalacticMapDivisionLevel>) -> SpaceCoordinates {
        if self.size_is_cached() {
            self.cached_size()
        } else {
            division_size(levels, self.level)
        }
    }

    /// Whether `other` is this division with nothing changed but, possibly, its kept size.
    pub open spec fn same_but_size(&self, other: &Self) -> bool {
        &&& other.name == self.name
        &&& other.region == self.region
        &&& other.level == self.level
        &&& other.x == self.x
        &&& other.y == self.y
        &&& other.z == self.z
        &&& other.index == self.index
    }

    /// Creates a new [GalacticMapDivision], whose size is yet to be computed.
    pub fn new(
        name: String,
        region: GalacticRegion,
        level: u8,
        x: u8,
        y: u8,
        z: u8,
        index: SpaceCoordinates,
    ) -> (r: Self)
        ensures
            r.name == name,
            r.region == region,
            r.level == level,
            r.x == x,
            r.y == y,
            r.z == z,
            r.index == index,
            r.cached_size() == (SpaceCoordinates { x: -1i64, y: -1i64, z: -1i64 }),
            !r.size_is_cached(),
    {
        GalacticMapDivision {
            name,
            region,
            level,
            x,
            y,
            z,
            index,
            size: SpaceCoordinates::new(-1, -1, -1),
        }
    }

    /// Returns the top up left coordinates of this division in a galaxy of the given category.
    pub fn get_top_left_up(&self, category: GalaxyCategory) -> (r: SpaceCoordinates)
        requires
            can_add(self.index, galactic_start(category)),
        ensures
            r == spec_add(self.index, galactic_start(category)),
    {
        self.index.rel(category.get_galactic_start())
    }

    /// Returns the full size of this division in parsecs, computing it from the division levels
    /// the first time and keeping it for the following calls, whatever levels they are given.
    pub fn get_size(&mut self, levels: &Vec<GalacticMapDivisionLevel>) -> (r: SpaceCoordinates)
        requires
            !old(self).size_is_cached() ==> division_size_fits(levels@, old(self).level),
        ensures
            r == old(self).current_size(levels@),
            final(self).cached_size() == r,
            old(self).same_but_size(final(self)),
    {
        if self.size.x < 1 || self.size.y < 1 || self.size.z < 1 {
            self.size = compute_division_size(levels, self.level);
        }
        self.size
    }

    /// Returns the bottom down right coordinates of this division in a galaxy of the given
    /// category.
    pub fn get_bottom_right_down(
        &mut self,
        category: GalaxyCategory,
        levels: &Vec<GalacticMapDivisionLevel>,
    ) -> (r: SpaceCoordinates)
        requires
            !old(self).size_is_cached() ==> division_size_fits(levels@, old(self).level),
            can_add(old(self).index, galactic_start(category)),
            can_add(spec_add(old(self).index, galactic_start(category)), old(self).current_size(levels@)),
        ensures
            r == spec_add(spec_add(old(self).index, galactic_start(category)), old(self).current_size(levels@)),
            final(self).cached_size() == old(self).current_size(levels@),
            old(self).same_but_size(final(self)),
    {
        let top_left_up = self.index.rel(category.get_galactic_start());
        let size = self.get_size(levels);
        top_left_up.add(size)
    }

    /// Returns the center coordinates of this division in a galaxy of the given category: the
    /// middle of its top up left and bottom right down corners, that is its top up left corner
    /// moved by half of its size (rounded towards zero).
    pub fn get_center(
        &mut self,
        category: GalaxyCategory,
        levels: &Vec<GalacticMapDivisionLevel>,
    ) -> (r: SpaceCoordinates)
        requires
            !old(self).size_is_cached() ==> division_size_fits(levels@, old(self).level),
            can_add(old(self).index, galactic_start(category)),
            can_add(spec_add(old(self).index, galactic_start(category)), old(self).current_size(levels@)),
        ensures
            r == spec_add(
                spec_add(old(self).index, galactic_start(category)),
                spec_div(old(self).current_size(levels@), SpaceCoordinates { x: 2, y: 2, z: 2 }),
            ),
            final(self).cached_size() == old(self).current_size(levels@),
            old(self).same_but_size(final(self)),
    {
        proof {
            lemma_axis_product_nonnegative(levels@, old(self).level, 0);
            lemma_axis_product_nonnegative(levels@, old(self).level, 1);
            lemma_axis_product_nonnegative(levels@, old(self).level, 2);
            assert(levels@.take(levels@.len() as int) == levels@);
        }
        let top_left_up = self.get_top_left_up(category);
        let bottom_right_down = self.get_bottom_right_down(category, levels);
        let extent = bottom_right_down.sub(top_left_up);
        let half = extent.div(SpaceCoordinates::new(2, 2, 2));
        top_left_up.add(half)
    }

    /// Generates the division of level `level` with the index `index`: it takes its cell in the
    /// grid of its parent level, its region from the regions found at its sample points (see
    /// [sample_points]) and computes its size from the division levels.
    pub fn generate(
        index: SpaceCoordinates,
        level: u8,
        parent_division_level: &GalacticMapDivisionLevel,
        levels: &Vec<GalacticMapDivisionLevel>,
        sample_regions: &Vec<GalacticRegion>,
    ) -> (r: Self)
        requires
            parent_division_level.x_subdivisions > 0,
            parent_division_level.y_subdivisions > 0,
            parent_division_level.z_subdivisions > 0,
            division_size_fits(levels@, level),
        ensures
            is_generated_division(r, index, level, *parent_division_level, levels@, sample_regions@),
    {
        let mut division = GalacticMapDivision {
            name: String::from_str("GalaxyDivision"),
            region: GalacticRegion::Multiple,
            level,
            x: cell_in_parent(index.x, parent_division_level.x_subdivisions),
            y: cell_in_parent(index.y, parent_division_level.y_subdivisions),
            z: cell_in_parent(index.z, parent_division_level.z_subdivisions),
            index,
            size: SpaceCoordinates::new(-1, -1, -1),
        };
        let _ = division.get_size(levels);
        division.region = region_from_samples(sample_regions);
        division
    }

    /// Returns the full width of this division in parsecs.
    pub fn get_width(&mut self, levels: &Vec<GalacticMapDivisionLevel>) -> (r: i64)
        requires
            !old(self).size_is_cached() ==> division_size_fits(levels@, old(self).level),
        ensures
            r == old(self).current_size(levels@).x,
            final(self).cached_size() == old(self).current_size(levels@),
            old(self).same_but_size(final(self)),
    {
        self.get_size(levels).x
    }

    /// Returns the full height of this division in parsecs.
    pub fn get_height(&mut self, levels: &Vec<GalacticMapDivisionLevel>) -> (r: i64)
        requires
            !old(self).size_is_cached() ==> division_size_fits(levels@, old(self).level),
        ensures
            r == old(self).current_size(levels@).y,
            final(self).cached_size() == old(self).current_size(levels@),
            old(self).same_but_size(final(self)),
    {
        self.get_size(levels).y
    }

    /// Returns the full depth of this division in parsecs.
    pub fn get_depth(&mut self, levels: &Vec<GalacticMapDivisionLevel>) -> (r: i64)
        requires
            !old(self).size_is_cached() ==> division_size_fits(levels@, old(self).level),
        ensures
            r == old(self).current_size(levels@).z,
            final(self).cached_size() == old(self).current_size(levels@),
            old(self).same_but_size(final(self)),
    {
        self.get_size(levels).z
    }
}

/// Whether `d` is the division of level `level` with the index `index` as generated under a parent
/// level and with the regions found at its sample points: named "GalaxyDivision", with its cell
/// in the parent's grid, its region from the samples and its size computed from the levels.
pub open spec fn is_generated_division(
    d: GalacticMapDivision,
    index: SpaceCoordinates,
    level: u8,
    parent: GalacticMapDivisionLevel,
    levels: Seq<GalacticMapDivisionLevel>,
    sample_regions: Seq<GalacticRegion>,
) -> bool {
    &&& d.name@ == "GalaxyDivision"@
    &&& d.region == region_of_samples(sample_regions)
    &&& d.level == level
    &&& d.x == cell_of(index.x as int, parent.x_subdivisions as int)
    &&& d.y == cell_of(index.y as int, parent.y_subdivisions as int)
    &&& d.z == cell_of(index.z as int, parent.z_subdivisions as int)
    &&& d.index == index
    &&& d.size == division_size(levels, level)
}

/// Once a division has kept a size of at least one parsec on every axis, that size is what it
/// gives back, whatever the division levels.
pub proof fn lemma_kept_size_is_given_back(
    d: GalacticMapDivision,
    levels: Seq<GalacticMapDivisionLevel>,
    other_levels: Seq<GalacticMapDivisionLevel>,
)
    requires
        d.size_is_cached(),
    ensures
        d.current_size(levels) == d.cached_size(),
        d.current_size(other_levels) == d.current_size(levels),
{
}

/// A product of subdivisions that are all at least one is at least one.
pub proof fn lemma_axis_product_positive(levels: Seq<GalacticMapDivisionLevel>, level: u8, axis: int)
    requires
        forall|i: int| 0 <= i < levels.len() ==> #[trigger] axis_subdivisions(levels[i], axis) >= 1,
    ensures
        axis_product(levels, level, axis) >= 1,
    decreases levels.len(),
{
    if levels.len() > 0 {
        let rest = levels.drop_last();
        assert forall|i: int| 0 <= i < rest.len() implies #[trigger] axis_subdivisions(rest[i], axis) >= 1 by {
            assert(rest[i] == levels[i]);
        }
        lemma_axis_product_positive(rest, level, axis);
        let p = axis_product(rest, level, axis);
        let f = if levels.last().level <= level { axis_subdivisions(levels.last(), axis) } else { 1 };
        assert(axis_subdivisions(levels[levels.len() - 1], axis) >= 1);
        assert(p * f >= 1) by (nonlinear_arith)
            requires
                p >= 1,
                f >= 1,
        ;
    }
}

/// When every subdivision is at least one, the first size asked of a division that has not
/// computed it yet is the product of the subdivisions of the levels up to its own, and once
/// kept (as [GalacticMapDivision::get_size] does) it is what the division gives back afterwards,
/// whatever the division levels.
pub proof fn lemma_size_computed_then_kept(
    d: GalacticMapDivision,
    kept: GalacticMapDivision,
    levels: Seq<GalacticMapDivisionLevel>,
    later_levels: Seq<GalacticMapDivisionLevel>,
)
    requires
        !d.size_is_cached(),
        division_size_fits(levels, d.level),
        forall|i: int, axis: int| 0 <= i < levels.len() && 0 <= axis < 3 ==> #[trigger] axis_subdivisions(levels[i], axis) >= 1,
        kept.cached_size() == d.current_size(levels),
    ensures
        d.current_size(levels) == division_size(levels, d.level),
        kept.size_is_cached(),
        kept.current_size(later_levels) == division_size(levels, d.level),
{
    assert(levels.take(levels.len() as int) == levels);
    assert forall|axis: int| 0 <= axis < 3 implies axis_product(levels, d.level, axis) >= 1 by {
        assert forall|i: int| 0 <= i < levels.len() implies #[trigger] axis_subdivisions(levels[i], axis) >= 1 by {
            assert(axis_subdivisions(levels[i], axis) >= 1);
        }
        lemma_axis_product_positive(levels, d.level, axis);
    }
    assert(axis_product(levels.take(levels.len() as int), d.level, 0) <= i64::MAX);
    assert(axis_product(levels.take(levels.len() as int), d.level, 1) <= i64::MAX);
    assert(axis_product(levels.take(levels.len() as int), d.level, 2) <= i64::MAX);
}

} // verus!
