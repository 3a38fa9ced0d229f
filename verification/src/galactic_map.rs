use vstd::prelude::*;
use crate::coordinates::{SpaceCoordinates, spec_sub, spec_add};
use crate::galaxy_types::GalaxyCategory;
use crate::galaxy_map::{
    galactic_start, coordinates_valid, level_position, all_levels_usable, has_usable_level,
    division_index, find_level, calculate_next_index, lemma_div_nonnegative,
    level_size_of,
};
use crate::sector::{GalacticMapDivisionLevel, GalacticRegion};
use crate::division::{
    GalacticMapDivision, is_generated_division, division_size_fits, division_size, sample_points,
    region_sample_points, compute_division_size, axis_product,
    lemma_axis_product_nonnegative,
};

verus! {

/// The position of the first division of `divisions` with the given level and index, or -1 if
/// there is none.
pub open spec fn division_position(divisions: Seq<GalacticMapDivision>, level: u8, index: SpaceCoordinates) -> int
    decreases divisions.len(),
{
    if divisions.len() == 0 {
        -1
    } else if divisions[0].level == level && divisions[0].index == index {
        0
    } else {
        let r = division_position(divisions.drop_first(), level, index);
        if r < 0 {
            -1
        } else {
            r + 1
        }
    }
}

/// What [division_position] finds: the first matching division, or none at all.
pub proof fn lemma_division_position(divisions: Seq<GalacticMapDivision>, level: u8, index: SpaceCoordinates)
    ensures
        division_position(divisions, level, index) < 0 <==> (forall|j: int|
            0 <= j < divisions.len() ==> !(#[trigger] divisions[j].level == level && divisions[j].index == index)),
        division_position(divisions, level, index) >= 0 ==> {
            let p = division_position(divisions, level, index);
            &&& p < divisions.len()
            &&& divisions[p].level == level
            &&& divisions[p].index == index
            &&& forall|j: int| 0 <= j < p ==> !(#[trigger] divisions[j].level == level && divisions[j].index == index)
        },
    decreases divisions.len(),
{
    if divisions.len() > 0 && !(divisions[0].level == level && divisions[0].index == index) {
        lemma_division_position(divisions.drop_first(), level, index);
        let r = division_position(divisions.drop_first(), level, index);
        assert forall|j: int| 0 < j < divisions.len() implies divisions.drop_first()[j - 1] == divisions[j] by {}
        if r >= 0 {
            assert(divisions.drop_first()[r] == divisions[r + 1]);
        }
    }
}

/// Appending divisions of other levels leaves the first division of a level and index where it
/// was.
pub proof fn lemma_position_after_append(
    first: Seq<GalacticMapDivision>,
    second: Seq<GalacticMapDivision>,
    level: u8,
    index: SpaceCoordinates,
)
    requires
        forall|k: int| 0 <= k < second.len() ==> (#[trigger] second[k]).level != level,
    ensures
        division_position(first + second, level, index) == division_position(first, level, index),
    decreases first.len(),
{
    lemma_division_position(second, level, index);
    if first.len() == 0 {
        assert(first + second == second);
    } else {
        assert((first + second).drop_first() == first.drop_first() + second);
        assert((first + second)[0] == first[0]);
        lemma_position_after_append(first.drop_first(), second, level, index);
    }
}

/// The level a division of level `level` takes its cell in: the first level of `levels` numbered
/// one above, or a level of 255 subdivisions on each axis when there is none.
pub open spec fn parent_level(levels: Seq<GalacticMapDivisionLevel>, level: u8) -> GalacticMapDivisionLevel {
    let p = level_position(levels, (level + 1) as u8);
    if p >= 0 {
        levels[p]
    } else {
        GalacticMapDivisionLevel { level: 10, x_subdivisions: 255, y_subdivisions: 255, z_subdivisions: 255 }
    }
}

/// Whether the division levels can serve a map: every level from 0 to 9 is there with
/// subdivisions on all axes, every parent level has subdivisions on all axes, and the size of a
/// division of any of those levels fits in an `i64`.
pub open spec fn levels_ready(levels: Seq<GalacticMapDivisionLevel>) -> bool {
    &&& all_levels_usable(levels)
    &&& forall|l: u8| 0 <= l <= 9 ==> {
        &&& #[trigger] division_size_fits(levels, l)
        &&& parent_level(levels, l).x_subdivisions > 0
        &&& parent_level(levels, l).y_subdivisions > 0
        &&& parent_level(levels, l).z_subdivisions > 0
    }
}

/// Whether `d` is what a lookup at level `i` gives for a point `a` (taken from the map's starting
/// point): the first division of the cache with that level and the point's index at that level,
/// or, when there is none, the division generated there with the regions found at its sample
/// points.
pub open spec fn is_lookup_result(
    cache: Seq<GalacticMapDivision>,
    levels: Seq<GalacticMapDivisionLevel>,
    a: SpaceCoordinates,
    sample_regions: Seq<Seq<GalacticRegion>>,
    i: int,
    d: GalacticMapDivision,
) -> bool {
    let index = division_index(levels, a, i as nat);
    let p = division_position(cache, i as u8, index);
    if p >= 0 {
        d == cache[p]
    } else {
        is_generated_division(d, index, i as u8, parent_level(levels, i as u8), levels, sample_regions[i])
    }
}

/// The divisions among the first `n` results that the cache did not hold, in order.
pub open spec fn added_divisions(
    results: Seq<GalacticMapDivision>,
    cache: Seq<GalacticMapDivision>,
    levels: Seq<GalacticMapDivisionLevel>,
    a: SpaceCoordinates,
    n: nat,
) -> Seq<GalacticMapDivision>
    decreases n,
{
    if n == 0 {
        Seq::empty()
    } else {
        let before = added_divisions(results, cache, levels, a, (n - 1) as nat);
        if division_position(cache, (n - 1) as u8, division_index(levels, a, (n - 1) as nat)) < 0 {
            before.push(results[n - 1])
        } else {
            before
        }
    }
}

/// Whether looking up the divisions holding a point `a` (taken from the map's starting point) in
/// the cache `cache` gives `results`, one per level from 0 to 9, and leaves `new_cache`: the cache
/// followed by the divisions it did not hold.
pub open spec fn is_divisions_lookup(
    cache: Seq<GalacticMapDivision>,
    levels: Seq<GalacticMapDivisionLevel>,
    a: SpaceCoordinates,
    sample_regions: Seq<Seq<GalacticRegion>>,
    results: Seq<GalacticMapDivision>,
    new_cache: Seq<GalacticMapDivision>,
) -> bool {
    &&& results.len() == 10
    &&& forall|i: int| 0 <= i < 10 ==> #[trigger] is_lookup_result(cache, levels, a, sample_regions, i, results[i])
    &&& new_cache == cache + added_divisions(results, cache, levels, a, 10)
}

/// [added_divisions] only reads the first `n` results.
proof fn lemma_added_reads_prefix(
    r1: Seq<GalacticMapDivision>,
    r2: Seq<GalacticMapDivision>,
    cache: Seq<GalacticMapDivision>,
    levels: Seq<GalacticMapDivisionLevel>,
    a: SpaceCoordinates,
    n: nat,
)
    requires
        n <= r1.len(),
        n <= r2.len(),
        forall|j: int| 0 <= j < n ==> r1[j] == r2[j],
    ensures
        added_divisions(r1, cache, levels, a, n) == added_divisions(r2, cache, levels, a, n),
    decreases n,
{
    if n > 0 {
        lemma_added_reads_prefix(r1, r2, cache, levels, a, (n - 1) as nat);
    }
}

/// When the result at each level `j` has level `j`, the divisions added from the first `n`
/// results all have a level below `n`.
proof fn lemma_added_levels(
    results: Seq<GalacticMapDivision>,
    cache: Seq<GalacticMapDivision>,
    levels: Seq<GalacticMapDivisionLevel>,
    a: SpaceCoordinates,
    n: nat,
)
    requires
        n <= results.len(),
        forall|j: int| 0 <= j < n ==> #[trigger] results[j].level == j,
    ensures
        forall|k: int| 0 <= k < added_divisions(results, cache, levels, a, n).len()
            ==> #[trigger] added_divisions(results, cache, levels, a, n)[k].level < n,
    decreases n,
{
    if n > 0 {
        lemma_added_levels(results, cache, levels, a, (n - 1) as nat);
    }
}

/// Whether `p` is a coordinate whose components all lie within the given bound.
pub open spec fn within(p: SpaceCoordinates, bound: int) -> bool {
    &&& -bound <= p.x <= bound
    &&& -bound <= p.y <= bound
    &&& -bound <= p.z <= bound
}

/// The starting point of any map lies within 2^32 parsecs of the center, and a valid point taken
/// from it lies between 0 and 2^33 parsecs on every axis.
pub proof fn lemma_map_bounds(c: GalaxyCategory, p: SpaceCoordinates)
    ensures
        within(galactic_start(c), 0x1_0000_0000),
        coordinates_valid(c, p) ==> {
            let a = spec_sub(p, galactic_start(c));
            &&& 0 <= a.x <= 0x2_0000_0000
            &&& 0 <= a.y <= 0x2_0000_0000
            &&& 0 <= a.z <= 0x2_0000_0000
        },
{
}

/// The divisions looked up for a point are, level by level, at that level and at the point's
/// index for it.
pub proof fn lemma_lookup_levels_and_indexes(
    cache: Seq<GalacticMapDivision>,
    levels: Seq<GalacticMapDivisionLevel>,
    a: SpaceCoordinates,
    sample_regions: Seq<Seq<GalacticRegion>>,
    results: Seq<GalacticMapDivision>,
    new_cache: Seq<GalacticMapDivision>,
)
    requires
        is_divisions_lookup(cache, levels, a, sample_regions, results, new_cache),
    ensures
        forall|i: int| 0 <= i < 10 ==> {
            &&& (#[trigger] results[i]).level == i
            &&& results[i].index == division_index(levels, a, i as nat)
        },
{
    assert forall|i: int| 0 <= i < 10 implies {
        &&& (#[trigger] results[i]).level == i
        &&& results[i].index == division_index(levels, a, i as nat)
    } by {
        assert(is_lookup_result(cache, levels, a, sample_regions, i, results[i]));
        lemma_division_position(cache, i as u8, division_index(levels, a, i as nat));
    }
}

/// Where the results of a lookup added to the cache, the division of level `i` stands in the added
/// part at the position [division_position] finds it.
proof fn lemma_added_position(
    results: Seq<GalacticMapDivision>,
    cache: Seq<GalacticMapDivision>,
    levels: Seq<GalacticMapDivisionLevel>,
    a: SpaceCoordinates,
    n: nat,
    i: int,
)
    requires
        n <= 10,
        0 <= i < n,
        results.len() == 10,
        forall|j: int| 0 <= j < 10 ==> {
            &&& (#[trigger] results[j]).level == j
            &&& results[j].index == division_index(levels, a, j as nat)
        },
        division_position(cache, i as u8, division_index(levels, a, i as nat)) < 0,
    ensures
        ({
            let added = added_divisions(results, cache, levels, a, n);
            let p = division_position(added, i as u8, division_index(levels, a, i as nat));
            0 <= p < added.len() && added[p] == results[i]
        }),
    decreases n,
{
    let index = division_index(levels, a, i as nat);
    let before = added_divisions(results, cache, levels, a, (n - 1) as nat);
    if i == n - 1 {
        lemma_added_levels(results, cache, levels, a, (n - 1) as nat);
        assert forall|k: int| 0 <= k < before.len() implies (#[trigger] before[k]).level != i as u8 by {}
        lemma_position_after_append(seq![], before, i as u8, index);
        assert(seq![] + before == before);
        lemma_position_in_last(before, results[i], i as u8, index);
    } else {
        lemma_added_position(results, cache, levels, a, (n - 1) as nat, i);
        let p = division_position(before, i as u8, index);
        if division_position(cache, (n - 1) as u8, division_index(levels, a, (n - 1) as nat)) < 0 {
            assert(results[n - 1].level != i as u8);
            lemma_position_after_append(before, seq![results[n - 1]], i as u8, index);
            assert(before + seq![results[n - 1]] == before.push(results[n - 1]));
            lemma_division_position(before, i as u8, index);
        }
    }
}

/// In a list that holds no division of a level and index but its last, that last is found.
proof fn lemma_position_in_last(
    before: Seq<GalacticMapDivision>,
    last: GalacticMapDivision,
    level: u8,
    index: SpaceCoordinates,
)
    requires
        division_position(before, level, index) < 0,
        last.level == level,
        last.index == index,
    ensures
        division_position(before.push(last), level, index) == before.len(),
    decreases before.len(),
{
    lemma_division_position(before, level, index);
    if before.len() > 0 {
        assert(before.push(last).drop_first() == before.drop_first().push(last));
        assert(!(before[0].level == level && before[0].index == index));
        lemma_division_position(before.drop_first(), level, index);
        assert forall|j: int| 0 <= j < before.drop_first().len() implies !(#[trigger] before.drop_first()[j].level == level
            && before.drop_first()[j].index == index) by {
            assert(before.drop_first()[j] == before[j + 1]);
        }
        lemma_position_in_last(before.drop_first(), last, level, index);
    }
}

/// What a lookup keeps, a second lookup of the same point finds: it gives back the same
/// divisions and adds none to the map.
pub proof fn lemma_lookup_is_idempotent(
    cache: Seq<GalacticMapDivision>,
    levels: Seq<GalacticMapDivisionLevel>,
    a: SpaceCoordinates,
    sample_regions: Seq<Seq<GalacticRegion>>,
    results: Seq<GalacticMapDivision>,
    new_cache: Seq<GalacticMapDivision>,
    results_again: Seq<GalacticMapDivision>,
    cache_again: Seq<GalacticMapDivision>,
)
    requires
        is_divisions_lookup(cache, levels, a, sample_regions, results, new_cache),
        is_divisions_lookup(new_cache, levels, a, sample_regions, results_again, cache_again),
    ensures
        results_again == results,
        cache_again == new_cache,
{
    lemma_lookup_levels_and_indexes(cache, levels, a, sample_regions, results, new_cache);
    let added = added_divisions(results, cache, levels, a, 10);
    assert forall|i: int| 0 <= i < 10 implies
        #[trigger] division_position(new_cache, i as u8, division_index(levels, a, i as nat)) >= 0
        && new_cache[division_position(new_cache, i as u8, division_index(levels, a, i as nat))] == results[i] by {
        let index = division_index(levels, a, i as nat);
        lemma_division_position(cache, i as u8, index);
        assert(is_lookup_result(cache, levels, a, sample_regions, i, results[i]));
        let p0 = division_position(cache, i as u8, index);
        if p0 >= 0 {
            lemma_position_prefix(cache, added, i as u8, index);
            assert(new_cache[p0] == cache[p0]);
        } else {
            lemma_added_position(results, cache, levels, a, 10, i);
            let q = division_position(added, i as u8, index);
            lemma_position_suffix(cache, added, i as u8, index);
            assert(new_cache[cache.len() + q] == added[q]);
        }
    }
    assert forall|i: int| 0 <= i < 10 implies results_again[i] == results[i] by {
        assert(is_lookup_result(new_cache, levels, a, sample_regions, i, results_again[i]));
    }
    assert(results_again =~= results);
    lemma_nothing_added(results_again, new_cache, levels, a, 10);
    assert(cache_again =~= new_cache);
}

/// A division found in a list is found at the same place once other divisions are appended.
proof fn lemma_position_prefix(
    first: Seq<GalacticMapDivision>,
    second: Seq<GalacticMapDivision>,
    level: u8,
    index: SpaceCoordinates,
)
    requires
        division_position(first, level, index) >= 0,
    ensures
        division_position(first + second, level, index) == division_position(first, level, index),
    decreases first.len(),
{
    if first.len() > 0 {
        assert((first + second).drop_first() == first.drop_first() + second);
        assert((first + second)[0] == first[0]);
        if !(first[0].level == level && first[0].index == index) {
            lemma_position_prefix(first.drop_first(), second, level, index);
        }
    }
}

/// A division missing from a list and found in the divisions appended to it is found after the
/// list, at its place among the appended ones.
proof fn lemma_position_suffix(
    first: Seq<GalacticMapDivision>,
    second: Seq<GalacticMapDivision>,
    level: u8,
    index: SpaceCoordinates,
)
    requires
        division_position(first, level, index) < 0,
        division_position(second, level, index) >= 0,
    ensures
        division_position(first + second, level, index) == first.len() + division_position(second, level, index),
    decreases first.len(),
{
    if first.len() == 0 {
        assert(first + second == second);
    } else {
        assert((first + second).drop_first() == first.drop_first() + second);
        assert((first + second)[0] == first[0]);
        lemma_position_suffix(first.drop_first(), second, level, index);
    }
}

/// A lookup that finds every division in the cache adds none.
proof fn lemma_nothing_added(
    results: Seq<GalacticMapDivision>,
    cache: Seq<GalacticMapDivision>,
    levels: Seq<GalacticMapDivisionLevel>,
    a: SpaceCoordinates,
    n: nat,
)
    requires
        n <= 10,
        forall|i: int| 0 <= i < 10 ==> #[trigger] division_position(cache, i as u8, division_index(levels, a, i as nat)) >= 0,
    ensures
        added_divisions(results, cache, levels, a, n) == Seq::<GalacticMapDivision>::empty(),
    decreases n,
{
    if n > 0 {
        assert(division_position(cache, (n - 1) as u8, division_index(levels, a, (n - 1) as nat)) >= 0);
        lemma_nothing_added(results, cache, levels, a, (n - 1) as nat);
    }
}

/// Returns the position of the first division of `divisions` with the given level and index, if
/// any.
pub fn find_division(divisions: &Vec<GalacticMapDivision>, level: u8, index: SpaceCoordinates) -> (r: Option<usize>)
    ensures
        match r {
            Some(p) => p as int == division_position(divisions@, level, index),
            None => division_position(divisions@, level, index) < 0,
        },
{
    let mut i: usize = 0;
    while i < divisions.len()
        invariant
            0 <= i <= divisions.len(),
            forall|j: int| 0 <= j < i ==> !(#[trigger] divisions@[j].level == level && divisions@[j].index == index),
        decreases divisions.len() - i,
    {
        if divisions[i].level == level && divisions[i].index == index {
            proof {
                lemma_division_position(divisions@, level, index);
            }
            return Some(i);
        }
        i = i + 1;
    }
    proof {
        lemma_division_position(divisions@, level, index);
    }
    None
}

/// Returns whether every partial product met while computing the size of a division of level
/// `level` fits in an `i64`.
pub fn division_size_fits_in_i64(levels: &Vec<GalacticMapDivisionLevel>, level: u8) -> (r: bool)
    ensures
        r == division_size_fits(levels@, level),
{
    let max: u128 = 0x7fff_ffff_ffff_ffff;
    let mut px: u128 = 1;
    let mut py: u128 = 1;
    let mut pz: u128 = 1;
    let mut i: usize = 0;
    proof {
        assert(levels@.take(0) =~= Seq::<GalacticMapDivisionLevel>::empty());
    }
    while i < levels.len()
        invariant
            0 <= i <= levels.len(),
            max == i64::MAX,
            px == axis_product(levels@.take(i as int), level, 0),
            py == axis_product(levels@.take(i as int), level, 1),
            pz == axis_product(levels@.take(i as int), level, 2),
            forall|k: int, axis: int|
                0 <= k <= i && 0 <= axis < 3 ==> #[trigger] axis_product(levels@.take(k), level, axis) <= i64::MAX,
        decreases levels.len() - i,
    {
        let l = levels[i];
        let ghost next = levels@.take(i + 1);
        proof {
            assert(next.drop_last() == levels@.take(i as int));
            assert(next.last() == l);
            lemma_axis_product_nonnegative(levels@.take(i as int), level, 0);
            lemma_axis_product_nonnegative(levels@.take(i as int), level, 1);
            lemma_axis_product_nonnegative(levels@.take(i as int), level, 2);
            assert(px * 255 <= max * 255) by (nonlinear_arith)
                requires
                    px <= max,
            ;
            assert(py * 255 <= max * 255) by (nonlinear_arith)
                requires
                    py <= max,
            ;
            assert(pz * 255 <= max * 255) by (nonlinear_arith)
                requires
                    pz <= max,
            ;
        }
        if l.level <= level {
            proof {
                assert(px * (l.x_subdivisions as u128) <= px * 255) by (nonlinear_arith)
                    requires
                        l.x_subdivisions <= 255,
                        px >= 0,
                ;
                assert(py * (l.y_subdivisions as u128) <= py * 255) by (nonlinear_arith)
                    requires
                        l.y_subdivisions <= 255,
                        py >= 0,
                ;
                assert(pz * (l.z_subdivisions as u128) <= pz * 255) by (nonlinear_arith)
                    requires
                        l.z_subdivisions <= 255,
                        pz >= 0,
                ;
            }
            px = px * (l.x_subdivisions as u128);
            py = py * (l.y_subdivisions as u128);
            pz = pz * (l.z_subdivisions as u128);
        }
        proof {
            assert(px == axis_product(next, level, 0));
            assert(py == axis_product(next, level, 1));
            assert(pz == axis_product(next, level, 2));
        }
        if px > max || py > max || pz > max {
            proof {
                if px > max {
                    assert(axis_product(levels@.take(i + 1), level, 0) > i64::MAX);
                } else if py > max {
                    assert(axis_product(levels@.take(i + 1), level, 1) > i64::MAX);
                } else {
                    assert(axis_product(levels@.take(i + 1), level, 2) > i64::MAX);
                }
            }
            return false;
        }
        i = i + 1;
        proof {
            assert forall|k: int, axis: int|
                0 <= k <= i && 0 <= axis < 3 implies #[trigger] axis_product(levels@.take(k), level, axis) <= i64::MAX by {
                if k == i {
                    if axis == 0 {
                        assert(px == axis_product(levels@.take(k), level, 0));
                    } else if axis == 1 {
                        assert(py == axis_product(levels@.take(k), level, 1));
                    } else {
                        assert(pz == axis_product(levels@.take(k), level, 2));
                    }
                }
            }
        }
    }
    true
}

/// Returns whether the division levels can serve a map: every level from 0 to 9 is there with
/// subdivisions on all axes, every parent level has subdivisions on all axes, and the size of a
/// division of any of those levels fits in an `i64`.
pub fn levels_are_ready(levels: &Vec<GalacticMapDivisionLevel>) -> (r: bool)
    ensures
        r == levels_ready(levels@),
{
    let mut l: u8 = 0;
    while l <= 9
        invariant
            0 <= l <= 10,
            forall|j: u8| 0 <= j < l ==> {
                &&& #[trigger] has_usable_level(levels@, j)
                &&& division_size_fits(levels@, j)
                &&& parent_level(levels@, j).x_subdivisions > 0
                &&& parent_level(levels@, j).y_subdivisions > 0
                &&& parent_level(levels@, j).z_subdivisions > 0
            },
        decreases 10 - l,
    {
        let usable = match find_level(levels, l) {
            Some(found) => found.x_subdivisions > 0 && found.y_subdivisions > 0 && found.z_subdivisions > 0,
            None => false,
        };
        let parent = match find_level(levels, l + 1) {
            Some(found) => found,
            None => GalacticMapDivisionLevel::new(10, 255, 255, 255),
        };
        let fits = division_size_fits_in_i64(levels, l);
        if !usable || !fits || parent.x_subdivisions == 0 || parent.y_subdivisions == 0 || parent.z_subdivisions == 0 {
            proof {
                assert(!(has_usable_level(levels@, l) && division_size_fits(levels@, l) && parent_level(levels@, l).x_subdivisions > 0
                    && parent_level(levels@, l).y_subdivisions > 0 && parent_level(levels@, l).z_subdivisions > 0));
                if all_levels_usable(levels@) {
                    assert(has_usable_level(levels@, l));
                }
            }
            return false;
        }
        l = l + 1;
    }
    proof {
        assert forall|j: u8| 0 <= j <= 9 implies #[trigger] has_usable_level(levels@, j) by {
            assert(has_usable_level(levels@, j));
        }
        assert forall|j: u8| 0 <= j <= 9 implies {
            &&& #[trigger] division_size_fits(levels@, j)
            &&& parent_level(levels@, j).x_subdivisions > 0
            &&& parent_level(levels@, j).y_subdivisions > 0
            &&& parent_level(levels@, j).z_subdivisions > 0
        } by {
            assert(has_usable_level(levels@, j));
        }
    }
    true
}

/// The regions found at the sample points of each division, as sequences.
pub open spec fn regions_view(sample_regions: Seq<Vec<GalacticRegion>>) -> Seq<Seq<GalacticRegion>> {
    sample_regions.map_values(|s: Vec<GalacticRegion>| s@)
}

/// The map of a galaxy: its category, how its space is divided, and the divisions generated so
/// far.
pub struct GalacticMap {
    /// The category of the galaxy, which gives the bounds of the map.
    pub category: GalaxyCategory,
    /// How space is divided at each level.
    pub division_levels: Vec<GalacticMapDivisionLevel>,
    /// The divisions generated so far.
    pub divisions: Vec<GalacticMapDivision>,
}

impl GalacticMap {
    /// Returns the list of [GalacticMapDivision] the given coordinates are a part of, one for each
    /// level from 0 to 9: the ones already generated are taken from the map, the others are
    /// generated, with the regions found at their sample points, and kept in the map.
    pub fn get_divisions_for_coord(
        &mut self,
        coord: SpaceCoordinates,
        sample_regions: &Vec<Vec<GalacticRegion>>,
    ) -> (r: Result<Vec<GalacticMapDivision>, String>)
        requires
            coordinates_valid(old(self).category, coord) ==> {
                &&& levels_ready(old(self).division_levels@)
                &&& sample_regions.len() == 10
            },
        ensures
            final(self).category == old(self).category,
            final(self).division_levels@ == old(self).division_levels@,
            match r {
                Ok(v) => {
                    &&& coordinates_valid(old(self).category, coord)
                    &&& is_divisions_lookup(
                        old(self).divisions@,
                        old(self).division_levels@,
                        spec_sub(coord, galactic_start(old(self).category)),
                        regions_view(sample_regions@),
                        v@,
                        final(self).divisions@,
                    )
                },
                Err(e) => {
                    &&& !coordinates_valid(old(self).category, coord)
                    &&& e@ == "Invalid coordinates."@
                    &&& final(self).divisions@ == old(self).divisions@
                },
            },
    {
        if !self.category.are_coord_valid(coord) {
            return Err(String::from_str("Invalid coordinates."));
        }
        let starting_point = self.category.get_galactic_start();
        let abs_coord = coord.abs(starting_point);
        let ghost a = abs_coord;
        let ghost cache = self.divisions@;
        let ghost levels = self.division_levels@;
        let ghost regions = regions_view(sample_regions@);
        let mut result: Vec<GalacticMapDivision> = Vec::new();
        let mut index = abs_coord;
        let mut i: u8 = 0;
        while i <= 9
            invariant
                0 <= i <= 10,
                levels == self.division_levels@,
                levels_ready(levels),
                self.category == old(self).category,
                levels == old(self).division_levels@,
                cache == old(self).divisions@,
                sample_regions.len() == 10,
                regions == regions_view(sample_regions@),
                a == spec_sub(coord, galactic_start(old(self).category)),
                a.x >= 0 && a.y >= 0 && a.z >= 0,
                index.x >= 0 && index.y >= 0 && index.z >= 0,
                i == 0 ==> index == a,
                i > 0 ==> index == division_index(levels, a, (i - 1) as nat),
                result.len() == i,
                forall|j: int| 0 <= j < i ==> #[trigger] result@[j].level == j,
                forall|j: int| 0 <= j < i ==> #[trigger] is_lookup_result(cache, levels, a, regions, j, result@[j]),
                self.divisions@ == cache + added_divisions(result@, cache, levels, a, i as nat),
            decreases 10 - i,
        {
            assert(has_usable_level(levels, i));
            proof {
                lemma_div_nonnegative(index, level_size_of(levels, i));
            }
            index = calculate_next_index(&self.division_levels, i, index);
            assert(index == division_index(levels, a, i as nat));
            let ghost added = added_divisions(result@, cache, levels, a, i as nat);
            proof {
                lemma_added_levels(result@, cache, levels, a, i as nat);
                assert forall|k: int| 0 <= k < added.len() implies (#[trigger] added[k]).level != i by {}
                lemma_position_after_append(cache, added, i, index);
                lemma_division_position(cache, i, index);
            }
            let ghost before = result@;
            match find_division(&self.divisions, i, index) {
                Some(p) => {
                    let found = self.divisions[p].clone();
                    proof {
                        assert(self.divisions@[p as int] == cache[p as int]);
                    }
                    result.push(found);
                },
                None => {
                    let parent = match find_level(&self.division_levels, i + 1) {
                        Some(l) => l,
                        None => GalacticMapDivisionLevel::new(10, 255, 255, 255),
                    };
                    assert(division_size_fits(levels, i));
                    let generated = GalacticMapDivision::generate(
                        index,
                        i,
                        &parent,
                        &self.division_levels,
                        &sample_regions[i as usize],
                    );
                    proof {
                        assert(regions[i as int] == sample_regions@[i as int]@);
                    }
                    self.divisions.push(generated.clone());
                    result.push(generated);
                },
            }
            proof {
                lemma_added_reads_prefix(before, result@, cache, levels, a, i as nat);
                assert(result@[i as int].level == i);
                assert forall|j: int| 0 <= j < i + 1 implies #[trigger] is_lookup_result(cache, levels, a, regions, j, result@[j]) by {
                    if j < i {
                        assert(result@[j] == before[j]);
                    }
                }
            }
            i = i + 1;
        }
        Ok(result)
    }

    /// Returns the [GalacticMapDivision] of the given level, from 1 to 9, holding the given
    /// coordinates, looking up the divisions holding them as
    /// [GalacticMap::get_divisions_for_coord] does.
    pub fn get_division_at_level(
        &mut self,
        coord: SpaceCoordinates,
        level: u8,
        sample_regions: &Vec<Vec<GalacticRegion>>,
    ) -> (r: Result<GalacticMapDivision, String>)
        requires
            coordinates_valid(old(self).category, coord) && 1 <= level <= 9 ==> {
                &&& levels_ready(old(self).division_levels@)
                &&& sample_regions.len() == 10
            },
        ensures
            final(self).category == old(self).category,
            final(self).division_levels@ == old(self).division_levels@,
            match r {
                Ok(d) => {
                    &&& coordinates_valid(old(self).category, coord)
                    &&& 1 <= level <= 9
                    &&& exists|results: Seq<GalacticMapDivision>| {
                        &&& is_divisions_lookup(
                            old(self).divisions@,
                            old(self).division_levels@,
                            spec_sub(coord, galactic_start(old(self).category)),
                            regions_view(sample_regions@),
                            results,
                            final(self).divisions@,
                        )
                        &&& d == #[trigger] results[level as int]
                    }
                },
                Err(e) => {
                    &&& final(self).divisions@ == old(self).divisions@
                    &&& if !coordinates_valid(old(self).category, coord) {
                        e@ == "Invalid coordinates."@
                    } else {
                        &&& (level == 0 || level >= 10)
                        &&& e@ == "Level must be higher than 0 and less than 10."@
                    }
                },
            },
    {
        if !self.category.are_coord_valid(coord) {
            return Err(String::from_str("Invalid coordinates."));
        }
        if level == 0 || level >= 10 {
            return Err(String::from_str("Level must be higher than 0 and less than 10."));
        }
        match self.get_divisions_for_coord(coord, sample_regions) {
            Ok(divisions) => {
                let d = divisions[level as usize].clone();
                proof {
                    assert(d == divisions@[level as int]);
                }
                Ok(d)
            },
            Err(e) => Err(e),
        }
    }

    /// Returns, for each level from 0 to 9, the points at which the region of the division of
    /// that level holding the given coordinates is sampled (see [sample_points]), or an error
    /// when the coordinates are out of the map.
    pub fn get_division_sample_points(&self, coord: SpaceCoordinates) -> (r: Result<Vec<Vec<SpaceCoordinates>>, String>)
        requires
            coordinates_valid(self.category, coord) ==> levels_ready(self.division_levels@),
        ensures
            match r {
                Ok(v) => {
                    &&& coordinates_valid(self.category, coord)
                    &&& v.len() == 10
                    &&& forall|i: int| 0 <= i < 10 ==> (#[trigger] v@[i])@ == sample_points(
                        spec_add(
                            division_index(self.division_levels@, spec_sub(coord, galactic_start(self.category)), i as nat),
                            galactic_start(self.category),
                        ),
                        division_size(self.division_levels@, i as u8),
                    )
                },
                Err(e) => !coordinates_valid(self.category, coord) && e@ == "Invalid coordinates."@,
            },
    {
        if !self.category.are_coord_valid(coord) {
            return Err(String::from_str("Invalid coordinates."));
        }
        let starting_point = self.category.get_galactic_start();
        let abs_coord = coord.abs(starting_point);
        let ghost a = abs_coord;
        let ghost levels = self.division_levels@;
        proof {
            lemma_map_bounds(self.category, coord);
        }
        let mut result: Vec<Vec<SpaceCoordinates>> = Vec::new();
        let mut index = abs_coord;
        let mut i: u8 = 0;
        while i <= 9
            invariant
                0 <= i <= 10,
                levels == self.division_levels@,
                levels_ready(levels),
                starting_point == galactic_start(self.category),
                within(starting_point, 0x1_0000_0000),
                a == spec_sub(coord, galactic_start(self.category)),
                0 <= a.x <= 0x2_0000_0000 && 0 <= a.y <= 0x2_0000_0000 && 0 <= a.z <= 0x2_0000_0000,
                0 <= index.x <= a.x && 0 <= index.y <= a.y && 0 <= index.z <= a.z,
                i == 0 ==> index == a,
                i > 0 ==> index == division_index(levels, a, (i - 1) as nat),
                result.len() == i,
                forall|j: int| 0 <= j < i ==> (#[trigger] result@[j])@ == sample_points(
                    spec_add(division_index(levels, a, j as nat), starting_point),
                    division_size(levels, j as u8),
                ),
            decreases 10 - i,
        {
            assert(has_usable_level(levels, i));
            proof {
                lemma_div_nonnegative(index, level_size_of(levels, i));
            }
            index = calculate_next_index(&self.division_levels, i, index);
            assert(division_size_fits(levels, i));
            let top_left_up = index.rel(starting_point);
            let size = compute_division_size(&self.division_levels, i);
            result.push(region_sample_points(top_left_up, size));
            i = i + 1;
        }
        Ok(result)
    }
}

} // verus!
