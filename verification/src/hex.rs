use vstd::prelude::*;
use crate::coordinates::SpaceCoordinates;
use crate::dice::{new_roller, roll_dice};
use crate::sector::{GalacticRegion, SectorSettings};
use crate::text::{append_coordinates, coordinates_text};

verus! {

/// The die rolled, for each parsec or each hex, to know how many star systems a region holds, and
/// the highest roll that still counts: `(faces, success_on)`.
pub open spec fn region_roll(region: GalacticRegion) -> (u32, u32) {
    match region {
        GalacticRegion::Void => (50, 1),
        GalacticRegion::Aura => (20, 1),
        GalacticRegion::Halo | GalacticRegion::Exile => (10, 1),
        GalacticRegion::Stream | GalacticRegion::Association => (5, 1),
        GalacticRegion::Ellipse | GalacticRegion::Disk | GalacticRegion::Multiple => (2, 1),
        GalacticRegion::Arm | GalacticRegion::OpenCluster => (4, 4),
        GalacticRegion::Bar => (20, 20),
        GalacticRegion::Bulge | GalacticRegion::GlobularCluster => (100, 100),
        GalacticRegion::Core | GalacticRegion::Nucleus => (500, 500),
    }
}

/// Whether a region is one of the dense ones, where every roll of the die brings star systems:
/// arms, open clusters, bars, bulges, globular clusters, cores and nuclei.
pub open spec fn is_dense_region(region: GalacticRegion) -> bool {
    region is Arm || region is OpenCluster || region is Bar || region is Bulge || region is GlobularCluster
        || region is Core || region is Nucleus
}

/// The die of a region and the rolls that count: in a dense region every roll counts, in a sparse
/// one only a 1. Sparse regions roll a d50 in the void, a d20 in an aura, a d10 in a halo or an
/// exile, a d5 in a stream or an association and a d2 in an ellipse, a disk or a mixed region;
/// dense ones roll a d4 in an arm or an open cluster, a d20 in a bar, a d100 in a bulge or a
/// globular cluster and a d500 in a core or a nucleus.
pub proof fn lemma_region_roll(region: GalacticRegion)
    ensures
        ({
            let (faces, success_on) = region_roll(region);
            &&& faces >= 2
            &&& is_dense_region(region) ==> success_on == faces
            &&& !is_dense_region(region) ==> success_on == 1
            &&& region is Void ==> faces == 50
            &&& region is Aura ==> faces == 20
            &&& region is Halo || region is Exile ==> faces == 10
            &&& region is Stream || region is Association ==> faces == 5
            &&& region is Ellipse || region is Disk || region is Multiple ==> faces == 2
            &&& region is Arm || region is OpenCluster ==> faces == 4
            &&& region is Bar ==> faces == 20
            &&& region is Bulge || region is GlobularCluster ==> faces == 100
            &&& region is Core || region is Nucleus ==> faces == 500
        }),
{
}

/// Returns the die rolled to know how many star systems a region holds, and the highest roll
/// that still counts: `(faces, success_on)`.
pub fn get_region_roll(region: GalacticRegion) -> (r: (u32, u32))
    ensures
        r == region_roll(region),
{
    match region {
        GalacticRegion::Void => (50, 1),
        GalacticRegion::Aura => (20, 1),
        GalacticRegion::Halo | GalacticRegion::Exile => (10, 1),
        GalacticRegion::Stream | GalacticRegion::Association => (5, 1),
        GalacticRegion::Ellipse | GalacticRegion::Disk | GalacticRegion::Multiple => (2, 1),
        GalacticRegion::Arm | GalacticRegion::OpenCluster => (4, 4),
        GalacticRegion::Bar => (20, 20),
        GalacticRegion::Bulge | GalacticRegion::GlobularCluster => (100, 100),
        GalacticRegion::Core | GalacticRegion::Nucleus => (500, 500),
    }
}

/// How many rolls are made for a hex: one for the whole hex, or one per cubic parsec in it.
pub open spec fn hex_turns(settings: SectorSettings) -> int {
    if settings.density_by_hex_instead_of_parsec {
        1
    } else {
        settings.hex_size.0 * settings.hex_size.1 * settings.hex_size.2
    }
}

/// Whether the number of cubic parsecs in a hex, computed in a byte as the x size times the y
/// size, then times the z size, fits there, as the count of rolls needs when rolls are made by
/// parsec.
pub open spec fn turns_fit(settings: SectorSettings) -> bool {
    !settings.density_by_hex_instead_of_parsec ==> {
        &&& settings.hex_size.0 * settings.hex_size.1 <= 255
        &&& settings.hex_size.0 * settings.hex_size.1 * settings.hex_size.2 <= 255
    }
}

/// Returns how many rolls are made for a hex: one for the whole hex, or one per cubic parsec in
/// it.
pub fn get_hex_turns(settings: &SectorSettings) -> (r: u8)
    requires
        turns_fit(*settings),
    ensures
        r == hex_turns(*settings),
{
    if settings.density_by_hex_instead_of_parsec {
        1
    } else {
        let (x, y, z) = settings.hex_size;
        let xy: u8 = x * y;
        xy * z
    }
}

/// The sum of the rolls that do not exceed `success_on`.
pub open spec fn successful_sum(rolls: Seq<u32>, success_on: int) -> int
    decreases rolls.len(),
{
    if rolls.len() == 0 {
        0
    } else {
        successful_sum(rolls.drop_last(), success_on) + (if rolls.last() <= success_on {
            rolls.last() as int
        } else {
            0
        })
    }
}

/// How many star systems a hex holds from its rolls: the successful system rolls, plus one for
/// every five successful brown dwarf rolls, at most one when the settings ask for it.
pub open spec fn systems_count(
    system_rolls: Seq<u32>,
    brown_dwarf_rolls: Seq<u32>,
    success_on: int,
    max_one_system_per_hex: bool,
) -> int {
    let n = successful_sum(system_rolls, success_on) + successful_sum(brown_dwarf_rolls, success_on) / 5;
    if max_one_system_per_hex && n > 1 {
        1
    } else {
        n
    }
}

/// A successful sum of `n` rolls lies between zero and `n` times 2^32.
proof fn lemma_successful_sum_bounds(rolls: Seq<u32>, success_on: int)
    ensures
        0 <= successful_sum(rolls, success_on) <= rolls.len() * 0x1_0000_0000,
    decreases rolls.len(),
{
    if rolls.len() > 0 {
        lemma_successful_sum_bounds(rolls.drop_last(), success_on);
    }
}

/// A hex limited to one system holds none or one: its count is never negative, and never above
/// one when the settings ask for at most one system per hex.
pub proof fn lemma_at_most_one_system(system_rolls: Seq<u32>, brown_dwarf_rolls: Seq<u32>, success_on: int)
    ensures
        0 <= systems_count(system_rolls, brown_dwarf_rolls, success_on, true) <= 1,
        systems_count(system_rolls, brown_dwarf_rolls, success_on, false) >= 0,
{
    lemma_successful_sum_bounds(system_rolls, success_on);
    lemma_successful_sum_bounds(brown_dwarf_rolls, success_on);
}

/// Rolls that all count sum to at least one per roll.
proof fn lemma_successful_sum_all_count(rolls: Seq<u32>, success_on: int)
    requires
        forall|i: int| 0 <= i < rolls.len() ==> 1 <= #[trigger] rolls[i] <= success_on,
    ensures
        successful_sum(rolls, success_on) >= rolls.len(),
    decreases rolls.len(),
{
    if rolls.len() > 0 {
        let rest = rolls.drop_last();
        assert forall|i: int| 0 <= i < rest.len() implies 1 <= #[trigger] rest[i] <= success_on by {
            assert(rest[i] == rolls[i]);
        }
        lemma_successful_sum_all_count(rest, success_on);
        assert(rolls[rolls.len() - 1] == rolls.last());
    }
}

/// A hex of a dense region rolled at least once holds at least one star system, since every roll
/// of its die counts.
pub proof fn lemma_dense_region_hex_has_a_system(
    region: GalacticRegion,
    system_rolls: Seq<u32>,
    brown_dwarf_rolls: Seq<u32>,
    turns: int,
    max_one_system_per_hex: bool,
)
    requires
        is_dense_region(region),
        turns >= 1,
        are_die_rolls(system_rolls, turns, region_roll(region).0 as int),
        are_die_rolls(brown_dwarf_rolls, turns, region_roll(region).0 as int),
    ensures
        systems_count(system_rolls, brown_dwarf_rolls, region_roll(region).1 as int, max_one_system_per_hex) >= 1,
{
    lemma_region_roll(region);
    let success_on = region_roll(region).1 as int;
    lemma_successful_sum_all_count(system_rolls, success_on);
    lemma_successful_sum_all_count(brown_dwarf_rolls, success_on);
}

fn sum_successful(rolls: &Vec<u32>, success_on: u32) -> (r: u128)
    ensures
        r == successful_sum(rolls@, success_on as int),
{
    let mut sum: u128 = 0;
    let mut i: usize = 0;
    while i < rolls.len()
        invariant
            0 <= i <= rolls.len(),
            sum == successful_sum(rolls@.take(i as int), success_on as int),
        decreases rolls.len() - i,
    {
        proof {
            assert(rolls@.take(i + 1).drop_last() == rolls@.take(i as int));
            lemma_successful_sum_bounds(rolls@.take(i + 1), success_on as int);
        }
        if rolls[i] <= success_on {
            sum = sum + rolls[i] as u128;
        }
        i = i + 1;
    }
    proof {
        assert(rolls@.take(rolls@.len() as int) == rolls@);
    }
    sum
}

/// Returns how many star systems a hex holds from its rolls: the successful system rolls, plus
/// one for every five successful brown dwarf rolls, at most one when the settings ask for it, as
/// a `u16` (keeping the low 16 bits).
pub fn count_systems(
    system_rolls: &Vec<u32>,
    brown_dwarf_rolls: &Vec<u32>,
    success_on: u32,
    max_one_system_per_hex: bool,
) -> (r: u16)
    ensures
        r == systems_count(system_rolls@, brown_dwarf_rolls@, success_on as int, max_one_system_per_hex) as u16,
{
    let systems = sum_successful(system_rolls, success_on);
    let brown_dwarfs = sum_successful(brown_dwarf_rolls, success_on);
    let system_count = system_rolls.len();
    let brown_dwarf_count = brown_dwarf_rolls.len();
    proof {
        lemma_successful_sum_bounds(system_rolls@, success_on as int);
        lemma_successful_sum_bounds(brown_dwarf_rolls@, success_on as int);
        assert(system_count <= 0xffff_ffff_ffff_ffff);
        assert(brown_dwarf_count <= 0xffff_ffff_ffff_ffff);
        assert(systems <= 0xffff_ffff_ffff_ffff * 0x1_0000_0000);
        assert(brown_dwarfs <= 0xffff_ffff_ffff_ffff * 0x1_0000_0000);
    }
    let mut n: u128 = systems + brown_dwarfs / 5;
    if max_one_system_per_hex && n > 1 {
        n = 1;
    }
    n as u16
}

/// The name of the step of a hex's rolls: `hex_`, the hex's index and the suffix.
pub fn hex_step(index: SpaceCoordinates, suffix: &str) -> (r: String)
    ensures
        r@ == "hex_"@ + coordinates_text(index) + suffix@,
{
    let mut s = String::from_str("hex_");
    append_coordinates(&mut s, index);
    s.append(suffix);
    s
}

/// Whether `rolls` are `n` rolls of a die of `faces` faces.
pub open spec fn are_die_rolls(rolls: Seq<u32>, n: int, faces: int) -> bool {
    &&& rolls.len() == n
    &&& forall|i: int| 0 <= i < rolls.len() ==> 1 <= #[trigger] rolls[i] <= faces
}

fn roll_times(seed: &str, step: &str, turns: u8, faces: u32) -> (r: Vec<u32>)
    requires
        faces > 0,
    ensures
        are_die_rolls(r@, turns as int, faces as int),
{
    let mut rng = new_roller(seed, step);
    let mut rolls: Vec<u32> = Vec::new();
    let mut i: u8 = 0;
    while i < turns
        invariant
            0 <= i <= turns,
            faces > 0,
            rolls.len() == i,
            forall|j: int| 0 <= j < rolls.len() ==> 1 <= #[trigger] rolls@[j] <= faces,
        decreases turns - i,
    {
        let roll = roll_dice(&mut rng, 1, faces, 0);
        rolls.push(roll as u32);
        i = i + 1;
    }
    rolls
}

/// Calculates how many star systems should be generated in the hex of the given index, which lies
/// in a subsector of the given region: for each roll of the hex, a die of the region's size is
/// rolled with the step `hex_{index}_nbr_sys`, and again with `hex_{index}_nbr_brwn` for brown
/// dwarfs; the rolls themselves depend on the seed and are not stated, only that each lies on the
/// die and how they are counted. A hex of a dense region limited to one system always holds one.
pub fn get_number_of_systems_to_generate(
    seed: &str,
    settings: &SectorSettings,
    index: SpaceCoordinates,
    region: GalacticRegion,
) -> (r: u16)
    requires
        turns_fit(*settings),
    ensures
        exists|system_rolls: Seq<u32>, brown_dwarf_rolls: Seq<u32>|
            {
                &&& are_die_rolls(system_rolls, hex_turns(*settings), region_roll(region).0 as int)
                &&& are_die_rolls(brown_dwarf_rolls, hex_turns(*settings), region_roll(region).0 as int)
                &&& r == systems_count(
                    system_rolls,
                    brown_dwarf_rolls,
                    region_roll(region).1 as int,
                    settings.max_one_system_per_hex,
                ) as u16
            },
        is_dense_region(region) && hex_turns(*settings) >= 1 && settings.max_one_system_per_hex ==> r == 1,
{
    let (faces, success_on) = get_region_roll(region);
    let turns = get_hex_turns(settings);
    let system_rolls = roll_times(seed, hex_step(index, "_nbr_sys").as_str(), turns, faces);
    let brown_dwarf_rolls = roll_times(seed, hex_step(index, "_nbr_brwn").as_str(), turns, faces);
    let r = count_systems(&system_rolls, &brown_dwarf_rolls, success_on, settings.max_one_system_per_hex);
    proof {
        if is_dense_region(region) && hex_turns(*settings) >= 1 && settings.max_one_system_per_hex {
            lemma_dense_region_hex_has_a_system(region, system_rolls@, brown_dwarf_rolls@, hex_turns(*settings), true);
            lemma_at_most_one_system(system_rolls@, brown_dwarf_rolls@, success_on as int);
        }
    }
    r
}

} // verus!
