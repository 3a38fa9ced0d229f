use vstd::prelude::*;
use crate::dice::{new_roller, roll_dice};
use crate::galaxy_types::{
    GalacticNeighborhood, GalacticNeighborhoodDensity, GalaxySettings, StelliferousEra, Universe,
};

verus! {

/// The sum of the rolls of a cluster count that are not 1: each such roll adds that many major
/// galaxies.
pub open spec fn cluster_galaxies(rolls: Seq<u8>) -> int
    decreases rolls.len(),
{
    if rolls.len() == 0 {
        0
    } else {
        cluster_galaxies(rolls.drop_last()) + (if rolls.last() == 1 {
            0int
        } else {
            rolls.last() as int
        })
    }
}

/// The number of rolls of 1 in a cluster count: each adds a dominant galaxy.
pub open spec fn cluster_dominants(rolls: Seq<u8>) -> int
    decreases rolls.len(),
{
    if rolls.len() == 0 {
        0
    } else {
        cluster_dominants(rolls.drop_last()) + (if rolls.last() == 1 {
            1int
        } else {
            0int
        })
    }
}

/// A count kept in a byte that stops at 255.
pub open spec fn byte_count(n: int) -> int {
    if n > 255 {
        255
    } else {
        n
    }
}

/// Whether `rolls` can be the rolls of ten-sided dice counting the galaxies of a cluster: at least
/// two rolls, and every roll after the second following a 10.
pub open spec fn are_cluster_rolls(rolls: Seq<u8>) -> bool {
    &&& rolls.len() >= 2
    &&& forall|i: int| 0 <= i < rolls.len() ==> 1 <= #[trigger] rolls[i] <= 10
    &&& forall|i: int| 2 <= i < rolls.len() ==> #[trigger] rolls[i - 1] == 10
}

/// Every roll of a cluster count adds either major galaxies or a dominant one, so a cluster count
/// finds at least two galaxies, and at least one is left once each count is kept in a byte.
pub proof fn lemma_cluster_count_finds_galaxies(rolls: Seq<u8>)
    requires
        are_cluster_rolls(rolls),
    ensures
        cluster_galaxies(rolls) + cluster_dominants(rolls) >= 2,
        byte_count(cluster_galaxies(rolls)) > 0 || byte_count(cluster_dominants(rolls)) > 0,
{
    lemma_cluster_sums(rolls);
    if cluster_galaxies(rolls) == 0 {
        assert(rolls[1] == 1);
        if rolls.len() >= 3 {
            assert(rolls[2 - 1] == 10);
        }
        assert(rolls.len() == 2);
    }
}

/// The counts of a cluster are never negative, every roll adds at least one galaxy, and when no
/// major galaxy is counted every roll was a 1.
proof fn lemma_cluster_sums(rolls: Seq<u8>)
    requires
        forall|i: int| 0 <= i < rolls.len() ==> 1 <= #[trigger] rolls[i] <= 10,
    ensures
        cluster_galaxies(rolls) >= 0,
        0 <= cluster_dominants(rolls) <= rolls.len(),
        cluster_galaxies(rolls) + cluster_dominants(rolls) >= rolls.len(),
        cluster_galaxies(rolls) == 0 ==> forall|i: int| 0 <= i < rolls.len() ==> #[trigger] rolls[i] == 1,
    decreases rolls.len(),
{
    if rolls.len() > 0 {
        let rest = rolls.drop_last();
        assert forall|i: int| 0 <= i < rest.len() implies 1 <= #[trigger] rest[i] <= 10 by {
            assert(rest[i] == rolls[i]);
        }
        lemma_cluster_sums(rest);
        if cluster_galaxies(rolls) == 0 {
            assert forall|i: int| 0 <= i < rolls.len() implies #[trigger] rolls[i] == 1 by {
                if i < rolls.len() - 1 {
                    assert(rest[i] == rolls[i]);
                }
            }
        }
    }
}

/// Whether `density` is a possible outcome of generating the density of a neighborhood in a
/// universe of the given era with no fixed density: a void, a group or a cluster whose galaxy
/// counts are those the era's dice can give.
pub open spec fn is_possible_density(era: StelliferousEra, density: GalacticNeighborhoodDensity) -> bool {
    let end = era == StelliferousEra::EndStelliferous;
    let late = era == StelliferousEra::LateStelliferous;
    match density {
        GalacticNeighborhoodDensity::Void(major, minor) => {
            &&& (end || late) ==> 1 <= major <= 2
            &&& !(end || late) ==> major <= 3
            &&& end ==> minor == 0
            &&& late ==> 1 <= minor <= 5
            &&& !(end || late) ==> 5 <= minor <= 20
        },
        GalacticNeighborhoodDensity::Group(major, minor) => {
            &&& end ==> 1 <= major <= 2 && minor == 0
            &&& late ==> 1 <= major <= 3 && 4 <= minor <= 25
            &&& !(end || late) ==> 1 <= major <= 5 && 10 <= minor <= 79
        },
        GalacticNeighborhoodDensity::Cluster(dominant, major, minor) => exists|rolls: Seq<u8>|
            {
                &&& are_cluster_rolls(rolls)
                &&& end ==> dominant == 1 && 1 <= major <= 2 && minor == 0
                &&& late ==> {
                    &&& dominant == (if byte_count(cluster_dominants(rolls)) > 1 {
                        byte_count(cluster_dominants(rolls))
                    } else {
                        1
                    })
                    &&& major == (if byte_count(cluster_galaxies(rolls)) / 2 > 1 {
                        byte_count(cluster_galaxies(rolls)) / 2
                    } else {
                        1
                    })
                    &&& 1 <= minor <= 200
                }
                &&& !(end || late) ==> {
                    &&& dominant == byte_count(cluster_dominants(rolls))
                    &&& major == byte_count(cluster_galaxies(rolls))
                    &&& 51 <= minor <= 1000
                }
            },
    }
}

fn roll_byte(rng: &mut seeded_dice_roller::SeededDiceRoller, faces: u32, modifier: i32) -> (r: u8)
    requires
        1 <= faces <= 250,
        0 <= modifier <= 5 || modifier == -1,
    ensures
        1 + modifier <= r <= faces + modifier,
{
    roll_dice(rng, 1, faces, modifier) as u8
}

fn roll_count(rng: &mut seeded_dice_roller::SeededDiceRoller, faces: u32, modifier: i32) -> (r: u16)
    requires
        1 <= faces <= 1000,
        0 <= modifier <= 50,
    ensures
        1 + modifier <= r <= faces + modifier,
{
    roll_dice(rng, 1, faces, modifier) as u16
}

impl GalacticNeighborhood {
    /// Generates a brand new [GalacticNeighborhood] in the given universe using the given seed and
    /// settings: the fixed density when there is one, ours (a group of 2 major and 36 minor
    /// galaxies) when asked, and otherwise a void, group or cluster drawn with the step
    /// `gal_den`, whose galaxy counts depend on the era; which one comes out depends on the seed
    /// and is not stated. A cluster always holds a dominant or a major galaxy. The counts of a
    /// cluster's rolls are kept in bytes that stop at 255.
    pub fn generate(universe: Universe, seed: &str, settings: &GalaxySettings) -> (r: Self)
        ensures
            r.universe == universe,
            match settings.fixed_neighborhood {
                Some(fixed) => r.density == fixed,
                None => if settings.use_ours {
                    r.density == GalacticNeighborhoodDensity::Group(2, 36)
                } else {
                    &&& is_possible_density(universe.era, r.density)
                    &&& r.density matches GalacticNeighborhoodDensity::Cluster(d, g, _) ==> d > 0 || g > 0
                },
            },
    {
        let density;
        if let Some(fixed_neighborhood) = settings.fixed_neighborhood {
            density = fixed_neighborhood;
        } else if settings.use_ours {
            density = GalacticNeighborhoodDensity::Group(2, 36);
        } else {
            let end = universe.era == StelliferousEra::EndStelliferous;
            let late = universe.era == StelliferousEra::LateStelliferous;
            let mut rng = new_roller(seed, "gal_den");
            let is_group = roll_dice(&mut rng, 1, 4, 0) != 4;
            if is_group {
                let galaxies = roll_byte(&mut rng, 6, -1);
                if galaxies == 0 {
                    let major = if end || late {
                        roll_byte(&mut rng, 2, 0)
                    } else {
                        roll_byte(&mut rng, 4, -1)
                    };
                    let minor = if end {
                        0
                    } else if late {
                        roll_count(&mut rng, 5, 0)
                    } else {
                        roll_count(&mut rng, 16, 4)
                    };
                    density = GalacticNeighborhoodDensity::Void(major, minor);
                } else {
                    let major = if end {
                        roll_byte(&mut rng, 2, 0)
                    } else if late {
                        roll_byte(&mut rng, 3, 0)
                    } else {
                        galaxies
                    };
                    let minor = if end {
                        0
                    } else if late {
                        roll_count(&mut rng, 22, 3)
                    } else {
                        roll_count(&mut rng, 70, 9)
                    };
                    density = GalacticNeighborhoodDensity::Group(major, minor);
                }
            } else {
                let mut galaxies: u8 = 0;
                let mut dominant: u8 = 0;
                let mut roll: u8 = 0;
                let mut turn: u64 = 0;
                let ghost mut rolls: Seq<u8> = Seq::empty();
                while (roll == 10 || turn < 2) && turn < u64::MAX
                    invariant
                        turn == rolls.len(),
                        galaxies == byte_count(cluster_galaxies(rolls)),
                        dominant == byte_count(cluster_dominants(rolls)),
                        forall|i: int| 0 <= i < rolls.len() ==> 1 <= #[trigger] rolls[i] <= 10,
                        forall|i: int| 2 <= i < rolls.len() ==> #[trigger] rolls[i - 1] == 10,
                        turn > 0 ==> roll == rolls.last(),
                        turn == 0 ==> roll == 0,
                    decreases u64::MAX - turn,
                {
                    roll = roll_byte(&mut rng, 10, 0);
                    proof {
                        lemma_cluster_sums(rolls);
                    }
                    galaxies = galaxies.saturating_add(if roll == 1 { 0 } else { roll });
                    dominant = dominant.saturating_add(if roll == 1 { 1 } else { 0 });
                    proof {
                        let next = rolls.push(roll);
                        assert(next.drop_last() == rolls);
                        lemma_cluster_sums(rolls);
                        rolls = next;
                    }
                    turn = turn + 1;
                }
                let dominant_count = if end {
                    1
                } else if late {
                    if dominant > 1 { dominant } else { 1 }
                } else {
                    dominant
                };
                let major_count = if end {
                    roll_byte(&mut rng, 2, 0)
                } else if late {
                    if galaxies / 2 > 1 { galaxies / 2 } else { 1 }
                } else {
                    galaxies
                };
                let minor_count = if end {
                    0
                } else if late {
                    roll_count(&mut rng, 200, 0)
                } else {
                    roll_count(&mut rng, 950, 50)
                };
                density = GalacticNeighborhoodDensity::Cluster(dominant_count, major_count, minor_count);
                assert(are_cluster_rolls(rolls));
                proof {
                    lemma_cluster_count_finds_galaxies(rolls);
                }
            }
        }
        GalacticNeighborhood { universe, density }
    }
}

/// How many galaxies a neighborhood of the given density holds: its dominant, major and minor
/// galaxies.
pub open spec fn galaxy_count(density: GalacticNeighborhoodDensity) -> int {
    match density {
        GalacticNeighborhoodDensity::Void(g, m) | GalacticNeighborhoodDensity::Group(g, m) => g + m,
        GalacticNeighborhoodDensity::Cluster(d, g, m) => d + g + m,
    }
}

/// Returns how many galaxies a neighborhood of the given density holds: its dominant, major and
/// minor galaxies. The count is made in 16 bits, so it must fit there.
pub fn galaxies_to_generate(density: GalacticNeighborhoodDensity) -> (r: u16)
    requires
        galaxy_count(density) <= u16::MAX,
    ensures
        r == galaxy_count(density),
{
    match density {
        GalacticNeighborhoodDensity::Void(g, m) | GalacticNeighborhoodDensity::Group(g, m) => (g as u16) + m,
        GalacticNeighborhoodDensity::Cluster(d, g, m) => (d as u16) + (g as u16) + m,
    }
}

} // verus!
