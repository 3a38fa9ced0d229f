use vstd::prelude::*;
use crate::dice::{WeightedChoice, new_roller, roll_dice, is_weighted_pick, total_weight};
use crate::galaxy_types::{
    GalacticNeighborhood, GalacticNeighborhoodDensity, GalaxyCategory, GalaxySettings,
    GalaxySubCategory, StelliferousEra,
};
use crate::text::numbered_step;
use crate::trait_table::{pick_one, is_dwarf};

verus! {

/// Is the galaxy to be generated a dominant one in its local cluster? Only the first galaxies
/// of a cluster, as many as it has dominant ones, are.
pub fn is_galaxy_dominant(neighborhood: GalacticNeighborhood, index: u16) -> (r: bool)
    ensures
        r == (neighborhood.density matches GalacticNeighborhoodDensity::Cluster(d, _, _) && index < d),
{
    match neighborhood.density {
        GalacticNeighborhoodDensity::Void(_, _) => false,
        GalacticNeighborhoodDensity::Group(_, _) => false,
        GalacticNeighborhoodDensity::Cluster(dominant, _, _) => index < dominant as u16,
    }
}

/// The number of galaxies of a neighborhood that are major ones, dominant ones included.
pub open spec fn major_count(d: GalacticNeighborhoodDensity) -> int {
    match d {
        GalacticNeighborhoodDensity::Void(g, _) => g as int,
        GalacticNeighborhoodDensity::Group(g, _) => g as int,
        GalacticNeighborhoodDensity::Cluster(dominant, g, _) => dominant + g,
    }
}

/// Is the galaxy to be generated a major one in its local neighborhood? The first galaxies of a
/// neighborhood, as many as it has major (and dominant) ones, are. The dominant and major counts
/// of a cluster are added as 8-bit numbers, so they must not exceed 255 together.
pub fn is_galaxy_major(neighborhood: GalacticNeighborhood, index: u16) -> (r: bool)
    requires
        major_count(neighborhood.density) <= u8::MAX,
    ensures
        r == (index < major_count(neighborhood.density)),
{
    match neighborhood.density {
        GalacticNeighborhoodDensity::Void(galaxies, _) => index < galaxies as u16,
        GalacticNeighborhoodDensity::Group(galaxies, _) => index < galaxies as u16,
        GalacticNeighborhoodDensity::Cluster(dominant, galaxies, _) => index < (dominant + galaxies) as u16,
    }
}

/// Retrieves an age to use in galaxy generation from the given settings, in hundredths of a
/// billion years, or minus one billion years when there is none.
pub fn get_fixed_age(settings: &GalaxySettings) -> (r: i64)
    ensures
        r == match settings.fixed_age {
            Some(a) => a as int,
            None => -100int,
        },
{
    match settings.fixed_age {
        Some(age) => age,
        None => -100,
    }
}

/// Generates the age of a galaxy, in hundredths of a billion years: the fixed age of the settings
/// when it is older than the universe, otherwise the universe's age minus 0.25 to 0.60 billion
/// years (0.20 to 0.35 in the ancient era).
pub fn generate_age(neighborhood: GalacticNeighborhood, index: u16, seed: &str, settings: &GalaxySettings) -> (r: i64)
    requires
        neighborhood.universe.age >= i64::MIN + 60,
    ensures
        ({
            let fixed = match settings.fixed_age {
                Some(a) => a as int,
                None => -100int,
            };
            let u = neighborhood.universe.age;
            if fixed > u {
                r == fixed
            } else if neighborhood.universe.era != StelliferousEra::AncientStelliferous {
                u - 60 <= r <= u - 25
            } else {
                u - 35 <= r <= u - 20
            }
        }),
{
    let mut age_rng = new_roller(seed, numbered_step("gal_", index as u64, "_age").as_str());
    let fixed_age = get_fixed_age(settings);
    if fixed_age > neighborhood.universe.age {
        fixed_age
    } else {
        neighborhood.universe.age - if neighborhood.universe.era != StelliferousEra::AncientStelliferous {
            roll_dice(&mut age_rng, 1, 36, 24)
        } else {
            roll_dice(&mut age_rng, 1, 16, 19)
        }
    }
}

/// The categories a galaxy may be given, with their weights, depending on its neighborhood's
/// density, its age in hundredths of a billion years and whether it is a major galaxy. A dominant
/// galaxy of a cluster is always a dominant elliptical and is not drawn from this list.
pub open spec fn category_choices(d: GalacticNeighborhoodDensity, age: i64, is_major: bool) -> Seq<WeightedChoice<GalaxyCategory>> {
    match d {
        GalacticNeighborhoodDensity::Void(..) => if is_major {
            seq![
                WeightedChoice { result: GalaxyCategory::Intergalactic(0, 0, 0), weight: 1u32 },
                WeightedChoice { result: GalaxyCategory::Irregular(0, 0, 0), weight: if age < 100 { 13u32 } else if age < 500 { 4 } else { 1 } },
                WeightedChoice { result: GalaxyCategory::Spiral(0, 0), weight: if age < 5000 { 8u32 } else { 3 } },
                WeightedChoice { result: GalaxyCategory::Lenticular(0, 0), weight: if age < 5000 { 4u32 } else { 7 } },
                WeightedChoice { result: GalaxyCategory::Elliptical(0), weight: if age < 5000 { 1u32 } else if age < 75000 { 4 } else { 12 } },
            ]
        } else {
            seq![
                WeightedChoice { result: GalaxyCategory::Intergalactic(0, 0, 0), weight: 1u32 },
                WeightedChoice { result: GalaxyCategory::Irregular(0, 0, 0), weight: 6u32 },
            ]
        },
        GalacticNeighborhoodDensity::Group(..) => if is_major {
            seq![
                WeightedChoice { result: GalaxyCategory::Intergalactic(0, 0, 0), weight: if age < 500 { 3u32 } else { 1 } },
                WeightedChoice { result: GalaxyCategory::Irregular(0, 0, 0), weight: if age < 100 { 13u32 } else if age < 500 { 5 } else { 2 } },
                WeightedChoice { result: GalaxyCategory::Spiral(0, 0), weight: if age < 5000 { 9u32 } else { 3 } },
                WeightedChoice { result: GalaxyCategory::Lenticular(0, 0), weight: if age < 5000 { 5u32 } else { 8 } },
                WeightedChoice { result: GalaxyCategory::Elliptical(0), weight: if age < 500 { 1u32 } else if age < 5000 { 3 } else if age < 75000 { 9 } else { 12 } },
            ]
        } else {
            seq![
                WeightedChoice { result: GalaxyCategory::Intergalactic(0, 0, 0), weight: 1u32 },
                WeightedChoice { result: GalaxyCategory::Irregular(0, 0, 0), weight: 11u32 },
            ]
        },
        GalacticNeighborhoodDensity::Cluster(..) => if is_major {
            seq![
                WeightedChoice { result: GalaxyCategory::Intracluster(0, 0, 0), weight: 2u32 },
                WeightedChoice { result: GalaxyCategory::Irregular(0, 0, 0), weight: if age < 100 { 20u32 } else if age < 500 { 5 } else { 2 } },
                WeightedChoice { result: GalaxyCategory::Spiral(0, 0), weight: if age < 5000 { 4u32 } else { 2 } },
                WeightedChoice { result: GalaxyCategory::Lenticular(0, 0), weight: if age < 500 { 5u32 } else { 11 } },
                WeightedChoice { result: GalaxyCategory::Elliptical(0), weight: if age < 500 { 1u32 } else if age < 5000 { 4 } else if age < 75000 { 10 } else { 18 } },
            ]
        } else {
            seq![
                WeightedChoice { result: GalaxyCategory::Intracluster(0, 0, 0), weight: 1u32 },
                WeightedChoice { result: GalaxyCategory::Irregular(0, 0, 0), weight: 6u32 },
            ]
        },
    }
}

fn category_choice_list(density: GalacticNeighborhoodDensity, age: i64, is_major: bool) -> (r: Vec<WeightedChoice<GalaxyCategory>>)
    ensures
        r@ == category_choices(density, age, is_major),
{
    let r = match density {
        GalacticNeighborhoodDensity::Void(..) => if is_major {
            vec![
                WeightedChoice::new(GalaxyCategory::Intergalactic(0, 0, 0), 1),
                WeightedChoice::new(GalaxyCategory::Irregular(0, 0, 0), if age < 100 { 13 } else if age < 500 { 4 } else { 1 }),
                WeightedChoice::new(GalaxyCategory::Spiral(0, 0), if age < 5000 { 8 } else { 3 }),
                WeightedChoice::new(GalaxyCategory::Lenticular(0, 0), if age < 5000 { 4 } else { 7 }),
                WeightedChoice::new(GalaxyCategory::Elliptical(0), if age < 5000 { 1 } else if age < 75000 { 4 } else { 12 }),
            ]
        } else {
            vec![
                WeightedChoice::new(GalaxyCategory::Intergalactic(0, 0, 0), 1),
                WeightedChoice::new(GalaxyCategory::Irregular(0, 0, 0), 6),
            ]
        },
        GalacticNeighborhoodDensity::Group(..) => if is_major {
            vec![
                WeightedChoice::new(GalaxyCategory::Intergalactic(0, 0, 0), if age < 500 { 3 } else { 1 }),
                WeightedChoice::new(GalaxyCategory::Irregular(0, 0, 0), if age < 100 { 13 } else if age < 500 { 5 } else { 2 }),
                WeightedChoice::new(GalaxyCategory::Spiral(0, 0), if age < 5000 { 9 } else { 3 }),
                WeightedChoice::new(GalaxyCategory::Lenticular(0, 0), if age < 5000 { 5 } else { 8 }),
                WeightedChoice::new(GalaxyCategory::Elliptical(0), if age < 500 { 1 } else if age < 5000 { 3 } else if age < 75000 { 9 } else { 12 }),
            ]
        } else {
            vec![
                WeightedChoice::new(GalaxyCategory::Intergalactic(0, 0, 0), 1),
                WeightedChoice::new(GalaxyCategory::Irregular(0, 0, 0), 11),
            ]
        },
        GalacticNeighborhoodDensity::Cluster(..) => if is_major {
            vec![
                WeightedChoice::new(GalaxyCategory::Intracluster(0, 0, 0), 2),
                WeightedChoice::new(GalaxyCategory::Irregular(0, 0, 0), if age < 100 { 20 } else if age < 500 { 5 } else { 2 }),
                WeightedChoice::new(GalaxyCategory::Spiral(0, 0), if age < 5000 { 4 } else { 2 }),
                WeightedChoice::new(GalaxyCategory::Lenticular(0, 0), if age < 500 { 5 } else { 11 }),
                WeightedChoice::new(GalaxyCategory::Elliptical(0), if age < 500 { 1 } else if age < 5000 { 4 } else if age < 75000 { 10 } else { 18 }),
            ]
        } else {
            vec![
                WeightedChoice::new(GalaxyCategory::Intracluster(0, 0, 0), 1),
                WeightedChoice::new(GalaxyCategory::Irregular(0, 0, 0), 6),
            ]
        },
    };
    assert(r@ =~= category_choices(density, age, is_major));
    r
}

/// Generates the category of a galaxy, without its dimensions: the fixed one of the settings if
/// any, a dominant elliptical for the dominant galaxies of a cluster, and otherwise one drawn
/// from the categories the neighborhood, the age (in hundredths of a billion years) and the
/// galaxy's importance allow.
pub fn generate_category(
    neighborhood: GalacticNeighborhood,
    index: u16,
    age: i64,
    is_dominant: bool,
    is_major: bool,
    seed: &str,
    settings: &GalaxySettings,
) -> (r: GalaxyCategory)
    ensures
        match settings.fixed_category {
            Some(fixed) => r == fixed,
            None => if is_dominant && neighborhood.density is Cluster {
                r == GalaxyCategory::DominantElliptical(0)
            } else {
                is_weighted_pick(category_choices(neighborhood.density, age, is_major), r)
            },
        },
{
    let mut rng = new_roller(seed, numbered_step("gal_", index as u64, "_cat").as_str());
    match settings.fixed_category {
        Some(fixed_category) => fixed_category,
        None => {
            if is_dominant && matches!(neighborhood.density, GalacticNeighborhoodDensity::Cluster(..)) {
                GalaxyCategory::DominantElliptical(0)
            } else {
                let choices = category_choice_list(neighborhood.density, age, is_major);
                proof {
                    reveal_with_fuel(total_weight, 6);
                }
                pick_one(&mut rng, &choices)
            }
        },
    }
}

/// The sub-categories a galaxy of the given category may be drawn, with their weights, depending
/// on its age in hundredths of a billion years and whether it is a major galaxy. An empty list
/// means the sub-category is not drawn.
pub open spec fn sub_category_choices(c: GalaxyCategory, age: i64, is_major: bool) -> Seq<WeightedChoice<GalaxySubCategory>> {
    match c {
        GalaxyCategory::Intergalactic(..) | GalaxyCategory::Intracluster(..) | GalaxyCategory::Irregular(..) => if is_major {
            seq![]
        } else {
            seq![
                WeightedChoice { result: GalaxySubCategory::DwarfAmorphous, weight: if age < 500 { 10u32 } else { 4 } },
                WeightedChoice { result: GalaxySubCategory::DwarfSpiral, weight: if age < 500 { 1u32 } else if age < 5000 { 4 } else { 2 } },
                WeightedChoice { result: GalaxySubCategory::DwarfLenticular, weight: if age < 500 { 1u32 } else if age < 5000 { 2 } else { 4 } },
                WeightedChoice { result: GalaxySubCategory::DwarfElliptical, weight: if age < 500 { 1u32 } else if age < 5000 { 2 } else { 6 } },
            ]
        },
        GalaxyCategory::Spiral(..) => if is_major {
            seq![
                WeightedChoice { result: GalaxySubCategory::FlatSpiral, weight: 2u32 },
                WeightedChoice { result: GalaxySubCategory::BarredSpiral, weight: if age > 500 && age < 5000 { 7u32 } else { 3 } },
                WeightedChoice { result: GalaxySubCategory::ClassicSpiral, weight: 3u32 },
            ]
        } else {
            seq![]
        },
        GalaxyCategory::Lenticular(..) => if is_major {
            seq![
                WeightedChoice { result: GalaxySubCategory::CommonLenticular, weight: 7u32 },
                WeightedChoice { result: GalaxySubCategory::GiantLenticular, weight: if age < 50000 { 3u32 } else { 10 } },
            ]
        } else {
            seq![]
        },
        GalaxyCategory::Elliptical(..) => if is_major {
            seq![
                WeightedChoice { result: GalaxySubCategory::CommonElliptical, weight: 5u32 },
                WeightedChoice { result: GalaxySubCategory::GiantElliptical, weight: if age < 50000 { 3u32 } else { 8 } },
            ]
        } else {
            seq![]
        },
        GalaxyCategory::DominantElliptical(..) => seq![
            WeightedChoice { result: GalaxySubCategory::CommonElliptical, weight: if age < 5000 { 6u32 } else { 3 } },
            WeightedChoice { result: GalaxySubCategory::GiantElliptical, weight: if age < 5000 { 3u32 } else if age < 50000 { 8 } else { 12 } },
        ],
    }
}

/// The sub-category a galaxy of the given category has without a draw, when its list of
/// sub-categories to draw from is empty.
pub open spec fn undrawn_sub_category(c: GalaxyCategory) -> GalaxySubCategory {
    match c {
        GalaxyCategory::Spiral(..) => GalaxySubCategory::DwarfSpiral,
        GalaxyCategory::Lenticular(..) => GalaxySubCategory::DwarfLenticular,
        GalaxyCategory::Elliptical(..) => GalaxySubCategory::DwarfElliptical,
        _ => GalaxySubCategory::Amorphous,
    }
}

fn sub_category_choice_list(category: GalaxyCategory, age: i64, is_major: bool) -> (r: Vec<WeightedChoice<GalaxySubCategory>>)
    ensures
        r@ == sub_category_choices(category, age, is_major),
{
    let r = match category {
        GalaxyCategory::Intergalactic(..) | GalaxyCategory::Intracluster(..) | GalaxyCategory::Irregular(..) => if is_major {
            vec![]
        } else {
            vec![
                WeightedChoice::new(GalaxySubCategory::DwarfAmorphous, if age < 500 { 10 } else { 4 }),
                WeightedChoice::new(GalaxySubCategory::DwarfSpiral, if age < 500 { 1 } else if age < 5000 { 4 } else { 2 }),
                WeightedChoice::new(GalaxySubCategory::DwarfLenticular, if age < 500 { 1 } else if age < 5000 { 2 } else { 4 }),
                WeightedChoice::new(GalaxySubCategory::DwarfElliptical, if age < 500 { 1 } else if age < 5000 { 2 } else { 6 }),
            ]
        },
        GalaxyCategory::Spiral(..) => if is_major {
            vec![
                WeightedChoice::new(GalaxySubCategory::FlatSpiral, 2),
                WeightedChoice::new(GalaxySubCategory::BarredSpiral, if age > 500 && age < 5000 { 7 } else { 3 }),
                WeightedChoice::new(GalaxySubCategory::ClassicSpiral, 3),
            ]
        } else {
            vec![]
        },
        GalaxyCategory::Lenticular(..) => if is_major {
            vec![
                WeightedChoice::new(GalaxySubCategory::CommonLenticular, 7),
                WeightedChoice::new(GalaxySubCategory::GiantLenticular, if age < 50000 { 3 } else { 10 }),
            ]
        } else {
            vec![]
        },
        GalaxyCategory::Elliptical(..) => if is_major {
            vec![
                WeightedChoice::new(GalaxySubCategory::CommonElliptical, 5),
                WeightedChoice::new(GalaxySubCategory::GiantElliptical, if age < 50000 { 3 } else { 8 }),
            ]
        } else {
            vec![]
        },
        GalaxyCategory::DominantElliptical(..) => vec![
            WeightedChoice::new(GalaxySubCategory::CommonElliptical, if age < 5000 { 6 } else { 3 }),
            WeightedChoice::new(GalaxySubCategory::GiantElliptical, if age < 5000 { 3 } else if age < 50000 { 8 } else { 12 }),
        ],
    };
    assert(r@ =~= sub_category_choices(category, age, is_major));
    r
}

/// Without a fixed sub-category, a galaxy's sub-category follows its importance and its category:
/// a major galaxy is never a dwarf, a major intergalactic, irregular or intracluster galaxy is
/// amorphous, a minor galaxy of any category but dominant elliptical is a dwarf, and spiral,
/// lenticular and elliptical galaxies keep to sub-categories of their own kind.
pub proof fn lemma_sub_category_follows_importance(
    c: GalaxyCategory,
    age: i64,
    is_major: bool,
    s: GalaxySubCategory,
)
    requires
        if sub_category_choices(c, age, is_major).len() == 0 {
            s == undrawn_sub_category(c)
        } else {
            is_weighted_pick(sub_category_choices(c, age, is_major), s)
        },
    ensures
        is_major ==> !is_dwarf(s),
        is_major && (c is Intergalactic || c is Irregular || c is Intracluster) ==> s
            == GalaxySubCategory::Amorphous,
        !is_major && !(c is DominantElliptical) ==> is_dwarf(s),
        c is Spiral ==> (s is DwarfSpiral || s is FlatSpiral || s is BarredSpiral || s is ClassicSpiral),
        c is Lenticular ==> (s is DwarfLenticular || s is CommonLenticular || s is GiantLenticular),
        c is Elliptical || c is DominantElliptical ==> (s is DwarfElliptical || s is CommonElliptical
            || s is GiantElliptical),
        c is DominantElliptical ==> (s is CommonElliptical || s is GiantElliptical),
{
    let ws = sub_category_choices(c, age, is_major);
    if ws.len() > 0 {
        let i = choose|i: int| 0 <= i < ws.len() && ws[i].weight > 0 && #[trigger] ws[i].result == s;
        if ws.len() == 4 {
            assert(i == 0 || i == 1 || i == 2 || i == 3);
        } else if ws.len() == 3 {
            assert(i == 0 || i == 1 || i == 2);
        } else {
            assert(i == 0 || i == 1);
        }
    }
}

/// Every sub-category of a galaxy's list of draws can come out: a major spiral may be flat, barred
/// or classic, a major lenticular common or giant, a major or dominant elliptical common or giant,
/// and a minor intergalactic, irregular or intracluster galaxy any of the four dwarfs; the other
/// galaxies draw nothing.
pub proof fn lemma_sub_category_choices_can_all_come_out(c: GalaxyCategory, age: i64, is_major: bool)
    ensures
        ({
            let ws = sub_category_choices(c, age, is_major);
            let three_dim = c is Intergalactic || c is Irregular || c is Intracluster;
            &&& forall|i: int| 0 <= i < ws.len() ==> #[trigger] ws[i].weight > 0
            &&& is_major && c is Spiral ==> {
                &&& is_weighted_pick(ws, GalaxySubCategory::FlatSpiral)
                &&& is_weighted_pick(ws, GalaxySubCategory::BarredSpiral)
                &&& is_weighted_pick(ws, GalaxySubCategory::ClassicSpiral)
            }
            &&& is_major && c is Lenticular ==> {
                &&& is_weighted_pick(ws, GalaxySubCategory::CommonLenticular)
                &&& is_weighted_pick(ws, GalaxySubCategory::GiantLenticular)
            }
            &&& (is_major && c is Elliptical) || c is DominantElliptical ==> {
                &&& is_weighted_pick(ws, GalaxySubCategory::CommonElliptical)
                &&& is_weighted_pick(ws, GalaxySubCategory::GiantElliptical)
            }
            &&& !is_major && three_dim ==> {
                &&& is_weighted_pick(ws, GalaxySubCategory::DwarfAmorphous)
                &&& is_weighted_pick(ws, GalaxySubCategory::DwarfSpiral)
                &&& is_weighted_pick(ws, GalaxySubCategory::DwarfLenticular)
                &&& is_weighted_pick(ws, GalaxySubCategory::DwarfElliptical)
            }
            &&& (is_major && three_dim) || (!is_major && !three_dim && !(c is DominantElliptical)) ==> ws.len() == 0
        }),
{
    let ws = sub_category_choices(c, age, is_major);
    if ws.len() >= 2 {
        assert(ws[0].weight > 0 && ws[1].weight > 0);
        assert(is_weighted_pick(ws, ws[0].result));
        assert(is_weighted_pick(ws, ws[1].result));
    }
    if ws.len() >= 3 {
        assert(ws[2].weight > 0);
        assert(is_weighted_pick(ws, ws[2].result));
    }
    if ws.len() >= 4 {
        assert(ws[3].weight > 0);
        assert(is_weighted_pick(ws, ws[3].result));
    }
}

/// Generates the sub-category of a galaxy: the fixed one of the settings if any; otherwise the
/// major three-dimension galaxies are amorphous, the minor spiral, lenticular and elliptical ones
/// are dwarfs of their kind, and the others are drawn according to their age (in hundredths of a
/// billion years).
pub fn generate_sub_category(
    category: GalaxyCategory,
    index: u16,
    age: i64,
    is_major: bool,
    seed: &str,
    settings: &GalaxySettings,
) -> (r: GalaxySubCategory)
    ensures
        match settings.fixed_sub_category {
            Some(fixed) => r == fixed,
            None => if sub_category_choices(category, age, is_major).len() == 0 {
                r == undrawn_sub_category(category)
            } else {
                is_weighted_pick(sub_category_choices(category, age, is_major), r)
            },
        },
        settings.fixed_sub_category is None ==> {
            &&& is_major ==> !is_dwarf(r)
            &&& is_major && (category is Intergalactic || category is Irregular || category is Intracluster)
                ==> r == GalaxySubCategory::Amorphous
            &&& !is_major && !(category is DominantElliptical) ==> is_dwarf(r)
        },
{
    let mut rng = new_roller(seed, numbered_step("gal_", index as u64, "_sbc").as_str());
    match settings.fixed_sub_category {
        Some(fixed_sub_category) => fixed_sub_category,
        None => {
            let choices = sub_category_choice_list(category, age, is_major);
            if choices.len() == 0 {
                match category {
                    GalaxyCategory::Spiral(..) => GalaxySubCategory::DwarfSpiral,
                    GalaxyCategory::Lenticular(..) => GalaxySubCategory::DwarfLenticular,
                    GalaxyCategory::Elliptical(..) => GalaxySubCategory::DwarfElliptical,
                    _ => GalaxySubCategory::Amorphous,
                }
            } else {
                proof {
                    reveal_with_fuel(total_weight, 5);
                }
                let r = pick_one(&mut rng, &choices);
                proof {
                    lemma_sub_category_follows_importance(category, age, is_major, r);
                }
                r
            }
        },
    }
}

} // verus!
