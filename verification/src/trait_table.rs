use vstd::prelude::*;
use crate::dice::{WeightedChoice, new_roller, pick_weighted, is_weighted_pick, valid_weights, total_weight, lemma_total_weight_bound};
use seeded_dice_roller::SeededDiceRoller;
use crate::galaxy_types::{
    GalacticNeighborhood, GalacticNeighborhoodDensity, GalaxyCategory, GalaxySatellites,
    GalaxySpecialTrait, GalaxySubCategory, category_kind, density_kind,
};
use crate::text::numbered_step;

verus! {

/// Whether a sub-category is one of the dwarf ones.
pub open spec fn is_dwarf(s: GalaxySubCategory) -> bool {
    s == GalaxySubCategory::DwarfAmorphous || s == GalaxySubCategory::DwarfElliptical
        || s == GalaxySubCategory::DwarfLenticular || s == GalaxySubCategory::DwarfSpiral
}

/// The list of every special trait a galaxy might be given, with the weight each one has for a
/// galaxy of the given neighborhood density, category and sub-category. The traits that carry a
/// value carry the given ones.
pub open spec fn full_trait_list(
    d: GalacticNeighborhoodDensity,
    c: GalaxyCategory,
    s: GalaxySubCategory,
    compact: u8,
    expansive: u8,
    satellites: GalaxySatellites,
    sub_size: u8,
    super_size: u16,
) -> Seq<WeightedChoice<GalaxySpecialTrait>> {
    let dominant = category_kind(c) == 6;
    let elliptical = category_kind(c) == 4;
    let lenticular = category_kind(c) == 3;
    let spiral = category_kind(c) == 2;
    let irregular = category_kind(c) == 1;
    let intergalactic = category_kind(c) == 0;
    let intracluster = category_kind(c) == 5;
    let dwarf = is_dwarf(s);
    seq![
        WeightedChoice { result: GalaxySpecialTrait::NoPeculiarity, weight: if dominant { 1 } else { 4 } },
        WeightedChoice { result: GalaxySpecialTrait::ActiveNucleus, weight: if elliptical || dominant { 10 } else { 5 } },
        WeightedChoice { result: GalaxySpecialTrait::DoubleNuclei, weight: 1 },
        WeightedChoice { result: GalaxySpecialTrait::Compact(compact), weight: if dwarf { 20 } else if dominant { 3 } else { 5 } },
        WeightedChoice { result: GalaxySpecialTrait::Dusty, weight: if dwarf { 2 } else if lenticular || spiral { 20 } else { 5 } },
        WeightedChoice { result: GalaxySpecialTrait::Expansive(expansive), weight: if dwarf { 2 } else if dominant { 7 } else { 5 } },
        WeightedChoice { result: GalaxySpecialTrait::ExtendedHalo, weight: if density_kind(d) == 2 || lenticular || spiral { 10 } else { 5 } },
        WeightedChoice { result: GalaxySpecialTrait::GasPoor, weight: if lenticular { 10 } else if elliptical { 15 } else if dominant { 3 } else { 5 } },
        WeightedChoice { result: GalaxySpecialTrait::GasRich, weight: if irregular { 20 } else if dwarf { 10 } else if dominant { 2 } else { 5 } },
        WeightedChoice { result: GalaxySpecialTrait::Interacting, weight: if dominant { 7 } else if dwarf || s == GalaxySubCategory::GiantLenticular || s == GalaxySubCategory::GiantElliptical || irregular { 10 } else { 5 } },
        WeightedChoice { result: GalaxySpecialTrait::MetalPoor, weight: if dwarf { 20 } else if dominant { 3 } else { 5 } },
        WeightedChoice { result: GalaxySpecialTrait::Older, weight: if irregular || intergalactic || intracluster || dwarf { 20 } else { 10 } },
        WeightedChoice { result: GalaxySpecialTrait::Satellites(satellites), weight: if spiral && s != GalaxySubCategory::DwarfSpiral { 10 } else if elliptical && s != GalaxySubCategory::GiantElliptical { 8 } else if dominant { 10 } else { 23 } },
        WeightedChoice { result: GalaxySpecialTrait::Starburst, weight: if s == GalaxySubCategory::Amorphous { 20 } else if spiral || dwarf { 5 } else { 2 } },
        WeightedChoice { result: GalaxySpecialTrait::SubSize(sub_size), weight: if dwarf { 10 } else { 5 } },
        WeightedChoice { result: GalaxySpecialTrait::SuperSize(super_size), weight: if dominant { 25 } else if s == GalaxySubCategory::DwarfAmorphous || s == GalaxySubCategory::Amorphous { 2 } else { 5 } },
        WeightedChoice { result: GalaxySpecialTrait::Younger, weight: 2 },
        WeightedChoice { result: GalaxySpecialTrait::Dead, weight: 1 },
        WeightedChoice { result: GalaxySpecialTrait::Dormant, weight: if density_kind(d) == 2 { 3 } else if density_kind(d) == 1 { 2 } else { 1 } },
        WeightedChoice { result: GalaxySpecialTrait::Tail, weight: if dwarf { 3 } else { 1 } },
    ]
}

/// The densities a compact galaxy may have, in percent, with their weights.
pub open spec fn compact_densities() -> Seq<WeightedChoice<u8>> {
    seq![WeightedChoice { result: 200u8, weight: 1u32 }, WeightedChoice { result: 150u8, weight: 3u32 }, WeightedChoice { result: 120u8, weight: 6u32 }]
}

/// The densities an expansive galaxy may have, in percent, with their weights.
pub open spec fn expansive_densities() -> Seq<WeightedChoice<u8>> {
    seq![WeightedChoice { result: 20u8, weight: 1u32 }, WeightedChoice { result: 50u8, weight: 3u32 }, WeightedChoice { result: 75u8, weight: 6u32 }]
}

/// The variations of satellites a galaxy may have, with their weights.
pub open spec fn satellite_variations() -> Seq<WeightedChoice<GalaxySatellites>> {
    seq![
        WeightedChoice { result: GalaxySatellites::MuchMore, weight: 1u32 },
        WeightedChoice { result: GalaxySatellites::More, weight: 3u32 },
        WeightedChoice { result: GalaxySatellites::Less, weight: 3u32 },
        WeightedChoice { result: GalaxySatellites::MuchLess, weight: 2u32 },
        WeightedChoice { result: GalaxySatellites::NoSatellites, weight: 1u32 },
        WeightedChoice { result: GalaxySatellites::Special, weight: 1u32 },
    ]
}

/// The masses a sub-size galaxy may have, in percent, all equally likely.
pub open spec fn sub_sizes() -> Seq<WeightedChoice<u8>> {
    seq![WeightedChoice { result: 20u8, weight: 1u32 }, WeightedChoice { result: 30u8, weight: 1u32 }, WeightedChoice { result: 50u8, weight: 1u32 }, WeightedChoice { result: 75u8, weight: 1u32 }]
}

/// The masses a super-size galaxy may have, in percent, all equally likely.
pub open spec fn super_sizes() -> Seq<WeightedChoice<u16>> {
    seq![WeightedChoice { result: 150u16, weight: 1u32 }, WeightedChoice { result: 200u16, weight: 1u32 }, WeightedChoice { result: 300u16, weight: 1u32 }, WeightedChoice { result: 500u16, weight: 1u32 }]
}

/// Whether `ws` is the list of every trait for a galaxy of the given density, category and
/// sub-category, with values for the valued traits that their own tables allow.
pub open spec fn is_full_trait_list(
    ws: Seq<WeightedChoice<GalaxySpecialTrait>>,
    d: GalacticNeighborhoodDensity,
    c: GalaxyCategory,
    s: GalaxySubCategory,
) -> bool {
    exists|compact: u8, expansive: u8, satellites: GalaxySatellites, sub_size: u8, super_size: u16|
        #![trigger full_trait_list(d, c, s, compact, expansive, satellites, sub_size, super_size)]
        {
            &&& crate::dice::is_weighted_pick(compact_densities(), compact)
            &&& crate::dice::is_weighted_pick(expansive_densities(), expansive)
            &&& crate::dice::is_weighted_pick(satellite_variations(), satellites)
            &&& crate::dice::is_weighted_pick(sub_sizes(), sub_size)
            &&& crate::dice::is_weighted_pick(super_sizes(), super_size)
            &&& ws == full_trait_list(d, c, s, compact, expansive, satellites, sub_size, super_size)
        }
}

/// The list of every special trait a galaxy might be given, with their weights, for a galaxy of
/// the given neighborhood density, category and sub-category, carrying the given values.
pub fn full_list_of_traits(
    density: GalacticNeighborhoodDensity,
    category: GalaxyCategory,
    sub_category: GalaxySubCategory,
    compact: u8,
    expansive: u8,
    satellites: GalaxySatellites,
    sub_size: u8,
    super_size: u16,
) -> (r: Vec<WeightedChoice<GalaxySpecialTrait>>)
    ensures
        r@ == full_trait_list(density, category, sub_category, compact, expansive, satellites, sub_size, super_size),
{
    let c = category.kind();
    let is_dominant = c == 6;
    let is_elliptical = c == 4;
    let is_lenticular = c == 3;
    let is_spiral = c == 2;
    let is_irregular = c == 1;
    let is_intergalactic = c == 0;
    let is_intracluster = c == 5;
    let is_cluster = match density {
        GalacticNeighborhoodDensity::Cluster(..) => true,
        _ => false,
    };
    let is_group = match density {
        GalacticNeighborhoodDensity::Group(..) => true,
        _ => false,
    };
    let dwarf = sub_category == GalaxySubCategory::DwarfAmorphous
        || sub_category == GalaxySubCategory::DwarfElliptical
        || sub_category == GalaxySubCategory::DwarfLenticular
        || sub_category == GalaxySubCategory::DwarfSpiral;
    let mut r: Vec<WeightedChoice<GalaxySpecialTrait>> = Vec::new();
    r.push(WeightedChoice::new(GalaxySpecialTrait::NoPeculiarity, if is_dominant { 1 } else { 4 }));
    r.push(WeightedChoice::new(GalaxySpecialTrait::ActiveNucleus, if is_elliptical || is_dominant { 10 } else { 5 }));
    r.push(WeightedChoice::new(GalaxySpecialTrait::DoubleNuclei, 1));
    r.push(WeightedChoice::new(GalaxySpecialTrait::Compact(compact), if dwarf { 20 } else if is_dominant { 3 } else { 5 }));
    r.push(WeightedChoice::new(GalaxySpecialTrait::Dusty, if dwarf { 2 } else if is_lenticular || is_spiral { 20 } else { 5 }));
    r.push(WeightedChoice::new(GalaxySpecialTrait::Expansive(expansive), if dwarf { 2 } else if is_dominant { 7 } else { 5 }));
    r.push(WeightedChoice::new(GalaxySpecialTrait::ExtendedHalo, if is_cluster || is_lenticular || is_spiral { 10 } else { 5 }));
    r.push(WeightedChoice::new(GalaxySpecialTrait::GasPoor, if is_lenticular { 10 } else if is_elliptical { 15 } else if is_dominant { 3 } else { 5 }));
    r.push(WeightedChoice::new(GalaxySpecialTrait::GasRich, if is_irregular { 20 } else if dwarf { 10 } else if is_dominant { 2 } else { 5 }));
    r.push(WeightedChoice::new(
        GalaxySpecialTrait::Interacting,
        if is_dominant {
            7
        } else if dwarf || sub_category == GalaxySubCategory::GiantLenticular
            || sub_category == GalaxySubCategory::GiantElliptical || is_irregular {
            10
        } else {
            5
        },
    ));
    r.push(WeightedChoice::new(GalaxySpecialTrait::MetalPoor, if dwarf { 20 } else if is_dominant { 3 } else { 5 }));
    r.push(WeightedChoice::new(GalaxySpecialTrait::Older, if is_irregular || is_intergalactic || is_intracluster || dwarf { 20 } else { 10 }));
    r.push(WeightedChoice::new(
        GalaxySpecialTrait::Satellites(satellites),
        if is_spiral && sub_category != GalaxySubCategory::DwarfSpiral {
            10
        } else if is_elliptical && sub_category != GalaxySubCategory::GiantElliptical {
            8
        } else if is_dominant {
            10
        } else if sub_category != GalaxySubCategory::GiantElliptical
            || sub_category != GalaxySubCategory::GiantLenticular {
            23
        } else {
            5
        },
    ));
    r.push(WeightedChoice::new(
        GalaxySpecialTrait::Starburst,
        if sub_category == GalaxySubCategory::Amorphous { 20 } else if is_spiral || dwarf { 5 } else { 2 },
    ));
    r.push(WeightedChoice::new(GalaxySpecialTrait::SubSize(sub_size), if dwarf { 10 } else { 5 }));
    r.push(WeightedChoice::new(
        GalaxySpecialTrait::SuperSize(super_size),
        if is_dominant {
            25
        } else if sub_category == GalaxySubCategory::DwarfAmorphous
            || sub_category == GalaxySubCategory::Amorphous {
            2
        } else {
            5
        },
    ));
    r.push(WeightedChoice::new(
        GalaxySpecialTrait::Younger,
        if is_dominant || sub_category != GalaxySubCategory::GiantElliptical
            || sub_category != GalaxySubCategory::GiantLenticular {
            2
        } else {
            5
        },
    ));
    r.push(WeightedChoice::new(GalaxySpecialTrait::Dead, 1));
    r.push(WeightedChoice::new(GalaxySpecialTrait::Dormant, if is_cluster { 3 } else if is_group { 2 } else { 1 }));
    r.push(WeightedChoice::new(GalaxySpecialTrait::Tail, if dwarf { 3 } else { 1 }));
    assert(r@ =~= full_trait_list(density, category, sub_category, compact, expansive, satellites, sub_size, super_size));
    r
}

/// Every trait of the full list has a weight between 1 and 25, so the list weighs at most 500.
pub proof fn lemma_full_trait_list_weights(ws: Seq<WeightedChoice<GalaxySpecialTrait>>, d: GalacticNeighborhoodDensity, c: GalaxyCategory, s: GalaxySubCategory)
    requires
        is_full_trait_list(ws, d, c, s),
    ensures
        ws.len() == 20,
        forall|i: int| 0 <= i < ws.len() ==> 1 <= #[trigger] ws[i].weight <= 25,
        total_weight(ws) <= 500,
{
    let (compact, expansive, satellites, sub_size, super_size) = choose|compact: u8, expansive: u8, satellites: GalaxySatellites, sub_size: u8, super_size: u16|
        #![trigger full_trait_list(d, c, s, compact, expansive, satellites, sub_size, super_size)]
        {
            &&& crate::dice::is_weighted_pick(compact_densities(), compact)
            &&& crate::dice::is_weighted_pick(expansive_densities(), expansive)
            &&& crate::dice::is_weighted_pick(satellite_variations(), satellites)
            &&& crate::dice::is_weighted_pick(sub_sizes(), sub_size)
            &&& crate::dice::is_weighted_pick(super_sizes(), super_size)
            &&& ws == full_trait_list(d, c, s, compact, expansive, satellites, sub_size, super_size)
        };
    assert(ws == full_trait_list(d, c, s, compact, expansive, satellites, sub_size, super_size));
    lemma_total_weight_bound(ws, 25);
}

/// Picks one of two or more choices of valid weights: one of those whose weight is not zero.
pub fn pick_one<T: Copy>(rng: &mut SeededDiceRoller, choices: &Vec<WeightedChoice<T>>) -> (r: T)
    requires
        choices.len() >= 2,
        valid_weights(choices@),
    ensures
        is_weighted_pick(choices@, r),
{
    match pick_weighted(rng, choices) {
        Some(v) => v,
        None => {
            proof {
                assert(false);
            }
            choices[0].result
        },
    }
}

/// Returns the complete list of traits a galaxy might have, with the values of the valued traits
/// drawn from their own tables.
pub fn get_full_list_of_traits(
    neighborhood: GalacticNeighborhood,
    category: GalaxyCategory,
    sub_category: GalaxySubCategory,
    index: u16,
    seed: &str,
) -> (r: Vec<WeightedChoice<GalaxySpecialTrait>>)
    ensures
        is_full_trait_list(r@, neighborhood.density, category, sub_category),
{
    let mut rng = new_roller(seed, numbered_step("gal_", index as u64, "_gsp").as_str());
    proof {
        reveal_with_fuel(total_weight, 7);
    }
    let compacts = vec![WeightedChoice::new(200u8, 1u32), WeightedChoice::new(150u8, 3u32), WeightedChoice::new(120u8, 6u32)];
    assert(compacts@ =~= compact_densities());
    let compact = pick_one(&mut rng, &compacts);
    let expansives = vec![WeightedChoice::new(20u8, 1u32), WeightedChoice::new(50u8, 3u32), WeightedChoice::new(75u8, 6u32)];
    assert(expansives@ =~= expansive_densities());
    let expansive = pick_one(&mut rng, &expansives);
    let variations = vec![
        WeightedChoice::new(GalaxySatellites::MuchMore, 1u32),
        WeightedChoice::new(GalaxySatellites::More, 3u32),
        WeightedChoice::new(GalaxySatellites::Less, 3u32),
        WeightedChoice::new(GalaxySatellites::MuchLess, 2u32),
        WeightedChoice::new(GalaxySatellites::NoSatellites, 1u32),
        WeightedChoice::new(GalaxySatellites::Special, 1u32),
    ];
    assert(variations@ =~= satellite_variations());
    let satellites = pick_one(&mut rng, &variations);
    let subs = vec![WeightedChoice::new(20u8, 1u32), WeightedChoice::new(30u8, 1u32), WeightedChoice::new(50u8, 1u32), WeightedChoice::new(75u8, 1u32)];
    assert(subs@ =~= sub_sizes());
    let sub_size = pick_one(&mut rng, &subs);
    let supers = vec![WeightedChoice::new(150u16, 1u32), WeightedChoice::new(200u16, 1u32), WeightedChoice::new(300u16, 1u32), WeightedChoice::new(500u16, 1u32)];
    assert(supers@ =~= super_sizes());
    let super_size = pick_one(&mut rng, &supers);
    let r = full_list_of_traits(neighborhood.density, category, sub_category, compact, expansive, satellites, sub_size, super_size);
    assert(r@ == full_trait_list(neighborhood.density, category, sub_category, compact, expansive, satellites, sub_size, super_size));
    r
}

} // verus!
