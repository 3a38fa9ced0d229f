use vstd::prelude::*;
use crate::dice::is_weighted_pick;
use crate::galaxy_types::{
    GalacticNeighborhood, GalacticNeighborhoodDensity, GalaxyCategory, GalaxySettings,
    GalaxySpecialTrait, GalaxySubCategory, StelliferousEra,
};
use crate::galaxy_gen::{
    is_galaxy_dominant, is_galaxy_major, major_count, generate_age, generate_category,
    category_choices, generate_sub_category, sub_category_choices, undrawn_sub_category,
};
use crate::galaxy_size::{
    get_category_with_size, size_rolls_in_range, sized_category, size_within_documented_bounds,
};
use crate::galaxy_traits::{
    OppositeTraits, generate_special_traits, cleaned_traits, may_be_drawn, optional_view,
    are_drawn_special_traits,
};
use crate::trait_lists::{distinct_kinds, has_kind};

verus! {

/// A galaxy generated from its neighborhood, with its age in hundredths of a billion years.
#[derive(Clone, Debug)]
pub struct GeneratedGalaxy {
    /// The neighborhood this galaxy belongs to.
    pub neighborhood: GalacticNeighborhood,
    /// The numeric identifier of this galaxy in its neighborhood.
    pub index: u16,
    /// The name of this galaxy.
    pub name: String,
    /// The age of this galaxy in hundredths of a billion years.
    pub age: i64,
    /// Is this galaxy a dominant one in its cluster?
    pub is_dominant: bool,
    /// Is this galaxy a major one in its neighborhood?
    pub is_major: bool,
    /// In what category this galaxy belongs to.
    pub category: GalaxyCategory,
    /// In what sub-category this galaxy belongs to.
    pub sub_category: GalaxySubCategory,
    /// What are the pecularities of this galaxy.
    pub special_traits: Vec<GalaxySpecialTrait>,
}

/// Whether `age` is an age the generation can give a galaxy of the neighborhood: the fixed age of
/// the settings when it is older than the universe, otherwise the universe's age minus 0.25 to
/// 0.60 billion years (0.20 to 0.35 in the ancient era).
pub open spec fn is_possible_age(neighborhood: GalacticNeighborhood, settings: GalaxySettings, age: i64) -> bool {
    let fixed = match settings.fixed_age {
        Some(a) => a as int,
        None => -100int,
    };
    let u = neighborhood.universe.age;
    if fixed > u {
        age == fixed
    } else if neighborhood.universe.era != StelliferousEra::AncientStelliferous {
        u - 60 <= age <= u - 25
    } else {
        u - 35 <= age <= u - 20
    }
}

/// Whether `c` is a category the generation can draw, before its dimensions are rolled.
pub open spec fn is_possible_category(
    neighborhood: GalacticNeighborhood,
    age: i64,
    is_dominant: bool,
    is_major: bool,
    settings: GalaxySettings,
    c: GalaxyCategory,
) -> bool {
    match settings.fixed_category {
        Some(fixed) => c == fixed,
        None => if is_dominant && neighborhood.density is Cluster {
            c == GalaxyCategory::DominantElliptical(0)
        } else {
            is_weighted_pick(category_choices(neighborhood.density, age, is_major), c)
        },
    }
}

/// Whether `s` is a sub-category the generation can give a galaxy of the category `c`.
pub open spec fn is_possible_sub_category(
    c: GalaxyCategory,
    age: i64,
    is_major: bool,
    settings: GalaxySettings,
    s: GalaxySubCategory,
) -> bool {
    match settings.fixed_sub_category {
        Some(fixed) => s == fixed,
        None => if sub_category_choices(c, age, is_major).len() == 0 {
            s == undrawn_sub_category(c)
        } else {
            is_weighted_pick(sub_category_choices(c, age, is_major), s)
        },
    }
}

/// Whether `traits` are peculiarities the generation can give a galaxy.
pub open spec fn are_possible_traits(
    neighborhood: GalacticNeighborhood,
    c: GalaxyCategory,
    s: GalaxySubCategory,
    settings: GalaxySettings,
    table: Seq<OppositeTraits>,
    traits: Seq<GalaxySpecialTrait>,
) -> bool {
    &&& traits.len() >= 1
    &&& match settings.fixed_special_traits {
        Some(fixed) => traits == cleaned_traits(fixed@),
        None => {
            &&& distinct_kinds(traits)
            &&& has_kind(traits, 0) ==> traits.len() == 1
            &&& forall|x: GalaxySpecialTrait| #[trigger] traits.contains(x) ==> {
                ||| x == GalaxySpecialTrait::NoPeculiarity
                ||| x == GalaxySpecialTrait::Younger
                ||| x == GalaxySpecialTrait::Older
                ||| x == GalaxySpecialTrait::Dead
                ||| may_be_drawn(x, neighborhood, c, s, optional_view(settings.forbidden_special_traits))
            }
            &&& are_drawn_special_traits(neighborhood, c, s, optional_view(settings.forbidden_special_traits), table, traits)
        },
    }
}

/// Whether `g` is a galaxy the generation can give as galaxy `index` of the neighborhood, with
/// the given settings and table of opposite traits: its importance comes from its index, and its
/// age, category, sub-category, dimensions and peculiarities are each one the generation can draw.
pub open spec fn is_generated_galaxy(
    neighborhood: GalacticNeighborhood,
    index: u16,
    settings: GalaxySettings,
    table: Seq<OppositeTraits>,
    g: GeneratedGalaxy,
) -> bool {
    &&& g.neighborhood == neighborhood
    &&& g.index == index
    &&& g.name@ == "Galaxy"@
    &&& g.is_dominant == (neighborhood.density matches GalacticNeighborhoodDensity::Cluster(d, _, _) && index < d)
    &&& g.is_major == (index < major_count(neighborhood.density))
    &&& is_possible_age(neighborhood, settings, g.age)
    &&& exists|drawn: GalaxyCategory| {
        &&& #[trigger] is_possible_category(neighborhood, g.age, g.is_dominant, g.is_major, settings, drawn)
        &&& is_possible_sub_category(drawn, g.age, g.is_major, settings, g.sub_category)
        &&& settings.fixed_category is Some ==> g.category == drawn
        &&& settings.fixed_category is None ==> exists|r1: i64, r2: i64, r3: i64| {
            &&& size_rolls_in_range(drawn, g.sub_category, r1, r2, r3)
            &&& #[trigger] sized_category(drawn, g.sub_category, r1, r2, r3) == g.category
        }
    }
    &&& settings.fixed_category is None ==> size_within_documented_bounds(g.category, g.sub_category)
    &&& are_possible_traits(neighborhood, g.category, g.sub_category, settings, table, g.special_traits@)
}

/// Generates a galaxy of the given neighborhood with the steps `gal_{index}_...`: its importance
/// comes from its index, then its age, its category, its sub-category, the dimensions of its
/// category (unless the category is fixed) and its peculiarities are drawn in turn. The draws
/// depend on the seed and are not stated: what is stated is that each is one the generation can
/// give, and that a galaxy whose dimensions are rolled gets dimensions within the bounds of its
/// sub-category.
pub fn generate_galaxy(
    neighborhood: GalacticNeighborhood,
    index: u16,
    seed: &str,
    settings: &GalaxySettings,
    opposite_traits: &Vec<OppositeTraits>,
) -> (r: GeneratedGalaxy)
    requires
        neighborhood.universe.age >= i64::MIN + 60,
        major_count(neighborhood.density) <= u8::MAX,
    ensures
        is_generated_galaxy(neighborhood, index, *settings, opposite_traits@, r),
{
    let is_dominant = is_galaxy_dominant(neighborhood, index);
    let is_major = is_galaxy_major(neighborhood, index);
    let age = generate_age(neighborhood, index, seed, settings);
    let drawn = generate_category(neighborhood, index, age, is_dominant, is_major, seed, settings);
    let sub_category = generate_sub_category(drawn, index, age, is_major, seed, settings);
    let category = if settings.fixed_category.is_none() {
        get_category_with_size(drawn, sub_category, index, seed)
    } else {
        drawn
    };
    let special_traits = generate_special_traits(
        neighborhood,
        category,
        sub_category,
        index,
        seed,
        settings,
        opposite_traits,
    );
    let r = GeneratedGalaxy {
        neighborhood,
        index,
        name: String::from_str("Galaxy"),
        age,
        is_dominant,
        is_major,
        category,
        sub_category,
        special_traits,
    };
    assert(is_possible_category(neighborhood, r.age, r.is_dominant, r.is_major, *settings, drawn));
    assert(settings.fixed_category is None ==> exists|r1: i64, r2: i64, r3: i64| {
        &&& size_rolls_in_range(drawn, r.sub_category, r1, r2, r3)
        &&& #[trigger] sized_category(drawn, r.sub_category, r1, r2, r3) == r.category
    });
    r
}

} // verus!
