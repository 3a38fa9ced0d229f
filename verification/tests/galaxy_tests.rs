use planet_generator::galaxy_profile::generate_galaxy;
use planet_generator::galaxy_size::category_with_size;
use planet_generator::galaxy_gen::{is_galaxy_dominant, is_galaxy_major, get_fixed_age};
use planet_generator::dice::WeightedChoice;
use planet_generator::galaxy_traits::{
    add_random_traits, clean_special_traits, get_number_of_random_traits, OppositeTraits,
};
use planet_generator::galaxy_types::{
    GalacticNeighborhood, GalacticNeighborhoodDensity, GalaxyCategory, GalaxySettings, GalaxySpecialTrait,
    GalaxySubCategory, StelliferousEra, Universe,
};
use planet_generator::generator::Generator;

const ERAS: [StelliferousEra; 5] = [
    StelliferousEra::AncientStelliferous,
    StelliferousEra::EarlyStelliferous,
    StelliferousEra::MiddleStelliferous,
    StelliferousEra::LateStelliferous,
    StelliferousEra::EndStelliferous,
];

#[test]
fn galaxy_generate_a_galaxy_with_proper_size() {
    let opposites: Vec<OppositeTraits> = vec![];
    for i in 0..10000 {
        let settings = &GalaxySettings { ..Default::default() };
        let seed = String::from(&i.to_string());
        let universe = Universe { era: ERAS[i % 5], age: 1380 };
        let neighborhood = GalacticNeighborhood::generate(universe, &seed, &settings);
        let galaxy = generate_galaxy(neighborhood, (i as u16) % 5, &seed, &settings, &opposites);

            let category = galaxy.category;
            let sub_category = galaxy.sub_category;
            match sub_category {
                GalaxySubCategory::DwarfAmorphous => {
                    if let GalaxyCategory::Intergalactic(l, w, h) = category {
                        assert!(
                            l >= 100 && l <= 4000 && w >= 100 && w <= 4000 && h >= 75 && h <= 3000
                        );
                    } else if let GalaxyCategory::Irregular(l, w, h) = category {
                        assert!(
                            l >= 100 && l <= 4000 && w >= 100 && w <= 4000 && h >= 75 && h <= 3000
                        );
                    } else if let GalaxyCategory::Intracluster(l, w, h) = category {
                        assert!(
                            l >= 100 && l <= 4000 && w >= 100 && w <= 4000 && h >= 75 && h <= 3000
                        );
                    }
                }
                GalaxySubCategory::Amorphous => {
                    if let GalaxyCategory::Intergalactic(l, w, h) = category {
                        assert!(
                            l >= 1250
                                && l <= 12500
                                && w >= 1250
                                && w <= 12500
                                && h >= 1000
                                && h <= 10000
                        );
                    } else if let GalaxyCategory::Irregular(l, w, h) = category {
                        assert!(
                            l >= 1250
                                && l <= 12500
                                && w >= 1250
                                && w <= 12500
                                && h >= 1000
                                && h <= 10000
                        );
                    } else if let GalaxyCategory::Intracluster(l, w, h) = category {
                        assert!(
                            l >= 1250
                                && l <= 12500
                                && w >= 1250
                                && w <= 12500
                                && h >= 1000
                                && h <= 10000
                        );
                    }
                }
                GalaxySubCategory::DwarfSpiral => {
                    if let GalaxyCategory::Intergalactic(l, w, h) = category {
                        assert!(
                            l >= 500 && l <= 10000 && w >= 500 && w <= 10000 && h >= 2 && h <= 300
                        );
                    } else if let GalaxyCategory::Irregular(l, w, h) = category {
                        assert!(
                            l >= 500 && l <= 10000 && w >= 500 && w <= 10000 && h >= 2 && h <= 300
                        );
                    } else if let GalaxyCategory::Intracluster(l, w, h) = category {
                        assert!(
                            l >= 500 && l <= 10000 && w >= 500 && w <= 10000 && h >= 2 && h <= 300
                        );
                    } else if let GalaxyCategory::Spiral(r, t) = category {
                        assert!(r >= 250 && r <= 5000 && t >= 2 && t <= 300);
                    }
                }
                GalaxySubCategory::FlatSpiral
                | GalaxySubCategory::BarredSpiral
                | GalaxySubCategory::ClassicSpiral => {
                    if let GalaxyCategory::Spiral(r, t) = category {
                        assert!(r >= 5000 && r <= 20000 && t >= 50 && t <= 400);
                    }
                }
                GalaxySubCategory::DwarfLenticular => {
                    if let GalaxyCategory::Intergalactic(l, w, h) = category {
                        assert!(
                            l >= 500 && l <= 10000 && w >= 500 && w <= 10000 && h >= 2 && h <= 300
                        );
                    } else if let GalaxyCategory::Irregular(l, w, h) = category {
                        assert!(
                            l >= 500 && l <= 10000 && w >= 500 && w <= 10000 && h >= 2 && h <= 300
                        );
                    } else if let GalaxyCategory::Intracluster(l, w, h) = category {
                        assert!(
                            l >= 500 && l <= 10000 && w >= 500 && w <= 10000 && h >= 2 && h <= 300
                        );
                    } else if let GalaxyCategory::Lenticular(r, t) = category {
                        assert!(r >= 250 && r <= 5000 && t >= 2 && t <= 300);
                    }
                }
                GalaxySubCategory::CommonLenticular => {
                    if let GalaxyCategory::Lenticular(r, t) = category {
                        assert!(r >= 5000 && r <= 30000 && t >= 100 && t <= 3600);
                    }
                }
                GalaxySubCategory::GiantLenticular => {
                    if let GalaxyCategory::Lenticular(r, t) = category {
                        assert!(r >= 30000 && r <= 60000 && t >= 900 && t <= 10800);
                    }
                }
                GalaxySubCategory::DwarfElliptical => {
                    if let GalaxyCategory::Intergalactic(l, w, h) = category {
                        assert!(
                            l >= 20 && l <= 10000 && w >= 20 && w <= 10000 && h >= 5 && h <= 10000
                        );
                    } else if let GalaxyCategory::Irregular(l, w, h) = category {
                        assert!(
                            l >= 20 && l <= 10000 && w >= 20 && w <= 10000 && h >= 5 && h <= 10000
                        );
                    } else if let GalaxyCategory::Intracluster(l, w, h) = category {
                        assert!(
                            l >= 20 && l <= 10000 && w >= 20 && w <= 10000 && h >= 5 && h <= 10000
                        );
                    } else if let GalaxyCategory::Elliptical(r) = category {
                        assert!(r >= 10 && r <= 5000);
                    }
                }
                GalaxySubCategory::CommonElliptical => {
                    if let GalaxyCategory::DominantElliptical(r) = category {
                        assert!(r >= 50000 && r <= 200000);
                    } else if let GalaxyCategory::Elliptical(r) = category {
                        assert!(r >= 1000 && r <= 20000);
                    }
                }
                GalaxySubCategory::GiantElliptical => {
                    if let GalaxyCategory::DominantElliptical(r) = category {
                        assert!(r >= 200000 && r <= 500000);
                    } else if let GalaxyCategory::Elliptical(r) = category {
                        assert!(r >= 20000 && r <= 50000);
                    }
                }
            }
        }
}

#[test]
fn galaxy_importance_follows_its_index() {
    let universe = Universe { era: StelliferousEra::MiddleStelliferous, age: 1380 };
    let cluster = GalacticNeighborhood::new(universe, GalacticNeighborhoodDensity::Cluster(2, 3, 40));
    assert!(is_galaxy_dominant(cluster, 1));
    assert!(!is_galaxy_dominant(cluster, 2));
    assert!(is_galaxy_major(cluster, 4));
    assert!(!is_galaxy_major(cluster, 5));
    let group = GalacticNeighborhood::new(universe, GalacticNeighborhoodDensity::Group(2, 30));
    assert!(!is_galaxy_dominant(group, 0));
    assert!(is_galaxy_major(group, 1));
    assert!(!is_galaxy_major(group, 2));
}

#[test]
fn fixed_ages_default_to_minus_one_billion_years() {
    assert_eq!(get_fixed_age(&GalaxySettings::default()), -100);
    assert_eq!(get_fixed_age(&GalaxySettings { fixed_age: Some(1250), ..Default::default() }), 1250);
}

#[test]
fn sizes_follow_the_rolls() {
    assert_eq!(
        category_with_size(GalaxyCategory::Spiral(0, 0), GalaxySubCategory::BarredSpiral, 12, 0, 0),
        GalaxyCategory::Spiral(12000, 120)
    );
    assert_eq!(
        category_with_size(GalaxyCategory::Irregular(0, 0, 0), GalaxySubCategory::DwarfAmorphous, 100, 200, 300),
        GalaxyCategory::Irregular(1000, 2000, 300)
    );
    assert_eq!(
        category_with_size(GalaxyCategory::Elliptical(0), GalaxySubCategory::DwarfElliptical, 50, 0, 0),
        GalaxyCategory::Elliptical(500)
    );
    // A flat dwarf elliptical galaxy is at most 10000 parsecs high.
    assert_eq!(
        category_with_size(GalaxyCategory::Irregular(0, 0, 0), GalaxySubCategory::DwarfElliptical, 500, 30, 0),
        GalaxyCategory::Irregular(10000, 10000, 10000)
    );
    assert_eq!(
        category_with_size(GalaxyCategory::Intergalactic(0, 0, 0), GalaxySubCategory::DwarfElliptical, 100, 25, 0),
        GalaxyCategory::Intergalactic(2000, 2000, 2000)
    );
    assert_eq!(
        category_with_size(GalaxyCategory::DominantElliptical(0), GalaxySubCategory::GiantElliptical, 300, 0, 0),
        GalaxyCategory::DominantElliptical(300000)
    );
}

#[test]
fn generated_galaxies_are_numbered_and_named() {
    let universe = Universe { era: StelliferousEra::MiddleStelliferous, age: 1380 };
    let neighborhood = GalacticNeighborhood::new(universe, GalacticNeighborhoodDensity::Group(2, 3));
    let galaxies = Generator::generate_galaxies(neighborhood, "seed", &GalaxySettings::default(), &vec![]);
    assert_eq!(galaxies.len(), 5);
    for (i, g) in galaxies.iter().enumerate() {
        assert_eq!(g.index as usize, i);
        assert_eq!(g.name, "Galaxy");
        assert_eq!(g.is_major, i < 2);
        assert!(!g.is_dominant);
        assert!(g.age >= 1380 - 60 && g.age <= 1380 - 25);
        assert!(!g.special_traits.is_empty());
    }
}

#[test]
fn fixed_settings_are_kept() {
    let universe = Universe { era: StelliferousEra::MiddleStelliferous, age: 1380 };
    let neighborhood = GalacticNeighborhood::new(universe, GalacticNeighborhoodDensity::Group(2, 3));
    let settings = GalaxySettings {
        fixed_category: Some(GalaxyCategory::Lenticular(7000, 300)),
        fixed_sub_category: Some(GalaxySubCategory::CommonLenticular),
        fixed_special_traits: Some(vec![GalaxySpecialTrait::NoPeculiarity, GalaxySpecialTrait::Dusty]),
        fixed_age: Some(2000),
        ..Default::default()
    };
    let galaxy = generate_galaxy(neighborhood, 0, "seed", &settings, &vec![]);
    assert_eq!(galaxy.category, GalaxyCategory::Lenticular(7000, 300));
    assert_eq!(galaxy.sub_category, GalaxySubCategory::CommonLenticular);
    assert_eq!(galaxy.age, 2000);
    assert_eq!(galaxy.special_traits, vec![GalaxySpecialTrait::Dusty]);
}

#[test]
fn cleaning_drops_no_peculiarity_beside_others() {
    let mut traits = vec![GalaxySpecialTrait::NoPeculiarity, GalaxySpecialTrait::Dusty];
    let cleaned = clean_special_traits(&mut traits);
    assert_eq!(cleaned, vec![GalaxySpecialTrait::Dusty]);
    assert_eq!(traits, vec![GalaxySpecialTrait::Dusty]);
    let mut kept = vec![GalaxySpecialTrait::Compact(1), GalaxySpecialTrait::Dusty];
    assert_eq!(clean_special_traits(&mut kept), vec![GalaxySpecialTrait::Compact(1), GalaxySpecialTrait::Dusty]);
    let mut nothing = vec![];
    assert_eq!(clean_special_traits(&mut nothing), vec![GalaxySpecialTrait::NoPeculiarity]);
}

#[test]
fn random_trait_counts_are_never_negative() {
    for i in 0..200 {
        assert!(get_number_of_random_traits(i, "seed") >= 0);
    }
}

#[test]
fn random_traits_are_all_added_and_remove_their_opposites() {
    let opposites = vec![OppositeTraits(vec![GalaxySpecialTrait::GasPoor], vec![GalaxySpecialTrait::GasRich])];
    for i in 0..50u16 {
        let possible = vec![
            WeightedChoice::new(GalaxySpecialTrait::GasRich, 5),
            WeightedChoice::new(GalaxySpecialTrait::Starburst, 3),
        ];
        let mut list = vec![GalaxySpecialTrait::GasPoor];
        let r = add_random_traits(2, possible, &mut list, i, "random traits", &opposites);
        assert_eq!(r, list);
        assert_eq!(list.len(), 2);
        assert!(list.contains(&GalaxySpecialTrait::GasRich));
        assert!(list.contains(&GalaxySpecialTrait::Starburst));
        assert!(!list.contains(&GalaxySpecialTrait::GasPoor));
    }
}

#[test]
fn no_random_traits_leaves_the_list_unchanged() {
    let opposites = vec![OppositeTraits(vec![GalaxySpecialTrait::GasPoor], vec![GalaxySpecialTrait::GasRich])];
    let possible = vec![WeightedChoice::new(GalaxySpecialTrait::GasRich, 5)];
    let mut list = vec![GalaxySpecialTrait::GasPoor];
    let r = add_random_traits(0, possible, &mut list, 3, "random traits", &opposites);
    assert_eq!(r, vec![GalaxySpecialTrait::GasPoor]);
    assert_eq!(list, vec![GalaxySpecialTrait::GasPoor]);
}

#[test]
fn random_traits_can_be_drawn_beside_traits_that_weigh_nothing() {
    let opposites: Vec<OppositeTraits> = vec![];
    for i in 0..50u16 {
        let possible = vec![
            WeightedChoice::new(GalaxySpecialTrait::Starburst, 0),
            WeightedChoice::new(GalaxySpecialTrait::Dusty, 0),
            WeightedChoice::new(GalaxySpecialTrait::GasRich, 5),
        ];
        let mut list = vec![];
        let r = add_random_traits(1, possible, &mut list, i, "weightless traits", &opposites);
        assert_eq!(r, vec![GalaxySpecialTrait::GasRich]);
    }
}
