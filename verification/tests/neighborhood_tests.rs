use planet_generator::galaxy_types::{
    GalacticNeighborhood, GalacticNeighborhoodDensity, GalaxySettings, StelliferousEra, Universe,
};
use planet_generator::neighborhood_gen::galaxies_to_generate;
use seeded_dice_roller::{CopyableRollToProcess, CopyableWeightedResult, RollMethod, SeededDiceRoller};

const ERAS: [StelliferousEra; 5] = [
    StelliferousEra::AncientStelliferous,
    StelliferousEra::EarlyStelliferous,
    StelliferousEra::MiddleStelliferous,
    StelliferousEra::LateStelliferous,
    StelliferousEra::EndStelliferous,
];

fn universe_for(i: usize) -> Universe {
    Universe { era: ERAS[i % 5], age: 1380 }
}

#[test]
fn generate_a_galactic_neighborhood() {
    for i in 0..10000 {
        let settings = GalaxySettings { ..Default::default() };
        let seed = String::from(&i.to_string());
        let neighborhood = GalacticNeighborhood::generate(universe_for(i), &seed, &settings);
        match neighborhood.density {
            GalacticNeighborhoodDensity::Void(galaxies, _) => assert!(galaxies < 4),
            GalacticNeighborhoodDensity::Group(galaxies, _) => {
                assert!(galaxies > 0 && galaxies < 6)
            }
            GalacticNeighborhoodDensity::Cluster(dominant, galaxies, _) => {
                assert!(galaxies > 0 || dominant > 0)
            }
        }
    }
}

#[test]
fn generate_our_galactic_neighborhood() {
    for i in 0..100 {
        let settings = GalaxySettings { use_ours: true, ..Default::default() };
        let seed = String::from(&i.to_string());
        let neighborhood = GalacticNeighborhood::generate(universe_for(i), &seed, &settings);
        assert_eq!(neighborhood.density, GalacticNeighborhoodDensity::Group(2, 36));
    }
}

#[test]
fn generate_a_galactic_neighborhood_with_specific_density() {
    let densities = vec![
        GalacticNeighborhoodDensity::Void(0, 5),
        GalacticNeighborhoodDensity::Void(1, 5),
        GalacticNeighborhoodDensity::Void(2, 5),
        GalacticNeighborhoodDensity::Void(3, 5),
        GalacticNeighborhoodDensity::Group(1, 5),
        GalacticNeighborhoodDensity::Group(2, 5),
        GalacticNeighborhoodDensity::Group(3, 5),
        GalacticNeighborhoodDensity::Group(4, 5),
        GalacticNeighborhoodDensity::Group(5, 5),
        GalacticNeighborhoodDensity::Cluster(0, 1, 5),
        GalacticNeighborhoodDensity::Cluster(0, 2, 5),
        GalacticNeighborhoodDensity::Cluster(0, 3, 5),
        GalacticNeighborhoodDensity::Cluster(0, 4, 5),
        GalacticNeighborhoodDensity::Cluster(0, 5, 5),
        GalacticNeighborhoodDensity::Cluster(0, 6, 5),
        GalacticNeighborhoodDensity::Cluster(0, 7, 5),
        GalacticNeighborhoodDensity::Cluster(1, 1, 5),
        GalacticNeighborhoodDensity::Cluster(1, 2, 5),
        GalacticNeighborhoodDensity::Cluster(1, 3, 5),
    ];
    for i in 0..1000 {
        let mut rng = SeededDiceRoller::new(&String::from(i.to_string()), "t");
        let fixed_neighborhood = rng
            .get_result(&CopyableRollToProcess {
                possible_results: densities.iter().map(|d| CopyableWeightedResult::new(*d, 1)).collect(),
                roll_method: RollMethod::SimpleRoll,
            })
            .expect("Should return a density as result");
        let settings = GalaxySettings { fixed_neighborhood: Some(fixed_neighborhood), ..Default::default() };
        let seed = String::from(&i.to_string());
        let neighborhood = GalacticNeighborhood::generate(universe_for(i as usize), &seed, &settings);
        assert_eq!(neighborhood.density, fixed_neighborhood);
    }
}

#[test]
fn neighborhood_densities_follow_the_era() {
    for i in 0..2000 {
        let seed = i.to_string();
        let end = GalacticNeighborhood::generate(
            Universe { era: StelliferousEra::EndStelliferous, age: 5000 },
            &seed,
            &GalaxySettings::default(),
        );
        match end.density {
            GalacticNeighborhoodDensity::Void(g, m) => assert!((1..=2).contains(&g) && m == 0),
            GalacticNeighborhoodDensity::Group(g, m) => assert!((1..=2).contains(&g) && m == 0),
            GalacticNeighborhoodDensity::Cluster(d, g, m) => assert!(d == 1 && (1..=2).contains(&g) && m == 0),
        }
        let middle = GalacticNeighborhood::generate(
            Universe { era: StelliferousEra::MiddleStelliferous, age: 1380 },
            &seed,
            &GalaxySettings::default(),
        );
        assert_eq!(middle.universe.age, 1380);
        match middle.density {
            GalacticNeighborhoodDensity::Void(g, m) => assert!(g <= 3 && (5..=20).contains(&m)),
            GalacticNeighborhoodDensity::Group(g, m) => assert!((1..=5).contains(&g) && (10..=79).contains(&m)),
            GalacticNeighborhoodDensity::Cluster(d, _, m) => assert!(d <= 2 && (51..=1000).contains(&m)),
        }
    }
}

#[test]
fn neighborhoods_count_their_galaxies() {
    assert_eq!(galaxies_to_generate(GalacticNeighborhoodDensity::Void(3, 12)), 15);
    assert_eq!(galaxies_to_generate(GalacticNeighborhoodDensity::Group(2, 36)), 38);
    assert_eq!(galaxies_to_generate(GalacticNeighborhoodDensity::Cluster(1, 7, 500)), 508);
    let n = GalacticNeighborhood::new(Universe { era: StelliferousEra::LateStelliferous, age: 2000 }, GalacticNeighborhoodDensity::default());
    assert_eq!(n.density, GalacticNeighborhoodDensity::Group(2, 23));
}
