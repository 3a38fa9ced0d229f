use vstd::prelude::*;
use crate::galaxy_types::{GalacticNeighborhood, GalaxySettings};
use crate::galaxy_gen::major_count;
use crate::galaxy_profile::{GeneratedGalaxy, generate_galaxy, is_generated_galaxy};
use crate::galaxy_traits::OppositeTraits;
use crate::neighborhood_gen::{galaxies_to_generate, galaxy_count};

verus! {

/// The generator itself, which, depending on the given settings, generates a universe with its
/// galaxies, sectors, systems and planets, in a deterministic way thanks to a seed.
#[derive(Copy, Clone, PartialEq, Eq, Structural, Debug, Default)]
pub struct Generator {}

/// Utilities shared by the generators.
#[derive(Copy, Clone, PartialEq, Eq, Structural, Debug, Default)]
pub struct GeneratorUtils {}

impl Generator {
    /// Generates the galaxies of the given neighborhood, one for each of its dominant, major and
    /// minor galaxies, numbered from 0: galaxy `i` is generated as galaxy `i` of the
    /// neighborhood.
    pub fn generate_galaxies(
        galactic_neighborhood: GalacticNeighborhood,
        seed: &str,
        settings: &GalaxySettings,
        opposite_traits: &Vec<OppositeTraits>,
    ) -> (r: Vec<GeneratedGalaxy>)
        requires
            galaxy_count(galactic_neighborhood.density) <= u16::MAX,
            galactic_neighborhood.universe.age >= i64::MIN + 60,
            major_count(galactic_neighborhood.density) <= u8::MAX,
        ensures
            r.len() == galaxy_count(galactic_neighborhood.density),
            forall|i: int| 0 <= i < r.len() ==> is_generated_galaxy(
                galactic_neighborhood,
                i as u16,
                *settings,
                opposite_traits@,
                #[trigger] r@[i],
            ),
    {
        let to_generate = galaxies_to_generate(galactic_neighborhood.density);
        let mut galaxies: Vec<GeneratedGalaxy> = Vec::new();
        let mut i: u16 = 0;
        while i < to_generate
            invariant
                0 <= i <= to_generate,
                to_generate == galaxy_count(galactic_neighborhood.density),
                galactic_neighborhood.universe.age >= i64::MIN + 60,
                major_count(galactic_neighborhood.density) <= u8::MAX,
                galaxies.len() == i,
                forall|j: int| 0 <= j < i ==> is_generated_galaxy(
                    galactic_neighborhood,
                    j as u16,
                    *settings,
                    opposite_traits@,
                    #[trigger] galaxies@[j],
                ),
            decreases to_generate - i,
        {
            galaxies.push(generate_galaxy(galactic_neighborhood, i, seed, settings, opposite_traits));
            i = i + 1;
        }
        galaxies
    }
}

} // verus!
