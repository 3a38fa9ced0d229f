# planet_generator

Procedural generation of galactic neighborhoods, galaxies, galactic maps and the peculiarities
of celestial bodies. Every random draw goes through `seeded_dice_roller`, whose rollers are
created from the seed and a step name: that the same seed gives the same results rests on that
crate and is not stated in the contracts. What the contracts state and prove is everything
decided around the draws, for every value the dice can give.

## Layout

- `src/` — the verified library.
  - `coordinates.rs`, `text.rs`: points of a galactic map and how they and numbers are written.
  - `dice.rs`: the seeded dice roller and weighted choices.
  - `galaxy_types.rs`, `trait_lists.rs`, `galaxy_traits.rs`, `trait_table.rs`, `galaxy_size.rs`,
    `galaxy_gen.rs`, `galaxy_profile.rs`, `neighborhood_gen.rs`, `generator.rs`: neighborhoods
    and galaxies, their ages, categories, dimensions and peculiarities.
  - `sector.rs`, `galaxy_map.rs`, `division.rs`, `galactic_map.rs`, `hex.rs`: the division of a
    galaxy's map into levels, divisions and hexes, and how many star systems a hex holds.
  - `celestial_types.rs`, `disks.rs`, `body_gen.rs`, `body_sizes.rs`: celestial bodies, belts
    and rings, and the generation of their peculiarities, sizes, density bounds and world types.
  - `names.rs`: how the library's values are written.
- `tests/` — tests of the library on concrete values.
- `app/` — what works with floating-point numbers or reads SVG maps (ages in billions of years,
  regions of the map, densities and masses), around the library.

Inside the library, ages are counted in hundredths of a billion years, densities in hundredths
of a gram per cubic centimeter and the masses of icy giants in hundredths of an Earth mass.
