//! Procedural generation of galaxies, galactic maps and celestial bodies, with the
//! decision logic of every generator stated and proved.
#![allow(unused_imports)]

pub mod coordinates;
pub mod text;
pub mod dice;
pub mod galaxy_types;
pub mod trait_lists;
pub mod galaxy_traits;
pub mod trait_table;
pub mod galaxy_size;
pub mod galaxy_gen;
pub mod sector;
pub mod galaxy_map;
pub mod division;
pub mod galactic_map;
pub mod hex;
pub mod neighborhood_gen;
pub mod celestial_types;
pub mod disks;
pub mod body_gen;
pub mod galaxy_profile;
pub mod generator;
pub mod names;
pub mod body_sizes;
