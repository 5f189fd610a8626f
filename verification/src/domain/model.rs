pub mod ability;
pub mod active_pokemon;
pub mod common;
pub mod item;
pub mod moves;
pub mod poke_type;
pub mod pokemon;
pub mod pokemon_species;
pub mod stats;
pub mod status;
