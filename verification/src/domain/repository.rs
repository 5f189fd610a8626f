//! Where the records of each kind come from. A repository hands out all of
//! its records at once; what stands behind it is its own affair, so the
//! traits promise nothing of what comes back.

use vstd::prelude::*;
use crate::domain::model::ability::Ability;
use crate::domain::model::item::Item;
use crate::domain::model::moves::Move;
use crate::domain::model::poke_type::PokeType;
use crate::domain::model::pokemon::Pokemon;
use crate::domain::model::pokemon_species::PokemonSpecies;

verus! {

/// Where the items come from.
pub trait ItemRepository {
    fn find_all_items(&self) -> Vec<Item>;
}

/// Where the Pokémon come from.
pub trait PokemonRepository {
    fn find_all_pokemons(&self) -> Vec<Pokemon>;
}

/// Where the moves come from.
pub trait MoveRepository {
    fn find_all_moves(&self) -> Vec<Move>;
}

/// Where the species come from.
pub trait PokemonSpeciesRepository {
    fn find_all_species(&self) -> Vec<PokemonSpecies>;
}

/// Where the types come from.
pub trait TypeRepository {
    fn find_all_types(&self) -> Vec<PokeType>;
}

/// Where the abilities come from.
pub trait AbilityRepository {
    fn find_all_abilities(&self) -> Vec<Ability>;
}

} // verus!
