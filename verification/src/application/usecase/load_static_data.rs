use vstd::prelude::*;
use crate::application::dto::loaded_static_data::LoadedStaticData;
use crate::domain::repository::AbilityRepository;
use crate::domain::repository::ItemRepository;
use crate::domain::repository::MoveRepository;
use crate::domain::repository::PokemonRepository;
use crate::domain::repository::PokemonSpeciesRepository;
use crate::domain::repository::TypeRepository;

verus! {

/// Builds the snapshot out of one repository for each kind of record.
pub struct LoadStaticDataUsecase<I, P, M, S, T, A> where
    I: ItemRepository,
    P: PokemonRepository,
    M: MoveRepository,
    S: PokemonSpeciesRepository,
    T: TypeRepository,
    A: AbilityRepository,
 {
    pub item_repository: I,
    pub pokemon_repository: P,
    pub move_repository: M,
    pub pokemon_species_repository: S,
    pub type_repository: T,
    pub ability_repository: A,
}

impl<I, P, M, S, T, A> LoadStaticDataUsecase<I, P, M, S, T, A> where
    I: ItemRepository,
    P: PokemonRepository,
    M: MoveRepository,
    S: PokemonSpeciesRepository,
    T: TypeRepository,
    A: AbilityRepository,
 {
    pub fn new(
        item_repository: I,
        pokemon_repository: P,
        move_repository: M,
        pokemon_species_repository: S,
        type_repository: T,
        ability_repository: A,
    ) -> (r: Self)
        ensures
            r.item_repository == item_repository,
            r.pokemon_repository == pokemon_repository,
            r.move_repository == move_repository,
            r.pokemon_species_repository == pokemon_species_repository,
            r.type_repository == type_repository,
            r.ability_repository == ability_repository,
    {
        LoadStaticDataUsecase {
            item_repository,
            pokemon_repository,
            move_repository,
            pokemon_species_repository,
            type_repository,
            ability_repository,
        }
    }

    /// Asks every repository once and bundles what they hand out: each
    /// collection of the snapshot is an outcome of its repository's operation,
    /// unchanged.
    pub fn execute(&self) -> (data: LoadedStaticData)
        ensures
            call_ensures(I::find_all_items, (&self.item_repository,), data.items),
            call_ensures(P::find_all_pokemons, (&self.pokemon_repository,), data.pokemons),
            call_ensures(M::find_all_moves, (&self.move_repository,), data.moves),
            call_ensures(
                S::find_all_species,
                (&self.pokemon_species_repository,),
                data.pokemon_species,
            ),
            call_ensures(T::find_all_types, (&self.type_repository,), data.types),
            call_ensures(A::find_all_abilities, (&self.ability_repository,), data.abilities),
    {
        let items = self.item_repository.find_all_items();
        let pokemons = self.pokemon_repository.find_all_pokemons();
        let moves = self.move_repository.find_all_moves();
        let pokemon_species = self.pokemon_species_repository.find_all_species();
        let types = self.type_repository.find_all_types();
        let abilities = self.ability_repository.find_all_abilities();
        LoadedStaticData { items, pokemons, moves, pokemon_species, types, abilities }
    }
}

} // verus!
