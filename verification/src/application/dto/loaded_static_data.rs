use vstd::prelude::*;
use crate::domain::model::ability::Ability;
use crate::domain::model::ability::AbilityModel;
use crate::domain::model::item::Item;
use crate::domain::model::item::ItemModel;
use crate::domain::model::moves::Move;
use crate::domain::model::moves::MoveModel;
use crate::domain::model::poke_type::PokeType;
use crate::domain::model::poke_type::PokeTypeModel;
use crate::domain::model::pokemon::Pokemon;
use crate::domain::model::pokemon::PokemonModel;
use crate::domain::model::pokemon_species::PokemonSpecies;
use crate::domain::model::pokemon_species::PokemonSpeciesModel;
use crate::text::views;

verus! {

/// The snapshot: every loaded collection, one field for each kind of record.
/// Nothing checks one collection against another.
#[derive(Debug, PartialEq, Eq)]
pub struct LoadedStaticData {
    pub items: Vec<Item>,
    pub pokemons: Vec<Pokemon>,
    pub moves: Vec<Move>,
    pub pokemon_species: Vec<PokemonSpecies>,
    pub types: Vec<PokeType>,
    pub abilities: Vec<Ability>,
}

/// The mathematical value of a [`LoadedStaticData`].
pub ghost struct LoadedStaticDataModel {
    pub items: Seq<ItemModel>,
    pub pokemons: Seq<PokemonModel>,
    pub moves: Seq<MoveModel>,
    pub pokemon_species: Seq<PokemonSpeciesModel>,
    pub types: Seq<PokeTypeModel>,
    pub abilities: Seq<AbilityModel>,
}

impl View for LoadedStaticData {
    type V = LoadedStaticDataModel;

    open spec fn view(&self) -> LoadedStaticDataModel {
        LoadedStaticDataModel {
            items: views(self.items@),
            pokemons: views(self.pokemons@),
            moves: views(self.moves@),
            pokemon_species: views(self.pokemon_species@),
            types: views(self.types@),
            abilities: views(self.abilities@),
        }
    }
}

} // verus!
