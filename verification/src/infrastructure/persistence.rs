pub mod file_ability_repository;
pub mod file_item_repository;
pub mod file_move_repository;
pub mod file_pokemon_repository;
pub mod file_pokemon_species_repository;
pub mod file_type_repository;
pub mod json_loader;
