use vstd::prelude::*;
use crate::domain::model::pokemon_species::PokemonSpecies;
use crate::domain::repository::PokemonSpeciesRepository;
use crate::filter::FilterConfig;
use crate::filter::trimmed_all;
use crate::infrastructure::persistence::json_loader::Directory;
use crate::infrastructure::persistence::json_loader::load_trimmed_from_directory;
use crate::infrastructure::persistence::json_loader::loaded_diagnostics;
use crate::infrastructure::persistence::json_loader::loaded_records;
use crate::infrastructure::persistence::json_loader::LoadReport;
use crate::text::views;

verus! {

/// The pokemon-species of one directory, conventionally
/// `data/pokemon-species/`, their descriptions trimmed to a configuration.
pub struct FilePokemonSpeciesRepository {
    pub directory: Directory,
    pub config: FilterConfig,
}

impl FilePokemonSpeciesRepository {
    pub fn new(directory: Directory, config: FilterConfig) -> (r: Self)
        ensures
            r.directory == directory,
            r.config == config,
    {
        FilePokemonSpeciesRepository { directory, config }
    }

    /// The trimmed records of the directory, with the diagnostics of loading
    /// them.
    pub fn load(&self) -> (report: LoadReport<PokemonSpecies>)
        ensures
            views(report.records@) == trimmed_all::<PokemonSpecies>(
                loaded_records::<PokemonSpecies>(self.directory@, "pokemon-species"@),
                self.config@,
            ),
            views(report.diagnostics@) == loaded_diagnostics::<PokemonSpecies>(
                self.directory@,
                "pokemon-species"@,
            ),
    {
        load_trimmed_from_directory::<PokemonSpecies>(
            &self.directory,
            "pokemon-species",
            &self.config,
        )
    }
}

impl PokemonSpeciesRepository for FilePokemonSpeciesRepository {
    fn find_all_species(&self) -> (records: Vec<PokemonSpecies>)
        ensures
            views(records@) == trimmed_all::<PokemonSpecies>(
                loaded_records::<PokemonSpecies>(self.directory@, "pokemon-species"@),
                self.config@,
            ),
    {
        self.load().records
    }
}

} // verus!
