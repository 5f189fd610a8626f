use vstd::prelude::*;
use crate::domain::model::pokemon::Pokemon;
use crate::domain::repository::PokemonRepository;
use crate::infrastructure::persistence::json_loader::Directory;
use crate::infrastructure::persistence::json_loader::load_json_from_directory;
use crate::infrastructure::persistence::json_loader::loaded_diagnostics;
use crate::infrastructure::persistence::json_loader::loaded_records;
use crate::infrastructure::persistence::json_loader::LoadReport;
use crate::text::views;

verus! {

/// The pokemons of one directory, conventionally `data/pokemon/`. They are not
/// trimmed.
pub struct FilePokemonRepository {
    pub directory: Directory,
}

impl FilePokemonRepository {
    pub fn new(directory: Directory) -> (r: Self)
        ensures
            r.directory == directory,
    {
        FilePokemonRepository { directory }
    }

    /// The records of the directory, with the diagnostics of loading them.
    pub fn load(&self) -> (report: LoadReport<Pokemon>)
        ensures
            views(report.records@) == loaded_records::<Pokemon>(self.directory@, "pokemons"@),
            views(report.diagnostics@) == loaded_diagnostics::<Pokemon>(
                self.directory@,
                "pokemons"@,
            ),
    {
        load_json_from_directory::<Pokemon>(&self.directory, "pokemons")
    }
}

impl PokemonRepository for FilePokemonRepository {
    fn find_all_pokemons(&self) -> (records: Vec<Pokemon>)
        ensures
            views(records@) == loaded_records::<Pokemon>(self.directory@, "pokemons"@),
    {
        self.load().records
    }
}

} // verus!
