use vstd::prelude::*;
use crate::domain::model::poke_type::PokeType;
use crate::domain::repository::TypeRepository;
use crate::infrastructure::persistence::json_loader::Directory;
use crate::infrastructure::persistence::json_loader::load_json_from_directory;
use crate::infrastructure::persistence::json_loader::loaded_diagnostics;
use crate::infrastructure::persistence::json_loader::loaded_records;
use crate::infrastructure::persistence::json_loader::LoadReport;
use crate::text::views;

verus! {

/// The types of one directory, conventionally `data/type/`. They are not
/// trimmed.
pub struct FileTypeRepository {
    pub directory: Directory,
}

impl FileTypeRepository {
    pub fn new(directory: Directory) -> (r: Self)
        ensures
            r.directory == directory,
    {
        FileTypeRepository { directory }
    }

    /// The records of the directory, with the diagnostics of loading them.
    pub fn load(&self) -> (report: LoadReport<PokeType>)
        ensures
            views(report.records@) == loaded_records::<PokeType>(self.directory@, "types"@),
            views(report.diagnostics@) == loaded_diagnostics::<PokeType>(self.directory@, "types"@),
    {
        load_json_from_directory::<PokeType>(&self.directory, "types")
    }
}

impl TypeRepository for FileTypeRepository {
    fn find_all_types(&self) -> (records: Vec<PokeType>)
        ensures
            views(records@) == loaded_records::<PokeType>(self.directory@, "types"@),
    {
        self.load().records
    }
}

} // verus!
