use vstd::prelude::*;
use crate::domain::model::ability::Ability;
use crate::domain::repository::AbilityRepository;
use crate::filter::FilterConfig;
use crate::filter::trimmed_all;
use crate::infrastructure::persistence::json_loader::Directory;
use crate::infrastructure::persistence::json_loader::load_trimmed_from_directory;
use crate::infrastructure::persistence::json_loader::loaded_diagnostics;
use crate::infrastructure::persistence::json_loader::loaded_records;
use crate::infrastructure::persistence::json_loader::LoadReport;
use crate::text::views;

verus! {

/// The abilities of one directory, conventionally `data/ability/`, their
/// effect texts, descriptions and names trimmed to a configuration.
pub struct FileAbilityRepository {
    pub directory: Directory,
    pub config: FilterConfig,
}

impl FileAbilityRepository {
    pub fn new(directory: Directory, config: FilterConfig) -> (r: Self)
        ensures
            r.directory == directory,
            r.config == config,
    {
        FileAbilityRepository { directory, config }
    }

    /// The trimmed records of the directory, with the diagnostics of loading
    /// them.
    pub fn load(&self) -> (report: LoadReport<Ability>)
        ensures
            views(report.records@) == trimmed_all::<Ability>(
                loaded_records::<Ability>(self.directory@, "abilities"@),
                self.config@,
            ),
            views(report.diagnostics@) == loaded_diagnostics::<Ability>(
                self.directory@,
                "abilities"@,
            ),
    {
        load_trimmed_from_directory::<Ability>(&self.directory, "abilities", &self.config)
    }
}

impl AbilityRepository for FileAbilityRepository {
    fn find_all_abilities(&self) -> (records: Vec<Ability>)
        ensures
            views(records@) == trimmed_all::<Ability>(
                loaded_records::<Ability>(self.directory@, "abilities"@),
                self.config@,
            ),
    {
        self.load().records
    }
}

} // verus!
