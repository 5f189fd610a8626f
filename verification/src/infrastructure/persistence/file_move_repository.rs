use vstd::prelude::*;
use crate::domain::model::moves::Move;
use crate::domain::repository::MoveRepository;
use crate::filter::FilterConfig;
use crate::filter::trimmed_all;
use crate::infrastructure::persistence::json_loader::Directory;
use crate::infrastructure::persistence::json_loader::load_trimmed_from_directory;
use crate::infrastructure::persistence::json_loader::loaded_diagnostics;
use crate::infrastructure::persistence::json_loader::loaded_records;
use crate::infrastructure::persistence::json_loader::LoadReport;
use crate::text::views;

verus! {

/// The moves of one directory, conventionally `data/move/`, their flavor texts
/// trimmed to a configuration.
pub struct FileMoveRepository {
    pub directory: Directory,
    pub config: FilterConfig,
}

impl FileMoveRepository {
    pub fn new(directory: Directory, config: FilterConfig) -> (r: Self)
        ensures
            r.directory == directory,
            r.config == config,
    {
        FileMoveRepository { directory, config }
    }

    /// The trimmed records of the directory, with the diagnostics of loading
    /// them.
    pub fn load(&self) -> (report: LoadReport<Move>)
        ensures
            views(report.records@) == trimmed_all::<Move>(
                loaded_records::<Move>(self.directory@, "moves"@),
                self.config@,
            ),
            views(report.diagnostics@) == loaded_diagnostics::<Move>(self.directory@, "moves"@),
    {
        load_trimmed_from_directory::<Move>(&self.directory, "moves", &self.config)
    }
}

impl MoveRepository for FileMoveRepository {
    fn find_all_moves(&self) -> (records: Vec<Move>)
        ensures
            views(records@) == trimmed_all::<Move>(
                loaded_records::<Move>(self.directory@, "moves"@),
                self.config@,
            ),
    {
        self.load().records
    }
}

} // verus!
