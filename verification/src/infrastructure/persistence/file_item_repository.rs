use vstd::prelude::*;
use crate::domain::model::item::Item;
use crate::domain::repository::ItemRepository;
use crate::infrastructure::persistence::json_loader::Directory;
use crate::infrastructure::persistence::json_loader::load_json_from_directory;
use crate::infrastructure::persistence::json_loader::loaded_diagnostics;
use crate::infrastructure::persistence::json_loader::loaded_records;
use crate::infrastructure::persistence::json_loader::LoadReport;
use crate::text::views;

verus! {

/// The items of one directory, conventionally `data/item/`. They are not
/// trimmed.
pub struct FileItemRepository {
    pub directory: Directory,
}

impl FileItemRepository {
    pub fn new(directory: Directory) -> (r: Self)
        ensures
            r.directory == directory,
    {
        FileItemRepository { directory }
    }

    /// The records of the directory, with the diagnostics of loading them.
    pub fn load(&self) -> (report: LoadReport<Item>)
        ensures
            views(report.records@) == loaded_records::<Item>(self.directory@, "items"@),
            views(report.diagnostics@) == loaded_diagnostics::<Item>(self.directory@, "items"@),
    {
        load_json_from_directory::<Item>(&self.directory, "items")
    }
}

impl ItemRepository for FileItemRepository {
    fn find_all_items(&self) -> (records: Vec<Item>)
        ensures
            views(records@) == loaded_records::<Item>(self.directory@, "items"@),
    {
        self.load().records
    }
}

} // verus!
