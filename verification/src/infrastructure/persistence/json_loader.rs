//! Loading the records of one directory.
//!
//! The file system is read elsewhere. What was found there comes in as a
//! [`Directory`]; what is made of it goes out as a [`LoadReport`], the
//! records together with a diagnostic for all that went wrong. Nothing that
//! goes wrong with one file touches the record of another.

use vstd::prelude::*;
use crate::decode::decode;
use crate::decode::decoded_text;
use crate::decode::FromJson;
use crate::error::ParseError;
use crate::error::ParseErrorModel;
use crate::filter::FilterConfig;
use crate::filter::lemma_filter_push;
use crate::filter::Trim;
use crate::filter::trim_all;
use crate::filter::trimmed_all;
use crate::text::lemma_views_empty;
use crate::text::lemma_views_push;
use crate::text::optional_text;
use crate::text::same_text;
use crate::text::views;

verus! {

/// One entry of a directory, as the file system shows it. The content is
/// `None` where the entry was not read: because it is no candidate, or because
/// reading it failed.
#[derive(Debug, PartialEq, Eq)]
pub struct DirectoryEntry {
    pub path: String,
    pub is_file: bool,
    pub extension: Option<String>,
    pub content: Option<String>,
}

/// The mathematical value of a [`DirectoryEntry`].
pub ghost struct DirectoryEntryModel {
    pub path: Seq<char>,
    pub is_file: bool,
    pub extension: Option<Seq<char>>,
    pub content: Option<Seq<char>>,
}

impl DirectoryEntryModel {
    /// An entry is a candidate when it is a file with the extension `json`.
    pub open spec fn is_candidate(self) -> bool {
        self.is_file && self.extension == Some("json"@)
    }
}

impl View for DirectoryEntry {
    type V = DirectoryEntryModel;

    open spec fn view(&self) -> DirectoryEntryModel {
        DirectoryEntryModel {
            path: self.path@,
            is_file: self.is_file,
            extension: optional_text(self.extension),
            content: optional_text(self.content),
        }
    }
}

impl DirectoryEntry {
    /// Whether the entry is to be read and decoded.
    pub fn is_candidate(&self) -> (r: bool)
        ensures
            r == self@.is_candidate(),
    {
        self.is_file && match &self.extension {
            Some(extension) => same_text(extension.as_str(), "json"),
            None => false,
        }
    }
}

/// A directory as the file system shows it: its entries in the order of
/// enumeration, or `None` where there is no such directory.
#[derive(Debug, PartialEq, Eq)]
pub struct Directory {
    pub path: String,
    pub entries: Option<Vec<DirectoryEntry>>,
}

/// The mathematical value of a [`Directory`].
pub ghost struct DirectoryModel {
    pub path: Seq<char>,
    pub entries: Option<Seq<DirectoryEntryModel>>,
}

impl View for Directory {
    type V = DirectoryModel;

    open spec fn view(&self) -> DirectoryModel {
        DirectoryModel {
            path: self.path@,
            entries: match self.entries {
                Some(entries) => Some(views(entries@)),
                None => None,
            },
        }
    }
}

impl Directory {
    /// A directory that is not there.
    pub fn missing(path: String) -> (r: Self)
        ensures
            r@ == (DirectoryModel { path: path@, entries: None }),
    {
        Directory { path, entries: None }
    }

    /// A directory with the entries found in it.
    pub fn with_entries(path: String, entries: Vec<DirectoryEntry>) -> (r: Self)
        ensures
            r@ == (DirectoryModel { path: path@, entries: Some(views(entries@)) }),
    {
        Directory { path, entries: Some(entries) }
    }
}

/// What went wrong while a directory was loaded.
#[derive(Debug, PartialEq, Eq)]
pub enum Diagnostic {
    /// There is no such directory.
    DirectoryMissing { directory: String },
    /// A candidate file could not be read.
    FileUnreadable { path: String },
    /// The content of a file is not a record.
    Rejected { path: String, error: ParseError },
}

/// The mathematical value of a [`Diagnostic`].
pub ghost enum DiagnosticModel {
    DirectoryMissing { directory: Seq<char> },
    FileUnreadable { path: Seq<char> },
    Rejected { path: Seq<char>, error: ParseErrorModel },
}

impl View for Diagnostic {
    type V = DiagnosticModel;

    open spec fn view(&self) -> DiagnosticModel {
        match self {
            Diagnostic::DirectoryMissing { directory } => DiagnosticModel::DirectoryMissing {
                directory: directory@,
            },
            Diagnostic::FileUnreadable { path } => DiagnosticModel::FileUnreadable { path: path@ },
            Diagnostic::Rejected { path, error } => DiagnosticModel::Rejected {
                path: path@,
                error: error@,
            },
        }
    }
}

/// The records of a directory, and a diagnostic for each thing that went
/// wrong.
#[derive(Debug, PartialEq, Eq)]
pub struct LoadReport<T> {
    pub records: Vec<T>,
    pub diagnostics: Vec<Diagnostic>,
}

/// What examining one entry comes to.
pub ghost enum Verdict<R> {
    /// The entry is no candidate and is passed over in silence.
    Skipped,
    /// The entry holds a record.
    Record(R),
    /// The entry is dropped, with a diagnostic.
    Fault(DiagnosticModel),
}

/// What examining `entry` comes to.
pub open spec fn examined<T: FromJson>(
    entry: DirectoryEntryModel,
    record_name: Seq<char>,
) -> Verdict<T::V> {
    if !entry.is_candidate() {
        Verdict::Skipped
    } else {
        match entry.content {
            None => Verdict::Fault(DiagnosticModel::FileUnreadable { path: entry.path }),
            Some(text) => match decoded_text::<T>(text, record_name) {
                Ok(record) => Verdict::Record(record),
                Err(error) => Verdict::Fault(
                    DiagnosticModel::Rejected { path: entry.path, error },
                ),
            },
        }
    }
}

/// The records of the entries that hold one, in the order of the entries.
pub open spec fn records_of<T: FromJson>(
    entries: Seq<DirectoryEntryModel>,
    record_name: Seq<char>,
) -> Seq<T::V> {
    entries.filter(
        |entry: DirectoryEntryModel| examined::<T>(entry, record_name) is Record,
    ).map_values(|entry: DirectoryEntryModel| examined::<T>(entry, record_name)->Record_0)
}

/// The diagnostics of the entries that are dropped, in the order of the
/// entries.
pub open spec fn faults_of<T: FromJson>(
    entries: Seq<DirectoryEntryModel>,
    record_name: Seq<char>,
) -> Seq<DiagnosticModel> {
    entries.filter(
        |entry: DirectoryEntryModel| examined::<T>(entry, record_name) is Fault,
    ).map_values(|entry: DirectoryEntryModel| examined::<T>(entry, record_name)->Fault_0)
}

/// The records that loading a directory yields. A directory that is not there
/// yields none.
pub open spec fn loaded_records<T: FromJson>(
    directory: DirectoryModel,
    record_name: Seq<char>,
) -> Seq<T::V> {
    match directory.entries {
        Some(entries) => records_of::<T>(entries, record_name),
        None => Seq::empty(),
    }
}

/// The diagnostics that loading a directory yields. A directory that is not
/// there yields the one that says so.
pub open spec fn loaded_diagnostics<T: FromJson>(
    directory: DirectoryModel,
    record_name: Seq<char>,
) -> Seq<DiagnosticModel> {
    match directory.entries {
        Some(entries) => faults_of::<T>(entries, record_name),
        None => seq![DiagnosticModel::DirectoryMissing { directory: directory.path }],
    }
}

proof fn lemma_records_push<T: FromJson>(
    entries: Seq<DirectoryEntryModel>,
    record_name: Seq<char>,
    entry: DirectoryEntryModel,
)
    ensures
        records_of::<T>(entries.push(entry), record_name) == match examined::<T>(
            entry,
            record_name,
        ) {
            Verdict::Record(record) => records_of::<T>(entries, record_name).push(record),
            _ => records_of::<T>(entries, record_name),
        },
        faults_of::<T>(entries.push(entry), record_name) == match examined::<T>(
            entry,
            record_name,
        ) {
            Verdict::Fault(fault) => faults_of::<T>(entries, record_name).push(fault),
            _ => faults_of::<T>(entries, record_name),
        },
{
    let holds = |entry: DirectoryEntryModel| examined::<T>(entry, record_name) is Record;
    let fails = |entry: DirectoryEntryModel| examined::<T>(entry, record_name) is Fault;
    let records = records_of::<T>(entries, record_name);
    let faults = faults_of::<T>(entries, record_name);
    lemma_filter_push(entries, holds, entry);
    lemma_filter_push(entries, fails, entry);
    match examined::<T>(entry, record_name) {
        Verdict::Record(record) => {
            assert(records_of::<T>(entries.push(entry), record_name) =~= records.push(record));
        },
        Verdict::Fault(fault) => {
            assert(faults_of::<T>(entries.push(entry), record_name) =~= faults.push(fault));
        },
        Verdict::Skipped => {},
    }
}

/// Every candidate file gives a record or a diagnostic and never both; what is
/// no candidate gives neither. So a directory with `n` files that hold a
/// record and `m` that are dropped loads to exactly `n` records and `m`
/// diagnostics.
pub proof fn lemma_every_file_accounted<T: FromJson>(
    entries: Seq<DirectoryEntryModel>,
    record_name: Seq<char>,
)
    ensures
        records_of::<T>(entries, record_name).len() == entries.filter(
            |entry: DirectoryEntryModel| examined::<T>(entry, record_name) is Record,
        ).len(),
        faults_of::<T>(entries, record_name).len() == entries.filter(
            |entry: DirectoryEntryModel| examined::<T>(entry, record_name) is Fault,
        ).len(),
        records_of::<T>(entries, record_name).len() + faults_of::<T>(entries, record_name).len()
            == entries.filter(|entry: DirectoryEntryModel| entry.is_candidate()).len(),
    decreases entries.len(),
{
    let holds = |entry: DirectoryEntryModel| examined::<T>(entry, record_name) is Record;
    let fails = |entry: DirectoryEntryModel| examined::<T>(entry, record_name) is Fault;
    let candidate = |entry: DirectoryEntryModel| entry.is_candidate();
    if entries.len() == 0 {
        reveal(Seq::filter);
    } else {
        let front = entries.drop_last();
        let last = entries.last();
        assert(entries == front.push(last));
        lemma_every_file_accounted::<T>(front, record_name);
        lemma_filter_push(front, holds, last);
        lemma_filter_push(front, fails, last);
        lemma_filter_push(front, candidate, last);
    }
}

/// A file that is dropped or passed over, wherever it stands among the others,
/// changes none of their records.
pub proof fn lemma_fault_isolation<T: FromJson>(
    before: Seq<DirectoryEntryModel>,
    entry: DirectoryEntryModel,
    after: Seq<DirectoryEntryModel>,
    record_name: Seq<char>,
)
    requires
        !(examined::<T>(entry, record_name) is Record),
    ensures
        records_of::<T>(before.push(entry) + after, record_name) == records_of::<T>(
            before + after,
            record_name,
        ),
{
    let holds = |entry: DirectoryEntryModel| examined::<T>(entry, record_name) is Record;
    lemma_filter_push(before, holds, entry);
    Seq::filter_distributes_over_add(before.push(entry), after, holds);
    Seq::filter_distributes_over_add(before, after, holds);
}

/// A directory that is not there loads to no record and to one diagnostic,
/// which names the directory: its absence is reported, and is no failure.
pub proof fn lemma_missing_directory_is_empty<T: FromJson>(path: Seq<char>, record_name: Seq<char>)
    ensures
        loaded_records::<T>(DirectoryModel { path, entries: None }, record_name) == Seq::<
            T::V,
        >::empty(),
        loaded_diagnostics::<T>(DirectoryModel { path, entries: None }, record_name) == seq![
            DiagnosticModel::DirectoryMissing { directory: path },
        ],
{
}

/// Loads the records of a directory. An entry that is no candidate is passed
/// over in silence; a candidate that could not be read, or whose content is no
/// record, is dropped with a diagnostic, and loading goes on. `record_name`
/// names the records in the failure reported for a document that is no object.
pub fn load_json_from_directory<T: FromJson>(
    directory: &Directory,
    record_name: &'static str,
) -> (report: LoadReport<T>)
    ensures
        views(report.records@) == loaded_records::<T>(directory@, record_name@),
        views(report.diagnostics@) == loaded_diagnostics::<T>(directory@, record_name@),
        directory@.entries is None ==> report.records@.len() == 0,
{
    let mut records: Vec<T> = Vec::new();
    let mut diagnostics: Vec<Diagnostic> = Vec::new();
    match &directory.entries {
        None => {
            diagnostics.push(Diagnostic::DirectoryMissing { directory: directory.path.clone() });
            proof {
                lemma_views_empty::<T>();
                assert(views(diagnostics@) =~= seq![
                    DiagnosticModel::DirectoryMissing { directory: directory.path@ },
                ]);
            }
        },
        Some(entries) => {
            let ghost all = views(entries@);
            let mut i: usize = 0;
            proof {
                reveal(Seq::filter);
                lemma_views_empty::<T>();
                lemma_views_empty::<Diagnostic>();
                assert(all.take(0) == Seq::<DirectoryEntryModel>::empty());
                assert(records_of::<T>(all.take(0), record_name@) =~= Seq::<T::V>::empty());
                assert(faults_of::<T>(all.take(0), record_name@) =~= Seq::<
                    DiagnosticModel,
                >::empty());
            }
            while i < entries.len()
                invariant
                    i <= entries.len(),
                    all == views(entries@),
                    views(records@) == records_of::<T>(all.take(i as int), record_name@),
                    views(diagnostics@) == faults_of::<T>(all.take(i as int), record_name@),
                decreases entries.len() - i,
            {
                let entry = &entries[i];
                proof {
                    assert(all.take(i + 1) == all.take(i as int).push(entry@));
                    lemma_records_push::<T>(all.take(i as int), record_name@, entry@);
                }
                if entry.is_candidate() {
                    match &entry.content {
                        None => {
                            let fault = Diagnostic::FileUnreadable { path: entry.path.clone() };
                            proof {
                                lemma_views_push(diagnostics@, fault);
                            }
                            diagnostics.push(fault);
                        },
                        Some(text) => match decode::<T>(text.as_str(), record_name) {
                            Ok(record) => {
                                proof {
                                    lemma_views_push(records@, record);
                                }
                                records.push(record);
                            },
                            Err(error) => {
                                let fault = Diagnostic::Rejected {
                                    path: entry.path.clone(),
                                    error,
                                };
                                proof {
                                    lemma_views_push(diagnostics@, fault);
                                }
                                diagnostics.push(fault);
                            },
                        },
                    }
                }
                i += 1;
            }
            proof {
                assert(all.take(i as int) == all);
            }
        },
    }
    LoadReport { records, diagnostics }
}

/// Loads the records of a directory and trims each of them to a configuration.
/// Trimming removes no record and adds no diagnostic.
pub fn load_trimmed_from_directory<T: FromJson + Trim>(
    directory: &Directory,
    record_name: &'static str,
    config: &FilterConfig,
) -> (report: LoadReport<T>)
    ensures
        views(report.records@) == trimmed_all::<T>(
            loaded_records::<T>(directory@, record_name@),
            config@,
        ),
        views(report.diagnostics@) == loaded_diagnostics::<T>(directory@, record_name@),
        directory@.entries is None ==> report.records@.len() == 0,
{
    let report = load_json_from_directory::<T>(directory, record_name);
    LoadReport { records: trim_all(report.records, config), diagnostics: report.diagnostics }
}

} // verus!
