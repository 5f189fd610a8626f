//! Trimming the translation and flavor-text collections of decoded records
//! to the languages and versions of a configuration.
//!
//! Trimming never rejects a record: it only removes entries from the
//! collections of a record, and a record whose collections become empty is
//! still there.

use vstd::prelude::*;
use crate::text::contains_text;
use crate::text::lemma_views_empty;
use crate::text::lemma_views_push;
use crate::text::views;

verus! {

/// The languages and the versions, or groups of versions, whose entries are
/// kept.
#[derive(Debug, PartialEq, Eq)]
pub struct FilterConfig {
    pub allowed_language_codes: Vec<String>,
    pub allowed_version_or_group_names: Vec<String>,
}

/// The mathematical value of a [`FilterConfig`]: two sets of names.
pub ghost struct FilterModel {
    pub languages: Set<Seq<char>>,
    pub versions: Set<Seq<char>>,
}

impl View for FilterConfig {
    type V = FilterModel;

    open spec fn view(&self) -> FilterModel {
        FilterModel {
            languages: views(self.allowed_language_codes@).to_set(),
            versions: views(self.allowed_version_or_group_names@).to_set(),
        }
    }
}

impl Clone for FilterConfig {
    fn clone(&self) -> (r: Self)
        ensures
            r@ == self@,
    {
        let allowed_language_codes = self.allowed_language_codes.clone();
        let allowed_version_or_group_names = self.allowed_version_or_group_names.clone();
        proof {
            assert(views(allowed_language_codes@) =~= views(self.allowed_language_codes@));
            assert(views(allowed_version_or_group_names@) =~= views(
                self.allowed_version_or_group_names@,
            ));
        }
        FilterConfig { allowed_language_codes, allowed_version_or_group_names }
    }
}

impl FilterConfig {
    pub fn new(
        allowed_language_codes: Vec<String>,
        allowed_version_or_group_names: Vec<String>,
    ) -> (r: Self)
        ensures
            r@.languages == views(allowed_language_codes@).to_set(),
            r@.versions == views(allowed_version_or_group_names@).to_set(),
    {
        FilterConfig { allowed_language_codes, allowed_version_or_group_names }
    }

    /// The configuration of the Scarlet and Violet games: Japanese and
    /// English, the group `scarlet-violet` and its two versions.
    pub fn scarlet_violet() -> (r: Self)
        ensures
            r@.languages == set!["ja"@, "en"@],
            r@.versions == set!["scarlet-violet"@, "scarlet"@, "violet"@],
    {
        let mut languages: Vec<String> = Vec::new();
        languages.push("ja".to_owned());
        languages.push("en".to_owned());
        let mut versions: Vec<String> = Vec::new();
        versions.push("scarlet-violet".to_owned());
        versions.push("scarlet".to_owned());
        versions.push("violet".to_owned());
        proof {
            let l = views(languages@);
            assert(l[0] == "ja"@ && l[1] == "en"@);
            assert(l.to_set() =~= set!["ja"@, "en"@]);
            let v = views(versions@);
            assert(v[0] == "scarlet-violet"@ && v[1] == "scarlet"@ && v[2] == "violet"@);
            assert(v.to_set() =~= set!["scarlet-violet"@, "scarlet"@, "violet"@]);
        }
        FilterConfig { allowed_language_codes: languages, allowed_version_or_group_names: versions }
    }

    /// Whether entries in the language of this code are kept.
    pub fn allows_language(&self, code: &str) -> (r: bool)
        ensures
            r == self@.languages.contains(code@),
    {
        contains_text(&self.allowed_language_codes, code)
    }

    /// Whether entries of the version, or group of versions, of this name
    /// are kept.
    pub fn allows_version(&self, name: &str) -> (r: bool)
        ensures
            r == self@.versions.contains(name@),
    {
        contains_text(&self.allowed_version_or_group_names, name)
    }
}

/// An entry of a collection that a configuration keeps or removes.
pub trait Entry: View + Sized {
    /// Whether the configuration keeps the entry.
    spec fn kept(entry: Self::V, config: FilterModel) -> bool;

    fn is_kept(&self, config: &FilterConfig) -> (r: bool)
        ensures
            r == Self::kept(self@, config@),
    ;
}

/// The entries that a configuration keeps, in their order.
pub open spec fn retained<T: Entry>(entries: Seq<T::V>, config: FilterModel) -> Seq<T::V> {
    entries.filter(|entry: T::V| T::kept(entry, config))
}

/// Filtering a sequence with one more element.
pub proof fn lemma_filter_push<A>(s: Seq<A>, keep: spec_fn(A) -> bool, x: A)
    ensures
        s.push(x).filter(keep) == if keep(x) {
            s.filter(keep).push(x)
        } else {
            s.filter(keep)
        },
{
    reveal(Seq::filter);
    assert(s.push(x).drop_last() == s);
}

/// Filtering what was filtered changes nothing.
pub proof fn lemma_filter_idempotent<A>(s: Seq<A>, keep: spec_fn(A) -> bool)
    ensures
        s.filter(keep).filter(keep) == s.filter(keep),
    decreases s.len(),
{
    reveal(Seq::filter);
    if s.len() > 0 {
        lemma_filter_idempotent(s.drop_last(), keep);
        if keep(s.last()) {
            lemma_filter_push(s.drop_last().filter(keep), keep, s.last());
        }
    }
}

/// Removes the entries that the configuration does not keep.
pub fn retain<T: Entry>(entries: Vec<T>, config: &FilterConfig) -> (r: Vec<T>)
    ensures
        views(r@) == retained::<T>(views(entries@), config@),
        r@.len() <= entries@.len(),
{
    let ghost all = views(entries@);
    let ghost keep = |entry: T::V| T::kept(entry, config@);
    let mut out: Vec<T> = Vec::new();
    proof {
        reveal(Seq::filter);
        lemma_views_empty::<T>();
        assert(all.take(0) == Seq::<T::V>::empty());
    }
    for entry in it: entries
        invariant
            views(it.seq()) == all,
            keep == |entry: T::V| T::kept(entry, config@),
            views(out@) == all.take(it.index() as int).filter(keep),
    {
        proof {
            let n = it.index() as int;
            assert(all.take(n + 1) == all.take(n).push(entry@));
            lemma_filter_push(all.take(n), keep, entry@);
            lemma_views_push(out@, entry);
        }
        if entry.is_kept(config) {
            out.push(entry);
        }
    }
    proof {
        assert(all.take(all.len() as int) == all);
        all.lemma_filter_len(keep);
        assert(views(out@).len() == out@.len());
        assert(all.len() == entries@.len());
    }
    out
}

/// A record whose collections a configuration trims.
pub trait Trim: View + Sized {
    /// The record with the entries removed that the configuration does not
    /// keep.
    spec fn trimmed(record: Self::V, config: FilterModel) -> Self::V;

    fn trim(self, config: &FilterConfig) -> (r: Self)
        ensures
            r@ == Self::trimmed(self@, config@),
    ;

    /// Trimming twice with one configuration gives what trimming once gives.
    proof fn lemma_trim_idempotent(record: Self::V, config: FilterModel)
        ensures
            Self::trimmed(Self::trimmed(record, config), config) == Self::trimmed(record, config),
    ;
}

/// Every record of a list, trimmed; none is removed.
pub open spec fn trimmed_all<T: Trim>(records: Seq<T::V>, config: FilterModel) -> Seq<T::V> {
    Seq::new(records.len(), |i: int| T::trimmed(records[i], config))
}

/// Trimming a list twice with one configuration gives what trimming it once
/// gives.
pub proof fn lemma_trimmed_all_idempotent<T: Trim>(records: Seq<T::V>, config: FilterModel)
    ensures
        trimmed_all::<T>(trimmed_all::<T>(records, config), config) == trimmed_all::<T>(
            records,
            config,
        ),
{
    let once = trimmed_all::<T>(records, config);
    assert forall|i: int| 0 <= i < records.len() implies T::trimmed(once[i], config)
        == once[i] by {
        T::lemma_trim_idempotent(records[i], config);
    }
    assert(trimmed_all::<T>(once, config) =~= once);
}

/// Trims every record of a list.
pub fn trim_all<T: Trim>(records: Vec<T>, config: &FilterConfig) -> (r: Vec<T>)
    ensures
        views(r@) == trimmed_all::<T>(views(records@), config@),
        r@.len() == records@.len(),
{
    let ghost all = views(records@);
    let mut out: Vec<T> = Vec::new();
    for record in it: records
        invariant
            views(it.seq()) == all,
            out@.len() == it.index(),
            forall|k: int| 0 <= k < out@.len() ==> out@[k]@ == T::trimmed(all[k], config@),
    {
        assert(all[it.index() as int] == record@);
        out.push(record.trim(config));
    }
    proof {
        assert(all.len() == records@.len());
        assert(views(out@) =~= trimmed_all::<T>(all, config@));
    }
    out
}

} // verus!
