//! The record of one partial checkout: where it came from, which paths it
//! selects, and the commit it was last brought to.

use vstd::prelude::*;
use crate::path_set::{adds_any, with_paths, PathSet};
use crate::text::{optional_text, views};

verus! {

/// The directory, below the root of a working copy, that holds the record.
pub const METADATA_DIRECTORY: &'static str = ".gitpartial";

/// The name of the record file in that directory.
pub const METADATA_FILE: &'static str = "metadata.json";

/// A record as plain mathematics.
pub struct MetadataView {
    /// The origin of the repository.
    pub remote_url: Seq<char>,
    /// The selected paths in the order of their insertion, none twice.
    pub paths: Seq<Seq<char>>,
    /// The commit last synchronised to, once one was seen.
    pub last_commit: Option<Seq<char>>,
}

/// The record of a partial checkout.
#[derive(Debug, PartialEq, Eq)]
pub struct RepositoryMetadata {
    /// The origin of the repository.
    pub remote_url: String,
    /// The paths that are checked out.
    pub checked_out_paths: PathSet,
    /// The commit last synchronised to, once one was seen.
    pub last_commit: Option<String>,
}

impl View for RepositoryMetadata {
    type V = MetadataView;

    open spec fn view(&self) -> MetadataView {
        MetadataView {
            remote_url: self.remote_url@,
            paths: self.checked_out_paths@,
            last_commit: optional_text(self.last_commit),
        }
    }
}

impl Clone for RepositoryMetadata {
    fn clone(&self) -> (copy: Self)
        ensures
            copy@ == self@,
    {
        RepositoryMetadata {
            remote_url: self.remote_url.clone(),
            checked_out_paths: self.checked_out_paths.clone(),
            last_commit: match &self.last_commit {
                Some(commit) => Some(commit.clone()),
                None => None,
            },
        }
    }
}

/// The view of a record that may not be there.
pub open spec fn optional_view(record: Option<RepositoryMetadata>) -> Option<MetadataView> {
    match record {
        Some(record) => Some(record@),
        None => None,
    }
}

/// The place of a working copy's record, as the components of its path: the
/// root, the directory and the file.
pub open spec fn record_location(root: Seq<char>) -> Seq<Seq<char>> {
    seq![root, METADATA_DIRECTORY@, METADATA_FILE@]
}

/// The record made of these parts: the paths in their order, each once.
pub open spec fn rebuilt(
    remote_url: Seq<char>,
    paths: Seq<Seq<char>>,
    last_commit: Option<Seq<char>>,
) -> MetadataView {
    MetadataView { remote_url, paths: with_paths(Seq::empty(), paths), last_commit }
}

/// A list without duplicates, added to nothing, comes out as it went in.
pub proof fn lemma_distinct_paths_stay(paths: Seq<Seq<char>>)
    requires
        paths.no_duplicates(),
    ensures
        with_paths(Seq::empty(), paths) == paths,
    decreases paths.len(),
{
    if paths.len() > 0 {
        let front = paths.drop_last();
        lemma_distinct_paths_stay(front);
        assert(!front.contains(paths.last())) by {
            if front.contains(paths.last()) {
                let i = choose|i: int| 0 <= i < front.len() && front[i] == paths.last();
                assert(paths[i] == paths[paths.len() - 1]);
            }
        }
    }
}

/// A record taken apart and rebuilt from its parts is the same record, with
/// or without a commit: nothing of it is lost by storing its three parts.
pub proof fn law_parts_rebuild_the_record(record: MetadataView)
    requires
        record.paths.no_duplicates(),
    ensures
        rebuilt(record.remote_url, record.paths, record.last_commit) == record,
{
    lemma_distinct_paths_stay(record.paths);
}

impl RepositoryMetadata {
    /// The record made of these parts. A path that is given twice is kept
    /// once.
    pub fn from_parts(remote_url: String, paths: &[String], last_commit: Option<String>) -> (record:
        Self)
        ensures
            record@ == rebuilt(remote_url@, views(paths@), optional_text(last_commit)),
    {
        let mut record = RepositoryMetadata::new(remote_url);
        record.add_paths(paths);
        record.last_commit = last_commit;
        record
    }

    /// A fresh record for a repository: no path selected, no commit seen.
    pub fn new(remote_url: String) -> (record: Self)
        ensures
            record@ == (MetadataView {
                remote_url: remote_url@,
                paths: Seq::empty(),
                last_commit: None,
            }),
    {
        RepositoryMetadata { remote_url, checked_out_paths: PathSet::new(), last_commit: None }
    }

    /// Adds paths to the selection. A path that is there already changes nothing.
    pub fn add_paths(&mut self, paths: &[String])
        ensures
            final(self)@ == (MetadataView {
                paths: with_paths(old(self)@.paths, views(paths@)),
                ..old(self)@
            }),
    {
        let mut i: usize = 0;
        while i < paths.len()
            invariant
                i <= paths@.len(),
                self@ == (MetadataView {
                    paths: with_paths(old(self)@.paths, views(paths@).take(i as int)),
                    ..old(self)@
                }),
            decreases paths@.len() - i,
        {
            proof {
                let next = views(paths@).take(i + 1);
                assert(next.drop_last() =~= views(paths@).take(i as int));
            }
            self.checked_out_paths.insert(paths[i].clone());
            i += 1;
        }
        assert(views(paths@).take(paths@.len() as int) =~= views(paths@));
    }

    /// Whether any of the paths is missing from the selection: whether adding
    /// them would change the record.
    pub fn lacks_any_of(&self, paths: &[String]) -> (any: bool)
        ensures
            any == adds_any(self@.paths, views(paths@)),
    {
        let mut i: usize = 0;
        while i < paths.len()
            invariant
                i <= paths@.len(),
                forall|j: int| 0 <= j < i ==> self@.paths.contains(#[trigger] views(paths@)[j]),
            decreases paths@.len() - i,
        {
            if !self.checked_out_paths.contains(paths[i].as_str()) {
                assert(!self@.paths.contains(views(paths@)[i as int]));
                return true;
            }
            i += 1;
        }
        false
    }

    /// Records the commit that the working copy was brought to.
    pub fn set_last_commit(&mut self, commit_sha: &str)
        ensures
            final(self)@ == (MetadataView { last_commit: Some(commit_sha@), ..old(self)@ }),
    {
        self.last_commit = Some(commit_sha.to_owned());
    }

    /// Where the record of a working copy is kept, as path components for the
    /// platform to join.
    pub fn metadata_path(repo_path: &str) -> (location: Vec<String>)
        ensures
            views(location@) == record_location(repo_path@),
    {
        let mut location: Vec<String> = Vec::new();
        location.push(repo_path.to_owned());
        location.push(METADATA_DIRECTORY.to_owned());
        location.push(METADATA_FILE.to_owned());
        location
    }
}

} // verus!
