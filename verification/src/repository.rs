//! A working copy as one value: its root and its record, with the flows that
//! open one, make one, and add paths to one.

use vstd::prelude::*;
use crate::backend::{
    asked, directory_reply, done_reply, exists_reply, git_reply, metadata_reply,
    read_directory_reply, read_done_reply, read_exists_reply, read_git_reply,
    read_metadata_reply, run, DirectoryState, Reply, ReplyView, Request, RequestView, Step,
    StepView,
};
use crate::error::{SyncError, SyncErrorView};
use crate::git::commands::{
    checkout_args, checkout_command, get_head_commit, head_commit_args, in_dir, selection_args,
};
use crate::git::sparse::{
    clone_sparse, clone_steps, flag_args, flag_command, flag_reply, git_entry, git_entry_path,
    read_flag_reply, request_views, set_sparse_paths,
};
use crate::metadata::{record_location, MetadataView, RepositoryMetadata};
use crate::path_set::{
    adds_any, lemma_with_paths, lemma_with_paths_changes, lemma_with_paths_is_union, with_paths,
};
use crate::text::{copy_strings, views};

verus! {

/// A partially checked out repository.
#[derive(Debug, PartialEq, Eq)]
pub struct Repository {
    path: String,
    metadata: RepositoryMetadata,
}

/// A `Repository` as plain mathematics.
pub struct RepositoryView {
    /// The root of the working copy.
    pub path: Seq<char>,
    /// Its record.
    pub metadata: MetadataView,
}

impl View for Repository {
    type V = RepositoryView;

    closed spec fn view(&self) -> RepositoryView {
        RepositoryView { path: self.path@, metadata: self.metadata@ }
    }
}

/// Where the opening of a working copy stands: what was asked of the driver last.
#[derive(Clone, Copy, Debug, PartialEq, Eq, Structural)]
pub enum OpenPhase {
    /// Nothing yet.
    Created,
    /// Whether the directory has a `.git` entry.
    Probing,
    /// To read the record.
    Loading,
}

/// The opening of a working copy under way.
#[derive(Debug, PartialEq, Eq)]
pub struct OpenFlow {
    /// What was asked of the driver last.
    pub phase: OpenPhase,
    /// The directory to open.
    pub path: String,
}

/// An `OpenFlow` as plain mathematics.
pub struct OpenFlowView {
    pub phase: OpenPhase,
    pub path: Seq<char>,
}

impl View for OpenFlow {
    type V = OpenFlowView;

    open spec fn view(&self) -> OpenFlowView {
        OpenFlowView { phase: self.phase, path: self.path@ }
    }
}

/// The opening at its start.
pub open spec fn open_start(path: Seq<char>) -> OpenFlowView {
    OpenFlowView { phase: OpenPhase::Created, path }
}

/// One step of opening a working copy: the directory must hold a `.git` entry,
/// and then its record is read.
pub open spec fn open_step(flow: OpenFlowView, reply: ReplyView) -> StepView<
    OpenFlowView,
    RepositoryView,
> {
    match flow.phase {
        OpenPhase::Created => StepView::Continue(
            OpenFlowView { phase: OpenPhase::Probing, ..flow },
            RequestView::Exists(git_entry(flow.path)),
        ),
        OpenPhase::Probing => match exists_reply(reply) {
            Err(e) => StepView::Finished(Err(e)),
            Ok(false) => StepView::Finished(Err(SyncErrorView::NotAGitRepository(flow.path))),
            Ok(true) => StepView::Continue(
                OpenFlowView { phase: OpenPhase::Loading, ..flow },
                RequestView::LoadMetadata(record_location(flow.path)),
            ),
        },
        OpenPhase::Loading => match metadata_reply(reply) {
            Err(e) => StepView::Finished(Err(e)),
            Ok(metadata) => StepView::Finished(Ok(RepositoryView { path: flow.path, metadata })),
        },
    }
}

/// Where the making of a working copy stands: what was asked of the driver last.
#[derive(Clone, Copy, Debug, PartialEq, Eq, Structural)]
pub enum MakePhase {
    /// Nothing yet.
    Created,
    /// A look at the target.
    Inspecting,
    /// To create the target directory.
    Creating,
    /// To clone into the target.
    Cloning,
    /// To switch sparse checkout on.
    Enabling,
    /// To set git's selection.
    Selecting,
    /// To update the working tree.
    CheckingOut,
    /// To print the commit of the working copy.
    ReadingHead,
    /// To write the record.
    Saving,
}

/// The making of a working copy under way.
#[derive(Debug, PartialEq, Eq)]
pub struct MakeFlow {
    /// What was asked of the driver last.
    pub phase: MakePhase,
    /// The directory of the new working copy.
    pub target: String,
    /// The paths asked for, as they were given.
    pub paths: Vec<String>,
    /// The record that will be written.
    pub record: RepositoryMetadata,
}

/// A `MakeFlow` as plain mathematics.
pub struct MakeFlowView {
    pub phase: MakePhase,
    pub target: Seq<char>,
    pub paths: Seq<Seq<char>>,
    pub record: MetadataView,
}

impl View for MakeFlow {
    type V = MakeFlowView;

    open spec fn view(&self) -> MakeFlowView {
        MakeFlowView {
            phase: self.phase,
            target: self.target@,
            paths: views(self.paths@),
            record: self.record@,
        }
    }
}

/// The making at its start: the record holds the origin and the paths asked
/// for, each once, and no commit.
pub open spec fn make_start(url: Seq<char>, target: Seq<char>, paths: Seq<Seq<char>>) -> MakeFlowView {
    MakeFlowView {
        phase: MakePhase::Created,
        target,
        paths,
        record: MetadataView {
            remote_url: url,
            paths: with_paths(Seq::empty(), paths),
            last_commit: None,
        },
    }
}

/// One step of making a working copy.
///
/// With no path asked for the flow ends at once. A target that holds anything
/// ends it before git is asked for anything; a missing one is created. Then
/// come the steps of a sparse clone in the target, the selection of the paths
/// asked for, the update of the working tree, the commit, and the record. The
/// first failure ends the flow; nothing is undone.
pub open spec fn make_step(flow: MakeFlowView, reply: ReplyView) -> StepView<
    MakeFlowView,
    RepositoryView,
> {
    let in_place = clone_steps(flow.record.remote_url, flow.target, true);
    match flow.phase {
        MakePhase::Created => if flow.paths.len() == 0 {
            StepView::Finished(Err(SyncErrorView::NoPathsRequested))
        } else {
            StepView::Continue(
                MakeFlowView { phase: MakePhase::Inspecting, ..flow },
                RequestView::InspectDirectory(flow.target),
            )
        },
        MakePhase::Inspecting => match directory_reply(reply) {
            Err(e) => StepView::Finished(Err(e)),
            Ok(DirectoryState::Occupied) => StepView::Finished(
                Err(SyncErrorView::DestinationNotEmpty(flow.target)),
            ),
            Ok(DirectoryState::Missing) => StepView::Continue(
                MakeFlowView { phase: MakePhase::Creating, ..flow },
                clone_steps(flow.record.remote_url, flow.target, false)[0],
            ),
            Ok(DirectoryState::Empty) => StepView::Continue(
                MakeFlowView { phase: MakePhase::Cloning, ..flow },
                in_place[0],
            ),
        },
        MakePhase::Creating => match done_reply(reply) {
            Err(e) => StepView::Finished(Err(e)),
            Ok(_) => StepView::Continue(
                MakeFlowView { phase: MakePhase::Cloning, ..flow },
                in_place[0],
            ),
        },
        MakePhase::Cloning => match git_reply(reply) {
            Err(e) => StepView::Finished(Err(e)),
            Ok(_) => StepView::Continue(
                MakeFlowView { phase: MakePhase::Enabling, ..flow },
                in_place[1],
            ),
        },
        MakePhase::Enabling => match git_reply(reply) {
            Err(e) => StepView::Finished(Err(e)),
            Ok(_) => StepView::Continue(
                MakeFlowView { phase: MakePhase::Selecting, ..flow },
                RequestView::Git(in_dir(flow.target, selection_args(flow.paths))),
            ),
        },
        MakePhase::Selecting => match git_reply(reply) {
            Err(e) => StepView::Finished(Err(e)),
            Ok(_) => StepView::Continue(
                MakeFlowView { phase: MakePhase::CheckingOut, ..flow },
                RequestView::Git(in_dir(flow.target, checkout_args())),
            ),
        },
        MakePhase::CheckingOut => match git_reply(reply) {
            Err(e) => StepView::Finished(Err(e)),
            Ok(_) => StepView::Continue(
                MakeFlowView { phase: MakePhase::ReadingHead, ..flow },
                RequestView::Git(in_dir(flow.target, head_commit_args())),
            ),
        },
        MakePhase::ReadingHead => match git_reply(reply) {
            Err(e) => StepView::Finished(Err(e)),
            Ok(commit) => {
                let record = MetadataView { last_commit: Some(commit), ..flow.record };
                StepView::Continue(
                    MakeFlowView { phase: MakePhase::Saving, record, ..flow },
                    RequestView::SaveMetadata(record_location(flow.target), record),
                )
            },
        },
        MakePhase::Saving => match done_reply(reply) {
            Err(e) => StepView::Finished(Err(e)),
            Ok(_) => StepView::Finished(
                Ok(RepositoryView { path: flow.target, metadata: flow.record }),
            ),
        },
    }
}

/// Where the adding of paths stands: what was asked of the driver last.
#[derive(Clone, Copy, Debug, PartialEq, Eq, Structural)]
pub enum AddPhase {
    /// Nothing yet.
    Created,
    /// Whether the working copy has a `.git` entry.
    Probing,
    /// To print the sparse-checkout switch.
    ReadingFlag,
    /// To set git's selection to the merged paths.
    Selecting,
    /// To update the working tree.
    CheckingOut,
    /// To write the record.
    Saving,
}

/// The adding of paths to a working copy under way.
#[derive(Debug, PartialEq, Eq)]
pub struct AddFlow {
    /// What was asked of the driver last.
    pub phase: AddPhase,
    /// The working copy.
    pub repository: Repository,
    /// The paths to add, as they were given.
    pub paths: Vec<String>,
}

/// An `AddFlow` as plain mathematics.
pub struct AddFlowView {
    pub phase: AddPhase,
    pub repository: RepositoryView,
    pub paths: Seq<Seq<char>>,
}

impl View for AddFlow {
    type V = AddFlowView;

    open spec fn view(&self) -> AddFlowView {
        AddFlowView { phase: self.phase, repository: self.repository@, paths: views(self.paths@) }
    }
}

/// The adding at its start.
pub open spec fn add_start(repository: RepositoryView, paths: Seq<Seq<char>>) -> AddFlowView {
    AddFlowView { phase: AddPhase::Created, repository, paths }
}

/// A working copy with more paths selected.
pub open spec fn grown(repository: RepositoryView, paths: Seq<Seq<char>>) -> RepositoryView {
    RepositoryView {
        metadata: MetadataView {
            paths: with_paths(repository.metadata.paths, paths),
            ..repository.metadata
        },
        ..repository
    }
}

/// One step of adding paths.
///
/// The working copy must prove sparse. If the paths bring nothing that the
/// record lacks, the flow ends there: git is not asked to select, and nothing
/// is written. Otherwise git selects what the record holds together with the
/// new paths and updates the working tree; only then does the record take the
/// new paths, and it is written. The first failure ends the flow.
pub open spec fn add_step(flow: AddFlowView, reply: ReplyView) -> StepView<
    AddFlowView,
    RepositoryView,
> {
    let root = flow.repository.path;
    match flow.phase {
        AddPhase::Created => StepView::Continue(
            AddFlowView { phase: AddPhase::Probing, ..flow },
            RequestView::Exists(git_entry(root)),
        ),
        AddPhase::Probing => match exists_reply(reply) {
            Err(e) => StepView::Finished(Err(e)),
            Ok(false) => StepView::Finished(Err(SyncErrorView::NotAPartialCheckout)),
            Ok(true) => StepView::Continue(
                AddFlowView { phase: AddPhase::ReadingFlag, ..flow },
                RequestView::Git(in_dir(root, flag_args())),
            ),
        },
        AddPhase::ReadingFlag => match flag_reply(reply) {
            Err(e) => StepView::Finished(Err(e)),
            Ok(false) => StepView::Finished(Err(SyncErrorView::NotAPartialCheckout)),
            Ok(true) => if adds_any(flow.repository.metadata.paths, flow.paths) {
                StepView::Continue(
                    AddFlowView { phase: AddPhase::Selecting, ..flow },
                    RequestView::Git(
                        in_dir(
                            root,
                            selection_args(with_paths(flow.repository.metadata.paths, flow.paths)),
                        ),
                    ),
                )
            } else {
                StepView::Finished(Ok(flow.repository))
            },
        },
        AddPhase::Selecting => match git_reply(reply) {
            Err(e) => StepView::Finished(Err(e)),
            Ok(_) => StepView::Continue(
                AddFlowView { phase: AddPhase::CheckingOut, ..flow },
                RequestView::Git(in_dir(root, checkout_args())),
            ),
        },
        AddPhase::CheckingOut => match git_reply(reply) {
            Err(e) => StepView::Finished(Err(e)),
            Ok(_) => {
                let repository = grown(flow.repository, flow.paths);
                StepView::Continue(
                    AddFlowView { phase: AddPhase::Saving, repository, ..flow },
                    RequestView::SaveMetadata(record_location(root), repository.metadata),
                )
            },
        },
        AddPhase::Saving => match done_reply(reply) {
            Err(e) => StepView::Finished(Err(e)),
            Ok(_) => StepView::Finished(Ok(flow.repository)),
        },
    }
}

/// One step of a sparse clone, taken out of the list of them.
fn clone_request(url: &str, target: &str, target_exists: bool, index: usize) -> (request: Request)
    requires
        index < 2,
    ensures
        request@ == clone_steps(url@, target@, target_exists)[index as int],
{
    let mut steps = clone_sparse(url, target, target_exists);
    assert(request_views(steps@).len() == steps@.len());
    steps.remove(index)
}

impl OpenFlow {
    /// An opening that has asked for nothing yet.
    pub fn new(path: &str) -> (flow: Self)
        ensures
            flow@ == open_start(path@),
    {
        OpenFlow { phase: OpenPhase::Created, path: path.to_owned() }
    }
}

impl MakeFlow {
    /// A making that has asked for nothing yet.
    pub fn new(url: &str, target_path: &str, paths: &[String]) -> (flow: Self)
        ensures
            flow@ == make_start(url@, target_path@, views(paths@)),
    {
        let mut record = RepositoryMetadata::new(url.to_owned());
        record.add_paths(paths);
        MakeFlow {
            phase: MakePhase::Created,
            target: target_path.to_owned(),
            paths: copy_strings(paths),
            record,
        }
    }
}

impl AddFlow {
    /// An adding that has asked for nothing yet.
    pub fn new(repository: Repository, paths: &[String]) -> (flow: Self)
        ensures
            flow@ == add_start(repository@, views(paths@)),
    {
        AddFlow { phase: AddPhase::Created, repository, paths: copy_strings(paths) }
    }
}

impl Repository {
    /// Takes the opening of an existing working copy one step further. Start
    /// with `OpenFlow::new` and `Reply::Start`.
    pub fn open(flow: OpenFlow, reply: Reply) -> (step: Step<OpenFlow, Repository>)
        ensures
            step@ == open_step(flow@, reply@),
    {
        let OpenFlow { phase, path } = flow;
        match phase {
            OpenPhase::Created => {
                let request = Request::Exists(git_entry_path(path.as_str()));
                Step::Continue(OpenFlow { phase: OpenPhase::Probing, path }, request)
            },
            OpenPhase::Probing => match read_exists_reply(&reply) {
                Err(e) => Step::Finished(Err(e)),
                Ok(false) => Step::Finished(Err(SyncError::NotAGitRepository(path))),
                Ok(true) => {
                    let request = Request::LoadMetadata(
                        RepositoryMetadata::metadata_path(path.as_str()),
                    );
                    Step::Continue(OpenFlow { phase: OpenPhase::Loading, path }, request)
                },
            },
            OpenPhase::Loading => match read_metadata_reply(reply) {
                Err(e) => Step::Finished(Err(e)),
                Ok(metadata) => Step::Finished(Ok(Repository { path, metadata })),
            },
        }
    }

    /// Takes the making of a new working copy one step further. Start with
    /// `MakeFlow::new` and `Reply::Start`.
    pub fn clone(flow: MakeFlow, reply: Reply) -> (step: Step<MakeFlow, Repository>)
        ensures
            step@ == make_step(flow@, reply@),
    {
        let MakeFlow { phase, target, paths, record } = flow;
        match phase {
            MakePhase::Created => {
                if paths.len() == 0 {
                    Step::Finished(Err(SyncError::NoPathsRequested))
                } else {
                    let request = Request::InspectDirectory(target.clone());
                    Step::Continue(
                        MakeFlow { phase: MakePhase::Inspecting, target, paths, record },
                        request,
                    )
                }
            },
            MakePhase::Inspecting => match read_directory_reply(&reply) {
                Err(e) => Step::Finished(Err(e)),
                Ok(DirectoryState::Occupied) => Step::Finished(
                    Err(SyncError::DestinationNotEmpty(target)),
                ),
                Ok(DirectoryState::Missing) => {
                    let request = clone_request(
                        record.remote_url.as_str(),
                        target.as_str(),
                        false,
                        0,
                    );
                    Step::Continue(
                        MakeFlow { phase: MakePhase::Creating, target, paths, record },
                        request,
                    )
                },
                Ok(DirectoryState::Empty) => {
                    let request = clone_request(
                        record.remote_url.as_str(),
                        target.as_str(),
                        true,
                        0,
                    );
                    Step::Continue(
                        MakeFlow { phase: MakePhase::Cloning, target, paths, record },
                        request,
                    )
                },
            },
            MakePhase::Creating => match read_done_reply(&reply) {
                Err(e) => Step::Finished(Err(e)),
                Ok(_) => {
                    let request = clone_request(
                        record.remote_url.as_str(),
                        target.as_str(),
                        true,
                        0,
                    );
                    Step::Continue(
                        MakeFlow { phase: MakePhase::Cloning, target, paths, record },
                        request,
                    )
                },
            },
            MakePhase::Cloning => match read_git_reply(&reply) {
                Err(e) => Step::Finished(Err(e)),
                Ok(_) => {
                    let request = clone_request(
                        record.remote_url.as_str(),
                        target.as_str(),
                        true,
                        1,
                    );
                    Step::Continue(
                        MakeFlow { phase: MakePhase::Enabling, target, paths, record },
                        request,
                    )
                },
            },
            MakePhase::Enabling => match read_git_reply(&reply) {
                Err(e) => Step::Finished(Err(e)),
                Ok(_) => {
                    let request = Request::Git(set_sparse_paths(target.as_str(), paths.as_slice()));
                    Step::Continue(
                        MakeFlow { phase: MakePhase::Selecting, target, paths, record },
                        request,
                    )
                },
            },
            MakePhase::Selecting => match read_git_reply(&reply) {
                Err(e) => Step::Finished(Err(e)),
                Ok(_) => {
                    let request = Request::Git(checkout_command(target.as_str()));
                    Step::Continue(
                        MakeFlow { phase: MakePhase::CheckingOut, target, paths, record },
                        request,
                    )
                },
            },
            MakePhase::CheckingOut => match read_git_reply(&reply) {
                Err(e) => Step::Finished(Err(e)),
                Ok(_) => {
                    let request = Request::Git(get_head_commit(target.as_str()));
                    Step::Continue(
                        MakeFlow { phase: MakePhase::ReadingHead, target, paths, record },
                        request,
                    )
                },
            },
            MakePhase::ReadingHead => match read_git_reply(&reply) {
                Err(e) => Step::Finished(Err(e)),
                Ok(commit) => {
                    let mut record = record;
                    record.set_last_commit(commit.as_str());
                    let request = Request::SaveMetadata(
                        RepositoryMetadata::metadata_path(target.as_str()),
                        record.clone(),
                    );
                    Step::Continue(
                        MakeFlow { phase: MakePhase::Saving, target, paths, record },
                        request,
                    )
                },
            },
            MakePhase::Saving => match read_done_reply(&reply) {
                Err(e) => Step::Finished(Err(e)),
                Ok(_) => Step::Finished(Ok(Repository { path: target, metadata: record })),
            },
        }
    }

    /// Takes the adding of paths to a working copy one step further. Start with
    /// `AddFlow::new` and `Reply::Start`.
    pub fn add_paths(flow: AddFlow, reply: Reply) -> (step: Step<AddFlow, Repository>)
        ensures
            step@ == add_step(flow@, reply@),
    {
        let AddFlow { phase, repository, paths } = flow;
        match phase {
            AddPhase::Created => {
                let request = Request::Exists(git_entry_path(repository.path.as_str()));
                Step::Continue(AddFlow { phase: AddPhase::Probing, repository, paths }, request)
            },
            AddPhase::Probing => match read_exists_reply(&reply) {
                Err(e) => Step::Finished(Err(e)),
                Ok(false) => Step::Finished(Err(SyncError::NotAPartialCheckout)),
                Ok(true) => {
                    let request = Request::Git(flag_command(repository.path.as_str()));
                    Step::Continue(
                        AddFlow { phase: AddPhase::ReadingFlag, repository, paths },
                        request,
                    )
                },
            },
            AddPhase::ReadingFlag => match read_flag_reply(&reply) {
                Err(e) => Step::Finished(Err(e)),
                Ok(false) => Step::Finished(Err(SyncError::NotAPartialCheckout)),
                Ok(true) => {
                    if repository.metadata.lacks_any_of(paths.as_slice()) {
                        let mut merged = repository.metadata.clone();
                        merged.add_paths(paths.as_slice());
                        let all = merged.checked_out_paths.to_vec();
                        let request = Request::Git(
                            set_sparse_paths(repository.path.as_str(), all.as_slice()),
                        );
                        Step::Continue(
                            AddFlow { phase: AddPhase::Selecting, repository, paths },
                            request,
                        )
                    } else {
                        Step::Finished(Ok(repository))
                    }
                },
            },
            AddPhase::Selecting => match read_git_reply(&reply) {
                Err(e) => Step::Finished(Err(e)),
                Ok(_) => {
                    let request = Request::Git(checkout_command(repository.path.as_str()));
                    Step::Continue(
                        AddFlow { phase: AddPhase::CheckingOut, repository, paths },
                        request,
                    )
                },
            },
            AddPhase::CheckingOut => match read_git_reply(&reply) {
                Err(e) => Step::Finished(Err(e)),
                Ok(_) => {
                    let Repository { path, metadata } = repository;
                    let mut metadata = metadata;
                    metadata.add_paths(paths.as_slice());
                    let request = Request::SaveMetadata(
                        RepositoryMetadata::metadata_path(path.as_str()),
                        metadata.clone(),
                    );
                    Step::Continue(
                        AddFlow {
                            phase: AddPhase::Saving,
                            repository: Repository { path, metadata },
                            paths,
                        },
                        request,
                    )
                },
            },
            AddPhase::Saving => match read_done_reply(&reply) {
                Err(e) => Step::Finished(Err(e)),
                Ok(_) => Step::Finished(Ok(repository)),
            },
        }
    }

    /// The root of the working copy.
    pub fn path(&self) -> (path: &str)
        ensures
            path@ == self@.path,
    {
        self.path.as_str()
    }

    /// The record of the working copy.
    pub fn metadata(&self) -> (metadata: &RepositoryMetadata)
        ensures
            metadata@ == self@.metadata,
    {
        &self.metadata
    }

    /// The record of the working copy, to be changed in place.
    pub fn metadata_mut(&mut self) -> (metadata: &mut RepositoryMetadata)
        ensures
            metadata@ == old(self)@.metadata,
            final(self)@ == (RepositoryView { metadata: final(metadata)@, ..old(self)@ }),
    {
        &mut self.metadata
    }
}

/// The step function of making a working copy, as a value.
pub open spec fn make_steps() -> spec_fn(MakeFlowView, ReplyView) -> StepView<
    MakeFlowView,
    RepositoryView,
> {
    |flow: MakeFlowView, reply: ReplyView| make_step(flow, reply)
}

/// The step function of adding paths, as a value.
pub open spec fn add_steps() -> spec_fn(AddFlowView, ReplyView) -> StepView<
    AddFlowView,
    RepositoryView,
> {
    |flow: AddFlowView, reply: ReplyView| add_step(flow, reply)
}

/// A target that holds anything is refused before git is asked for anything:
/// whatever else the driver answers, the flow hands out no git request at all,
/// so nothing is cloned, and it ends in failure.
pub proof fn law_occupied_target_is_refused(
    url: Seq<char>,
    target: Seq<char>,
    paths: Seq<Seq<char>>,
    replies: Seq<ReplyView>,
    k: int,
)
    requires
        replies.len() >= 2,
        directory_reply(replies[1]) == Ok::<DirectoryState, SyncErrorView>(
            DirectoryState::Occupied,
        ),
    ensures
        run(make_steps(), make_start(url, target, paths), replies) matches StepView::Finished(
            Err(_),
        ),
        paths.len() > 0 ==> run(make_steps(), make_start(url, target, paths), replies)
            == StepView::<MakeFlowView, RepositoryView>::Finished(
            Err(SyncErrorView::DestinationNotEmpty(target)),
        ),
        0 <= k < asked(make_steps(), make_start(url, target, paths), replies).len() ==> !(asked(
            make_steps(),
            make_start(url, target, paths),
            replies,
        )[k] is Git),
{
    reveal_with_fuel(run, 3);
    reveal_with_fuel(asked, 3);
}

/// A working copy that was made has a selection: a making that succeeds leaves
/// exactly the paths that were asked for, each once, and at least one.
pub proof fn law_made_copy_records_the_request(
    url: Seq<char>,
    target: Seq<char>,
    paths: Seq<Seq<char>>,
    replies: Seq<ReplyView>,
    outcome: RepositoryView,
)
    requires
        replies.len() > 0,
        run(make_steps(), make_start(url, target, paths), replies) == StepView::<
            MakeFlowView,
            RepositoryView,
        >::Finished(Ok(outcome)),
    ensures
        outcome.path == target,
        outcome.metadata.remote_url == url,
        outcome.metadata.paths == with_paths(Seq::empty(), paths),
        outcome.metadata.paths.to_set() == paths.to_set(),
        outcome.metadata.paths.len() > 0,
        outcome.metadata.last_commit is Some,
{
    reveal_with_fuel(run, 10);
    let none = Seq::<Seq<char>>::empty();
    lemma_with_paths(none, paths);
    lemma_with_paths_is_union(none, paths);
    assert(paths.contains(paths[0]));
}

/// Idempotence. Paths that were added are known: adding them again to the
/// working copy as it then stands asks the driver to test for sparseness and
/// nothing else. Git is not asked to select, nothing is written, and the
/// working copy comes back as it was.
pub proof fn law_adding_again_changes_nothing(
    repository: RepositoryView,
    paths: Seq<Seq<char>>,
    replies: Seq<ReplyView>,
)
    requires
        replies.len() >= 3,
        exists_reply(replies[1]) == Ok::<bool, SyncErrorView>(true),
        flag_reply(replies[2]) == Ok::<bool, SyncErrorView>(true),
    ensures
        run(add_steps(), add_start(grown(repository, paths), paths), replies) == StepView::<
            AddFlowView,
            RepositoryView,
        >::Finished(Ok(grown(repository, paths))),
        asked(add_steps(), add_start(grown(repository, paths), paths), replies) == seq![
            RequestView::Exists(git_entry(repository.path)),
            RequestView::Git(in_dir(repository.path, flag_args())),
        ],
{
    reveal_with_fuel(run, 4);
    reveal_with_fuel(asked, 4);
    let merged = with_paths(repository.metadata.paths, paths);
    lemma_with_paths(repository.metadata.paths, paths);
    assert(!adds_any(merged, paths)) by {
        assert forall|i: int| 0 <= i < paths.len() implies merged.contains(#[trigger] paths[i]) by {
            assert(paths.contains(paths[i]));
        }
    }
}

/// An adding that succeeds leaves the working copy with the new paths added,
/// whatever the driver answered.
pub proof fn law_adding_adds_the_paths(
    repository: RepositoryView,
    paths: Seq<Seq<char>>,
    replies: Seq<ReplyView>,
    outcome: RepositoryView,
)
    requires
        replies.len() > 0,
        run(add_steps(), add_start(repository, paths), replies) == StepView::<
            AddFlowView,
            RepositoryView,
        >::Finished(Ok(outcome)),
    ensures
        outcome == grown(repository, paths),
{
    reveal_with_fuel(run, 7);
    lemma_with_paths_changes(repository.metadata.paths, paths);
}

} // verus!
