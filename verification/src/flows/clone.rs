//! Initialise: clone a repository into a fresh directory with a selection of
//! paths, and write the record of the new checkout.

use vstd::prelude::*;
use crate::backend::{
    directory_reply, done_reply, git_reply, read_directory_reply, read_done_reply,
    read_git_reply, asked, run, DirectoryState, Reply, ReplyView, Request, RequestView, Step,
    StepView,
};
use crate::error::{SyncError, SyncErrorView};
use crate::git::commands::{
    checkout_args, checkout_command, clone_sparse, clone_sparse_args, get_head_commit,
    head_commit_args, in_dir, selection_args, selection_command, GitCommandView,
};
use crate::metadata::{record_location, MetadataView, RepositoryMetadata};
use crate::path_set::{lemma_with_paths, lemma_with_paths_is_union, with_paths};
use crate::text::{copy_strings, views};

verus! {

/// Where an initialisation stands: what was asked of the driver last.
#[derive(Clone, Copy, Debug, PartialEq, Eq, Structural)]
pub enum ClonePhase {
    /// Nothing yet.
    Created,
    /// A look at the destination.
    Inspecting,
    /// To create the destination.
    Creating,
    /// To clone into the destination.
    Cloning,
    /// To set git's selection.
    Selecting,
    /// To update the working tree.
    CheckingOut,
    /// To print the commit of the working copy.
    ReadingHead,
    /// To write the record.
    Saving,
}

/// An initialisation under way.
#[derive(Debug, PartialEq, Eq)]
pub struct CloneFlow {
    /// What was asked of the driver last.
    pub phase: ClonePhase,
    /// The directory of the new working copy.
    pub destination: String,
    /// The paths asked for, as they were given.
    pub paths: Vec<String>,
    /// The record that will be written.
    pub record: RepositoryMetadata,
}

/// A `CloneFlow` as plain mathematics.
pub struct CloneFlowView {
    pub phase: ClonePhase,
    pub destination: Seq<char>,
    pub paths: Seq<Seq<char>>,
    pub record: MetadataView,
}

impl View for CloneFlow {
    type V = CloneFlowView;

    open spec fn view(&self) -> CloneFlowView {
        CloneFlowView {
            phase: self.phase,
            destination: self.destination@,
            paths: views(self.paths@),
            record: self.record@,
        }
    }
}

/// The flow at its start: nothing asked yet; the record holds the origin and
/// the paths asked for, each once, and no commit.
pub open spec fn clone_start(repo_url: Seq<char>, destination: Seq<char>, paths: Seq<Seq<char>>) -> CloneFlowView {
    CloneFlowView {
        phase: ClonePhase::Created,
        destination,
        paths,
        record: MetadataView {
            remote_url: repo_url,
            paths: with_paths(Seq::empty(), paths),
            last_commit: None,
        },
    }
}

/// The request to clone into the destination.
pub open spec fn clone_request(flow: CloneFlowView) -> RequestView {
    RequestView::Git(
        GitCommandView {
            dir: None,
            args: clone_sparse_args(flow.record.remote_url, flow.destination),
        },
    )
}

/// One step of an initialisation.
///
/// With no path asked for the flow ends at once. An occupied destination ends
/// it before git is asked for anything; a missing one is created. Then git
/// clones, the selection is set to the paths asked for, the working tree is
/// updated, the commit is read, and the record with that commit is written.
/// The first failure ends the flow; nothing is undone.
pub open spec fn clone_step(flow: CloneFlowView, reply: ReplyView) -> StepView<
    CloneFlowView,
    MetadataView,
> {
    match flow.phase {
        ClonePhase::Created => if flow.paths.len() == 0 {
            StepView::Finished(Err(SyncErrorView::NoPathsRequested))
        } else {
            StepView::Continue(
                CloneFlowView { phase: ClonePhase::Inspecting, ..flow },
                RequestView::InspectDirectory(flow.destination),
            )
        },
        ClonePhase::Inspecting => match directory_reply(reply) {
            Err(e) => StepView::Finished(Err(e)),
            Ok(DirectoryState::Occupied) => StepView::Finished(
                Err(SyncErrorView::DestinationNotEmpty(flow.destination)),
            ),
            Ok(DirectoryState::Missing) => StepView::Continue(
                CloneFlowView { phase: ClonePhase::Creating, ..flow },
                RequestView::CreateDirectory(flow.destination),
            ),
            Ok(DirectoryState::Empty) => StepView::Continue(
                CloneFlowView { phase: ClonePhase::Cloning, ..flow },
                clone_request(flow),
            ),
        },
        ClonePhase::Creating => match done_reply(reply) {
            Err(e) => StepView::Finished(Err(e)),
            Ok(_) => StepView::Continue(
                CloneFlowView { phase: ClonePhase::Cloning, ..flow },
                clone_request(flow),
            ),
        },
        ClonePhase::Cloning => match git_reply(reply) {
            Err(e) => StepView::Finished(Err(e)),
            Ok(_) => StepView::Continue(
                CloneFlowView { phase: ClonePhase::Selecting, ..flow },
                RequestView::Git(in_dir(flow.destination, selection_args(flow.paths))),
            ),
        },
        ClonePhase::Selecting => match git_reply(reply) {
            Err(e) => StepView::Finished(Err(e)),
            Ok(_) => StepView::Continue(
                CloneFlowView { phase: ClonePhase::CheckingOut, ..flow },
                RequestView::Git(in_dir(flow.destination, checkout_args())),
            ),
        },
        ClonePhase::CheckingOut => match git_reply(reply) {
            Err(e) => StepView::Finished(Err(e)),
            Ok(_) => StepView::Continue(
                CloneFlowView { phase: ClonePhase::ReadingHead, ..flow },
                RequestView::Git(in_dir(flow.destination, head_commit_args())),
            ),
        },
        ClonePhase::ReadingHead => match git_reply(reply) {
            Err(e) => StepView::Finished(Err(e)),
            Ok(commit) => {
                let record = MetadataView { last_commit: Some(commit), ..flow.record };
                StepView::Continue(
                    CloneFlowView { phase: ClonePhase::Saving, record, ..flow },
                    RequestView::SaveMetadata(record_location(flow.destination), record),
                )
            },
        },
        ClonePhase::Saving => match done_reply(reply) {
            Err(e) => StepView::Finished(Err(e)),
            Ok(_) => StepView::Finished(Ok(flow.record)),
        },
    }
}

impl CloneFlow {
    /// An initialisation that has asked for nothing yet.
    pub fn new(repo_url: &str, destination: &str, paths: &[String]) -> (flow: Self)
        ensures
            flow@ == clone_start(repo_url@, destination@, views(paths@)),
    {
        let mut record = RepositoryMetadata::new(repo_url.to_owned());
        record.add_paths(paths);
        CloneFlow {
            phase: ClonePhase::Created,
            destination: destination.to_owned(),
            paths: copy_strings(paths),
            record,
        }
    }
}

/// Takes an initialisation one step further: from where it stands and what the
/// driver answered to what the driver is to do next, or to the record of the new
/// checkout. Start with `CloneFlow::new` and `Reply::Start`.
pub fn clone_repository(flow: CloneFlow, reply: Reply) -> (step: Step<CloneFlow, RepositoryMetadata>)
    ensures
        step@ == clone_step(flow@, reply@),
{
    match flow.phase {
        ClonePhase::Created => {
            if flow.paths.len() == 0 {
                Step::Finished(Err(SyncError::NoPathsRequested))
            } else {
                let request = Request::InspectDirectory(flow.destination.clone());
                Step::Continue(CloneFlow { phase: ClonePhase::Inspecting, ..flow }, request)
            }
        },
        ClonePhase::Inspecting => match read_directory_reply(&reply) {
            Err(e) => Step::Finished(Err(e)),
            Ok(DirectoryState::Occupied) => Step::Finished(
                Err(SyncError::DestinationNotEmpty(flow.destination)),
            ),
            Ok(DirectoryState::Missing) => {
                let request = Request::CreateDirectory(flow.destination.clone());
                Step::Continue(CloneFlow { phase: ClonePhase::Creating, ..flow }, request)
            },
            Ok(DirectoryState::Empty) => {
                let request = Request::Git(
                    clone_sparse(flow.record.remote_url.as_str(), flow.destination.as_str()),
                );
                Step::Continue(CloneFlow { phase: ClonePhase::Cloning, ..flow }, request)
            },
        },
        ClonePhase::Creating => match read_done_reply(&reply) {
            Err(e) => Step::Finished(Err(e)),
            Ok(_) => {
                let request = Request::Git(
                    clone_sparse(flow.record.remote_url.as_str(), flow.destination.as_str()),
                );
                Step::Continue(CloneFlow { phase: ClonePhase::Cloning, ..flow }, request)
            },
        },
        ClonePhase::Cloning => match read_git_reply(&reply) {
            Err(e) => Step::Finished(Err(e)),
            Ok(_) => {
                let request = Request::Git(
                    selection_command(flow.destination.as_str(), flow.paths.as_slice()),
                );
                Step::Continue(CloneFlow { phase: ClonePhase::Selecting, ..flow }, request)
            },
        },
        ClonePhase::Selecting => match read_git_reply(&reply) {
            Err(e) => Step::Finished(Err(e)),
            Ok(_) => {
                let request = Request::Git(checkout_command(flow.destination.as_str()));
                Step::Continue(CloneFlow { phase: ClonePhase::CheckingOut, ..flow }, request)
            },
        },
        ClonePhase::CheckingOut => match read_git_reply(&reply) {
            Err(e) => Step::Finished(Err(e)),
            Ok(_) => {
                let request = Request::Git(get_head_commit(flow.destination.as_str()));
                Step::Continue(CloneFlow { phase: ClonePhase::ReadingHead, ..flow }, request)
            },
        },
        ClonePhase::ReadingHead => match read_git_reply(&reply) {
            Err(e) => Step::Finished(Err(e)),
            Ok(commit) => {
                let mut record = flow.record;
                record.set_last_commit(commit.as_str());
                let request = Request::SaveMetadata(
                    RepositoryMetadata::metadata_path(flow.destination.as_str()),
                    record.clone(),
                );
                Step::Continue(
                    CloneFlow {
                        phase: ClonePhase::Saving,
                        destination: flow.destination,
                        paths: flow.paths,
                        record,
                    },
                    request,
                )
            },
        },
        ClonePhase::Saving => match read_done_reply(&reply) {
            Err(e) => Step::Finished(Err(e)),
            Ok(_) => Step::Finished(Ok(flow.record)),
        },
    }
}

/// The step function of an initialisation, as a value.
pub open spec fn clone_flow_steps() -> spec_fn(CloneFlowView, ReplyView) -> StepView<
    CloneFlowView,
    MetadataView,
> {
    |flow: CloneFlowView, reply: ReplyView| clone_step(flow, reply)
}

/// An initialisation that succeeds leaves a record with the origin it was
/// given, exactly the paths that were asked for, each once, and the commit that
/// git named. Its selection is never empty.
pub proof fn law_initialisation_records_the_request(
    repo_url: Seq<char>,
    destination: Seq<char>,
    paths: Seq<Seq<char>>,
    replies: Seq<ReplyView>,
    outcome: MetadataView,
)
    requires
        replies.len() > 0,
        run(clone_flow_steps(), clone_start(repo_url, destination, paths), replies)
            == StepView::<CloneFlowView, MetadataView>::Finished(Ok(outcome)),
    ensures
        outcome.remote_url == repo_url,
        outcome.paths == with_paths(Seq::empty(), paths),
        outcome.paths.to_set() == paths.to_set(),
        outcome.paths.no_duplicates(),
        outcome.paths.len() > 0,
        outcome.last_commit is Some,
{
    reveal_with_fuel(run, 9);
    let none = Seq::<Seq<char>>::empty();
    lemma_with_paths(none, paths);
    lemma_with_paths_is_union(none, paths);
    assert(paths.contains(paths[0]));
}

/// A destination that holds anything is refused before git is asked for
/// anything: whatever else the driver answers, the flow hands out no git request
/// at all, so nothing is cloned, and it ends in failure.
pub proof fn law_occupied_destination_is_refused(
    repo_url: Seq<char>,
    destination: Seq<char>,
    paths: Seq<Seq<char>>,
    replies: Seq<ReplyView>,
    k: int,
)
    requires
        replies.len() >= 2,
        directory_reply(replies[1]) == Ok::<DirectoryState, SyncErrorView>(
            DirectoryState::Occupied,
        ),
    ensures
        run(clone_flow_steps(), clone_start(repo_url, destination, paths), replies) matches StepView::Finished(
            Err(_),
        ),
        paths.len() > 0 ==> run(
            clone_flow_steps(),
            clone_start(repo_url, destination, paths),
            replies,
        ) == StepView::<CloneFlowView, MetadataView>::Finished(
            Err(SyncErrorView::DestinationNotEmpty(destination)),
        ),
        0 <= k < asked(clone_flow_steps(), clone_start(repo_url, destination, paths), replies).len()
            ==> !(asked(clone_flow_steps(), clone_start(repo_url, destination, paths), replies)[k] is Git),
{
    reveal_with_fuel(run, 3);
    reveal_with_fuel(asked, 3);
}

} // verus!
