//! Refresh: fetch, fast-forward the active branch to its remote counterpart,
//! and record the commit that the working copy then stands at.

use vstd::prelude::*;
use crate::backend::{
    done_reply, exists_reply, git_reply, metadata_reply, read_done_reply, read_exists_reply,
    read_git_reply, read_metadata_reply, run, Reply, ReplyView, Request, RequestView, Step,
    StepView,
};
use crate::error::{SyncError, SyncErrorView};
use crate::git::commands::{
    current_branch, current_branch_args, fast_forward_args, fast_forward_merge, fetch_args,
    fetch_remote, get_head_commit, head_commit_args, in_dir, remote_counterpart, remote_of,
};
use crate::git::sparse::{
    flag_args, flag_command, flag_reply, git_entry, git_entry_path, read_flag_reply,
};
use crate::metadata::{optional_view, record_location, MetadataView, RepositoryMetadata};
use crate::text::{trim, trimmed};

verus! {

/// Where a refresh stands: what was asked of the driver last.
#[derive(Clone, Copy, Debug, PartialEq, Eq, Structural)]
pub enum PullPhase {
    /// Nothing yet.
    Created,
    /// Whether the working copy has a `.git` entry.
    Probing,
    /// To print the sparse-checkout switch.
    ReadingFlag,
    /// To update the remote-tracking refs.
    Fetching,
    /// To print the name of the active branch.
    ReadingBranch,
    /// To fast-forward to the remote counterpart.
    Merging,
    /// To read the record.
    Loading,
    /// To print the commit of the working copy.
    ReadingHead,
    /// To write the record.
    Saving,
}

/// A refresh under way.
#[derive(Debug, PartialEq, Eq)]
pub struct PullFlow {
    /// What was asked of the driver last.
    pub phase: PullPhase,
    /// The root of the working copy.
    pub root: String,
    /// The record, once it was read.
    pub record: Option<RepositoryMetadata>,
}

/// A `PullFlow` as plain mathematics.
pub struct PullFlowView {
    pub phase: PullPhase,
    pub root: Seq<char>,
    pub record: Option<MetadataView>,
}

impl View for PullFlow {
    type V = PullFlowView;

    open spec fn view(&self) -> PullFlowView {
        PullFlowView { phase: self.phase, root: self.root@, record: optional_view(self.record) }
    }
}

/// The flow at its start.
pub open spec fn pull_start(root: Seq<char>) -> PullFlowView {
    PullFlowView { phase: PullPhase::Created, root, record: None }
}

/// A record brought to a commit.
pub open spec fn synced(record: MetadataView, commit: Seq<char>) -> MetadataView {
    MetadataView { last_commit: Some(commit), ..record }
}

/// One step of a refresh.
///
/// The working copy must prove sparse. Then git fetches, names the active
/// branch, and fast-forwards it to its remote counterpart; where that takes a
/// merge git fails, and so does the flow: it never merges or rebases. After the
/// fast-forward the record is read, takes the commit that the working copy
/// stands at, and is written, whether any selected file changed or not.
pub open spec fn pull_step(flow: PullFlowView, reply: ReplyView) -> StepView<
    PullFlowView,
    MetadataView,
> {
    match flow.phase {
        PullPhase::Created => StepView::Continue(
            PullFlowView { phase: PullPhase::Probing, ..flow },
            RequestView::Exists(git_entry(flow.root)),
        ),
        PullPhase::Probing => match exists_reply(reply) {
            Err(e) => StepView::Finished(Err(e)),
            Ok(false) => StepView::Finished(Err(SyncErrorView::NotAPartialCheckout)),
            Ok(true) => StepView::Continue(
                PullFlowView { phase: PullPhase::ReadingFlag, ..flow },
                RequestView::Git(in_dir(flow.root, flag_args())),
            ),
        },
        PullPhase::ReadingFlag => match flag_reply(reply) {
            Err(e) => StepView::Finished(Err(e)),
            Ok(false) => StepView::Finished(Err(SyncErrorView::NotAPartialCheckout)),
            Ok(true) => StepView::Continue(
                PullFlowView { phase: PullPhase::Fetching, ..flow },
                RequestView::Git(in_dir(flow.root, fetch_args(false))),
            ),
        },
        PullPhase::Fetching => match git_reply(reply) {
            Err(e) => StepView::Finished(Err(e)),
            Ok(_) => StepView::Continue(
                PullFlowView { phase: PullPhase::ReadingBranch, ..flow },
                RequestView::Git(in_dir(flow.root, current_branch_args())),
            ),
        },
        PullPhase::ReadingBranch => match git_reply(reply) {
            Err(e) => StepView::Finished(Err(e)),
            Ok(branch) => StepView::Continue(
                PullFlowView { phase: PullPhase::Merging, ..flow },
                RequestView::Git(
                    in_dir(flow.root, fast_forward_args(remote_of(trimmed(branch)))),
                ),
            ),
        },
        PullPhase::Merging => match git_reply(reply) {
            Err(e) => StepView::Finished(Err(e)),
            Ok(_) => StepView::Continue(
                PullFlowView { phase: PullPhase::Loading, ..flow },
                RequestView::LoadMetadata(record_location(flow.root)),
            ),
        },
        PullPhase::Loading => match metadata_reply(reply) {
            Err(e) => StepView::Finished(Err(e)),
            Ok(record) => StepView::Continue(
                PullFlowView { phase: PullPhase::ReadingHead, record: Some(record), ..flow },
                RequestView::Git(in_dir(flow.root, head_commit_args())),
            ),
        },
        PullPhase::ReadingHead => match (git_reply(reply), flow.record) {
            (Err(e), _) => StepView::Finished(Err(e)),
            (Ok(_), None) => StepView::Finished(Err(SyncErrorView::UnexpectedReply)),
            (Ok(commit), Some(record)) => StepView::Continue(
                PullFlowView {
                    phase: PullPhase::Saving,
                    record: Some(synced(record, commit)),
                    ..flow
                },
                RequestView::SaveMetadata(record_location(flow.root), synced(record, commit)),
            ),
        },
        PullPhase::Saving => match (done_reply(reply), flow.record) {
            (Err(e), _) => StepView::Finished(Err(e)),
            (Ok(_), None) => StepView::Finished(Err(SyncErrorView::UnexpectedReply)),
            (Ok(_), Some(record)) => StepView::Finished(Ok(record)),
        },
    }
}

impl PullFlow {
    /// A refresh that has asked for nothing yet.
    pub fn new(root: &str) -> (flow: Self)
        ensures
            flow@ == pull_start(root@),
    {
        PullFlow { phase: PullPhase::Created, root: root.to_owned(), record: None }
    }
}

/// Takes a refresh one step further: from where it stands and what the driver
/// answered to what the driver is to do next, or to the record as it was
/// written. Start with `PullFlow::new` and `Reply::Start`.
pub fn perform_smart_pull(flow: PullFlow, reply: Reply) -> (step: Step<
    PullFlow,
    RepositoryMetadata,
>)
    ensures
        step@ == pull_step(flow@, reply@),
{
    let PullFlow { phase, root, record } = flow;
    match phase {
        PullPhase::Created => {
            let request = Request::Exists(git_entry_path(root.as_str()));
            Step::Continue(PullFlow { phase: PullPhase::Probing, root, record }, request)
        },
        PullPhase::Probing => match read_exists_reply(&reply) {
            Err(e) => Step::Finished(Err(e)),
            Ok(false) => Step::Finished(Err(SyncError::NotAPartialCheckout)),
            Ok(true) => {
                let request = Request::Git(flag_command(root.as_str()));
                Step::Continue(PullFlow { phase: PullPhase::ReadingFlag, root, record }, request)
            },
        },
        PullPhase::ReadingFlag => match read_flag_reply(&reply) {
            Err(e) => Step::Finished(Err(e)),
            Ok(false) => Step::Finished(Err(SyncError::NotAPartialCheckout)),
            Ok(true) => {
                let request = Request::Git(fetch_remote(root.as_str(), false));
                Step::Continue(PullFlow { phase: PullPhase::Fetching, root, record }, request)
            },
        },
        PullPhase::Fetching => match read_git_reply(&reply) {
            Err(e) => Step::Finished(Err(e)),
            Ok(_) => {
                let request = Request::Git(current_branch(root.as_str()));
                Step::Continue(PullFlow { phase: PullPhase::ReadingBranch, root, record }, request)
            },
        },
        PullPhase::ReadingBranch => match read_git_reply(&reply) {
            Err(e) => Step::Finished(Err(e)),
            Ok(branch) => {
                let reference = remote_counterpart(trim(branch.as_str()));
                let request = Request::Git(fast_forward_merge(root.as_str(), reference.as_str()));
                Step::Continue(PullFlow { phase: PullPhase::Merging, root, record }, request)
            },
        },
        PullPhase::Merging => match read_git_reply(&reply) {
            Err(e) => Step::Finished(Err(e)),
            Ok(_) => {
                let request = Request::LoadMetadata(
                    RepositoryMetadata::metadata_path(root.as_str()),
                );
                Step::Continue(PullFlow { phase: PullPhase::Loading, root, record }, request)
            },
        },
        PullPhase::Loading => match read_metadata_reply(reply) {
            Err(e) => Step::Finished(Err(e)),
            Ok(loaded) => {
                let request = Request::Git(get_head_commit(root.as_str()));
                Step::Continue(
                    PullFlow { phase: PullPhase::ReadingHead, root, record: Some(loaded) },
                    request,
                )
            },
        },
        PullPhase::ReadingHead => match (read_git_reply(&reply), record) {
            (Err(e), _) => Step::Finished(Err(e)),
            (Ok(_), None) => Step::Finished(Err(SyncError::UnexpectedReply)),
            (Ok(commit), Some(record)) => {
                let mut record = record;
                record.set_last_commit(commit.as_str());
                let request = Request::SaveMetadata(
                    RepositoryMetadata::metadata_path(root.as_str()),
                    record.clone(),
                );
                Step::Continue(
                    PullFlow { phase: PullPhase::Saving, root, record: Some(record) },
                    request,
                )
            },
        },
        PullPhase::Saving => match (read_done_reply(&reply), record) {
            (Err(e), _) => Step::Finished(Err(e)),
            (Ok(_), None) => Step::Finished(Err(SyncError::UnexpectedReply)),
            (Ok(_), Some(record)) => Step::Finished(Ok(record)),
        },
    }
}

/// The step function of a refresh, as a value.
pub open spec fn pull_steps() -> spec_fn(PullFlowView, ReplyView) -> StepView<
    PullFlowView,
    MetadataView,
> {
    |flow: PullFlowView, reply: ReplyView| pull_step(flow, reply)
}

/// A refresh that succeeds has always moved the record to the commit that git
/// named after the fast-forward. Nothing else of the record changes, and
/// nothing in the flow asks whether a selected file changed.
pub proof fn law_refresh_advances_the_commit(
    root: Seq<char>,
    replies: Seq<ReplyView>,
    outcome: MetadataView,
)
    requires
        replies.len() > 0,
        run(pull_steps(), pull_start(root), replies) == StepView::<
            PullFlowView,
            MetadataView,
        >::Finished(Ok(outcome)),
    ensures
        replies.len() >= 9,
        metadata_reply(replies[6]) matches Ok(loaded) && git_reply(replies[7]) matches Ok(commit)
            && outcome == synced(loaded, commit),
{
    reveal_with_fuel(run, 10);
}

} // verus!
