//! Report status: compare the commit of the record with the remote counterpart
//! of the active branch, and put the findings into a report. The record is
//! read and never written.

use vstd::prelude::*;
use crate::backend::{
    asked, exists_reply, git_reply, metadata_reply, raw_git_reply, read_exists_reply,
    read_git_reply, read_metadata_reply, read_raw_git_reply, run, Reply, ReplyView, Request,
    RequestView, Step, StepView,
};
use crate::error::{SyncError, SyncErrorView};
use crate::git::commands::{
    ancestor_args, changes_args, current_branch, current_branch_args, fetch_args, fetch_remote,
    in_dir, is_ancestor, remote_counterpart, remote_of, resolve_args, resolve_ref,
    working_tree_changes,
};
use crate::git::sparse::{
    flag_args, flag_command, flag_reply, git_entry, git_entry_path, read_flag_reply,
};
use crate::metadata::{optional_view, record_location, MetadataView, RepositoryMetadata};
use crate::report::{
    format_report, not_managed_text, not_sparse_text, report_text, status_text, RemoteStatus,
    RemoteStatusView,
};
use crate::text::{abbreviated, trim, trimmed};

verus! {

/// What stands for the local commit where the record names none.
pub open spec fn unknown_commit() -> Seq<char> {
    "<unknown>"@
}

/// The commit that a record names, or the stand-in for none.
pub open spec fn local_commit_of(record: MetadataView) -> Seq<char> {
    match record.last_commit {
        Some(commit) => commit,
        None => unknown_commit(),
    }
}

/// How a local commit stands against a resolved remote one. Equal commits are
/// up to date. Of two different ones the local is behind if it is an ancestor of
/// the remote, and else the two have diverged.
pub open spec fn classified(local: Seq<char>, remote: Seq<char>, local_is_ancestor: bool) -> RemoteStatusView {
    if remote == local {
        RemoteStatusView::UpToDate
    } else if local_is_ancestor {
        RemoteStatusView::Behind { local, remote }
    } else {
        RemoteStatusView::Diverged { local, remote }
    }
}

/// How a local commit stands against a resolved remote one.
pub fn classify(local: &str, remote: &str, local_is_ancestor: bool) -> (status: RemoteStatus)
    ensures
        status@ == classified(local@, remote@, local_is_ancestor),
{
    if remote.to_owned() == local.to_owned() {
        RemoteStatus::UpToDate
    } else if local_is_ancestor {
        RemoteStatus::Behind { local: local.to_owned(), remote: remote.to_owned() }
    } else {
        RemoteStatus::Diverged { local: local.to_owned(), remote: remote.to_owned() }
    }
}

/// The commit that a record names, or the stand-in for none.
pub fn local_commit(record: &RepositoryMetadata) -> (commit: String)
    ensures
        commit@ == local_commit_of(record@),
{
    match &record.last_commit {
        Some(commit) => commit.clone(),
        None => "<unknown>".to_owned(),
    }
}

/// Where a status report stands: what was asked of the driver last.
#[derive(Clone, Copy, Debug, PartialEq, Eq, Structural)]
pub enum StatusPhase {
    /// Nothing yet.
    Created,
    /// To read the record.
    Loading,
    /// Whether the working copy has a `.git` entry.
    Probing,
    /// To print the sparse-checkout switch.
    ReadingFlag,
    /// To update the remote-tracking refs, quietly.
    Fetching,
    /// To print the name of the active branch.
    ReadingBranch,
    /// To resolve the remote counterpart of the branch.
    Resolving,
    /// To test whether the local commit is an ancestor of the remote one.
    Comparing,
    /// To list the uncommitted changes.
    ReadingChanges,
}

/// A status report under way.
#[derive(Debug, PartialEq, Eq)]
pub struct StatusFlow {
    /// What was asked of the driver last.
    pub phase: StatusPhase,
    /// The root of the working copy.
    pub root: String,
    /// The record, once it was read.
    pub record: Option<RepositoryMetadata>,
    /// The active branch, once it was named.
    pub branch: String,
    /// The remote commit, once it was resolved.
    pub remote: String,
    /// How the local commit stands, as far as it is known.
    pub status: RemoteStatus,
}

/// A `StatusFlow` as plain mathematics.
pub struct StatusFlowView {
    pub phase: StatusPhase,
    pub root: Seq<char>,
    pub record: Option<MetadataView>,
    pub branch: Seq<char>,
    pub remote: Seq<char>,
    pub status: RemoteStatusView,
}

impl View for StatusFlow {
    type V = StatusFlowView;

    open spec fn view(&self) -> StatusFlowView {
        StatusFlowView {
            phase: self.phase,
            root: self.root@,
            record: optional_view(self.record),
            branch: self.branch@,
            remote: self.remote@,
            status: self.status@,
        }
    }
}

/// The flow at its start.
pub open spec fn status_start(root: Seq<char>) -> StatusFlowView {
    StatusFlowView {
        phase: StatusPhase::Created,
        root,
        record: None,
        branch: Seq::empty(),
        remote: Seq::empty(),
        status: RemoteStatusView::Unknown,
    }
}

/// The request for git's list of uncommitted changes.
pub open spec fn changes_request(root: Seq<char>) -> RequestView {
    RequestView::Git(in_dir(root, changes_args()))
}

/// One step of a status report.
///
/// A directory without a record gets a plain report saying so, and a working
/// copy that is not sparse gets a warning: neither is a failure. Otherwise git
/// fetches and names the branch, and the remote counterpart is resolved. Where
/// that fails the status is unknown; where it gives the local commit the
/// checkout is up to date; else the ancestor test tells behind from diverged,
/// and a test that fails counts as diverged. The report closes with git's list
/// of local changes, line for line as git printed it.
pub open spec fn status_step(flow: StatusFlowView, reply: ReplyView) -> StepView<
    StatusFlowView,
    Seq<char>,
> {
    match flow.phase {
        StatusPhase::Created => StepView::Continue(
            StatusFlowView { phase: StatusPhase::Loading, ..flow },
            RequestView::LoadMetadata(record_location(flow.root)),
        ),
        StatusPhase::Loading => match metadata_reply(reply) {
            Err(SyncErrorView::MetadataNotFound) => StepView::Finished(Ok(not_managed_text())),
            Err(e) => StepView::Finished(Err(e)),
            Ok(record) => StepView::Continue(
                StatusFlowView { phase: StatusPhase::Probing, record: Some(record), ..flow },
                RequestView::Exists(git_entry(flow.root)),
            ),
        },
        StatusPhase::Probing => match exists_reply(reply) {
            Err(e) => StepView::Finished(Err(e)),
            Ok(false) => StepView::Finished(Ok(not_sparse_text())),
            Ok(true) => StepView::Continue(
                StatusFlowView { phase: StatusPhase::ReadingFlag, ..flow },
                RequestView::Git(in_dir(flow.root, flag_args())),
            ),
        },
        StatusPhase::ReadingFlag => match flag_reply(reply) {
            Err(e) => StepView::Finished(Err(e)),
            Ok(false) => StepView::Finished(Ok(not_sparse_text())),
            Ok(true) => StepView::Continue(
                StatusFlowView { phase: StatusPhase::Fetching, ..flow },
                RequestView::Git(in_dir(flow.root, fetch_args(true))),
            ),
        },
        StatusPhase::Fetching => match git_reply(reply) {
            Err(e) => StepView::Finished(Err(e)),
            Ok(_) => StepView::Continue(
                StatusFlowView { phase: StatusPhase::ReadingBranch, ..flow },
                RequestView::Git(in_dir(flow.root, current_branch_args())),
            ),
        },
        StatusPhase::ReadingBranch => match git_reply(reply) {
            Err(e) => StepView::Finished(Err(e)),
            Ok(name) => StepView::Continue(
                StatusFlowView { phase: StatusPhase::Resolving, branch: trimmed(name), ..flow },
                RequestView::Git(in_dir(flow.root, resolve_args(remote_of(trimmed(name))))),
            ),
        },
        StatusPhase::Resolving => match (git_reply(reply), flow.record) {
            (Err(SyncErrorView::UnexpectedReply), _) => StepView::Finished(
                Err(SyncErrorView::UnexpectedReply),
            ),
            (_, None) => StepView::Finished(Err(SyncErrorView::UnexpectedReply)),
            (Err(_), Some(_)) => StepView::Continue(
                StatusFlowView {
                    phase: StatusPhase::ReadingChanges,
                    status: RemoteStatusView::Unknown,
                    ..flow
                },
                changes_request(flow.root),
            ),
            (Ok(remote), Some(record)) => if remote == local_commit_of(record) {
                StepView::Continue(
                    StatusFlowView {
                        phase: StatusPhase::ReadingChanges,
                        remote,
                        status: RemoteStatusView::UpToDate,
                        ..flow
                    },
                    changes_request(flow.root),
                )
            } else {
                StepView::Continue(
                    StatusFlowView { phase: StatusPhase::Comparing, remote, ..flow },
                    RequestView::Git(
                        in_dir(flow.root, ancestor_args(local_commit_of(record), remote)),
                    ),
                )
            },
        },
        StatusPhase::Comparing => match (git_reply(reply), flow.record) {
            (Err(SyncErrorView::UnexpectedReply), _) => StepView::Finished(
                Err(SyncErrorView::UnexpectedReply),
            ),
            (_, None) => StepView::Finished(Err(SyncErrorView::UnexpectedReply)),
            (outcome, Some(record)) => StepView::Continue(
                StatusFlowView {
                    phase: StatusPhase::ReadingChanges,
                    status: classified(local_commit_of(record), flow.remote, outcome is Ok),
                    ..flow
                },
                changes_request(flow.root),
            ),
        },
        StatusPhase::ReadingChanges => match (raw_git_reply(reply), flow.record) {
            (Err(e), _) => StepView::Finished(Err(e)),
            (Ok(_), None) => StepView::Finished(Err(SyncErrorView::UnexpectedReply)),
            (Ok(changes), Some(record)) => StepView::Finished(
                Ok(
                    report_text(
                        flow.branch,
                        flow.status,
                        local_commit_of(record),
                        record.remote_url,
                        record.paths,
                        changes,
                    ),
                ),
            ),
        },
    }
}

impl StatusFlow {
    /// A status report that has asked for nothing yet.
    pub fn new(root: &str) -> (flow: Self)
        ensures
            flow@ == status_start(root@),
    {
        StatusFlow {
            phase: StatusPhase::Created,
            root: root.to_owned(),
            record: None,
            branch: String::new(),
            remote: String::new(),
            status: RemoteStatus::Unknown,
        }
    }
}

/// Takes a status report one step further: from where it stands and what the
/// driver answered to what the driver is to do next, or to the finished report.
/// Start with `StatusFlow::new` and `Reply::Start`.
pub fn show_status(flow: StatusFlow, reply: Reply) -> (step: Step<StatusFlow, String>)
    ensures
        step@ == status_step(flow@, reply@),
{
    let StatusFlow { phase, root, record, branch, remote, status } = flow;
    match phase {
        StatusPhase::Created => {
            let request = Request::LoadMetadata(RepositoryMetadata::metadata_path(root.as_str()));
            Step::Continue(
                StatusFlow { phase: StatusPhase::Loading, root, record, branch, remote, status },
                request,
            )
        },
        StatusPhase::Loading => match read_metadata_reply(reply) {
            Err(SyncError::MetadataNotFound) => Step::Finished(
                Ok(
                    "Current directory is not a git-partial repository (metadata not found).".to_owned(),
                ),
            ),
            Err(e) => Step::Finished(Err(e)),
            Ok(loaded) => {
                let request = Request::Exists(git_entry_path(root.as_str()));
                Step::Continue(
                    StatusFlow {
                        phase: StatusPhase::Probing,
                        root,
                        record: Some(loaded),
                        branch,
                        remote,
                        status,
                    },
                    request,
                )
            },
        },
        StatusPhase::Probing => match read_exists_reply(&reply) {
            Err(e) => Step::Finished(Err(e)),
            Ok(false) => Step::Finished(
                Ok(
                    "Warning: Repository metadata found, but sparse checkout is not enabled.".to_owned(),
                ),
            ),
            Ok(true) => {
                let request = Request::Git(flag_command(root.as_str()));
                Step::Continue(
                    StatusFlow {
                        phase: StatusPhase::ReadingFlag,
                        root,
                        record,
                        branch,
                        remote,
                        status,
                    },
                    request,
                )
            },
        },
        StatusPhase::ReadingFlag => match read_flag_reply(&reply) {
            Err(e) => Step::Finished(Err(e)),
            Ok(false) => Step::Finished(
                Ok(
                    "Warning: Repository metadata found, but sparse checkout is not enabled.".to_owned(),
                ),
            ),
            Ok(true) => {
                let request = Request::Git(fetch_remote(root.as_str(), true));
                Step::Continue(
                    StatusFlow {
                        phase: StatusPhase::Fetching,
                        root,
                        record,
                        branch,
                        remote,
                        status,
                    },
                    request,
                )
            },
        },
        StatusPhase::Fetching => match read_git_reply(&reply) {
            Err(e) => Step::Finished(Err(e)),
            Ok(_) => {
                let request = Request::Git(current_branch(root.as_str()));
                Step::Continue(
                    StatusFlow {
                        phase: StatusPhase::ReadingBranch,
                        root,
                        record,
                        branch,
                        remote,
                        status,
                    },
                    request,
                )
            },
        },
        StatusPhase::ReadingBranch => match read_git_reply(&reply) {
            Err(e) => Step::Finished(Err(e)),
            Ok(name) => {
                let branch = trim(name.as_str()).to_owned();
                let reference = remote_counterpart(branch.as_str());
                let request = Request::Git(resolve_ref(root.as_str(), reference.as_str()));
                Step::Continue(
                    StatusFlow {
                        phase: StatusPhase::Resolving,
                        root,
                        record,
                        branch,
                        remote,
                        status,
                    },
                    request,
                )
            },
        },
        StatusPhase::Resolving => match (read_git_reply(&reply), record) {
            (Err(SyncError::UnexpectedReply), _) => Step::Finished(
                Err(SyncError::UnexpectedReply),
            ),
            (_, None) => Step::Finished(Err(SyncError::UnexpectedReply)),
            (Err(_), Some(record)) => {
                let request = Request::Git(working_tree_changes(root.as_str()));
                Step::Continue(
                    StatusFlow {
                        phase: StatusPhase::ReadingChanges,
                        root,
                        record: Some(record),
                        branch,
                        remote,
                        status: RemoteStatus::Unknown,
                    },
                    request,
                )
            },
            (Ok(resolved), Some(record)) => {
                let local = local_commit(&record);
                if resolved == local {
                    let request = Request::Git(working_tree_changes(root.as_str()));
                    Step::Continue(
                        StatusFlow {
                            phase: StatusPhase::ReadingChanges,
                            root,
                            record: Some(record),
                            branch,
                            remote: resolved,
                            status: RemoteStatus::UpToDate,
                        },
                        request,
                    )
                } else {
                    let request = Request::Git(
                        is_ancestor(root.as_str(), local.as_str(), resolved.as_str()),
                    );
                    Step::Continue(
                        StatusFlow {
                            phase: StatusPhase::Comparing,
                            root,
                            record: Some(record),
                            branch,
                            remote: resolved,
                            status,
                        },
                        request,
                    )
                }
            },
        },
        StatusPhase::Comparing => match (read_git_reply(&reply), record) {
            (Err(SyncError::UnexpectedReply), _) => Step::Finished(
                Err(SyncError::UnexpectedReply),
            ),
            (_, None) => Step::Finished(Err(SyncError::UnexpectedReply)),
            (outcome, Some(record)) => {
                let local = local_commit(&record);
                let status = classify(local.as_str(), remote.as_str(), outcome.is_ok());
                let request = Request::Git(working_tree_changes(root.as_str()));
                Step::Continue(
                    StatusFlow {
                        phase: StatusPhase::ReadingChanges,
                        root,
                        record: Some(record),
                        branch,
                        remote,
                        status,
                    },
                    request,
                )
            },
        },
        StatusPhase::ReadingChanges => match (read_raw_git_reply(&reply), record) {
            (Err(e), _) => Step::Finished(Err(e)),
            (Ok(_), None) => Step::Finished(Err(SyncError::UnexpectedReply)),
            (Ok(changes), Some(record)) => {
                let local = local_commit(&record);
                let paths = record.checked_out_paths.to_vec();
                Step::Finished(
                    Ok(
                        format_report(
                            branch.as_str(),
                            &status,
                            local.as_str(),
                            record.remote_url.as_str(),
                            paths.as_slice(),
                            changes.as_str(),
                        ),
                    ),
                )
            },
        },
    }
}

/// The step function of a status report, as a value.
pub open spec fn status_steps() -> spec_fn(StatusFlowView, ReplyView) -> StepView<
    StatusFlowView,
    Seq<char>,
> {
    |flow: StatusFlowView, reply: ReplyView| status_step(flow, reply)
}

/// A status report never asks for the record to be written, wherever it
/// stands and whatever the driver answers.
pub proof fn law_status_writes_nothing(flow: StatusFlowView, replies: Seq<ReplyView>, k: int)
    requires
        0 <= k < asked(status_steps(), flow, replies).len(),
    ensures
        !(asked(status_steps(), flow, replies)[k] is SaveMetadata),
    decreases replies.len(),
{
    if replies.len() > 0 {
        match status_step(flow, replies[0]) {
            StepView::Continue(next, request) => {
                if k > 0 {
                    law_status_writes_nothing(next, replies.drop_first(), k - 1);
                }
            },
            StepView::Finished(_) => {},
        }
    }
}

/// What a report says where the record was read, the working copy is sparse,
/// the fetch went through, and the branch and its remote counterpart were
/// found. If the remote commit is the local one, the report says up to date and
/// no ancestor test is made. Otherwise the test decides: where it passes the
/// report says behind, where it fails it says diverged.
pub proof fn law_report_tells_the_standing(
    root: Seq<char>,
    replies: Seq<ReplyView>,
    record: MetadataView,
    name: Seq<char>,
    remote: Seq<char>,
    changes: Seq<char>,
)
    requires
        replies.len() >= 8,
        metadata_reply(replies[1]) == Ok::<MetadataView, SyncErrorView>(record),
        exists_reply(replies[2]) == Ok::<bool, SyncErrorView>(true),
        flag_reply(replies[3]) == Ok::<bool, SyncErrorView>(true),
        git_reply(replies[4]) is Ok,
        git_reply(replies[5]) == Ok::<Seq<char>, SyncErrorView>(name),
        git_reply(replies[6]) == Ok::<Seq<char>, SyncErrorView>(remote),
        remote == local_commit_of(record) ==> raw_git_reply(replies[7]) == Ok::<
            Seq<char>,
            SyncErrorView,
        >(changes),
        remote != local_commit_of(record) ==> replies.len() >= 9 && git_reply(replies[7]) != Err::<
            Seq<char>,
            SyncErrorView,
        >(SyncErrorView::UnexpectedReply) && raw_git_reply(replies[8]) == Ok::<
            Seq<char>,
            SyncErrorView,
        >(changes),
    ensures
        run(status_steps(), status_start(root), replies) == StepView::<
            StatusFlowView,
            Seq<char>,
        >::Finished(
            Ok(
                report_text(
                    trimmed(name),
                    classified(local_commit_of(record), remote, git_reply(replies[7]) is Ok),
                    local_commit_of(record),
                    record.remote_url,
                    record.paths,
                    changes,
                ),
            ),
        ),
{
    reveal_with_fuel(run, 10);
}

/// How the report words the three standings of a local commit against a
/// resolved remote one: the same commit reads as up to date; an ancestor of the
/// remote reads as behind, with both commits abbreviated; anything else reads as
/// diverged.
pub proof fn law_status_classification(local: Seq<char>, remote: Seq<char>, branch: Seq<char>)
    ensures
        status_text(classified(local, local, true), branch) == "Up-to-date"@,
        status_text(classified(local, local, false), branch) == "Up-to-date"@,
        remote != local ==> status_text(classified(local, remote, true), branch)
            == "Behind remote ("@ + abbreviated(local) + " -> "@ + abbreviated(remote) + ")"@,
        remote != local ==> status_text(classified(local, remote, false), branch)
            == "Diverged from remote (local: "@ + abbreviated(local) + ", remote: "@ + abbreviated(
            remote,
        ) + ")"@,
{
}

} // verus!
