//! What the library asks of its driver, and what the driver answers.
//!
//! A flow never runs git and never touches the disk. It hands out one
//! `Request` at a time; the driver carries it out and comes back with a `Reply`.

use vstd::prelude::*;
use crate::error::{viewed, SyncError, SyncErrorView};
use crate::git::commands::{
    output_raw, output_read, read_output, read_raw_output, GitCommand, GitCommandView, GitOutput,
    GitOutputView,
};
use crate::metadata::{MetadataView, RepositoryMetadata};
use crate::text::views;

verus! {

/// What a look at a directory found.
#[derive(Clone, Copy, Debug, PartialEq, Eq, Structural)]
pub enum DirectoryState {
    /// Nothing is there.
    Missing,
    /// A directory without entries.
    Empty,
    /// A directory with at least one entry.
    Occupied,
}

impl View for DirectoryState {
    type V = DirectoryState;

    open spec fn view(&self) -> DirectoryState {
        *self
    }
}

/// One thing for the driver to do.
#[derive(Debug, PartialEq, Eq)]
pub enum Request {
    /// Run git and come back with `Reply::Git`, or with `Reply::Failed` if git
    /// could not be started.
    Git(GitCommand),
    /// Look at a directory and come back with `Reply::Directory`.
    InspectDirectory(String),
    /// Create a directory and every missing one above it; come back with
    /// `Reply::Done`.
    CreateDirectory(String),
    /// Say whether anything exists at the path, given by its components; come
    /// back with `Reply::Exists`.
    Exists(Vec<String>),
    /// Read the record at the path, given by its components; come back with
    /// `Reply::Metadata`, `Reply::NoMetadata` or `Reply::CorruptMetadata`.
    LoadMetadata(Vec<String>),
    /// Write the record to the path, given by its components, so that no reader
    /// sees half of it; come back with `Reply::Done`.
    SaveMetadata(Vec<String>, RepositoryMetadata),
}

/// A `Request` as plain mathematics.
pub enum RequestView {
    Git(GitCommandView),
    InspectDirectory(Seq<char>),
    CreateDirectory(Seq<char>),
    Exists(Seq<Seq<char>>),
    LoadMetadata(Seq<Seq<char>>),
    SaveMetadata(Seq<Seq<char>>, MetadataView),
}

impl View for Request {
    type V = RequestView;

    open spec fn view(&self) -> RequestView {
        match self {
            Request::Git(command) => RequestView::Git(command@),
            Request::InspectDirectory(path) => RequestView::InspectDirectory(path@),
            Request::CreateDirectory(path) => RequestView::CreateDirectory(path@),
            Request::Exists(path) => RequestView::Exists(views(path@)),
            Request::LoadMetadata(path) => RequestView::LoadMetadata(views(path@)),
            Request::SaveMetadata(path, record) => RequestView::SaveMetadata(views(path@), record@),
        }
    }
}

/// What the driver answers.
#[derive(Debug, PartialEq, Eq)]
pub enum Reply {
    /// Nothing was asked yet: the reply that starts a flow.
    Start,
    /// Git ran and ended.
    Git(GitOutput),
    /// What a look at a directory found.
    Directory(DirectoryState),
    /// Whether the path exists.
    Exists(bool),
    /// The record that was read.
    Metadata(RepositoryMetadata),
    /// There is no record file.
    NoMetadata,
    /// The record file is there and does not hold a record.
    CorruptMetadata(String),
    /// The request was carried out.
    Done,
    /// The request could not be carried out.
    Failed(String),
}

/// A `Reply` as plain mathematics.
pub enum ReplyView {
    Start,
    Git(GitOutputView),
    Directory(DirectoryState),
    Exists(bool),
    Metadata(MetadataView),
    NoMetadata,
    CorruptMetadata(Seq<char>),
    Done,
    Failed(Seq<char>),
}

impl View for Reply {
    type V = ReplyView;

    open spec fn view(&self) -> ReplyView {
        match self {
            Reply::Start => ReplyView::Start,
            Reply::Git(output) => ReplyView::Git(output@),
            Reply::Directory(state) => ReplyView::Directory(*state),
            Reply::Exists(found) => ReplyView::Exists(*found),
            Reply::Metadata(record) => ReplyView::Metadata(record@),
            Reply::NoMetadata => ReplyView::NoMetadata,
            Reply::CorruptMetadata(message) => ReplyView::CorruptMetadata(message@),
            Reply::Done => ReplyView::Done,
            Reply::Failed(message) => ReplyView::Failed(message@),
        }
    }
}

/// What a flow hands back: the next request with the state to come back to, or
/// its end.
#[derive(Debug, PartialEq, Eq)]
pub enum Step<S, T> {
    /// Carry out the request, then call the flow again with this state and the
    /// reply.
    Continue(S, Request),
    /// The flow is over.
    Finished(Result<T, SyncError>),
}

/// A `Step` as plain mathematics.
pub enum StepView<S, T> {
    Continue(S, RequestView),
    Finished(Result<T, SyncErrorView>),
}

impl<S: View, T: View> View for Step<S, T> {
    type V = StepView<S::V, T::V>;

    open spec fn view(&self) -> StepView<S::V, T::V> {
        match self {
            Step::Continue(state, request) => StepView::Continue(state@, request@),
            Step::Finished(Ok(outcome)) => StepView::Finished(Ok(outcome@)),
            Step::Finished(Err(e)) => StepView::Finished(Err(e@)),
        }
    }
}

/// Where a flow stands after the driver gave these replies in turn, starting
/// from `flow`. Replies that come after the end of the flow count for nothing.
pub open spec fn run<S, T>(
    step: spec_fn(S, ReplyView) -> StepView<S, T>,
    flow: S,
    replies: Seq<ReplyView>,
) -> StepView<S, T>
    recommends
        replies.len() > 0,
    decreases replies.len(),
{
    let first = step(flow, replies[0]);
    if replies.len() <= 1 {
        first
    } else {
        match first {
            StepView::Continue(next, _) => run(step, next, replies.drop_first()),
            StepView::Finished(_) => first,
        }
    }
}

/// The requests that a flow hands out while the driver gives these replies in
/// turn, starting from `flow`.
pub open spec fn asked<S, T>(
    step: spec_fn(S, ReplyView) -> StepView<S, T>,
    flow: S,
    replies: Seq<ReplyView>,
) -> Seq<RequestView>
    decreases replies.len(),
{
    if replies.len() == 0 {
        Seq::empty()
    } else {
        match step(flow, replies[0]) {
            StepView::Continue(next, request) => seq![request] + asked(
                step,
                next,
                replies.drop_first(),
            ),
            StepView::Finished(_) => Seq::empty(),
        }
    }
}

/// What the reply to a git request yields: the command's trimmed output, git's
/// complaint, or the reason why git did not run.
pub open spec fn git_reply(reply: ReplyView) -> Result<Seq<char>, SyncErrorView> {
    match reply {
        ReplyView::Git(output) => output_read(output),
        ReplyView::Failed(message) => Err(
            SyncErrorView::BackendUnavailable(message),
        ),
        _ => Err(SyncErrorView::UnexpectedReply),
    }
}

/// Reads the reply to a git request.
pub fn read_git_reply(reply: &Reply) -> (r: Result<String, SyncError>)
    ensures
        viewed(r) == git_reply(reply@),
{
    match reply {
        Reply::Git(output) => read_output(output),
        Reply::Failed(message) => Err(
            SyncError::BackendUnavailable(message.clone()),
        ),
        _ => Err(SyncError::UnexpectedReply),
    }
}

/// What the reply to a git request yields where the output is wanted word for
/// word: what the command printed, git's complaint, or the reason why git did
/// not run.
pub open spec fn raw_git_reply(reply: ReplyView) -> Result<Seq<char>, SyncErrorView> {
    match reply {
        ReplyView::Git(output) => output_raw(output),
        ReplyView::Failed(message) => Err(
            SyncErrorView::BackendUnavailable(message),
        ),
        _ => Err(SyncErrorView::UnexpectedReply),
    }
}

/// Reads the reply to a git request word for word.
pub fn read_raw_git_reply(reply: &Reply) -> (r: Result<String, SyncError>)
    ensures
        viewed(r) == raw_git_reply(reply@),
{
    match reply {
        Reply::Git(output) => read_raw_output(output),
        Reply::Failed(message) => Err(
            SyncError::BackendUnavailable(message.clone()),
        ),
        _ => Err(SyncError::UnexpectedReply),
    }
}

/// What the reply to a request on the disk yields: nothing, or the disk's
/// refusal.
pub open spec fn done_reply(reply: ReplyView) -> Result<(), SyncErrorView> {
    match reply {
        ReplyView::Done => Ok(()),
        ReplyView::Failed(message) => Err(SyncErrorView::Io(message)),
        _ => Err(SyncErrorView::UnexpectedReply),
    }
}

/// Reads the reply to a request that only has to be carried out.
pub fn read_done_reply(reply: &Reply) -> (r: Result<(), SyncError>)
    ensures
        viewed(r) == done_reply(reply@),
{
    match reply {
        Reply::Done => Ok(()),
        Reply::Failed(message) => Err(SyncError::Io(message.clone())),
        _ => Err(SyncError::UnexpectedReply),
    }
}

/// What the reply to a look at a directory yields.
pub open spec fn directory_reply(reply: ReplyView) -> Result<DirectoryState, SyncErrorView> {
    match reply {
        ReplyView::Directory(state) => Ok(state),
        ReplyView::Failed(message) => Err(SyncErrorView::Io(message)),
        _ => Err(SyncErrorView::UnexpectedReply),
    }
}

/// Reads the reply to a look at a directory.
pub fn read_directory_reply(reply: &Reply) -> (r: Result<DirectoryState, SyncError>)
    ensures
        viewed(r) == directory_reply(reply@),
{
    match reply {
        Reply::Directory(state) => Ok(*state),
        Reply::Failed(message) => Err(SyncError::Io(message.clone())),
        _ => Err(SyncError::UnexpectedReply),
    }
}

/// What the reply to a question of existence yields.
pub open spec fn exists_reply(reply: ReplyView) -> Result<bool, SyncErrorView> {
    match reply {
        ReplyView::Exists(found) => Ok(found),
        ReplyView::Failed(message) => Err(SyncErrorView::Io(message)),
        _ => Err(SyncErrorView::UnexpectedReply),
    }
}

/// Reads the reply to a question of existence.
pub fn read_exists_reply(reply: &Reply) -> (r: Result<bool, SyncError>)
    ensures
        viewed(r) == exists_reply(reply@),
{
    match reply {
        Reply::Exists(found) => Ok(*found),
        Reply::Failed(message) => Err(SyncError::Io(message.clone())),
        _ => Err(SyncError::UnexpectedReply),
    }
}

/// What the reply to a request for the record yields: the record; `NotFound`
/// where there is no file; `Corrupt` where the file does not hold a record.
pub open spec fn metadata_reply(reply: ReplyView) -> Result<MetadataView, SyncErrorView> {
    match reply {
        ReplyView::Metadata(record) => Ok(record),
        ReplyView::NoMetadata => Err(SyncErrorView::MetadataNotFound),
        ReplyView::CorruptMetadata(message) => Err(SyncErrorView::MetadataCorrupt(message)),
        ReplyView::Failed(message) => Err(SyncErrorView::Io(message)),
        _ => Err(SyncErrorView::UnexpectedReply),
    }
}

/// Reads the reply to a request for the record.
pub fn read_metadata_reply(reply: Reply) -> (r: Result<RepositoryMetadata, SyncError>)
    ensures
        viewed(r) == metadata_reply(reply@),
{
    match reply {
        Reply::Metadata(record) => Ok(record),
        Reply::NoMetadata => Err(SyncError::MetadataNotFound),
        Reply::CorruptMetadata(message) => Err(SyncError::MetadataCorrupt(message)),
        Reply::Failed(message) => Err(SyncError::Io(message)),
        _ => Err(SyncError::UnexpectedReply),
    }
}

} // verus!
