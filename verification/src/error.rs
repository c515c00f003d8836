//! What can end a flow early.

use vstd::prelude::*;
use crate::text::glue;

verus! {

/// Why a flow failed.
#[derive(Debug, PartialEq, Eq)]
pub enum SyncError {
    /// The destination of a new checkout exists and holds something.
    DestinationNotEmpty(String),
    /// No path was asked for.
    NoPathsRequested,
    /// The working copy does not select paths: it was not made by this tool.
    NotAPartialCheckout,
    /// The directory holds no repository.
    NotAGitRepository(String),
    /// Git reported a failure. The message is what git wrote to its error
    /// stream, word for word.
    BackendFailure(String),
    /// Git could not be run at all. The reason is the driver's, word for word.
    BackendUnavailable(String),
    /// The working copy has no record.
    MetadataNotFound,
    /// The record exists and cannot be read back.
    MetadataCorrupt(String),
    /// The disk refused an operation.
    Io(String),
    /// The driver answered a request with a reply of another kind.
    UnexpectedReply,
}

/// A `SyncError` with its texts as sequences.
pub enum SyncErrorView {
    DestinationNotEmpty(Seq<char>),
    NoPathsRequested,
    NotAPartialCheckout,
    NotAGitRepository(Seq<char>),
    BackendFailure(Seq<char>),
    BackendUnavailable(Seq<char>),
    MetadataNotFound,
    MetadataCorrupt(Seq<char>),
    Io(Seq<char>),
    UnexpectedReply,
}

impl View for SyncError {
    type V = SyncErrorView;

    open spec fn view(&self) -> SyncErrorView {
        match self {
            SyncError::DestinationNotEmpty(path) => SyncErrorView::DestinationNotEmpty(path@),
            SyncError::NoPathsRequested => SyncErrorView::NoPathsRequested,
            SyncError::NotAPartialCheckout => SyncErrorView::NotAPartialCheckout,
            SyncError::NotAGitRepository(path) => SyncErrorView::NotAGitRepository(path@),
            SyncError::BackendFailure(message) => SyncErrorView::BackendFailure(message@),
            SyncError::BackendUnavailable(reason) => SyncErrorView::BackendUnavailable(reason@),
            SyncError::MetadataNotFound => SyncErrorView::MetadataNotFound,
            SyncError::MetadataCorrupt(message) => SyncErrorView::MetadataCorrupt(message@),
            SyncError::Io(message) => SyncErrorView::Io(message@),
            SyncError::UnexpectedReply => SyncErrorView::UnexpectedReply,
        }
    }
}

/// A result with its value and its failure as plain mathematics.
pub open spec fn viewed<T: View>(result: Result<T, SyncError>) -> Result<T::V, SyncErrorView> {
    match result {
        Ok(value) => Ok(value@),
        Err(error) => Err(error@),
    }
}

/// The cause of a failure in words.
pub open spec fn message_text(error: SyncErrorView) -> Seq<char> {
    match error {
        SyncErrorView::DestinationNotEmpty(path) => "Destination directory '"@ + path
            + "' exists and is not empty."@,
        SyncErrorView::NoPathsRequested => "No paths were given: at least one is needed."@,
        SyncErrorView::NotAPartialCheckout =>
            "This repository is not using sparse checkout. Did you clone it with git-partial?"@,
        SyncErrorView::NotAGitRepository(path) => "Not a git repository: "@ + path,
        SyncErrorView::BackendFailure(message) => "Git command failed: "@ + message,
        SyncErrorView::BackendUnavailable(reason) => "Failed to execute git command: "@ + reason,
        SyncErrorView::MetadataNotFound => "Failed to load metadata: no record was found."@,
        SyncErrorView::MetadataCorrupt(message) => "Failed to deserialize metadata: "@ + message,
        SyncErrorView::Io(message) => "I/O failure: "@ + message,
        SyncErrorView::UnexpectedReply => "The driver answered a request with a reply of another kind."@,
    }
}

impl SyncError {
    /// The cause of the failure in words. What git or the disk said is passed
    /// on as it came.
    pub fn message(&self) -> (text: String)
        ensures
            text@ == message_text(self@),
    {
        match self {
            SyncError::DestinationNotEmpty(path) => {
                let mut text = glue("Destination directory '", path.as_str());
                text.append("' exists and is not empty.");
                text
            },
            SyncError::NoPathsRequested => "No paths were given: at least one is needed.".to_owned(),
            SyncError::NotAPartialCheckout =>
                "This repository is not using sparse checkout. Did you clone it with git-partial?".to_owned(),
            SyncError::NotAGitRepository(path) => glue("Not a git repository: ", path.as_str()),
            SyncError::BackendFailure(message) => glue("Git command failed: ", message.as_str()),
            SyncError::BackendUnavailable(reason) => glue(
                "Failed to execute git command: ",
                reason.as_str(),
            ),
            SyncError::MetadataNotFound => "Failed to load metadata: no record was found.".to_owned(),
            SyncError::MetadataCorrupt(message) => glue(
                "Failed to deserialize metadata: ",
                message.as_str(),
            ),
            SyncError::Io(message) => glue("I/O failure: ", message.as_str()),
            SyncError::UnexpectedReply =>
                "The driver answered a request with a reply of another kind.".to_owned(),
        }
    }
}

impl Clone for SyncError {
    fn clone(&self) -> (copy: Self)
        ensures
            copy@ == self@,
    {
        match self {
            SyncError::DestinationNotEmpty(path) => SyncError::DestinationNotEmpty(path.clone()),
            SyncError::NoPathsRequested => SyncError::NoPathsRequested,
            SyncError::NotAPartialCheckout => SyncError::NotAPartialCheckout,
            SyncError::NotAGitRepository(path) => SyncError::NotAGitRepository(path.clone()),
            SyncError::BackendFailure(message) => SyncError::BackendFailure(message.clone()),
            SyncError::BackendUnavailable(reason) => SyncError::BackendUnavailable(reason.clone()),
            SyncError::MetadataNotFound => SyncError::MetadataNotFound,
            SyncError::MetadataCorrupt(message) => SyncError::MetadataCorrupt(message.clone()),
            SyncError::Io(message) => SyncError::Io(message.clone()),
            SyncError::UnexpectedReply => SyncError::UnexpectedReply,
        }
    }
}

} // verus!
