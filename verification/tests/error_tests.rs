use git_partial::backend::{
    read_directory_reply, read_done_reply, read_exists_reply, read_git_reply,
    read_metadata_reply, read_raw_git_reply, DirectoryState, Reply,
};
use git_partial::error::SyncError;
use git_partial::git::commands::GitOutput;
use git_partial::metadata::RepositoryMetadata;

#[test]
fn every_failure_has_its_words() {
    assert_eq!(
        SyncError::DestinationNotEmpty("work".to_string()).message(),
        "Destination directory 'work' exists and is not empty."
    );
    assert_eq!(
        SyncError::NoPathsRequested.message(),
        "No paths were given: at least one is needed."
    );
    assert_eq!(
        SyncError::NotAPartialCheckout.message(),
        "This repository is not using sparse checkout. Did you clone it with git-partial?"
    );
    assert_eq!(
        SyncError::NotAGitRepository("/tmp/x".to_string()).message(),
        "Not a git repository: /tmp/x"
    );
    assert_eq!(
        SyncError::BackendFailure("fatal".to_string()).message(),
        "Git command failed: fatal"
    );
    assert_eq!(
        SyncError::BackendUnavailable("No such file or directory".to_string()).message(),
        "Failed to execute git command: No such file or directory"
    );
    assert_eq!(
        SyncError::MetadataNotFound.message(),
        "Failed to load metadata: no record was found."
    );
    assert_eq!(
        SyncError::MetadataCorrupt("EOF while parsing".to_string()).message(),
        "Failed to deserialize metadata: EOF while parsing"
    );
    assert_eq!(SyncError::Io("disk full".to_string()).message(), "I/O failure: disk full");
    assert_eq!(
        SyncError::UnexpectedReply.message(),
        "The driver answered a request with a reply of another kind."
    );
}

#[test]
fn a_copy_of_a_failure_is_the_same_failure() {
    let failures = vec![
        SyncError::DestinationNotEmpty("d".to_string()),
        SyncError::NoPathsRequested,
        SyncError::NotAPartialCheckout,
        SyncError::NotAGitRepository("p".to_string()),
        SyncError::BackendFailure("b".to_string()),
        SyncError::BackendUnavailable("g".to_string()),
        SyncError::MetadataNotFound,
        SyncError::MetadataCorrupt("c".to_string()),
        SyncError::Io("i".to_string()),
        SyncError::UnexpectedReply,
    ];
    for failure in &failures {
        assert_eq!(&failure.clone(), failure);
    }
}

#[test]
fn replies_are_read_by_kind() {
    let output = |success: bool, stdout: &str, stderr: &str| {
        Reply::Git(GitOutput { success, stdout: stdout.to_string(), stderr: stderr.to_string() })
    };
    assert_eq!(read_git_reply(&output(true, " out \n", "")), Ok("out".to_string()));
    assert_eq!(
        read_git_reply(&output(false, "", "bad")),
        Err(SyncError::BackendFailure("bad".to_string()))
    );
    assert_eq!(
        read_git_reply(&Reply::Failed("no git".to_string())),
        Err(SyncError::BackendUnavailable("no git".to_string()))
    );
    assert_eq!(read_git_reply(&Reply::Done), Err(SyncError::UnexpectedReply));

    assert_eq!(read_raw_git_reply(&output(true, " out \n", "")), Ok(" out \n".to_string()));
    assert_eq!(
        read_raw_git_reply(&output(false, "", "bad")),
        Err(SyncError::BackendFailure("bad".to_string()))
    );
    assert_eq!(
        read_raw_git_reply(&Reply::Failed("no git".to_string())),
        Err(SyncError::BackendUnavailable("no git".to_string()))
    );
    assert_eq!(read_raw_git_reply(&Reply::Start), Err(SyncError::UnexpectedReply));

    assert_eq!(read_done_reply(&Reply::Done), Ok(()));
    assert_eq!(
        read_done_reply(&Reply::Failed("denied".to_string())),
        Err(SyncError::Io("denied".to_string()))
    );
    assert_eq!(read_done_reply(&Reply::Exists(true)), Err(SyncError::UnexpectedReply));

    assert_eq!(
        read_directory_reply(&Reply::Directory(DirectoryState::Empty)),
        Ok(DirectoryState::Empty)
    );
    assert_eq!(
        read_directory_reply(&Reply::Failed("denied".to_string())),
        Err(SyncError::Io("denied".to_string()))
    );
    assert_eq!(read_directory_reply(&Reply::Start), Err(SyncError::UnexpectedReply));

    assert_eq!(read_exists_reply(&Reply::Exists(false)), Ok(false));
    assert_eq!(read_exists_reply(&Reply::Exists(true)), Ok(true));
    assert_eq!(read_exists_reply(&Reply::Done), Err(SyncError::UnexpectedReply));

    let record = RepositoryMetadata::new("u".to_string());
    assert_eq!(read_metadata_reply(Reply::Metadata(record.clone())), Ok(record));
    assert_eq!(read_metadata_reply(Reply::NoMetadata), Err(SyncError::MetadataNotFound));
    assert_eq!(
        read_metadata_reply(Reply::CorruptMetadata("eof".to_string())),
        Err(SyncError::MetadataCorrupt("eof".to_string()))
    );
    assert_eq!(
        read_metadata_reply(Reply::Failed("denied".to_string())),
        Err(SyncError::Io("denied".to_string()))
    );
    assert_eq!(read_metadata_reply(Reply::Done), Err(SyncError::UnexpectedReply));
}
