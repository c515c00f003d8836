use git_partial::backend::{DirectoryState, Reply, Request, Step};
use git_partial::error::SyncError;
use git_partial::flows::add_paths::{add_new_paths, ExtendFlow, Extension};
use git_partial::flows::clone::{clone_repository, CloneFlow};
use git_partial::flows::smart_pull::{perform_smart_pull, PullFlow};
use git_partial::flows::status::{show_status, StatusFlow};
use git_partial::git::commands::{GitCommand, GitOutput};
use git_partial::metadata::RepositoryMetadata;

fn words(items: &[&str]) -> Vec<String> {
    items.iter().map(|s| s.to_string()).collect()
}

fn git(dir: &str, args: &[&str]) -> Request {
    Request::Git(GitCommand { dir: Some(dir.to_string()), args: words(args) })
}

fn ok(stdout: &str) -> Reply {
    Reply::Git(GitOutput { success: true, stdout: stdout.to_string(), stderr: String::new() })
}

fn failed(stderr: &str) -> Reply {
    Reply::Git(GitOutput { success: false, stdout: String::new(), stderr: stderr.to_string() })
}

fn backend(stderr: &str) -> SyncError {
    SyncError::BackendFailure(stderr.to_string())
}

fn record(url: &str, paths: &[&str], commit: Option<&str>) -> RepositoryMetadata {
    let mut record = RepositoryMetadata::new(url.to_string());
    record.add_paths(&words(paths));
    if let Some(commit) = commit {
        record.set_last_commit(commit);
    }
    record
}

fn location(root: &str) -> Vec<String> {
    words(&[root, ".gitpartial", "metadata.json"])
}

fn run_clone(
    flow: CloneFlow,
    replies: Vec<Reply>,
) -> (Vec<Request>, Option<Result<RepositoryMetadata, SyncError>>) {
    let mut asked = Vec::new();
    let mut flow = flow;
    for reply in replies {
        match clone_repository(flow, reply) {
            Step::Continue(next, request) => {
                asked.push(request);
                flow = next;
            }
            Step::Finished(outcome) => return (asked, Some(outcome)),
        }
    }
    (asked, None)
}

fn run_extend(
    flow: ExtendFlow,
    replies: Vec<Reply>,
) -> (Vec<Request>, Option<Result<Extension, SyncError>>) {
    let mut asked = Vec::new();
    let mut flow = flow;
    for reply in replies {
        match add_new_paths(flow, reply) {
            Step::Continue(next, request) => {
                asked.push(request);
                flow = next;
            }
            Step::Finished(outcome) => return (asked, Some(outcome)),
        }
    }
    (asked, None)
}

fn run_pull(
    flow: PullFlow,
    replies: Vec<Reply>,
) -> (Vec<Request>, Option<Result<RepositoryMetadata, SyncError>>) {
    let mut asked = Vec::new();
    let mut flow = flow;
    for reply in replies {
        match perform_smart_pull(flow, reply) {
            Step::Continue(next, request) => {
                asked.push(request);
                flow = next;
            }
            Step::Finished(outcome) => return (asked, Some(outcome)),
        }
    }
    (asked, None)
}

fn run_status(
    flow: StatusFlow,
    replies: Vec<Reply>,
) -> (Vec<Request>, Option<Result<String, SyncError>>) {
    let mut asked = Vec::new();
    let mut flow = flow;
    for reply in replies {
        match show_status(flow, reply) {
            Step::Continue(next, request) => {
                asked.push(request);
                flow = next;
            }
            Step::Finished(outcome) => return (asked, Some(outcome)),
        }
    }
    (asked, None)
}

#[test]
fn initialize_with_two_files_records_exactly_those() {
    let paths = words(&["README.md", "src/core.x"]);
    let flow = CloneFlow::new("https://example.org/r.git", "work", &paths);
    let (asked, outcome) = run_clone(
        flow,
        vec![
            Reply::Start,
            Reply::Directory(DirectoryState::Missing),
            Reply::Done,
            ok(""),
            ok(""),
            ok(""),
            ok("0123456789abcdef\n"),
            Reply::Done,
        ],
    );
    let expected = record("https://example.org/r.git", &["README.md", "src/core.x"], Some("0123456789abcdef"));
    assert_eq!(
        asked,
        vec![
            Request::InspectDirectory("work".to_string()),
            Request::CreateDirectory("work".to_string()),
            Request::Git(GitCommand {
                dir: None,
                args: words(&["clone", "--filter=blob:none", "--sparse", "https://example.org/r.git", "work"]),
            }),
            git("work", &["sparse-checkout", "set", "--no-cone", "--", "/README.md", "src/core.x"]),
            git("work", &["checkout", "HEAD", "--force"]),
            git("work", &["rev-parse", "HEAD"]),
            Request::SaveMetadata(location("work"), expected.clone()),
        ]
    );
    assert_eq!(outcome, Some(Ok(expected)));
}

#[test]
fn initialize_into_an_empty_directory_creates_nothing() {
    let paths = words(&["docs/**", "docs/**"]);
    let flow = CloneFlow::new("url", "work", &paths);
    let (asked, outcome) = run_clone(
        flow,
        vec![
            Reply::Start,
            Reply::Directory(DirectoryState::Empty),
            ok(""),
            ok(""),
            ok(""),
            ok("c1"),
            Reply::Done,
        ],
    );
    assert_eq!(asked.len(), 6);
    assert_eq!(asked[0], Request::InspectDirectory("work".to_string()));
    assert_eq!(
        asked[2],
        git("work", &["sparse-checkout", "set", "--no-cone", "--", "docs/**", "docs/**"])
    );
    assert_eq!(outcome, Some(Ok(record("url", &["docs/**"], Some("c1")))));
}

#[test]
fn initialize_refuses_an_occupied_destination_before_any_clone() {
    let flow = CloneFlow::new("url", "work", &words(&["README.md"]));
    let (asked, outcome) =
        run_clone(flow, vec![Reply::Start, Reply::Directory(DirectoryState::Occupied)]);
    assert_eq!(asked, vec![Request::InspectDirectory("work".to_string())]);
    assert_eq!(outcome, Some(Err(SyncError::DestinationNotEmpty("work".to_string()))));
}

#[test]
fn initialize_refuses_an_empty_list_of_paths() {
    let flow = CloneFlow::new("url", "work", &[]);
    let (asked, outcome) = run_clone(flow, vec![Reply::Start]);
    assert!(asked.is_empty());
    assert_eq!(outcome, Some(Err(SyncError::NoPathsRequested)));
}

#[test]
fn initialize_stops_at_the_first_failure() {
    let paths = words(&["README.md"]);
    let (asked, outcome) = run_clone(
        CloneFlow::new("url", "work", &paths),
        vec![Reply::Start, Reply::Directory(DirectoryState::Empty), failed("no such remote")],
    );
    assert_eq!(asked.len(), 2);
    assert_eq!(outcome, Some(Err(backend("no such remote"))));

    let (_, outcome) = run_clone(
        CloneFlow::new("url", "work", &paths),
        vec![Reply::Start, Reply::Failed("permission denied".to_string())],
    );
    assert_eq!(outcome, Some(Err(SyncError::Io("permission denied".to_string()))));

    let (_, outcome) = run_clone(
        CloneFlow::new("url", "work", &paths),
        vec![
            Reply::Start,
            Reply::Directory(DirectoryState::Missing),
            Reply::Failed("read-only".to_string()),
        ],
    );
    assert_eq!(outcome, Some(Err(SyncError::Io("read-only".to_string()))));

    let (_, outcome) = run_clone(
        CloneFlow::new("url", "work", &paths),
        vec![
            Reply::Start,
            Reply::Directory(DirectoryState::Empty),
            Reply::Failed("git: not found".to_string()),
        ],
    );
    assert_eq!(
        outcome,
        Some(Err(SyncError::BackendUnavailable("git: not found".to_string()
        )))
    );

    let (_, outcome) = run_clone(
        CloneFlow::new("url", "work", &paths),
        vec![
            Reply::Start,
            Reply::Directory(DirectoryState::Empty),
            ok(""),
            ok(""),
            ok(""),
            ok("c1"),
            Reply::Failed("disk full".to_string()),
        ],
    );
    assert_eq!(outcome, Some(Err(SyncError::Io("disk full".to_string()))));

    let (_, outcome) = run_clone(
        CloneFlow::new("url", "work", &paths),
        vec![Reply::Start, Reply::Exists(true)],
    );
    assert_eq!(outcome, Some(Err(SyncError::UnexpectedReply)));
}

#[test]
fn extend_adds_a_glob_to_an_existing_selection() {
    let before = record("url", &["README.md"], Some("c1"));
    let (asked, outcome) = run_extend(
        ExtendFlow::new("/w", &words(&["docs/**"])),
        vec![
            Reply::Start,
            Reply::Exists(true),
            ok("true\n"),
            Reply::Metadata(before),
            ok(""),
            ok(""),
            Reply::Done,
        ],
    );
    let after = record("url", &["README.md", "docs/**"], Some("c1"));
    assert_eq!(
        asked,
        vec![
            Request::Exists(words(&["/w", ".git"])),
            git("/w", &["config", "core.sparseCheckout"]),
            Request::LoadMetadata(location("/w")),
            git("/w", &["sparse-checkout", "set", "--no-cone", "--", "/README.md", "docs/**"]),
            git("/w", &["checkout", "HEAD", "--force"]),
            Request::SaveMetadata(location("/w"), after.clone()),
        ]
    );
    assert_eq!(outcome, Some(Ok(Extension { record: after, changed: true })));
}

#[test]
fn extend_twice_by_the_same_paths_is_idle_the_second_time() {
    let paths = words(&["src/utils.rs", "docs/**"]);
    let before = record("url", &["README.md", "src/core.rs"], Some("c1"));
    let (_, first) = run_extend(
        ExtendFlow::new("/w", &paths),
        vec![
            Reply::Start,
            Reply::Exists(true),
            ok("true"),
            Reply::Metadata(before),
            ok(""),
            ok(""),
            Reply::Done,
        ],
    );
    let first = first.expect("finished").expect("succeeded");
    assert!(first.changed);
    assert_eq!(
        first.record,
        record("url", &["README.md", "src/core.rs", "src/utils.rs", "docs/**"], Some("c1"))
    );

    let (asked, second) = run_extend(
        ExtendFlow::new("/w", &paths),
        vec![
            Reply::Start,
            Reply::Exists(true),
            ok("true"),
            Reply::Metadata(first.record.clone()),
            ok(""),
            ok(""),
            Reply::Done,
        ],
    );
    assert_eq!(
        asked,
        vec![
            Request::Exists(words(&["/w", ".git"])),
            git("/w", &["config", "core.sparseCheckout"]),
            Request::LoadMetadata(location("/w")),
        ]
    );
    assert_eq!(second, Some(Ok(Extension { record: first.record, changed: false })));
}

#[test]
fn extend_by_a_path_that_a_glob_covers_still_adds_the_path() {
    let before = record("url", &["README.md", "src/**"], Some("c1"));
    let (_, outcome) = run_extend(
        ExtendFlow::new("/w", &words(&["src/core.rs"])),
        vec![
            Reply::Start,
            Reply::Exists(true),
            ok("true"),
            Reply::Metadata(before),
            ok(""),
            ok(""),
            Reply::Done,
        ],
    );
    let outcome = outcome.expect("finished").expect("succeeded");
    assert!(outcome.changed);
    assert_eq!(outcome.record, record("url", &["README.md", "src/**", "src/core.rs"], Some("c1")));
}

#[test]
fn two_extensions_leave_the_union() {
    let replies = |loaded: RepositoryMetadata| {
        vec![
            Reply::Start,
            Reply::Exists(true),
            ok("true"),
            Reply::Metadata(loaded),
            ok(""),
            ok(""),
            Reply::Done,
        ]
    };
    let (_, first) =
        run_extend(ExtendFlow::new("/w", &words(&["a", "b"])), replies(record("url", &[], None)));
    let first = first.expect("finished").expect("succeeded").record;
    let (_, second) = run_extend(ExtendFlow::new("/w", &words(&["b", "c"])), replies(first));
    let second = second.expect("finished").expect("succeeded").record;
    assert_eq!(second.checked_out_paths.to_vec(), words(&["a", "b", "c"]));
    assert_eq!(second.checked_out_paths.len(), 3);
}

#[test]
fn extend_needs_a_sparse_working_copy_and_a_record() {
    let paths = words(&["docs/**"]);
    let (asked, outcome) =
        run_extend(ExtendFlow::new("/w", &paths), vec![Reply::Start, Reply::Exists(false)]);
    assert_eq!(asked, vec![Request::Exists(words(&["/w", ".git"]))]);
    assert_eq!(outcome, Some(Err(SyncError::NotAPartialCheckout)));

    let (asked, outcome) = run_extend(
        ExtendFlow::new("/w", &paths),
        vec![Reply::Start, Reply::Exists(true), ok("false")],
    );
    assert_eq!(asked.len(), 2);
    assert_eq!(outcome, Some(Err(SyncError::NotAPartialCheckout)));

    let (asked, outcome) = run_extend(
        ExtendFlow::new("/w", &paths),
        vec![Reply::Start, Reply::Exists(true), ok("true"), Reply::NoMetadata],
    );
    assert_eq!(asked.len(), 3);
    assert_eq!(outcome, Some(Err(SyncError::MetadataNotFound)));

    let (_, outcome) = run_extend(
        ExtendFlow::new("/w", &paths),
        vec![
            Reply::Start,
            Reply::Exists(true),
            ok("true"),
            Reply::CorruptMetadata("expected value".to_string()),
        ],
    );
    assert_eq!(outcome, Some(Err(SyncError::MetadataCorrupt("expected value".to_string()))));
}

#[test]
fn extend_leaves_the_record_alone_when_git_fails() {
    let (asked, outcome) = run_extend(
        ExtendFlow::new("/w", &words(&["docs/**"])),
        vec![
            Reply::Start,
            Reply::Exists(true),
            ok("true"),
            Reply::Metadata(record("url", &["a"], None)),
            failed("cannot set"),
        ],
    );
    assert_eq!(asked.len(), 4);
    assert!(asked.iter().all(|request| !matches!(request, Request::SaveMetadata(_, _))));
    assert_eq!(outcome, Some(Err(backend("cannot set"))));
}

#[test]
fn refresh_moves_the_record_to_the_new_commit() {
    let before = record("url", &["src/frontend/**"], Some("old"));
    let (asked, outcome) = run_pull(
        PullFlow::new("/w"),
        vec![
            Reply::Start,
            Reply::Exists(true),
            ok("true"),
            ok(""),
            ok("main\n"),
            ok("Already up to date."),
            Reply::Metadata(before),
            ok("new\n"),
            Reply::Done,
        ],
    );
    let after = record("url", &["src/frontend/**"], Some("new"));
    assert_eq!(
        asked,
        vec![
            Request::Exists(words(&["/w", ".git"])),
            git("/w", &["config", "core.sparseCheckout"]),
            git("/w", &["fetch", "origin"]),
            git("/w", &["branch", "--show-current"]),
            git("/w", &["merge", "--ff-only", "origin/main"]),
            Request::LoadMetadata(location("/w")),
            git("/w", &["rev-parse", "HEAD"]),
            Request::SaveMetadata(location("/w"), after.clone()),
        ]
    );
    assert_eq!(outcome, Some(Ok(after)));
}

#[test]
fn refresh_saves_even_when_the_commit_did_not_move() {
    let before = record("url", &["a"], Some("same"));
    let (asked, outcome) = run_pull(
        PullFlow::new("/w"),
        vec![
            Reply::Start,
            Reply::Exists(true),
            ok("true"),
            ok(""),
            ok("main"),
            ok(""),
            Reply::Metadata(before.clone()),
            ok("same"),
            Reply::Done,
        ],
    );
    assert_eq!(asked.last(), Some(&Request::SaveMetadata(location("/w"), before.clone())));
    assert_eq!(outcome, Some(Ok(before)));
}

#[test]
fn refresh_fails_where_a_fast_forward_is_impossible() {
    let (asked, outcome) = run_pull(
        PullFlow::new("/w"),
        vec![
            Reply::Start,
            Reply::Exists(true),
            ok("true"),
            ok(""),
            ok("main"),
            failed("fatal: Not possible to fast-forward, aborting."),
        ],
    );
    assert_eq!(asked.len(), 5);
    assert_eq!(outcome, Some(Err(backend("fatal: Not possible to fast-forward, aborting."))));
}

#[test]
fn refresh_needs_a_sparse_working_copy() {
    let (_, outcome) = run_pull(PullFlow::new("/w"), vec![Reply::Start, Reply::Exists(false)]);
    assert_eq!(outcome, Some(Err(SyncError::NotAPartialCheckout)));
    let (_, outcome) =
        run_pull(PullFlow::new("/w"), vec![Reply::Start, Reply::Exists(true), ok("")]);
    assert_eq!(outcome, Some(Err(SyncError::NotAPartialCheckout)));
    let (_, outcome) =
        run_pull(PullFlow::new("/w"), vec![Reply::Start, Reply::Exists(true), failed("unset")]);
    assert_eq!(outcome, Some(Err(backend("unset"))));
}

fn status_replies(record: RepositoryMetadata, rest: Vec<Reply>) -> Vec<Reply> {
    let mut replies =
        vec![Reply::Start, Reply::Metadata(record), Reply::Exists(true), ok("true"), ok(""), ok("main\n")];
    replies.extend(rest);
    replies
}

#[test]
fn status_of_an_up_to_date_checkout() {
    let (asked, outcome) = run_status(
        StatusFlow::new("/w"),
        status_replies(
            record("url", &["README.md"], Some("0123456789")),
            vec![ok("0123456789\n"), ok("")],
        ),
    );
    assert_eq!(
        asked,
        vec![
            Request::LoadMetadata(location("/w")),
            Request::Exists(words(&["/w", ".git"])),
            git("/w", &["config", "core.sparseCheckout"]),
            git("/w", &["fetch", "origin", "--quiet"]),
            git("/w", &["branch", "--show-current"]),
            git("/w", &["rev-parse", "origin/main"]),
            git("/w", &["status", "--short"]),
        ]
    );
    let report = outcome.expect("finished").expect("succeeded");
    assert!(report.contains("Branch: main (Up-to-date)"));
    assert!(report.contains("Sparse checkout paths:"));
    assert!(report.contains("  - README.md"));
    assert!(report.contains("Local changes:"));
    assert!(report.contains("  No changes\n"));
    assert!(report.contains("Last Synced Commit: 0123456789\n"));
    assert!(report.contains("Remote URL: url\n"));
}

#[test]
fn status_of_a_checkout_behind_its_remote() {
    let (asked, outcome) = run_status(
        StatusFlow::new("/w"),
        status_replies(
            record("url", &["README.md"], Some("1111111aaa")),
            vec![ok("2222222bbb"), ok(""), ok("")],
        ),
    );
    assert_eq!(asked[6], git("/w", &["merge-base", "--is-ancestor", "1111111aaa", "2222222bbb"]));
    let report = outcome.expect("finished").expect("succeeded");
    assert!(report.contains("Branch: main (Behind remote (1111111 -> 2222222))\n"));
    assert!(report.contains("Local changes:"));
}

#[test]
fn status_of_a_diverged_checkout() {
    let (_, outcome) = run_status(
        StatusFlow::new("/w"),
        status_replies(
            record("url", &["README.md"], Some("1111111aaa")),
            vec![ok("2222222bbb"), failed(""), ok("")],
        ),
    );
    let report = outcome.expect("finished").expect("succeeded");
    assert!(report.contains("Branch: main (Diverged from remote (local: 1111111, remote: 2222222))\n"));
}

#[test]
fn status_with_an_unresolved_remote() {
    let (asked, outcome) = run_status(
        StatusFlow::new("/w"),
        status_replies(
            record("url", &["README.md"], None),
            vec![failed("unknown revision"), ok("")],
        ),
    );
    assert_eq!(asked.len(), 7);
    let report = outcome.expect("finished").expect("succeeded");
    assert!(report.contains("Branch: main (Could not determine remote status for branch 'main')\n"));
    assert!(report.contains("Last Synced Commit: <unknown>\n"));
}

#[test]
fn status_with_local_changes_lists_them() {
    let (_, outcome) = run_status(
        StatusFlow::new("/w"),
        status_replies(
            record("url", &["README.md", "src/main.rs"], Some("0123456789")),
            vec![ok("0123456789"), ok(" M README.md\n M src/main.rs\n?? untracked.txt\n")],
        ),
    );
    let report = outcome.expect("finished").expect("succeeded");
    assert!(report.contains("Branch: main (Up-to-date)"));
    assert!(report.contains("Local changes:"));
    assert!(report.contains(" M README.md"));
    assert!(report.contains(" M src/main.rs"));
    assert!(report.contains("?? untracked.txt"));
    assert!(report.ends_with(
        "\nLocal changes:\n   M README.md\n   M src/main.rs\n  ?? untracked.txt\n"
    ));
}

#[test]
fn status_of_a_directory_without_a_record_is_a_plain_report() {
    let (asked, outcome) = run_status(StatusFlow::new("/w"), vec![Reply::Start, Reply::NoMetadata]);
    assert_eq!(asked, vec![Request::LoadMetadata(location("/w"))]);
    assert_eq!(
        outcome,
        Some(Ok(
            "Current directory is not a git-partial repository (metadata not found).".to_string()
        ))
    );
}

#[test]
fn status_of_a_checkout_that_is_not_sparse_is_a_warning() {
    let expected =
        "Warning: Repository metadata found, but sparse checkout is not enabled.".to_string();
    let (_, outcome) = run_status(
        StatusFlow::new("/w"),
        vec![Reply::Start, Reply::Metadata(record("url", &["a"], None)), Reply::Exists(false)],
    );
    assert_eq!(outcome, Some(Ok(expected.clone())));
    let (_, outcome) = run_status(
        StatusFlow::new("/w"),
        vec![
            Reply::Start,
            Reply::Metadata(record("url", &["a"], None)),
            Reply::Exists(true),
            ok("false"),
        ],
    );
    assert_eq!(outcome, Some(Ok(expected)));
}

#[test]
fn status_fails_on_a_corrupt_record_and_on_a_failed_fetch() {
    let (_, outcome) = run_status(
        StatusFlow::new("/w"),
        vec![Reply::Start, Reply::CorruptMetadata("eof".to_string())],
    );
    assert_eq!(outcome, Some(Err(SyncError::MetadataCorrupt("eof".to_string()))));
    let (_, outcome) = run_status(
        StatusFlow::new("/w"),
        vec![
            Reply::Start,
            Reply::Metadata(record("url", &["a"], None)),
            Reply::Exists(true),
            ok("true"),
            failed("offline"),
        ],
    );
    assert_eq!(outcome, Some(Err(backend("offline"))));
}
