use git_partial::backend::{DirectoryState, Reply, Request, Step};
use git_partial::error::SyncError;
use git_partial::flows::add_paths::{add_new_paths, ExtendFlow, Extension};
use git_partial::flows::clone::{clone_repository, CloneFlow};
use git_partial::flows::smart_pull::{perform_smart_pull, PullFlow};
use git_partial::flows::status::{show_status, StatusFlow};
use git_partial::git::commands::{GitCommand, GitOutput};
use git_partial::metadata::RepositoryMetadata;
use git_partial::path_selector::PathSelector;

/// One commit of the source repository: its identifier and its files.
struct Commit {
    id: String,
    files: Vec<(String, String)>,
}

/// A source repository and one working copy of it, both in memory. It answers
/// the requests of the flows the way git and the disk would.
struct World {
    history: Vec<Commit>,
    destination: DirectoryState,
    local_head: Option<usize>,
    tracking: usize,
    selection: Vec<String>,
    sparse: bool,
    record: Option<RepositoryMetadata>,
    local_changes: String,
    seen: Vec<Request>,
}

fn words(items: &[&str]) -> Vec<String> {
    items.iter().map(|s| s.to_string()).collect()
}

fn commit(number: usize, files: &[(&str, &str)]) -> Commit {
    Commit {
        id: format!("{:040x}", 0xabcdef_u64 * (number as u64 + 1)),
        files: files.iter().map(|(p, c)| (p.to_string(), c.to_string())).collect(),
    }
}

fn ok(stdout: &str) -> Reply {
    Reply::Git(GitOutput { success: true, stdout: stdout.to_string(), stderr: String::new() })
}

fn failed(stderr: &str) -> Reply {
    Reply::Git(GitOutput { success: false, stdout: String::new(), stderr: stderr.to_string() })
}

impl World {
    fn new(first: Commit) -> World {
        World {
            history: vec![first],
            destination: DirectoryState::Empty,
            local_head: None,
            tracking: 0,
            selection: Vec::new(),
            sparse: false,
            record: None,
            local_changes: String::new(),
            seen: Vec::new(),
        }
    }

    fn push(&mut self, files: &[(&str, &str)]) -> String {
        let mut next: Vec<(String, String)> = self.history.last().unwrap().files.clone();
        for (path, content) in files {
            next.retain(|(p, _)| p != path);
            next.push((path.to_string(), content.to_string()));
        }
        let number = self.history.len();
        let mut made = commit(number, &[]);
        made.files = next;
        let id = made.id.clone();
        self.history.push(made);
        id
    }

    /// Whether git's selection covers the file.
    fn selected(&self, file: &str) -> bool {
        self.selection.iter().any(|pattern| match pattern.strip_prefix('/') {
            Some(name) => file == name || file.starts_with(&format!("{}/", name)),
            None => PathSelector::new(vec![pattern.as_str()]).matches(file),
        })
    }

    fn file_exists(&self, file: &str) -> bool {
        self.content(file).is_some()
    }

    fn content(&self, file: &str) -> Option<String> {
        let head = self.local_head?;
        if !self.selected(file) {
            return None;
        }
        self.history[head].files.iter().find(|(p, _)| p == file).map(|(_, c)| c.clone())
    }

    fn git(&mut self, command: &GitCommand) -> Reply {
        let args: Vec<&str> = command.args.iter().map(|s| s.as_str()).collect();
        match args.as_slice() {
            ["clone", "--filter=blob:none", "--sparse", _, _] => {
                self.local_head = Some(self.history.len() - 1);
                self.tracking = self.history.len() - 1;
                self.sparse = true;
                self.destination = DirectoryState::Occupied;
                ok("")
            }
            ["sparse-checkout", "set", "--no-cone", "--", paths @ ..] => {
                self.selection = paths.iter().map(|p| p.to_string()).collect();
                ok("")
            }
            ["checkout", "HEAD", "--force"] => ok(""),
            ["rev-parse", "HEAD"] => match self.local_head {
                Some(head) => ok(&format!("{}\n", self.history[head].id)),
                None => failed("fatal: not a git repository"),
            },
            ["config", "core.sparseCheckout"] => {
                if self.sparse {
                    ok("true\n")
                } else {
                    failed("")
                }
            }
            ["fetch", "origin"] | ["fetch", "origin", "--quiet"] => {
                self.tracking = self.history.len() - 1;
                ok("")
            }
            ["branch", "--show-current"] => ok("main\n"),
            ["merge", "--ff-only", "origin/main"] => {
                self.local_head = Some(self.tracking);
                ok("")
            }
            ["rev-parse", "origin/main"] => ok(&format!("{}\n", self.history[self.tracking].id)),
            ["merge-base", "--is-ancestor", older, newer] => {
                let place = |id: &str| self.history.iter().position(|c| c.id == id);
                match (place(older), place(newer)) {
                    (Some(a), Some(b)) if a <= b => ok(""),
                    _ => failed(""),
                }
            }
            ["status", "--short"] => ok(&self.local_changes),
            _ => failed("unknown command"),
        }
    }

    fn perform(&mut self, request: Request) -> Reply {
        let reply = match &request {
            Request::Git(command) => self.git(command),
            Request::InspectDirectory(_) => Reply::Directory(self.destination),
            Request::CreateDirectory(_) => {
                self.destination = DirectoryState::Empty;
                Reply::Done
            }
            Request::Exists(_) => Reply::Exists(self.local_head.is_some()),
            Request::LoadMetadata(_) => match &self.record {
                Some(record) => Reply::Metadata(record.clone()),
                None => Reply::NoMetadata,
            },
            Request::SaveMetadata(_, record) => {
                self.record = Some(record.clone());
                Reply::Done
            }
        };
        self.seen.push(request);
        reply
    }

    fn clone(&mut self, paths: &[&str]) -> Result<RepositoryMetadata, SyncError> {
        let mut flow = CloneFlow::new("source", "work", &words(paths));
        let mut reply = Reply::Start;
        loop {
            match clone_repository(flow, reply) {
                Step::Continue(next, request) => {
                    reply = self.perform(request);
                    flow = next;
                }
                Step::Finished(outcome) => return outcome,
            }
        }
    }

    fn add_paths(&mut self, paths: &[&str]) -> Result<Extension, SyncError> {
        let mut flow = ExtendFlow::new("work", &words(paths));
        let mut reply = Reply::Start;
        loop {
            match add_new_paths(flow, reply) {
                Step::Continue(next, request) => {
                    reply = self.perform(request);
                    flow = next;
                }
                Step::Finished(outcome) => return outcome,
            }
        }
    }

    fn smart_pull(&mut self) -> Result<RepositoryMetadata, SyncError> {
        let mut flow = PullFlow::new("work");
        let mut reply = Reply::Start;
        loop {
            match perform_smart_pull(flow, reply) {
                Step::Continue(next, request) => {
                    reply = self.perform(request);
                    flow = next;
                }
                Step::Finished(outcome) => return outcome,
            }
        }
    }

    fn status(&mut self) -> Result<String, SyncError> {
        let mut flow = StatusFlow::new("work");
        let mut reply = Reply::Start;
        loop {
            match show_status(flow, reply) {
                Step::Continue(next, request) => {
                    reply = self.perform(request);
                    flow = next;
                }
                Step::Finished(outcome) => return outcome,
            }
        }
    }

    fn paths(&self) -> Vec<String> {
        self.record.as_ref().expect("a record was written").checked_out_paths.to_vec()
    }
}

fn source_with_docs() -> World {
    World::new(commit(
        0,
        &[
            ("README.md", "# Main Readme"),
            ("src/core.rs", "// core"),
            ("src/utils.rs", "// utils"),
            ("docs/guide.md", "# Guide"),
        ],
    ))
}

fn source_for_pull() -> World {
    World::new(commit(
        0,
        &[
            ("README.md", "# Main Readme v1"),
            ("src/frontend/main.js", "// Frontend main v1"),
            ("src/frontend/button.js", "// Button v1"),
            ("src/backend/server.js", "// Backend server v1"),
        ],
    ))
}

fn source_for_status() -> World {
    World::new(commit(
        0,
        &[("README.md", "# Main Readme v1"), ("src/main.rs", "// Main v1"), ("src/lib.rs", "// Lib v1")],
    ))
}

fn as_set(paths: &[String]) -> Vec<String> {
    let mut sorted = paths.to_vec();
    sorted.sort();
    sorted
}

#[test]
fn add_paths_tests_test_add_paths() {
    // 1. Setup: Clone a repo with initial paths
    let initial_paths = ["README.md", "src/core.rs"];
    let mut world = source_with_docs();
    world.clone(&initial_paths).expect("clone");

    // Verify initial state
    assert!(world.file_exists("README.md"));
    assert!(world.file_exists("src/core.rs"));
    assert!(!world.file_exists("src/utils.rs"));
    assert!(!world.file_exists("docs/guide.md"));
    assert!(world.record.is_some());
    assert_eq!(as_set(&world.paths()), as_set(&words(&initial_paths)));

    // 2. Action: Add new paths
    world.add_paths(&["src/utils.rs", "docs/**"]).expect("add-paths");

    // 3. Verification
    assert!(world.file_exists("src/utils.rs"));
    assert!(world.file_exists("docs/guide.md"));
    assert!(world.file_exists("README.md"));
    assert!(world.file_exists("src/core.rs"));
    assert_eq!(
        as_set(&world.paths()),
        as_set(&words(&["README.md", "src/core.rs", "src/utils.rs", "docs/**"]))
    );
}

#[test]
fn test_add_duplicate_paths() {
    // 1. Setup: Clone a repo with initial paths
    let initial_paths = ["README.md", "src/**"];
    let mut world = source_with_docs();
    world.clone(&initial_paths).expect("clone");

    assert!(world.file_exists("README.md"));
    assert!(world.file_exists("src/core.rs"));
    assert!(world.file_exists("src/utils.rs"));
    assert!(world.record.is_some());
    let initial = world.paths();

    // 2. Action: Add a path that is already covered by a glob
    world.add_paths(&["src/core.rs"]).expect("add-paths");

    // 3. The record takes the path all the same
    let mut expected_after_specific_add = initial.clone();
    expected_after_specific_add.push("src/core.rs".to_string());
    let updated = world.paths();
    assert_eq!(as_set(&updated), as_set(&expected_after_specific_add));

    // Action: Add the exact same glob again
    let asked_before = world.seen.len();
    let again = world.add_paths(&["src/**"]).expect("add-paths");
    assert_eq!(world.paths(), updated);
    assert!(!again.changed);
    assert!(world.seen[asked_before..]
        .iter()
        .all(|request| !matches!(request, Request::SaveMetadata(_, _))));
    assert_eq!(world.seen.len() - asked_before, 3);
}

#[test]
fn test_partial_clone() {
    let mut world = World::new(commit(
        0,
        &[
            ("README.md", "# Main Readme"),
            ("src/main.rs", "fn main() {}"),
            ("src/lib.rs", "pub fn lib_func() {}"),
            ("data/data.txt", "important data"),
        ],
    ));

    world.clone(&["src/main.rs", "README.md"]).expect("clone");

    assert!(world.file_exists("README.md"), "README.md should exist");
    assert!(world.file_exists("src/main.rs"), "src/main.rs should exist");
    assert_eq!(world.content("README.md"), Some("# Main Readme".to_string()));
    assert_eq!(world.content("src/main.rs"), Some("fn main() {}".to_string()));
    assert!(!world.file_exists("src/lib.rs"), "src/lib.rs should NOT exist");
    assert!(!world.file_exists("data/data.txt"), "data/data.txt should NOT exist");
    assert!(world.record.is_some(), "the record should exist");
    assert_eq!(world.paths(), words(&["src/main.rs", "README.md"]));
    assert_eq!(
        world.record.as_ref().unwrap().last_commit,
        Some(world.history[0].id.clone())
    );
    assert_eq!(world.record.as_ref().unwrap().remote_url, "source");
}

#[test]
fn test_partial_clone_with_glob_pattern() {
    let mut world = World::new(commit(
        0,
        &[
            ("docs/README.md", "# Docs Readme"),
            ("docs/guide.md", "User guide"),
            ("src/main.rs", "fn main() {}"),
            ("images/logo.png", "binary data"),
        ],
    ));

    world.clone(&["docs/**"]).expect("clone");

    assert!(world.file_exists("docs/README.md"), "docs/README.md should exist");
    assert!(world.file_exists("docs/guide.md"), "docs/guide.md should exist");
    assert_eq!(world.content("docs/README.md"), Some("# Docs Readme".to_string()));
    assert_eq!(world.content("docs/guide.md"), Some("User guide".to_string()));
    assert!(!world.file_exists("src/main.rs"), "src/main.rs should NOT exist");
    assert!(!world.file_exists("images/logo.png"), "images/logo.png should NOT exist");
    assert!(world.record.is_some(), "the record should exist");
    assert_eq!(world.paths(), words(&["docs/**"]));
}

#[test]
fn test_smart_pull_updates_files() {
    let mut world = source_for_pull();
    world.clone(&["src/frontend/**", "README.md"]).expect("clone");

    let commit2 = world.push(&[
        ("README.md", "# Main Readme v2"),
        ("src/frontend/button.js", "// Button v2"),
    ]);

    world.smart_pull().expect("smart-pull");

    assert_eq!(world.content("README.md"), Some("# Main Readme v2".to_string()));
    assert_eq!(world.content("src/frontend/button.js"), Some("// Button v2".to_string()));
    assert!(world.file_exists("src/frontend/main.js"));
    assert!(!world.file_exists("src/backend/server.js"));
    assert_eq!(world.record.as_ref().unwrap().last_commit, Some(commit2));
}

#[test]
fn test_smart_pull_new_files() {
    let mut world = source_for_pull();
    world.clone(&["src/frontend/**"]).expect("clone");

    let commit2 = world.push(&[("src/frontend/new_component.js", "// New Component")]);

    world.smart_pull().expect("smart-pull");

    assert!(world.file_exists("src/frontend/new_component.js"));
    assert_eq!(
        world.content("src/frontend/new_component.js"),
        Some("// New Component".to_string())
    );
    assert!(world.file_exists("src/frontend/main.js"));
    assert_eq!(world.record.as_ref().unwrap().last_commit, Some(commit2));
}

#[test]
fn test_smart_pull_ignores_nonmatching_changes() {
    let mut world = source_for_pull();
    world.clone(&["src/frontend/**"]).expect("clone");
    let initial_commit = world.record.as_ref().unwrap().last_commit.clone();

    let commit2 = world.push(&[("src/backend/new_api.js", "// New API")]);

    world.smart_pull().expect("smart-pull");

    assert!(!world.file_exists("src/backend/new_api.js"));
    assert!(world.file_exists("src/frontend/main.js"));
    assert_eq!(world.content("src/frontend/main.js"), Some("// Frontend main v1".to_string()));
    let metadata = world.record.as_ref().unwrap();
    assert_eq!(metadata.last_commit, Some(commit2));
    assert_ne!(metadata.last_commit, initial_commit);
}

#[test]
fn test_status_up_to_date() {
    let mut world = source_for_status();
    world.clone(&["README.md"]).expect("clone");

    let status_output = world.status().expect("status");

    assert!(status_output.contains("Branch: main (Up-to-date)"));
    assert!(status_output.contains("Sparse checkout paths:"));
    assert!(status_output.contains("  - README.md"));
    assert!(status_output.contains("Local changes:"));
}

#[test]
fn test_status_behind() {
    let mut world = source_for_status();
    world.clone(&["README.md"]).expect("clone");
    let commit1 = world.history[0].id.clone();
    let commit2 = world.push(&[("README.md", "# Main Readme v2")]);

    let status_output = world.status().expect("status");

    assert!(status_output.contains(&"Branch: main (Behind remote".to_string()));
    assert!(status_output.contains(&commit2[..7]));
    assert!(status_output.contains(&format!(
        "Branch: main (Behind remote ({} -> {}))",
        &commit1[..7],
        &commit2[..7]
    )));
    assert!(status_output.contains("Local changes:"));
    // Status never writes the record.
    assert_eq!(world.record.as_ref().unwrap().last_commit, Some(commit1));
}

#[test]
fn test_status_with_local_changes() {
    let mut world = source_for_status();
    world.clone(&["README.md", "src/main.rs"]).expect("clone");
    world.local_changes = " M README.md\n M src/main.rs\n?? untracked.txt\n".to_string();

    let status_output = world.status().expect("status");

    assert!(status_output.contains("Branch: main (Up-to-date)"));
    assert!(status_output.contains("Local changes:"));
    assert!(status_output.contains(" M README.md"));
    assert!(status_output.contains(" M src/main.rs"));
    assert!(status_output.contains("?? untracked.txt"));
}

#[test]
fn test_status_non_partial_repo() {
    let mut world = source_for_status();

    let status_output = world.status().expect("status");

    assert!(status_output.contains("Current directory is not a git-partial repository"));
    assert_eq!(world.seen.len(), 1);
}

#[test]
fn scenario_initialize_with_two_files() {
    let mut world = World::new(commit(
        0,
        &[
            ("README.md", "readme"),
            ("src/core.x", "core"),
            ("src/utils.x", "utils"),
            ("docs/guide.md", "guide"),
        ],
    ));
    let record = world.clone(&["README.md", "src/core.x"]).expect("clone");

    let present: Vec<&str> = ["README.md", "src/core.x", "src/utils.x", "docs/guide.md"]
        .into_iter()
        .filter(|file| world.file_exists(file))
        .collect();
    assert_eq!(present, vec!["README.md", "src/core.x"]);
    assert_eq!(record.checked_out_paths.to_vec(), words(&["README.md", "src/core.x"]));
    assert_eq!(world.selection, words(&["/README.md", "src/core.x"]));
}

#[test]
fn scenario_extend_with_a_glob() {
    let mut world = World::new(commit(
        0,
        &[("README.md", "readme"), ("docs/a.md", "a"), ("docs/b.md", "b"), ("src/x.rs", "x")],
    ));
    world.clone(&["README.md"]).expect("clone");
    assert!(!world.file_exists("docs/a.md"));

    let extension = world.add_paths(&["docs/**"]).expect("add-paths");

    assert!(extension.changed);
    assert!(world.file_exists("docs/a.md"));
    assert!(world.file_exists("docs/b.md"));
    assert!(!world.file_exists("src/x.rs"));
    assert_eq!(world.paths(), words(&["README.md", "docs/**"]));
}

#[test]
fn scenario_clone_into_an_occupied_directory() {
    let mut world = source_with_docs();
    world.destination = DirectoryState::Occupied;

    let outcome = world.clone(&["README.md"]);

    assert_eq!(outcome, Err(SyncError::DestinationNotEmpty("work".to_string())));
    assert_eq!(world.seen, vec![Request::InspectDirectory("work".to_string())]);
    assert!(world.local_head.is_none());
    assert!(world.record.is_none());
}

#[test]
fn scenario_status_after_histories_diverged() {
    let mut world = source_for_status();
    world.clone(&["README.md"]).expect("clone");
    let mut record = world.record.clone().unwrap();
    record.set_last_commit("ffffffffffffffffffffffffffffffffffffffff");
    world.record = Some(record);

    let status_output = world.status().expect("status");

    assert!(status_output.contains(&format!(
        "Branch: main (Diverged from remote (local: fffffff, remote: {}))",
        &world.history[0].id[..7]
    )));
}
