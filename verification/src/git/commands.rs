//! The command lines that the flows hand to git, and the reading of what a
//! command printed.

use vstd::prelude::*;
use crate::error::{viewed, SyncError, SyncErrorView};
use crate::text::{contains_char, glue, optional_text, trim, trimmed, views};

verus! {

/// One invocation of git.
#[derive(Debug, PartialEq, Eq)]
pub struct GitCommand {
    /// The directory to run in; `None` is the directory of the process.
    pub dir: Option<String>,
    /// The arguments after `git`.
    pub args: Vec<String>,
}

/// A `GitCommand` as plain mathematics.
pub struct GitCommandView {
    pub dir: Option<Seq<char>>,
    pub args: Seq<Seq<char>>,
}

impl View for GitCommand {
    type V = GitCommandView;

    open spec fn view(&self) -> GitCommandView {
        GitCommandView { dir: optional_text(self.dir), args: views(self.args@) }
    }
}

/// What a finished git process left behind.
#[derive(Debug, PartialEq, Eq)]
pub struct GitOutput {
    /// Whether the process reported success.
    pub success: bool,
    /// What it wrote to its output.
    pub stdout: String,
    /// What it wrote to its error stream.
    pub stderr: String,
}

/// A `GitOutput` as plain mathematics.
pub struct GitOutputView {
    pub success: bool,
    pub stdout: Seq<char>,
    pub stderr: Seq<char>,
}

impl View for GitOutput {
    type V = GitOutputView;

    open spec fn view(&self) -> GitOutputView {
        GitOutputView { success: self.success, stdout: self.stdout@, stderr: self.stderr@ }
    }
}

/// The command with these arguments, run in `dir`.
pub open spec fn in_dir(dir: Seq<char>, args: Seq<Seq<char>>) -> GitCommandView {
    GitCommandView { dir: Some(dir), args }
}

/// What a command printed, as it stands, if git succeeded, and else git's own
/// complaint, as it stands too.
pub open spec fn output_raw(output: GitOutputView) -> Result<Seq<char>, SyncErrorView> {
    if output.success {
        Ok(output.stdout)
    } else {
        Err(SyncErrorView::BackendFailure(output.stderr))
    }
}

/// What a command yields as a value: its output without the white space
/// around it, or git's complaint.
pub open spec fn output_read(output: GitOutputView) -> Result<Seq<char>, SyncErrorView> {
    match output_raw(output) {
        Ok(text) => Ok(trimmed(text)),
        Err(e) => Err(e),
    }
}

/// Reads what a command printed, word for word.
pub fn read_raw_output(output: &GitOutput) -> (r: Result<String, SyncError>)
    ensures
        viewed(r) == output_raw(output@),
{
    if output.success {
        Ok(output.stdout.clone())
    } else {
        Err(SyncError::BackendFailure(output.stderr.clone()))
    }
}

/// Reads what a command printed as a value.
pub fn read_output(output: &GitOutput) -> (r: Result<String, SyncError>)
    ensures
        viewed(r) == output_read(output@),
{
    if output.success {
        Ok(trim(output.stdout.as_str()).to_owned())
    } else {
        Err(SyncError::BackendFailure(output.stderr.clone()))
    }
}

/// A partial clone: history without blobs, and only the top level checked out.
pub open spec fn clone_sparse_args(repo_url: Seq<char>, destination: Seq<char>) -> Seq<Seq<char>> {
    seq!["clone"@, "--filter=blob:none"@, "--sparse"@, repo_url, destination]
}

/// The command that clones `repo_url` into `destination`, filtered and sparse.
pub fn clone_sparse(repo_url: &str, destination: &str) -> (command: GitCommand)
    ensures
        command@ == (GitCommandView {
            dir: None,
            args: clone_sparse_args(repo_url@, destination@),
        }),
{
    let mut args: Vec<String> = Vec::new();
    args.push("clone".to_owned());
    args.push("--filter=blob:none".to_owned());
    args.push("--sparse".to_owned());
    args.push(repo_url.to_owned());
    args.push(destination.to_owned());
    assert(views(args@) =~= clone_sparse_args(repo_url@, destination@));
    GitCommand { dir: None, args }
}

/// A name without separator and without wildcard: git would match it at any
/// depth, so it is tied to the root.
pub open spec fn is_root_literal(path: Seq<char>) -> bool {
    !path.contains('/') && !path.contains('*') && !path.contains('?') && !path.contains('[')
}

/// A path as it is handed to git: a root literal gets a leading `/`, any other
/// path stays as it is.
pub open spec fn anchored(path: Seq<char>) -> Seq<char> {
    if is_root_literal(path) {
        "/"@ + path
    } else {
        path
    }
}

/// The arguments that replace git's selection with exactly these paths.
pub open spec fn selection_args(paths: Seq<Seq<char>>) -> Seq<Seq<char>> {
    seq!["sparse-checkout"@, "set"@, "--no-cone"@, "--"@] + paths.map_values(
        |p: Seq<char>| anchored(p),
    )
}

/// The arguments that bring the working tree in line with the selection.
pub open spec fn checkout_args() -> Seq<Seq<char>> {
    seq!["checkout"@, "HEAD"@, "--force"@]
}

/// A path as it is handed to git.
pub fn anchor(path: &str) -> (out: String)
    ensures
        out@ == anchored(path@),
{
    if !contains_char(path, '/') && !contains_char(path, '*') && !contains_char(path, '?')
        && !contains_char(path, '[') {
        glue("/", path)
    } else {
        path.to_owned()
    }
}

/// The command that replaces git's selection with exactly these paths.
pub fn selection_command(repo_path: &str, paths: &[String]) -> (command: GitCommand)
    ensures
        command@ == in_dir(repo_path@, selection_args(views(paths@))),
{
    let mut args: Vec<String> = Vec::new();
    args.push("sparse-checkout".to_owned());
    args.push("set".to_owned());
    args.push("--no-cone".to_owned());
    args.push("--".to_owned());
    let mut i: usize = 0;
    while i < paths.len()
        invariant
            i <= paths@.len(),
            views(args@) == selection_args(views(paths@).take(i as int)),
        decreases paths@.len() - i,
    {
        let next = anchor(paths[i].as_str());
        assert(views(args@).push(next@) =~= selection_args(views(paths@).take(i + 1)));
        args.push(next);
        i += 1;
    }
    assert(views(paths@).take(paths@.len() as int) =~= views(paths@));
    GitCommand { dir: Some(repo_path.to_owned()), args }
}

/// A command of fixed words, run in `repo_path`.
fn fixed_command(repo_path: &str, words: &[&str]) -> (command: GitCommand)
    ensures
        command@ == in_dir(repo_path@, words@.map_values(|w: &str| w@)),
{
    let mut args: Vec<String> = Vec::new();
    let mut i: usize = 0;
    while i < words.len()
        invariant
            i <= words@.len(),
            args@.len() == i,
            forall|j: int| 0 <= j < i ==> args@[j]@ == words@[j]@,
        decreases words@.len() - i,
    {
        args.push(words[i].to_owned());
        i += 1;
    }
    assert(views(args@) =~= words@.map_values(|w: &str| w@));
    GitCommand { dir: Some(repo_path.to_owned()), args }
}

/// The command that brings the working tree in line with the selection.
pub fn checkout_command(repo_path: &str) -> (command: GitCommand)
    ensures
        command@ == in_dir(repo_path@, checkout_args()),
{
    let command = fixed_command(repo_path, &["checkout", "HEAD", "--force"]);
    assert(command@.args =~= checkout_args());
    command
}

/// The two commands that set the selection of a working copy: the first
/// replaces it with exactly `paths`, root literals anchored; the second updates
/// the working tree, adding what is now selected and removing what is not.
pub fn set_sparse_checkout(repo_path: &str, paths: &[String]) -> (commands: Vec<GitCommand>)
    ensures
        commands@.len() == 2,
        commands@[0]@ == in_dir(repo_path@, selection_args(views(paths@))),
        commands@[1]@ == in_dir(repo_path@, checkout_args()),
{
    let mut commands: Vec<GitCommand> = Vec::new();
    commands.push(selection_command(repo_path, paths));
    commands.push(checkout_command(repo_path));
    commands
}

/// The arguments that ask for the commit of the working copy.
pub open spec fn head_commit_args() -> Seq<Seq<char>> {
    seq!["rev-parse"@, "HEAD"@]
}

/// The command that prints the commit the working copy stands at.
pub fn get_head_commit(repo_path: &str) -> (command: GitCommand)
    ensures
        command@ == in_dir(repo_path@, head_commit_args()),
{
    let command = fixed_command(repo_path, &["rev-parse", "HEAD"]);
    assert(command@.args =~= head_commit_args());
    command
}

/// The arguments that update the remote-tracking refs, noisily or quietly.
pub open spec fn fetch_args(quiet: bool) -> Seq<Seq<char>> {
    if quiet {
        seq!["fetch"@, "origin"@, "--quiet"@]
    } else {
        seq!["fetch"@, "origin"@]
    }
}

/// The command that updates the remote-tracking refs. It leaves the working
/// tree alone.
pub fn fetch_remote(repo_path: &str, quiet: bool) -> (command: GitCommand)
    ensures
        command@ == in_dir(repo_path@, fetch_args(quiet)),
{
    if quiet {
        let command = fixed_command(repo_path, &["fetch", "origin", "--quiet"]);
        assert(command@.args =~= fetch_args(quiet));
        command
    } else {
        let command = fixed_command(repo_path, &["fetch", "origin"]);
        assert(command@.args =~= fetch_args(quiet));
        command
    }
}

/// The arguments that ask for the name of the active branch.
pub open spec fn current_branch_args() -> Seq<Seq<char>> {
    seq!["branch"@, "--show-current"@]
}

/// The command that prints the name of the active branch.
pub fn current_branch(repo_path: &str) -> (command: GitCommand)
    ensures
        command@ == in_dir(repo_path@, current_branch_args()),
{
    let command = fixed_command(repo_path, &["branch", "--show-current"]);
    assert(command@.args =~= current_branch_args());
    command
}

/// The remote counterpart of a branch.
pub open spec fn remote_of(branch: Seq<char>) -> Seq<char> {
    "origin/"@ + branch
}

/// The name of the remote counterpart of a branch.
pub fn remote_counterpart(branch: &str) -> (reference: String)
    ensures
        reference@ == remote_of(branch@),
{
    glue("origin/", branch)
}

/// The arguments that advance the branch to `reference` and fail where that
/// would take a merge.
pub open spec fn fast_forward_args(reference: Seq<char>) -> Seq<Seq<char>> {
    seq!["merge"@, "--ff-only"@, reference]
}

/// The command that advances the active branch to `reference`, and fails
/// unless that is a pure fast-forward.
pub fn fast_forward_merge(repo_path: &str, reference: &str) -> (command: GitCommand)
    ensures
        command@ == in_dir(repo_path@, fast_forward_args(reference@)),
{
    let mut args: Vec<String> = Vec::new();
    args.push("merge".to_owned());
    args.push("--ff-only".to_owned());
    args.push(reference.to_owned());
    assert(views(args@) =~= fast_forward_args(reference@));
    GitCommand { dir: Some(repo_path.to_owned()), args }
}

/// The arguments that resolve a name to a commit.
pub open spec fn resolve_args(name: Seq<char>) -> Seq<Seq<char>> {
    seq!["rev-parse"@, name]
}

/// The command that prints the commit that `name` stands for, and fails where
/// it stands for none.
pub fn resolve_ref(repo_path: &str, name: &str) -> (command: GitCommand)
    ensures
        command@ == in_dir(repo_path@, resolve_args(name@)),
{
    let mut args: Vec<String> = Vec::new();
    args.push("rev-parse".to_owned());
    args.push(name.to_owned());
    assert(views(args@) =~= resolve_args(name@));
    GitCommand { dir: Some(repo_path.to_owned()), args }
}

/// The arguments that test whether `ancestor` is reachable from `descendant`.
pub open spec fn ancestor_args(ancestor: Seq<char>, descendant: Seq<char>) -> Seq<Seq<char>> {
    seq!["merge-base"@, "--is-ancestor"@, ancestor, descendant]
}

/// The command that succeeds exactly if `ancestor` is an ancestor of
/// `descendant`.
pub fn is_ancestor(repo_path: &str, ancestor: &str, descendant: &str) -> (command: GitCommand)
    ensures
        command@ == in_dir(repo_path@, ancestor_args(ancestor@, descendant@)),
{
    let mut args: Vec<String> = Vec::new();
    args.push("merge-base".to_owned());
    args.push("--is-ancestor".to_owned());
    args.push(ancestor.to_owned());
    args.push(descendant.to_owned());
    assert(views(args@) =~= ancestor_args(ancestor@, descendant@));
    GitCommand { dir: Some(repo_path.to_owned()), args }
}

/// The arguments that list the uncommitted changes in short form.
pub open spec fn changes_args() -> Seq<Seq<char>> {
    seq!["status"@, "--short"@]
}

/// The command that lists the uncommitted changes of the working tree.
pub fn working_tree_changes(repo_path: &str) -> (command: GitCommand)
    ensures
        command@ == in_dir(repo_path@, changes_args()),
{
    let command = fixed_command(repo_path, &["status", "--short"]);
    assert(command@.args =~= changes_args());
    command
}

} // verus!
