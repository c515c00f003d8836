//! Sparse checkout: the steps that make a sparse working copy, the reading of
//! its selection, and the test whether a working copy is sparse at all.

use vstd::prelude::*;
use crate::backend::{Reply, ReplyView, Request, RequestView};
use crate::error::{viewed, SyncError, SyncErrorView};
use crate::git::commands::{
    checkout_args, in_dir, output_read, read_output, selection_args, selection_command,
    set_sparse_checkout, GitCommand, GitOutput, GitOutputView,
};
use crate::text::{lines, lines_of, trim, trimmed, views};

verus! {

/// The arguments that clone into the directory git runs in.
pub open spec fn clone_here_args(repo_url: Seq<char>) -> Seq<Seq<char>> {
    seq!["clone"@, "--filter=blob:none"@, "--sparse"@, repo_url, "."@]
}

/// The arguments that switch sparse checkout on.
pub open spec fn enable_args() -> Seq<Seq<char>> {
    seq!["config"@, "core.sparseCheckout"@, "true"@]
}

/// The steps that make a sparse clone in `target`: the directory is created
/// unless it is there, then git clones into it and switches sparse checkout on.
pub open spec fn clone_steps(repo_url: Seq<char>, target: Seq<char>, target_exists: bool) -> Seq<
    RequestView,
> {
    let in_target = seq![
        RequestView::Git(in_dir(target, clone_here_args(repo_url))),
        RequestView::Git(in_dir(target, enable_args())),
    ];
    if target_exists {
        in_target
    } else {
        seq![RequestView::CreateDirectory(target)] + in_target
    }
}

/// The views of a list of requests.
pub open spec fn request_views(requests: Seq<Request>) -> Seq<RequestView> {
    requests.map_values(|r: Request| r@)
}

/// The steps of a sparse clone of `repo_url` in `target_path`, to be carried out
/// in order, stopping at the first that fails. `target_exists` says whether
/// anything is at `target_path` already.
pub fn clone_sparse(repo_url: &str, target_path: &str, target_exists: bool) -> (steps: Vec<Request>)
    ensures
        request_views(steps@) == clone_steps(repo_url@, target_path@, target_exists),
{
    let mut steps: Vec<Request> = Vec::new();
    if !target_exists {
        steps.push(Request::CreateDirectory(target_path.to_owned()));
    }
    let mut clone_args: Vec<String> = Vec::new();
    clone_args.push("clone".to_owned());
    clone_args.push("--filter=blob:none".to_owned());
    clone_args.push("--sparse".to_owned());
    clone_args.push(repo_url.to_owned());
    clone_args.push(".".to_owned());
    assert(views(clone_args@) =~= clone_here_args(repo_url@));
    steps.push(Request::Git(GitCommand { dir: Some(target_path.to_owned()), args: clone_args }));
    let mut enable: Vec<String> = Vec::new();
    enable.push("config".to_owned());
    enable.push("core.sparseCheckout".to_owned());
    enable.push("true".to_owned());
    assert(views(enable@) =~= enable_args());
    steps.push(Request::Git(GitCommand { dir: Some(target_path.to_owned()), args: enable }));
    steps
}

/// The command that replaces the selection of the working copy at
/// `repo_path` with exactly these paths: each path is an argument of its own, a
/// root literal anchored.
pub fn set_sparse_paths(repo_path: &str, paths: &[String]) -> (command: GitCommand)
    ensures
        command@ == in_dir(repo_path@, selection_args(views(paths@))),
{
    selection_command(repo_path, paths)
}

/// The two commands that make `paths` the selection of the working copy at
/// `repo_path` and update its working tree.
pub fn add_paths(repo_path: &str, paths: &[String]) -> (commands: Vec<GitCommand>)
    ensures
        commands@.len() == 2,
        commands@[0]@ == in_dir(repo_path@, selection_args(views(paths@))),
        commands@[1]@ == in_dir(repo_path@, checkout_args()),
{
    set_sparse_checkout(repo_path, paths)
}

/// The arguments that list the selection.
pub open spec fn list_args() -> Seq<Seq<char>> {
    seq!["sparse-checkout"@, "list"@]
}

/// The command that prints the selection of the working copy at `repo_path`.
pub fn list_command(repo_path: &str) -> (command: GitCommand)
    ensures
        command@ == in_dir(repo_path@, list_args()),
{
    let mut args: Vec<String> = Vec::new();
    args.push("sparse-checkout".to_owned());
    args.push("list".to_owned());
    assert(views(args@) =~= list_args());
    GitCommand { dir: Some(repo_path.to_owned()), args }
}

/// A line of a listing as a path: trimmed, and dropped if nothing is left.
pub open spec fn listed_path(line: Seq<char>) -> Option<Seq<char>> {
    if trimmed(line).len() == 0 {
        None
    } else {
        Some(trimmed(line))
    }
}

/// The paths that a listing names.
pub open spec fn listed_paths(listing: Seq<char>) -> Seq<Seq<char>> {
    lines_of(listing).filter_map(|line: Seq<char>| listed_path(line))
}

/// What the listing command's output says: the paths, or git's failure.
pub open spec fn current_paths(output: GitOutputView) -> Result<Seq<Seq<char>>, SyncErrorView> {
    match output_read(output) {
        Ok(listing) => Ok(listed_paths(listing)),
        Err(e) => Err(e),
    }
}

/// The selection of a working copy, read from what the listing command left.
pub fn get_current_paths(output: &GitOutput) -> (r: Result<Vec<String>, SyncError>)
    ensures
        match r {
            Ok(paths) => current_paths(output@) == Ok::<Seq<Seq<char>>, SyncErrorView>(views(paths@)),
            Err(e) => current_paths(output@) == Err::<Seq<Seq<char>>, SyncErrorView>(e@),
        },
{
    let listing = match read_output(output) {
        Ok(listing) => listing,
        Err(e) => {
            return Err(e);
        },
    };
    let all = lines(listing.as_str());
    let ghost pick = |line: Seq<char>| listed_path(line);
    let mut paths: Vec<String> = Vec::new();
    let mut i: usize = 0;
    while i < all.len()
        invariant
            i <= all@.len(),
            pick == |line: Seq<char>| listed_path(line),
            views(paths@) == views(all@).take(i as int).filter_map(pick),
        decreases all@.len() - i,
    {
        let path = trim(all[i].as_str());
        proof {
            views(all@).lemma_filter_map_take_succ(pick, i as int);
        }

        if path.unicode_len() > 0 {
            paths.push(path.to_owned());
        }
        i += 1;
    }
    assert(views(all@).take(all@.len() as int) =~= views(all@));
    Ok(paths)
}

/// The arguments that print the sparse-checkout switch.
pub open spec fn flag_args() -> Seq<Seq<char>> {
    seq!["config"@, "core.sparseCheckout"@]
}

/// The command that prints the sparse-checkout switch of the working copy at
/// `repo_path`. It fails where the switch was never set.
pub fn flag_command(repo_path: &str) -> (command: GitCommand)
    ensures
        command@ == in_dir(repo_path@, flag_args()),
{
    let mut args: Vec<String> = Vec::new();
    args.push("config".to_owned());
    args.push("core.sparseCheckout".to_owned());
    assert(views(args@) =~= flag_args());
    GitCommand { dir: Some(repo_path.to_owned()), args }
}

/// Whether a working copy selects paths. `flag` is `None` where the directory
/// holds no `.git`, so that git was not asked; otherwise it is what the switch
/// command left, and the switch must read `true`.
pub open spec fn sparse_checkout(flag: Option<GitOutputView>) -> Result<bool, SyncErrorView> {
    match flag {
        None => Ok(false),
        Some(output) => match output_read(output) {
            Ok(text) => Ok(trimmed(text) == "true"@),
            Err(e) => Err(e),
        },
    }
}

/// The view of what the switch command left, if it was run.
pub open spec fn optional_output(flag: Option<&GitOutput>) -> Option<GitOutputView> {
    match flag {
        Some(output) => Some(output@),
        None => None,
    }
}

/// Whether a working copy selects paths.
pub fn is_sparse_checkout(flag: Option<&GitOutput>) -> (r: Result<bool, SyncError>)
    ensures
        viewed(r) == sparse_checkout(optional_output(flag)),
{
    match flag {
        None => Ok(false),
        Some(output) => match read_output(output) {
            Ok(text) => {
                let switch = trim(text.as_str()).to_owned();
                Ok(switch == "true".to_owned())
            },
            Err(e) => Err(e),
        },
    }
}

/// The components of the path of the `.git` entry of a working copy.
pub open spec fn git_entry(root: Seq<char>) -> Seq<Seq<char>> {
    seq![root, ".git"@]
}

/// The path of the `.git` entry of a working copy, as components for the
/// platform to join.
pub fn git_entry_path(root: &str) -> (path: Vec<String>)
    ensures
        views(path@) == git_entry(root@),
{
    let mut path: Vec<String> = Vec::new();
    path.push(root.to_owned());
    path.push(".git".to_owned());
    path
}

/// What the reply to the switch command says of a working copy that has a
/// `.git` entry.
pub open spec fn flag_reply(reply: ReplyView) -> Result<bool, SyncErrorView> {
    match reply {
        ReplyView::Git(output) => sparse_checkout(Some(output)),
        ReplyView::Failed(message) => Err(
            SyncErrorView::BackendUnavailable(message),
        ),
        _ => Err(SyncErrorView::UnexpectedReply),
    }
}

/// Reads the reply to the switch command.
pub fn read_flag_reply(reply: &Reply) -> (r: Result<bool, SyncError>)
    ensures
        viewed(r) == flag_reply(reply@),
{
    match reply {
        Reply::Git(output) => is_sparse_checkout(Some(output)),
        Reply::Failed(message) => Err(
            SyncError::BackendUnavailable(message.clone()),
        ),
        _ => Err(SyncError::UnexpectedReply),
    }
}

} // verus!
