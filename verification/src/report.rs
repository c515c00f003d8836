//! The status report: how a checkout stands against its remote, put into words.
//! Nothing is decided here; what is shown was classified before.

use vstd::prelude::*;
use crate::text::{abbreviated, abbreviate, lines, lines_of, trim, trimmed, views};

verus! {

/// How the local commit stands against the remote counterpart of the branch.
#[derive(Debug, PartialEq, Eq)]
pub enum RemoteStatus {
    /// Both are the same commit.
    UpToDate,
    /// The remote is ahead: the local commit is one of its ancestors.
    Behind { local: String, remote: String },
    /// Neither continues the other.
    Diverged { local: String, remote: String },
    /// The remote counterpart could not be resolved.
    Unknown,
}

/// A `RemoteStatus` as plain mathematics.
pub enum RemoteStatusView {
    UpToDate,
    Behind { local: Seq<char>, remote: Seq<char> },
    Diverged { local: Seq<char>, remote: Seq<char> },
    Unknown,
}

impl View for RemoteStatus {
    type V = RemoteStatusView;

    open spec fn view(&self) -> RemoteStatusView {
        match self {
            RemoteStatus::UpToDate => RemoteStatusView::UpToDate,
            RemoteStatus::Behind { local, remote } => RemoteStatusView::Behind {
                local: local@,
                remote: remote@,
            },
            RemoteStatus::Diverged { local, remote } => RemoteStatusView::Diverged {
                local: local@,
                remote: remote@,
            },
            RemoteStatus::Unknown => RemoteStatusView::Unknown,
        }
    }
}

/// The report for a directory that holds no record.
pub open spec fn not_managed_text() -> Seq<char> {
    "Current directory is not a git-partial repository (metadata not found)."@
}

/// The report for a working copy with a record whose selection mode is off.
pub open spec fn not_sparse_text() -> Seq<char> {
    "Warning: Repository metadata found, but sparse checkout is not enabled."@
}

/// The words for a status. Commits are shown abbreviated.
pub open spec fn status_text(status: RemoteStatusView, branch: Seq<char>) -> Seq<char> {
    match status {
        RemoteStatusView::UpToDate => "Up-to-date"@,
        RemoteStatusView::Behind { local, remote } => "Behind remote ("@ + abbreviated(local)
            + " -> "@ + abbreviated(remote) + ")"@,
        RemoteStatusView::Diverged { local, remote } => "Diverged from remote (local: "@
            + abbreviated(local) + ", remote: "@ + abbreviated(remote) + ")"@,
        RemoteStatusView::Unknown => "Could not determine remote status for branch '"@ + branch
            + "'"@,
    }
}

/// Each item on a line of its own, behind the lead.
pub open spec fn listed(items: Seq<Seq<char>>, lead: Seq<char>) -> Seq<char>
    decreases items.len(),
{
    if items.len() == 0 {
        Seq::empty()
    } else {
        listed(items.drop_last(), lead) + lead + items.last() + "\n"@
    }
}

/// The part of the report on local changes: each line of git's short status,
/// indented, or a note that there is none.
pub open spec fn changes_text(changes: Seq<char>) -> Seq<char> {
    if trimmed(changes).len() == 0 {
        "  No changes\n"@
    } else {
        listed(lines_of(changes), "  "@)
    }
}

/// The whole report.
pub open spec fn report_text(
    branch: Seq<char>,
    status: RemoteStatusView,
    local_commit: Seq<char>,
    remote_url: Seq<char>,
    paths: Seq<Seq<char>>,
    changes: Seq<char>,
) -> Seq<char> {
    "Git Partial Status\n"@ + "=================\n\n"@ + "Branch: "@ + branch + " ("@
        + status_text(status, branch) + ")\n"@ + "Last Synced Commit: "@ + local_commit + "\n"@
        + "Remote URL: "@ + remote_url + "\n\n"@ + "Sparse checkout paths:\n"@ + listed(
        paths,
        "  - "@,
    ) + "\nLocal changes:\n"@ + changes_text(changes)
}

/// The words for a status.
pub fn describe_status(status: &RemoteStatus, branch: &str) -> (out: String)
    ensures
        out@ == status_text(status@, branch@),
{
    match status {
        RemoteStatus::UpToDate => "Up-to-date".to_owned(),
        RemoteStatus::Behind { local, remote } => {
            let mut out = "Behind remote (".to_owned();
            out.append(abbreviate(local.as_str()));
            out.append(" -> ");
            out.append(abbreviate(remote.as_str()));
            out.append(")");
            out
        },
        RemoteStatus::Diverged { local, remote } => {
            let mut out = "Diverged from remote (local: ".to_owned();
            out.append(abbreviate(local.as_str()));
            out.append(", remote: ");
            out.append(abbreviate(remote.as_str()));
            out.append(")");
            out
        },
        RemoteStatus::Unknown => {
            let mut out = "Could not determine remote status for branch '".to_owned();
            out.append(branch);
            out.append("'");
            out
        },
    }
}

/// Appends each item on a line of its own, behind the lead.
fn append_listed(out: &mut String, items: &[String], lead: &str)
    ensures
        final(out)@ == old(out)@ + listed(views(items@), lead@),
{
    let mut i: usize = 0;
    while i < items.len()
        invariant
            i <= items@.len(),
            out@ == old(out)@ + listed(views(items@).take(i as int), lead@),
        decreases items@.len() - i,
    {
        proof {
            let before = views(items@).take(i as int);
            let after = views(items@).take(i + 1);
            assert(after.drop_last() =~= before);
            assert(old(out)@ + listed(after, lead@) =~= old(out)@ + listed(before, lead@) + lead@
                + items@[i as int]@ + "\n"@);
        }
        out.append(lead);
        out.append(items[i].as_str());
        out.append("\n");
        i += 1;
    }
    assert(views(items@).take(items@.len() as int) =~= views(items@));
}

/// The whole report: the branch and how it stands, the commit last
/// synchronised to, the remote, every selected path, and git's own list of
/// local changes.
pub fn format_report(
    branch: &str,
    status: &RemoteStatus,
    local_commit: &str,
    remote_url: &str,
    paths: &[String],
    changes: &str,
) -> (out: String)
    ensures
        out@ == report_text(
            branch@,
            status@,
            local_commit@,
            remote_url@,
            views(paths@),
            changes@,
        ),
{
    let mut out = "Git Partial Status\n".to_owned();
    out.append("=================\n\n");
    out.append("Branch: ");
    out.append(branch);
    out.append(" (");
    out.append(describe_status(status, branch).as_str());
    out.append(")\n");
    out.append("Last Synced Commit: ");
    out.append(local_commit);
    out.append("\n");
    out.append("Remote URL: ");
    out.append(remote_url);
    out.append("\n\n");
    out.append("Sparse checkout paths:\n");
    append_listed(&mut out, paths, "  - ");
    out.append("\nLocal changes:\n");
    if trim(changes).unicode_len() == 0 {
        out.append("  No changes\n");
    } else {
        let all = lines(changes);
        append_listed(&mut out, all.as_slice(), "  ");
    }
    out
}

} // verus!
