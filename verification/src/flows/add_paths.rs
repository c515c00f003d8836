//! Extend the selection: merge new paths into the record of a working copy and
//! have git select the merged set.

use vstd::prelude::*;
use crate::backend::{
    done_reply, exists_reply, git_reply, metadata_reply, read_done_reply, read_exists_reply,
    read_git_reply, read_metadata_reply, run, asked, Reply, ReplyView, Request, RequestView, Step,
    StepView,
};
use crate::error::{SyncError, SyncErrorView};
use crate::git::commands::{
    checkout_args, checkout_command, in_dir, selection_args, selection_command,
};
use crate::git::sparse::{
    flag_args, flag_command, flag_reply, git_entry, git_entry_path, read_flag_reply,
};
use crate::metadata::{optional_view, record_location, MetadataView, RepositoryMetadata};
use crate::path_set::{
    adds_any, lemma_with_paths, lemma_with_paths_changes, lemma_with_paths_is_union, with_paths,
};
use crate::text::{copy_strings, views};

verus! {

/// Where an extension stands: what was asked of the driver last.
#[derive(Clone, Copy, Debug, PartialEq, Eq, Structural)]
pub enum ExtendPhase {
    /// Nothing yet.
    Created,
    /// Whether the working copy has a `.git` entry.
    Probing,
    /// To print the sparse-checkout switch.
    ReadingFlag,
    /// To read the record.
    Loading,
    /// To set git's selection to the merged paths.
    Selecting,
    /// To update the working tree.
    CheckingOut,
    /// To write the record.
    Saving,
}

/// An extension under way.
#[derive(Debug, PartialEq, Eq)]
pub struct ExtendFlow {
    /// What was asked of the driver last.
    pub phase: ExtendPhase,
    /// The root of the working copy.
    pub root: String,
    /// The paths to add, as they were given.
    pub new_paths: Vec<String>,
    /// The record, once it was read.
    pub record: Option<RepositoryMetadata>,
}

/// An `ExtendFlow` as plain mathematics.
pub struct ExtendFlowView {
    pub phase: ExtendPhase,
    pub root: Seq<char>,
    pub new_paths: Seq<Seq<char>>,
    pub record: Option<MetadataView>,
}

impl View for ExtendFlow {
    type V = ExtendFlowView;

    open spec fn view(&self) -> ExtendFlowView {
        ExtendFlowView {
            phase: self.phase,
            root: self.root@,
            new_paths: views(self.new_paths@),
            record: optional_view(self.record),
        }
    }
}

/// How an extension ended.
#[derive(Debug, PartialEq, Eq)]
pub struct Extension {
    /// The record of the working copy as it now stands.
    pub record: RepositoryMetadata,
    /// Whether anything was added: if not, git was not asked to select anything
    /// and nothing was written.
    pub changed: bool,
}

/// An `Extension` as plain mathematics.
pub struct ExtensionView {
    pub record: MetadataView,
    pub changed: bool,
}

impl View for Extension {
    type V = ExtensionView;

    open spec fn view(&self) -> ExtensionView {
        ExtensionView { record: self.record@, changed: self.changed }
    }
}

/// The flow at its start.
pub open spec fn extend_start(root: Seq<char>, new_paths: Seq<Seq<char>>) -> ExtendFlowView {
    ExtendFlowView { phase: ExtendPhase::Created, root, new_paths, record: None }
}

/// A record with more paths selected.
pub open spec fn extended(record: MetadataView, new_paths: Seq<Seq<char>>) -> MetadataView {
    MetadataView { paths: with_paths(record.paths, new_paths), ..record }
}

/// One step of an extension.
///
/// First the working copy must prove sparse; then the record is read. If the
/// new paths bring nothing that the record lacks, the flow ends there: git is
/// not asked to select, and nothing is written. Otherwise git selects the
/// merged paths and updates the working tree; only then does the record take
/// the new paths, and it is written. The first failure ends the flow.
pub open spec fn extend_step(flow: ExtendFlowView, reply: ReplyView) -> StepView<
    ExtendFlowView,
    ExtensionView,
> {
    match flow.phase {
        ExtendPhase::Created => StepView::Continue(
            ExtendFlowView { phase: ExtendPhase::Probing, ..flow },
            RequestView::Exists(git_entry(flow.root)),
        ),
        ExtendPhase::Probing => match exists_reply(reply) {
            Err(e) => StepView::Finished(Err(e)),
            Ok(false) => StepView::Finished(Err(SyncErrorView::NotAPartialCheckout)),
            Ok(true) => StepView::Continue(
                ExtendFlowView { phase: ExtendPhase::ReadingFlag, ..flow },
                RequestView::Git(in_dir(flow.root, flag_args())),
            ),
        },
        ExtendPhase::ReadingFlag => match flag_reply(reply) {
            Err(e) => StepView::Finished(Err(e)),
            Ok(false) => StepView::Finished(Err(SyncErrorView::NotAPartialCheckout)),
            Ok(true) => StepView::Continue(
                ExtendFlowView { phase: ExtendPhase::Loading, ..flow },
                RequestView::LoadMetadata(record_location(flow.root)),
            ),
        },
        ExtendPhase::Loading => match metadata_reply(reply) {
            Err(e) => StepView::Finished(Err(e)),
            Ok(record) => if adds_any(record.paths, flow.new_paths) {
                StepView::Continue(
                    ExtendFlowView { phase: ExtendPhase::Selecting, record: Some(record), ..flow },
                    RequestView::Git(
                        in_dir(
                            flow.root,
                            selection_args(with_paths(record.paths, flow.new_paths)),
                        ),
                    ),
                )
            } else {
                StepView::Finished(Ok(ExtensionView { record, changed: false }))
            },
        },
        ExtendPhase::Selecting => match (git_reply(reply), flow.record) {
            (Err(e), _) => StepView::Finished(Err(e)),
            (Ok(_), None) => StepView::Finished(Err(SyncErrorView::UnexpectedReply)),
            (Ok(_), Some(_)) => StepView::Continue(
                ExtendFlowView { phase: ExtendPhase::CheckingOut, ..flow },
                RequestView::Git(in_dir(flow.root, checkout_args())),
            ),
        },
        ExtendPhase::CheckingOut => match (git_reply(reply), flow.record) {
            (Err(e), _) => StepView::Finished(Err(e)),
            (Ok(_), None) => StepView::Finished(Err(SyncErrorView::UnexpectedReply)),
            (Ok(_), Some(record)) => {
                let grown = extended(record, flow.new_paths);
                StepView::Continue(
                    ExtendFlowView { phase: ExtendPhase::Saving, record: Some(grown), ..flow },
                    RequestView::SaveMetadata(record_location(flow.root), grown),
                )
            },
        },
        ExtendPhase::Saving => match (done_reply(reply), flow.record) {
            (Err(e), _) => StepView::Finished(Err(e)),
            (Ok(_), None) => StepView::Finished(Err(SyncErrorView::UnexpectedReply)),
            (Ok(_), Some(record)) => StepView::Finished(
                Ok(ExtensionView { record, changed: true }),
            ),
        },
    }
}

impl ExtendFlow {
    /// An extension that has asked for nothing yet.
    pub fn new(root: &str, new_paths: &[String]) -> (flow: Self)
        ensures
            flow@ == extend_start(root@, views(new_paths@)),
    {
        ExtendFlow {
            phase: ExtendPhase::Created,
            root: root.to_owned(),
            new_paths: copy_strings(new_paths),
            record: None,
        }
    }
}

/// Takes an extension one step further: from where it stands and what the
/// driver answered to what the driver is to do next, or to how it ended. Start
/// with `ExtendFlow::new` and `Reply::Start`.
pub fn add_new_paths(flow: ExtendFlow, reply: Reply) -> (step: Step<ExtendFlow, Extension>)
    ensures
        step@ == extend_step(flow@, reply@),
{
    let ExtendFlow { phase, root, new_paths, record } = flow;
    match phase {
        ExtendPhase::Created => {
            let request = Request::Exists(git_entry_path(root.as_str()));
            Step::Continue(
                ExtendFlow { phase: ExtendPhase::Probing, root, new_paths, record },
                request,
            )
        },
        ExtendPhase::Probing => match read_exists_reply(&reply) {
            Err(e) => Step::Finished(Err(e)),
            Ok(false) => Step::Finished(Err(SyncError::NotAPartialCheckout)),
            Ok(true) => {
                let request = Request::Git(flag_command(root.as_str()));
                Step::Continue(
                    ExtendFlow { phase: ExtendPhase::ReadingFlag, root, new_paths, record },
                    request,
                )
            },
        },
        ExtendPhase::ReadingFlag => match read_flag_reply(&reply) {
            Err(e) => Step::Finished(Err(e)),
            Ok(false) => Step::Finished(Err(SyncError::NotAPartialCheckout)),
            Ok(true) => {
                let request = Request::LoadMetadata(
                    RepositoryMetadata::metadata_path(root.as_str()),
                );
                Step::Continue(
                    ExtendFlow { phase: ExtendPhase::Loading, root, new_paths, record },
                    request,
                )
            },
        },
        ExtendPhase::Loading => match read_metadata_reply(reply) {
            Err(e) => Step::Finished(Err(e)),
            Ok(loaded) => {
                if loaded.lacks_any_of(new_paths.as_slice()) {
                    let mut merged = loaded.clone();
                    merged.add_paths(new_paths.as_slice());
                    let all = merged.checked_out_paths.to_vec();
                    let request = Request::Git(selection_command(root.as_str(), all.as_slice()));
                    Step::Continue(
                        ExtendFlow {
                            phase: ExtendPhase::Selecting,
                            root,
                            new_paths,
                            record: Some(loaded),
                        },
                        request,
                    )
                } else {
                    Step::Finished(Ok(Extension { record: loaded, changed: false }))
                }
            },
        },
        ExtendPhase::Selecting => match (read_git_reply(&reply), record) {
            (Err(e), _) => Step::Finished(Err(e)),
            (Ok(_), None) => Step::Finished(Err(SyncError::UnexpectedReply)),
            (Ok(_), Some(record)) => {
                let request = Request::Git(checkout_command(root.as_str()));
                Step::Continue(
                    ExtendFlow {
                        phase: ExtendPhase::CheckingOut,
                        root,
                        new_paths,
                        record: Some(record),
                    },
                    request,
                )
            },
        },
        ExtendPhase::CheckingOut => match (read_git_reply(&reply), record) {
            (Err(e), _) => Step::Finished(Err(e)),
            (Ok(_), None) => Step::Finished(Err(SyncError::UnexpectedReply)),
            (Ok(_), Some(record)) => {
                let mut grown = record;
                grown.add_paths(new_paths.as_slice());
                let request = Request::SaveMetadata(
                    RepositoryMetadata::metadata_path(root.as_str()),
                    grown.clone(),
                );
                Step::Continue(
                    ExtendFlow {
                        phase: ExtendPhase::Saving,
                        root,
                        new_paths,
                        record: Some(grown),
                    },
                    request,
                )
            },
        },
        ExtendPhase::Saving => match (read_done_reply(&reply), record) {
            (Err(e), _) => Step::Finished(Err(e)),
            (Ok(_), None) => Step::Finished(Err(SyncError::UnexpectedReply)),
            (Ok(_), Some(record)) => Step::Finished(Ok(Extension { record, changed: true })),
        },
    }
}

/// The step function of an extension, as a value.
pub open spec fn extend_steps() -> spec_fn(ExtendFlowView, ReplyView) -> StepView<
    ExtendFlowView,
    ExtensionView,
> {
    |flow: ExtendFlowView, reply: ReplyView| extend_step(flow, reply)
}

/// An extension that succeeds leaves the record it read with the new paths
/// added, whatever the driver answered, and says truly whether anything came
/// new.
pub proof fn law_extension_adds_the_paths(
    root: Seq<char>,
    new_paths: Seq<Seq<char>>,
    replies: Seq<ReplyView>,
    outcome: ExtensionView,
)
    requires
        replies.len() > 0,
        run(extend_steps(), extend_start(root, new_paths), replies) == StepView::<
            ExtendFlowView,
            ExtensionView,
        >::Finished(Ok(outcome)),
    ensures
        replies.len() >= 4,
        metadata_reply(replies[3]) matches Ok(loaded) && outcome.record == extended(
            loaded,
            new_paths,
        ) && outcome.changed == adds_any(loaded.paths, new_paths),
{
    reveal_with_fuel(run, 8);
    if replies.len() >= 4 {
        if let Ok(loaded) = metadata_reply(replies[3]) {
            lemma_with_paths_changes(loaded.paths, new_paths);
        }
    }
}

/// Idempotence. Where the record already holds what an extension would leave,
/// and the working copy is sparse, extending by the same paths again asks the
/// driver to test for sparseness and to read the record, and nothing else: git
/// is not asked to select, nothing is written, and the record comes back as it
/// was.
pub proof fn law_repeat_changes_nothing(
    root: Seq<char>,
    new_paths: Seq<Seq<char>>,
    record: MetadataView,
    replies: Seq<ReplyView>,
)
    requires
        replies.len() >= 4,
        exists_reply(replies[1]) == Ok::<bool, SyncErrorView>(true),
        flag_reply(replies[2]) == Ok::<bool, SyncErrorView>(true),
        metadata_reply(replies[3]) == Ok::<MetadataView, SyncErrorView>(
            extended(record, new_paths),
        ),
    ensures
        run(extend_steps(), extend_start(root, new_paths), replies) == StepView::<
            ExtendFlowView,
            ExtensionView,
        >::Finished(Ok(ExtensionView { record: extended(record, new_paths), changed: false })),
        asked(extend_steps(), extend_start(root, new_paths), replies) == seq![
            RequestView::Exists(git_entry(root)),
            RequestView::Git(in_dir(root, flag_args())),
            RequestView::LoadMetadata(record_location(root)),
        ],
{
    reveal_with_fuel(run, 5);
    reveal_with_fuel(asked, 5);
    let merged = with_paths(record.paths, new_paths);
    lemma_with_paths(record.paths, new_paths);
    assert(!adds_any(merged, new_paths)) by {
        assert forall|i: int| 0 <= i < new_paths.len() implies merged.contains(
            #[trigger] new_paths[i],
        ) by {
            assert(new_paths.contains(new_paths[i]));
        }
    }
}

/// The record never runs ahead of git. Whenever an extension asks for the
/// record to be written, it has asked git before to select exactly the paths of
/// that record and to update the working tree, and git has done both.
pub proof fn law_record_follows_selection(
    root: Seq<char>,
    new_paths: Seq<Seq<char>>,
    replies: Seq<ReplyView>,
    k: int,
)
    requires
        0 <= k < asked(extend_steps(), extend_start(root, new_paths), replies).len(),
        asked(extend_steps(), extend_start(root, new_paths), replies)[k] is SaveMetadata,
    ensures
        k == 5,
        replies.len() >= 6,
        asked(extend_steps(), extend_start(root, new_paths), replies)[k] matches RequestView::SaveMetadata(
            _,
            saved,
        ) && asked(extend_steps(), extend_start(root, new_paths), replies)[3] == RequestView::Git(
            in_dir(root, selection_args(saved.paths)),
        ),
        asked(extend_steps(), extend_start(root, new_paths), replies)[4] == RequestView::Git(
            in_dir(root, checkout_args()),
        ),
        git_reply(replies[4]) is Ok,
        git_reply(replies[5]) is Ok,
{
    reveal_with_fuel(asked, 8);
}

/// The union law. Two extensions in a row leave exactly the paths that were
/// there and those of both requests: nothing more, nothing less, nothing twice.
pub proof fn law_extensions_unite(
    record: MetadataView,
    first: Seq<Seq<char>>,
    second: Seq<Seq<char>>,
)
    requires
        record.paths.no_duplicates(),
    ensures
        extended(extended(record, first), second).paths.to_set() == record.paths.to_set().union(
            first.to_set(),
        ).union(second.to_set()),
        extended(extended(record, first), second).paths.no_duplicates(),
{
    lemma_with_paths(record.paths, first);
    lemma_with_paths(with_paths(record.paths, first), second);
    lemma_with_paths_is_union(record.paths, first);
    lemma_with_paths_is_union(with_paths(record.paths, first), second);
}

} // verus!
