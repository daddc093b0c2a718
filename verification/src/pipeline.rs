use vstd::prelude::*;

use crate::errors::ParserError;
use crate::errors::SaveStatus;
use crate::feed::feed_entries_of;
use crate::feed::parse_feed_bytes;
use crate::post::Post;
use crate::post::build_posts;
use crate::post::posts_view;
use crate::post::spec_build_all;
use crate::resolver::get_substack_url;
use crate::resolver::spec_resolve;
use crate::writer::get_save_dir;
use crate::writer::output_files;
use crate::writer::spec_file_path;

verus! {

/// The orchestrator's state for one invocation. It advances strictly
/// left-to-right and ends in `Done` or `Failed`; any component error moves it
/// to `Failed` at once.
pub enum PipelineState {
    /// Nothing has run yet; the two invocation arguments are held.
    Idle { input: String, output_dir: String },
    /// The feed URL is resolved; the fetch is outstanding.
    Fetching { feed_url: String, output_dir: String },
    /// The posts are built; the directory-existence check is outstanding.
    CheckingDir { output_dir: String, posts: Vec<Post> },
    /// The target directory exists; the overwrite answer is outstanding.
    AwaitingConfirmation { output_dir: String, posts: Vec<Post> },
    /// The write is outstanding.
    Writing { posts: Vec<Post> },
    /// Terminal: every file was written.
    Done { report: SaveStatus },
    /// Terminal: a component failed.
    Failed { error: ParserError },
}

/// What the driver must perform next. Every suspension of the pipeline is one
/// of these outside actions; the pipeline itself touches neither network nor
/// filesystem.
pub enum PipelineAction {
    /// Fetch the bytes behind `url` and answer with `FetchedBytes` or
    /// `FetchFailed`.
    Fetch { url: String },
    /// Check whether directory `dir` exists and answer with `DirExists`.
    CheckDir { dir: String },
    /// Ask whether `dir` may be overwritten, default no, and answer with
    /// `Answer`.
    Prompt { dir: String },
    /// If `clear_first`, delete the tree at `dir` (answering `DeleteFailed`
    /// if that fails); create `dir`; write each listed file (answering
    /// `WriteError` on the first failure); answer `Written` with the count.
    Write { dir: String, clear_first: bool, files: Vec<(String, String)> },
    /// Terminal: report the outcome to the operator.
    Report,
}

/// The driver's answer to the pending action.
pub enum PipelineEvent {
    /// Begin; answers no action.
    Start,
    /// The fetch returned these body bytes.
    FetchedBytes { bytes: Vec<u8> },
    /// The transport failed.
    FetchFailed,
    /// Whether the target directory exists.
    DirExists { exists: bool },
    /// The operator's overwrite answer; a missing prompt counts as no.
    Answer { overwrite: bool },
    /// Every file was written: `count` files, one per listed file and so one
    /// per post.
    Written { count: usize },
    /// The existing directory tree could not be deleted.
    DeleteFailed,
    /// A file could not be created or written.
    WriteError,
}

/// Which event answers which state: the driver hands `step` only the answer
/// to the action it was given. `Written` reports full success, so its count
/// is one file per post.
pub open spec fn fits(state: PipelineState, event: PipelineEvent) -> bool {
    match state {
        PipelineState::Idle { .. } => event is Start,
        PipelineState::Fetching { .. } => event is FetchedBytes || event is FetchFailed,
        PipelineState::CheckingDir { .. } => event is DirExists,
        PipelineState::AwaitingConfirmation { .. } => event is Answer,
        PipelineState::Writing { posts } => match event {
            PipelineEvent::Written { count } => count == posts@.len(),
            PipelineEvent::DeleteFailed => true,
            PipelineEvent::WriteError => true,
            _ => false,
        },
        PipelineState::Done { .. } => false,
        PipelineState::Failed { .. } => false,
    }
}

/// Every post held by a non-terminal state is well formed.
pub open spec fn state_wf(state: PipelineState) -> bool {
    match state {
        PipelineState::CheckingDir { posts, .. } => forall|i: int|
            0 <= i < posts@.len() ==> (#[trigger] posts@[i]).wf(),
        PipelineState::AwaitingConfirmation { posts, .. } => forall|i: int|
            0 <= i < posts@.len() ==> (#[trigger] posts@[i]).wf(),
        PipelineState::Writing { posts } => forall|i: int|
            0 <= i < posts@.len() ==> (#[trigger] posts@[i]).wf(),
        _ => true,
    }
}

/// The planned file list for `posts` under `output_dir`: one pair per post,
/// the full path and the exact content.
pub open spec fn files_match(
    files: Seq<(String, String)>,
    output_dir: Seq<char>,
    posts: Seq<Post>,
) -> bool {
    &&& files.len() == posts.len()
    &&& forall|i: int|
        0 <= i < files.len() ==> (#[trigger] files[i]).0@ == spec_file_path(
            output_dir,
            posts[i]@,
        ) && files[i].1@ == posts[i]@.md
}

/// The whole transition relation of the orchestrator: what `step` returns
/// for each state and its answering event.
pub open spec fn step_post(
    state: PipelineState,
    event: PipelineEvent,
    r: (PipelineState, PipelineAction),
) -> bool {
    match (state, event) {
        (PipelineState::Idle { input, output_dir }, PipelineEvent::Start) => {
            if input@.len() == 0 {
                &&& r.0 matches PipelineState::Failed { error }
                    && error == ParserError::InvalidInput
                &&& r.1 is Report
            } else {
                &&& r.0 matches PipelineState::Fetching { feed_url, output_dir: od }
                    && feed_url@ == spec_resolve(input@) && od@ == output_dir@
                &&& r.1 matches PipelineAction::Fetch { url } && url@ == spec_resolve(input@)
            }
        },
        (PipelineState::Fetching { .. }, PipelineEvent::FetchFailed) => {
            &&& r.0 matches PipelineState::Failed { error }
                && error == ParserError::NetworkError
            &&& r.1 is Report
        },
        (
            PipelineState::Fetching { output_dir, .. },
            PipelineEvent::FetchedBytes { bytes },
        ) => {
            match feed_entries_of(bytes@) {
                None => {
                    &&& r.0 matches PipelineState::Failed { error }
                        && error == ParserError::FeedParseError
                    &&& r.1 is Report
                },
                Some(entries) => match spec_build_all(entries) {
                    Err(e) => {
                        &&& r.0 matches PipelineState::Failed { error } && error == e
                        &&& r.1 is Report
                    },
                    Ok(ps) => {
                        &&& r.0 matches PipelineState::CheckingDir { output_dir: od, posts }
                            && od@ == output_dir@ && posts_view(posts@) == ps
                        &&& r.1 matches PipelineAction::CheckDir { dir } && dir@ == "/tmp/"@
                            + output_dir@
                    },
                },
            }
        },
        (
            PipelineState::CheckingDir { output_dir, posts },
            PipelineEvent::DirExists { exists },
        ) => {
            if exists {
                &&& r.0 matches PipelineState::AwaitingConfirmation {
                    output_dir: od,
                    posts: ps,
                } && od@ == output_dir@ && ps@ == posts@
                &&& r.1 matches PipelineAction::Prompt { dir } && dir@ == "/tmp/"@
                    + output_dir@
            } else {
                &&& r.0 matches PipelineState::Writing { posts: ps } && ps@ == posts@
                &&& r.1 matches PipelineAction::Write { dir, clear_first, files }
                    && dir@ == "/tmp/"@ + output_dir@ && !clear_first && files_match(
                    files@,
                    output_dir@,
                    posts@,
                )
            }
        },
        (
            PipelineState::AwaitingConfirmation { output_dir, posts },
            PipelineEvent::Answer { overwrite },
        ) => {
            if overwrite {
                &&& r.0 matches PipelineState::Writing { posts: ps } && ps@ == posts@
                &&& r.1 matches PipelineAction::Write { dir, clear_first, files }
                    && dir@ == "/tmp/"@ + output_dir@ && clear_first && files_match(
                    files@,
                    output_dir@,
                    posts@,
                )
            } else {
                &&& r.0 matches PipelineState::Failed { error }
                    && error == ParserError::DirectoryExists
                &&& r.1 is Report
            }
        },
        (PipelineState::Writing { posts }, PipelineEvent::Written { count }) => {
            &&& r.0 matches PipelineState::Done { report } && report == (SaveStatus::Success {
                files_written: count,
            }) && count == posts@.len()
            &&& r.1 is Report
        },
        (PipelineState::Writing { .. }, PipelineEvent::DeleteFailed) => {
            &&& r.0 matches PipelineState::Failed { error }
                && error == ParserError::CantDelete
            &&& r.1 is Report
        },
        (PipelineState::Writing { .. }, PipelineEvent::WriteError) => {
            &&& r.0 matches PipelineState::Failed { error }
                && error == ParserError::WriteFailed
            &&& r.1 is Report
        },
        _ => true,
    }
}

/// One transition of the orchestrator: consumes the current state and the
/// driver's event, performs all the pure work of the next stage, and returns
/// the next state together with the outside action the driver must perform.
pub fn step(state: PipelineState, event: PipelineEvent) -> (r: (
    PipelineState,
    PipelineAction,
))
    requires
        fits(state, event),
        state_wf(state),
    ensures
        state_wf(r.0),
        step_post(state, event, r),
{
    match (state, event) {
        (PipelineState::Idle { input, output_dir }, PipelineEvent::Start) => {
            match get_substack_url(input) {
                Ok(u) => {
                    let url = u.clone();
                    (
                        PipelineState::Fetching { feed_url: u, output_dir },
                        PipelineAction::Fetch { url },
                    )
                },
                Err(e) => (PipelineState::Failed { error: e }, PipelineAction::Report),
            }
        },
        (PipelineState::Fetching { .. }, PipelineEvent::FetchFailed) => (
            PipelineState::Failed { error: ParserError::NetworkError },
            PipelineAction::Report,
        ),
        (
            PipelineState::Fetching { output_dir, .. },
            PipelineEvent::FetchedBytes { bytes },
        ) => {
            match parse_feed_bytes(bytes.as_slice()) {
                Err(e) => (PipelineState::Failed { error: e }, PipelineAction::Report),
                Ok(entries) => match build_posts(&entries) {
                    Err(e) => (PipelineState::Failed { error: e }, PipelineAction::Report),
                    Ok(posts) => {
                        let dir = get_save_dir(output_dir.as_str());
                        (
                            PipelineState::CheckingDir { output_dir, posts },
                            PipelineAction::CheckDir { dir },
                        )
                    },
                },
            }
        },
        (
            PipelineState::CheckingDir { output_dir, posts },
            PipelineEvent::DirExists { exists },
        ) => {
            if exists {
                let dir = get_save_dir(output_dir.as_str());
                (
                    PipelineState::AwaitingConfirmation { output_dir, posts },
                    PipelineAction::Prompt { dir },
                )
            } else {
                let files = output_files(output_dir.as_str(), &posts);
                let dir = get_save_dir(output_dir.as_str());
                (
                    PipelineState::Writing { posts },
                    PipelineAction::Write { dir, clear_first: false, files },
                )
            }
        },
        (
            PipelineState::AwaitingConfirmation { output_dir, posts },
            PipelineEvent::Answer { overwrite },
        ) => {
            if overwrite {
                let files = output_files(output_dir.as_str(), &posts);
                let dir = get_save_dir(output_dir.as_str());
                (
                    PipelineState::Writing { posts },
                    PipelineAction::Write { dir, clear_first: true, files },
                )
            } else {
                (
                    PipelineState::Failed { error: ParserError::DirectoryExists },
                    PipelineAction::Report,
                )
            }
        },
        (PipelineState::Writing { .. }, PipelineEvent::Written { count }) => (
            PipelineState::Done { report: SaveStatus::Success { files_written: count } },
            PipelineAction::Report,
        ),
        (PipelineState::Writing { .. }, PipelineEvent::DeleteFailed) => (
            PipelineState::Failed { error: ParserError::CantDelete },
            PipelineAction::Report,
        ),
        (PipelineState::Writing { .. }, PipelineEvent::WriteError) => (
            PipelineState::Failed { error: ParserError::WriteFailed },
            PipelineAction::Report,
        ),
        _ => vstd::pervasive::unreached(),
    }
}

} // verus!
