//! Removing the target of a job, as a sequence of decisions.
//!
//! The host performs each step on the file system and reports what it found;
//! [`next_step`] says what to do next, until the removal is `Done`.

use vstd::prelude::*;
use vstd::string::*;
use crate::text::enclose;

verus! {

/// What the file system holds at a path.
#[derive(Clone, Copy, PartialEq, Eq, Structural, Debug)]
pub enum EntryKind {
    /// A regular file.
    File,
    /// A directory.
    Directory,
    /// Anything else.
    Other,
}

/// Why a removal failed.
#[derive(Clone, Copy, PartialEq, Eq, Structural, Debug)]
pub enum IoFailure {
    /// The host may not remove the entry.
    PermissionDenied,
    /// The entry is in use.
    ResourceBusy,
    /// The entry is gone.
    NotFound,
    /// Any other failure.
    Other,
}

/// What the host found out by its last step.
#[derive(Clone, Copy, PartialEq, Eq, Structural, Debug)]
pub enum DeleteProgress {
    /// Nothing yet.
    Started,
    /// Whether the path exists.
    Checked { exists: bool },
    /// What kind of entry the path names, where its metadata could be read.
    Inspected { kind: Option<EntryKind> },
    /// How removing the file or the directory tree went.
    Removed { failure: Option<IoFailure> },
    /// Whether the files that match the pattern could be listed.
    Listed { listed: bool },
    /// The listed files have been removed, as far as they could be.
    Swept,
}

/// What the host does next.
#[derive(PartialEq, Eq, Debug)]
pub enum DeleteStep {
    /// Find out whether the path exists.
    CheckExists,
    /// Read the metadata of the path.
    Inspect,
    /// Remove the file at the path.
    RemoveFile,
    /// Remove the directory at the path with all that it holds.
    RemoveTree,
    /// List the files in the directory that match the pattern.
    ListMatching(String),
    /// Remove the listed files, passing over those that cannot be removed.
    RemoveListed,
    /// Nothing more: the removal succeeded, or failed with the message.
    Done(Result<(), String>),
}

/// A step with its texts as sequences of characters.
pub enum DeleteStepView {
    CheckExists,
    Inspect,
    RemoveFile,
    RemoveTree,
    ListMatching(Seq<char>),
    RemoveListed,
    Done(Result<(), Seq<char>>),
}

impl View for DeleteStep {
    type V = DeleteStepView;

    open spec fn view(&self) -> DeleteStepView {
        match self {
            DeleteStep::CheckExists => DeleteStepView::CheckExists,
            DeleteStep::Inspect => DeleteStepView::Inspect,
            DeleteStep::RemoveFile => DeleteStepView::RemoveFile,
            DeleteStep::RemoveTree => DeleteStepView::RemoveTree,
            DeleteStep::ListMatching(mask) => DeleteStepView::ListMatching(mask@),
            DeleteStep::RemoveListed => DeleteStepView::RemoveListed,
            DeleteStep::Done(Ok(())) => DeleteStepView::Done(Ok(())),
            DeleteStep::Done(Err(message)) => DeleteStepView::Done(Err(message@)),
        }
    }
}

/// The message for a path that does not exist.
pub open spec fn not_found_text(path: Seq<char>) -> Seq<char> {
    "Файл `"@ + path + "` не найден"@
}

/// The message for a path that the host may not remove, or that is in use.
pub open spec fn busy_text(path: Seq<char>) -> Seq<char> {
    "Нет прав или файл `"@ + path + "` занят другим приложением"@
}

/// The message for a directory whose files could not be listed.
pub open spec fn operation_failed_text(path: Seq<char>) -> Seq<char> {
    "При операции c `"@ + path + "` произошла ошибка"@
}

/// The message for a path whose metadata could not be read, or that names
/// neither a file nor a directory.
pub open spec fn metadata_failed_text() -> Seq<char> {
    "Ошибка получения метадаты"@
}

/// How the removal of a file or a directory tree ends: a failure for want of
/// permission, for a busy entry or for a missing one is reported; any other
/// failure counts as success.
pub open spec fn removal_result(path: Seq<char>, failure: Option<IoFailure>) -> Result<
    (),
    Seq<char>,
> {
    match failure {
        Some(IoFailure::PermissionDenied) | Some(IoFailure::ResourceBusy) => Err(busy_text(path)),
        Some(IoFailure::NotFound) => Err(not_found_text(path)),
        Some(IoFailure::Other) | None => Ok(()),
    }
}

/// The step that follows `progress` in removing `path`, of which only the
/// files matching `mask` go when it is a directory and there is a mask.
pub open spec fn step_after(
    path: Seq<char>,
    mask: Option<Seq<char>>,
    progress: DeleteProgress,
) -> DeleteStepView {
    match progress {
        DeleteProgress::Started => DeleteStepView::CheckExists,
        DeleteProgress::Checked { exists } => if exists {
            DeleteStepView::Inspect
        } else {
            DeleteStepView::Done(Err(not_found_text(path)))
        },
        DeleteProgress::Inspected { kind } => match kind {
            Some(EntryKind::File) => DeleteStepView::RemoveFile,
            Some(EntryKind::Directory) => match mask {
                Some(m) => DeleteStepView::ListMatching(m),
                None => DeleteStepView::RemoveTree,
            },
            Some(EntryKind::Other) | None => DeleteStepView::Done(Err(metadata_failed_text())),
        },
        DeleteProgress::Removed { failure } => DeleteStepView::Done(
            removal_result(path, failure),
        ),
        DeleteProgress::Listed { listed } => if listed {
            DeleteStepView::RemoveListed
        } else {
            DeleteStepView::Done(Err(operation_failed_text(path)))
        },
        DeleteProgress::Swept => DeleteStepView::Done(Ok(())),
    }
}

/// Says what the host does next in removing `path`, given what its last
/// step found.
pub fn next_step(path: &str, mask: Option<&String>, progress: DeleteProgress) -> (step: DeleteStep)
    ensures
        step@ == step_after(
            path@,
            match mask {
                Some(m) => Some(m@),
                None => None,
            },
            progress,
        ),
{
    match progress {
        DeleteProgress::Started => DeleteStep::CheckExists,
        DeleteProgress::Checked { exists } => if exists {
            DeleteStep::Inspect
        } else {
            DeleteStep::Done(Err(enclose("Файл `", path, "` не найден")))
        },
        DeleteProgress::Inspected { kind } => match kind {
            Some(EntryKind::File) => DeleteStep::RemoveFile,
            Some(EntryKind::Directory) => match mask {
                Some(m) => DeleteStep::ListMatching(m.clone()),
                None => DeleteStep::RemoveTree,
            },
            _ => DeleteStep::Done(Err(String::from_str("Ошибка получения метадаты"))),
        },
        DeleteProgress::Removed { failure } => match failure {
            Some(IoFailure::PermissionDenied) | Some(IoFailure::ResourceBusy) => DeleteStep::Done(
                Err(enclose("Нет прав или файл `", path, "` занят другим приложением")),
            ),
            Some(IoFailure::NotFound) => DeleteStep::Done(
                Err(enclose("Файл `", path, "` не найден")),
            ),
            _ => DeleteStep::Done(Ok(())),
        },
        DeleteProgress::Listed { listed } => if listed {
            DeleteStep::RemoveListed
        } else {
            DeleteStep::Done(Err(enclose("При операции c `", path, "` произошла ошибка")))
        },
        DeleteProgress::Swept => DeleteStep::Done(Ok(())),
    }
}

/// The steps of a removal follow one another in a fixed order, so every
/// removal ends: existence is checked first, metadata is read only for a path
/// that exists, something is removed or listed only after the metadata was
/// read, listed files are removed only after a listing, and every report on
/// a removal ends the work.
pub proof fn law_removal_ends(path: Seq<char>, mask: Option<Seq<char>>, progress: DeleteProgress)
    ensures
        match step_after(path, mask, progress) {
            DeleteStepView::CheckExists => progress is Started,
            DeleteStepView::Inspect => progress == (DeleteProgress::Checked { exists: true }),
            DeleteStepView::RemoveFile => progress == (DeleteProgress::Inspected {
                kind: Some(EntryKind::File),
            }),
            DeleteStepView::RemoveTree => mask is None && progress == (DeleteProgress::Inspected {
                kind: Some(EntryKind::Directory),
            }),
            DeleteStepView::ListMatching(m) => mask == Some(m) && progress == (
            DeleteProgress::Inspected { kind: Some(EntryKind::Directory) }),
            DeleteStepView::RemoveListed => progress == (DeleteProgress::Listed { listed: true }),
            DeleteStepView::Done(_) => true,
        },
        progress is Removed || progress is Swept ==> step_after(path, mask, progress) is Done,
{
}

} // verus!
