//! Failures of the update subsystem.

use vstd::prelude::*;
use crate::text::join2;

verus! {

/// What went wrong, by the part of the world that failed.
#[derive(Clone, Copy, Debug, PartialEq, Eq, Structural)]
pub enum ErrorKind {
    /// A request could not be sent, was refused, or its answer could not
    /// be read.
    Network,
    /// The release metadata was not in the expected form.
    Parse,
    /// A file could not be created, written, renamed or removed, or a
    /// program could not be started from one.
    Filesystem,
    /// The shared scheduler state could not be reached, or an update
    /// flow was driven out of turn.
    State,
    /// A newer release exists but offers nothing to download.
    MissingAsset,
}

/// A failure with its description.
#[derive(Clone, Debug, PartialEq, Eq)]
pub struct UpdateError {
    pub kind: ErrorKind,
    pub message: String,
}

/// The mathematical content of an [`UpdateError`].
pub struct UpdateErrorView {
    pub kind: ErrorKind,
    pub message: Seq<char>,
}

impl View for UpdateError {
    type V = UpdateErrorView;

    open spec fn view(&self) -> UpdateErrorView {
        UpdateErrorView { kind: self.kind, message: self.message@ }
    }
}

/// The error of kind `kind` that reads `context` followed by `reason`.
pub open spec fn described(kind: ErrorKind, context: Seq<char>, reason: Seq<char>) -> UpdateErrorView {
    UpdateErrorView { kind, message: context + reason }
}

impl UpdateError {
    /// An error of kind `kind` that reads `message`.
    pub fn new(kind: ErrorKind, message: &str) -> (e: UpdateError)
        ensures
            e@ == (UpdateErrorView { kind, message: message@ }),
    {
        UpdateError { kind, message: String::from_str(message) }
    }

    /// An error of kind `kind` that reads `context` followed by `reason`.
    pub fn describe(kind: ErrorKind, context: &str, reason: &str) -> (e: UpdateError)
        ensures
            e@ == described(kind, context@, reason@),
    {
        UpdateError { kind, message: join2(context, reason) }
    }

    /// The same failure, with `context` put in front of its description.
    pub fn within(&self, context: &str) -> (e: UpdateError)
        ensures
            e@ == described(self.kind, context@, self.message@),
    {
        UpdateError { kind: self.kind, message: join2(context, self.message.as_str()) }
    }

    /// A copy of this error.
    pub fn duplicate(&self) -> (e: UpdateError)
        ensures
            e@ == self@,
    {
        UpdateError { kind: self.kind, message: self.message.clone() }
    }

    /// The description, as the caller across the host boundary sees it.
    pub fn description(&self) -> (s: String)
        ensures
            s@ == self.message@,
    {
        self.message.clone()
    }
}

/// A file or directory that could not be created at start-up.
#[derive(Clone, Debug, PartialEq, Eq)]
pub enum FileProcessingError {
    /// The directory at the path could not be created; the second field
    /// is the cause.
    DirectoryCreation(String, String),
    /// The file at the path could not be created; the second field is
    /// the cause.
    FileCreation(String, String),
}

/// The mathematical content of a [`FileProcessingError`].
pub enum FileProcessingErrorView {
    DirectoryCreation(Seq<char>, Seq<char>),
    FileCreation(Seq<char>, Seq<char>),
}

impl View for FileProcessingError {
    type V = FileProcessingErrorView;

    open spec fn view(&self) -> FileProcessingErrorView {
        match self {
            FileProcessingError::DirectoryCreation(p, c) => FileProcessingErrorView::DirectoryCreation(
                p@,
                c@,
            ),
            FileProcessingError::FileCreation(p, c) => FileProcessingErrorView::FileCreation(p@, c@),
        }
    }
}

/// How a [`FileProcessingError`] reads.
pub open spec fn file_error_text(e: FileProcessingErrorView) -> Seq<char> {
    match e {
        FileProcessingErrorView::DirectoryCreation(p, c) => "Failed to create directory: '"@ + p
            + "': "@ + c,
        FileProcessingErrorView::FileCreation(p, c) => "Failed to create file: '"@ + p + "': "@ + c,
    }
}

impl FileProcessingError {
    /// The text of the error: what could not be created, where, and why.
    pub fn message(&self) -> (s: String)
        ensures
            s@ == file_error_text(self@),
    {
        match self {
            FileProcessingError::DirectoryCreation(p, c) => String::from_str(
                "Failed to create directory: '",
            ).concat(p.as_str()).concat("': ").concat(c.as_str()),
            FileProcessingError::FileCreation(p, c) => String::from_str(
                "Failed to create file: '",
            ).concat(p.as_str()).concat("': ").concat(c.as_str()),
        }
    }
}

} // verus!
