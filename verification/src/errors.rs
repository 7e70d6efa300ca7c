//! The failures that the pipeline's stages report.

use vstd::prelude::*;
use vstd::string::*;

verus! {

/// Why a stage of the pipeline failed. Each variant carries the text that is
/// shown to the operator: a path, a key, or the message of the failed
/// operation.
#[derive(Debug, Clone, PartialEq, Eq)]
pub enum CompileToolErrors {
    /// A filesystem read, write or permission change failed.
    IOError(String),
    /// A required configuration key is absent; holds the key.
    MissingRequiredField(String),
    /// The configuration store could not be loaded at all.
    ConfigParseError(String),
    /// The compile root does not exist; holds its path.
    DirectoryNotFound(String),
    /// The archive could not be created.
    PackagingError(String),
    /// A path met during directory traversal could not be made relative.
    PathError(String),
}

/// The mathematical value of a [`CompileToolErrors`].
pub enum CompileToolErrorsView {
    IOError(Seq<char>),
    MissingRequiredField(Seq<char>),
    ConfigParseError(Seq<char>),
    DirectoryNotFound(Seq<char>),
    PackagingError(Seq<char>),
    PathError(Seq<char>),
}

impl View for CompileToolErrors {
    type V = CompileToolErrorsView;

    open spec fn view(&self) -> CompileToolErrorsView {
        match self {
            CompileToolErrors::IOError(s) => CompileToolErrorsView::IOError(s@),
            CompileToolErrors::MissingRequiredField(s) => CompileToolErrorsView::MissingRequiredField(s@),
            CompileToolErrors::ConfigParseError(s) => CompileToolErrorsView::ConfigParseError(s@),
            CompileToolErrors::DirectoryNotFound(s) => CompileToolErrorsView::DirectoryNotFound(s@),
            CompileToolErrors::PackagingError(s) => CompileToolErrorsView::PackagingError(s@),
            CompileToolErrors::PathError(s) => CompileToolErrorsView::PathError(s@),
        }
    }
}

/// The text shown for an error: a fixed lead for its kind, then its detail.
pub open spec fn error_text(e: CompileToolErrorsView) -> Seq<char> {
    match e {
        CompileToolErrorsView::IOError(s) => "I/O error: "@ + s,
        CompileToolErrorsView::MissingRequiredField(s) => "missing required field: "@ + s,
        CompileToolErrorsView::ConfigParseError(s) => "configuration unreadable: "@ + s,
        CompileToolErrorsView::DirectoryNotFound(s) => "directory not found: "@ + s,
        CompileToolErrorsView::PackagingError(s) => "packaging failed: "@ + s,
        CompileToolErrorsView::PathError(s) => "path error: "@ + s,
    }
}

impl CompileToolErrors {
    /// The text shown to the operator for this error.
    pub fn message(&self) -> (r: String)
        ensures
            r@ == error_text(self@),
    {
        match self {
            CompileToolErrors::IOError(s) => String::from_str("I/O error: ").concat(s.as_str()),
            CompileToolErrors::MissingRequiredField(s) => String::from_str(
                "missing required field: ",
            ).concat(s.as_str()),
            CompileToolErrors::ConfigParseError(s) => String::from_str(
                "configuration unreadable: ",
            ).concat(s.as_str()),
            CompileToolErrors::DirectoryNotFound(s) => String::from_str(
                "directory not found: ",
            ).concat(s.as_str()),
            CompileToolErrors::PackagingError(s) => String::from_str("packaging failed: ").concat(
                s.as_str(),
            ),
            CompileToolErrors::PathError(s) => String::from_str("path error: ").concat(s.as_str()),
        }
    }
}

} // verus!
