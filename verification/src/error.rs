//! The failures that the library reports.

use vstd::prelude::*;
use vstd::string::StringExecFns;

verus! {

/// A stretch of the command line, by the offsets of its first character and
/// of the character after its last.
#[derive(Clone, Copy, Debug, PartialEq, Eq, Structural)]
pub struct Span {
    pub start: usize,
    pub end: usize,
}

/// Which argument an [`ArgumentError::Type`] speaks of.
#[derive(Clone, Copy, Debug, PartialEq, Eq, Structural)]
pub enum Place {
    /// The value of the `kubeconfig` option.
    Kubeconfig,
    /// The positional argument at this index, counted from zero.
    Positional(usize),
}

/// Why the arguments of a call could not be taken.
#[derive(Clone, Copy, Debug, PartialEq, Eq, Structural)]
pub enum ArgumentError {
    /// An argument that has to be a string holds something else.
    Type { place: Place, span: Span },
    /// Neither the `kubeconfig` option, nor `KUBECONFIG`, nor `HOME` says
    /// where the configuration file is.
    PathResolution,
}

/// Why a configuration file could not be shown.
#[derive(Debug, PartialEq)]
pub enum ConfigError {
    /// The file at this path could not be opened.
    Unreadable(String),
    /// The file was opened but does not hold a kubeconfig; the text is the
    /// parser's own diagnostic.
    Malformed(String),
}

/// The mathematical content of a [`ConfigError`].
pub enum ConfigErrorView {
    Unreadable(Seq<char>),
    Malformed(Seq<char>),
}

impl View for ConfigError {
    type V = ConfigErrorView;

    open spec fn view(&self) -> ConfigErrorView {
        match self {
            ConfigError::Unreadable(path) => ConfigErrorView::Unreadable(path@),
            ConfigError::Malformed(details) => ConfigErrorView::Malformed(details@),
        }
    }
}

impl ConfigErrorView {
    /// The text shown for the error: for an unreadable file a fixed sentence
    /// followed by the path, for a malformed one the parser's diagnostic as
    /// it came.
    pub open spec fn message(self) -> Seq<char> {
        match self {
            ConfigErrorView::Unreadable(path) => "Failed to open config file "@ + path,
            ConfigErrorView::Malformed(details) => details,
        }
    }
}

impl ConfigError {
    /// The text shown for the error.
    pub fn message(&self) -> (text: String)
        ensures
            text@ == self@.message(),
    {
        match self {
            ConfigError::Unreadable(path) => {
                let mut text = String::from_str("Failed to open config file ");
                text.append(path.as_str());
                text
            },
            ConfigError::Malformed(details) => details.clone(),
        }
    }
}

} // verus!
