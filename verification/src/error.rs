//! What can go wrong between reading the settings and finishing a commit.

use vstd::prelude::*;

verus! {

/// The error of std's `String::from_utf8`, carried through as it came.
#[verifier::external_type_specification]
#[verifier::external_body]
pub struct ExFromUtf8Error(std::string::FromUtf8Error);

/// Why a settings record was turned down.
#[derive(Debug, PartialEq, Eq)]
pub enum ConfigFault {
    /// The API key is the empty string.
    EmptyApiKey,
    /// The number of suggestions lies outside its bounds.
    Suggestions,
    /// The token limit lies outside its bounds.
    MaxTokens,
    /// The settings name a model that does not exist; the text is the name.
    Model(String),
    /// The settings source is missing or unreadable; the text says how.
    Source(String),
}

/// Every failure of the pipeline. All are fatal but `GitCommit`, after
/// which the operator is asked again.
#[derive(Debug, PartialEq, Eq)]
pub enum Error {
    /// The completion request could not be put together.
    ChatCompletionBuilder(String),
    /// The version-control tool could not be started.
    CommandError(String),
    /// The settings are missing, unreadable or out of bounds.
    Config(ConfigFault),
    /// Nothing is staged.
    EmptyDiff,
    /// The operator's pick names no candidate.
    EmptySelection,
    /// The completion service answered with a failure; the text is its body.
    FetchData(String),
    /// The diff is not valid UTF-8.
    FromUtf8(std::string::FromUtf8Error),
    /// The commit command exited with a failure.
    GitCommit,
    /// The diff command exited with a failure.
    GitDiff,
}

/// A [`ConfigFault`] with its text as a sequence of characters.
pub enum ConfigFaultView {
    EmptyApiKey,
    Suggestions,
    MaxTokens,
    Model(Seq<char>),
    Source(Seq<char>),
}

/// An [`Error`] with its texts as sequences of characters. The decoding
/// error of std is opaque and leaves no trace here.
pub enum ErrorView {
    ChatCompletionBuilder(Seq<char>),
    CommandError(Seq<char>),
    Config(ConfigFaultView),
    EmptyDiff,
    EmptySelection,
    FetchData(Seq<char>),
    FromUtf8,
    GitCommit,
    GitDiff,
}

impl View for ConfigFault {
    type V = ConfigFaultView;

    open spec fn view(&self) -> ConfigFaultView {
        match self {
            ConfigFault::EmptyApiKey => ConfigFaultView::EmptyApiKey,
            ConfigFault::Suggestions => ConfigFaultView::Suggestions,
            ConfigFault::MaxTokens => ConfigFaultView::MaxTokens,
            ConfigFault::Model(name) => ConfigFaultView::Model(name@),
            ConfigFault::Source(text) => ConfigFaultView::Source(text@),
        }
    }
}

impl View for Error {
    type V = ErrorView;

    open spec fn view(&self) -> ErrorView {
        match self {
            Error::ChatCompletionBuilder(text) => ErrorView::ChatCompletionBuilder(text@),
            Error::CommandError(text) => ErrorView::CommandError(text@),
            Error::Config(fault) => ErrorView::Config(fault@),
            Error::EmptyDiff => ErrorView::EmptyDiff,
            Error::EmptySelection => ErrorView::EmptySelection,
            Error::FetchData(body) => ErrorView::FetchData(body@),
            Error::FromUtf8(_) => ErrorView::FromUtf8,
            Error::GitCommit => ErrorView::GitCommit,
            Error::GitDiff => ErrorView::GitDiff,
        }
    }
}

} // verus!
