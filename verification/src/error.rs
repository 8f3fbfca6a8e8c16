//! The errors a command can end with, and the text each is reported with.

use vstd::prelude::*;
use vstd::string::StringExecFns;
use crate::text::owned;

verus! {

/// The ways a reconciliation can fail.
#[derive(Debug, Clone, PartialEq, Eq)]
pub enum DotmanError {
    /// A link's source is missing. Reserved: a missing source is skipped, not raised.
    SourceFileNotFound(String),
    /// A filesystem or terminal operation failed; the text is the cause.
    IoError(String),
    /// An action's command exited without success.
    CommandError { name: String, message: String },
    /// Any other failure; the text is the cause.
    GeneralError(String),
    /// A path starts with `~` and the host offers no home directory.
    NoHomeDirectory,
    /// The host reports an operating system that is none of the supported ones.
    UnsupportedHost(String),
}

/// The mathematical value of a [`DotmanError`]: its texts as sequences of characters.
pub enum DotmanErrorView {
    SourceFileNotFound(Seq<char>),
    IoError(Seq<char>),
    CommandError { name: Seq<char>, message: Seq<char> },
    GeneralError(Seq<char>),
    NoHomeDirectory,
    UnsupportedHost(Seq<char>),
}

impl View for DotmanError {
    type V = DotmanErrorView;

    open spec fn view(&self) -> DotmanErrorView {
        match *self {
            DotmanError::SourceFileNotFound(source) => DotmanErrorView::SourceFileNotFound(source@),
            DotmanError::IoError(cause) => DotmanErrorView::IoError(cause@),
            DotmanError::CommandError { name, message } => DotmanErrorView::CommandError {
                name: name@,
                message: message@,
            },
            DotmanError::GeneralError(cause) => DotmanErrorView::GeneralError(cause@),
            DotmanError::NoHomeDirectory => DotmanErrorView::NoHomeDirectory,
            DotmanError::UnsupportedHost(os) => DotmanErrorView::UnsupportedHost(os@),
        }
    }
}

impl DotmanErrorView {
    /// The text the error is reported with.
    pub open spec fn message(self) -> Seq<char> {
        match self {
            DotmanErrorView::SourceFileNotFound(source) => "Source file not found: "@ + source,
            DotmanErrorView::IoError(cause) => "I/O error: "@ + cause,
            DotmanErrorView::CommandError { name, message } => "Command '"@ + name + "' failed: "@
                + message,
            DotmanErrorView::GeneralError(cause) => "General error: "@ + cause,
            DotmanErrorView::NoHomeDirectory => "Home directory not found"@,
            DotmanErrorView::UnsupportedHost(os) => "Unsupported operating system '"@ + os
                + "' for Dotman."@,
        }
    }
}

impl DotmanError {
    /// The text the error is reported with.
    pub fn message(&self) -> (text: String)
        ensures
            text@ == self@.message(),
    {
        match self {
            DotmanError::SourceFileNotFound(source) => owned("Source file not found: ").concat(
                source.as_str(),
            ),
            DotmanError::IoError(cause) => owned("I/O error: ").concat(cause.as_str()),
            DotmanError::CommandError { name, message } => owned("Command '").concat(
                name.as_str(),
            ).concat("' failed: ").concat(message.as_str()),
            DotmanError::GeneralError(cause) => owned("General error: ").concat(cause.as_str()),
            DotmanError::NoHomeDirectory => owned("Home directory not found"),
            DotmanError::UnsupportedHost(os) => owned("Unsupported operating system '").concat(
                os.as_str(),
            ).concat("' for Dotman."),
        }
    }
}

impl From<String> for DotmanError {
    /// A bare message stands for a failed operation on the filesystem.
    fn from(message: String) -> (error: DotmanError) {
        DotmanError::IoError(message)
    }
}

impl vstd::std_specs::convert::FromSpecImpl<String> for DotmanError {
    open spec fn obeys_from_spec() -> bool {
        true
    }

    open spec fn from_spec(message: String) -> DotmanError {
        DotmanError::IoError(message)
    }
}

/// The ways loading a configuration file can fail. Each carries the file's
/// path; the last two carry the cause as text.
#[derive(Debug, Clone, PartialEq, Eq)]
pub enum DotmanConfigError {
    ConfigFileDoesNotExist(String),
    ConfigFileReadError(String, String),
    ConfigFileParseError(String, String),
}

/// The mathematical value of a [`DotmanConfigError`]: its texts as sequences of characters.
pub enum DotmanConfigErrorView {
    ConfigFileDoesNotExist(Seq<char>),
    ConfigFileReadError(Seq<char>, Seq<char>),
    ConfigFileParseError(Seq<char>, Seq<char>),
}

impl View for DotmanConfigError {
    type V = DotmanConfigErrorView;

    open spec fn view(&self) -> DotmanConfigErrorView {
        match *self {
            DotmanConfigError::ConfigFileDoesNotExist(path) => {
                DotmanConfigErrorView::ConfigFileDoesNotExist(path@)
            },
            DotmanConfigError::ConfigFileReadError(path, cause) => {
                DotmanConfigErrorView::ConfigFileReadError(path@, cause@)
            },
            DotmanConfigError::ConfigFileParseError(path, cause) => {
                DotmanConfigErrorView::ConfigFileParseError(path@, cause@)
            },
        }
    }
}

impl DotmanConfigErrorView {
    /// The text the error is reported with.
    pub open spec fn message(self) -> Seq<char> {
        match self {
            DotmanConfigErrorView::ConfigFileDoesNotExist(path) => {
                "Configuration file does not exist: "@ + path
            },
            DotmanConfigErrorView::ConfigFileReadError(path, cause) => {
                "Failed to read configuration file '"@ + path + "': "@ + cause
            },
            DotmanConfigErrorView::ConfigFileParseError(path, cause) => {
                "Failed to parse configuration file '"@ + path + "': "@ + cause
            },
        }
    }
}

impl DotmanConfigError {
    /// The text the error is reported with.
    pub fn message(&self) -> (text: String)
        ensures
            text@ == self@.message(),
    {
        match self {
            DotmanConfigError::ConfigFileDoesNotExist(path) => owned(
                "Configuration file does not exist: ",
            ).concat(path.as_str()),
            DotmanConfigError::ConfigFileReadError(path, cause) => owned(
                "Failed to read configuration file '",
            ).concat(path.as_str()).concat("': ").concat(cause.as_str()),
            DotmanConfigError::ConfigFileParseError(path, cause) => owned(
                "Failed to parse configuration file '",
            ).concat(path.as_str()).concat("': ").concat(cause.as_str()),
        }
    }
}

} // verus!
