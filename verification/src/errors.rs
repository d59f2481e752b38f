//! The ways a command can fail.

use vstd::prelude::*;

verus! {

/// Why a command gave up.
#[derive(Debug, Clone, PartialEq, Eq)]
pub enum CliError {
    /// A request to the template's remote source could not be completed; the
    /// text says why.
    ReqwestError(String),
    /// The remote source answered, but not with a commit fingerprint.
    MalformedResponse,
    /// The directory a project was to be created in already holds something.
    ProjectDirFull(String),
    /// The file system, or the template archive, could not be read or
    /// written; the text says why.
    IoError(String),
    /// No name was given for the project, and the path of its directory
    /// ends in none.
    NoProjectName(String),
}

/// A [`CliError`] with its texts as character sequences.
pub enum CliErrorView {
    ReqwestError(Seq<char>),
    MalformedResponse,
    ProjectDirFull(Seq<char>),
    IoError(Seq<char>),
    NoProjectName(Seq<char>),
}

impl View for CliError {
    type V = CliErrorView;

    open spec fn view(&self) -> CliErrorView {
        match self {
            CliError::ReqwestError(reason) => CliErrorView::ReqwestError(reason@),
            CliError::MalformedResponse => CliErrorView::MalformedResponse,
            CliError::ProjectDirFull(dir) => CliErrorView::ProjectDirFull(dir@),
            CliError::IoError(reason) => CliErrorView::IoError(reason@),
            CliError::NoProjectName(dir) => CliErrorView::NoProjectName(dir@),
        }
    }
}

impl CliError {
    /// The message shown to the user.
    pub open spec fn message_text(self) -> Seq<char> {
        match self {
            CliError::ReqwestError(reason) => "request failed: "@ + reason@,
            CliError::MalformedResponse => "malformed response from the template source"@,
            CliError::ProjectDirFull(dir) => "project directory is not empty: "@ + dir@,
            CliError::IoError(reason) => "file system error: "@ + reason@,
            CliError::NoProjectName(dir) => "no name for the project in: "@ + dir@,
        }
    }

    /// The message shown to the user.
    pub fn message(&self) -> (text: String)
        ensures
            text@ == self.message_text(),
    {
        match self {
            CliError::ReqwestError(reason) => {
                let mut text = "request failed: ".to_string();
                text.append(reason.as_str());
                text
            },
            CliError::MalformedResponse => "malformed response from the template source".to_string(),
            CliError::ProjectDirFull(dir) => {
                let mut text = "project directory is not empty: ".to_string();
                text.append(dir.as_str());
                text
            },
            CliError::IoError(reason) => {
                let mut text = "file system error: ".to_string();
                text.append(reason.as_str());
                text
            },
            CliError::NoProjectName(dir) => {
                let mut text = "no name for the project in: ".to_string();
                text.append(dir.as_str());
                text
            },
        }
    }
}

} // verus!
