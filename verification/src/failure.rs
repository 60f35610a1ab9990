//! The failures that end a command, and the text shown for each.

use crate::text::{append_chars, chars_of, appended, join, joined, string_of, views_of};
use vstd::prelude::*;

verus! {

/// Why a manifest is not usable.
#[derive(Clone, Copy, Debug, PartialEq, Eq, Structural)]
pub enum ConfigFault {
    /// The file is not JSON.
    NotJson,
    /// The document has no `applications` array.
    NoApplicationsArray,
    /// The `applications` array is empty.
    NoApplications,
}

/// A subprocess that did not do its work.
#[derive(Debug, PartialEq, Eq)]
pub enum Subprocess {
    /// The package manager ran and reported failure.
    InstallFailed,
    /// The package manager of this name could not be started.
    InstallNotStarted(String),
    /// `git init` reported failure, with what it wrote to standard error.
    GitInit(String),
}

/// A failure that ends the command with a non-zero exit code.
#[derive(Debug, PartialEq, Eq)]
pub enum Failure {
    /// There is no manifest in the working directory.
    ConfigNotFound,
    /// The manifest cannot be used.
    ConfigInvalid(ConfigFault),
    /// No application answers to the name asked for; `available` lists the
    /// names that the manifest knows.
    ApplicationNotFound { name: String, available: Vec<String> },
    /// Tools are missing and the user chose not to go on.
    ToolchainMissing,
    /// Dependencies are not installed and the user chose not to go on.
    DependenciesMissing,
    /// The working directory already holds a project.
    AlreadyInProject,
    /// The template has no application directory to rename; the field is the
    /// directory as it is shown to the user.
    AppDirMissing(String),
    /// A subprocess failed.
    SubprocessFailed(Subprocess),
    /// The file system or the terminal reported an error, given as text.
    Io(String),
}

/// `Subprocess` over texts.
pub enum SubprocessView {
    InstallFailed,
    InstallNotStarted(Seq<char>),
    GitInit(Seq<char>),
}

/// `Failure` over texts.
pub enum FailureView {
    ConfigNotFound,
    ConfigInvalid(ConfigFault),
    ApplicationNotFound { name: Seq<char>, available: Seq<Seq<char>> },
    ToolchainMissing,
    DependenciesMissing,
    AlreadyInProject,
    AppDirMissing(Seq<char>),
    SubprocessFailed(SubprocessView),
    Io(Seq<char>),
}

impl View for Subprocess {
    type V = SubprocessView;

    open spec fn view(&self) -> SubprocessView {
        match self {
            Subprocess::InstallFailed => SubprocessView::InstallFailed,
            Subprocess::InstallNotStarted(manager) => SubprocessView::InstallNotStarted(manager@),
            Subprocess::GitInit(stderr) => SubprocessView::GitInit(stderr@),
        }
    }
}

impl View for Failure {
    type V = FailureView;

    open spec fn view(&self) -> FailureView {
        match self {
            Failure::ConfigNotFound => FailureView::ConfigNotFound,
            Failure::ConfigInvalid(fault) => FailureView::ConfigInvalid(*fault),
            Failure::ApplicationNotFound { name, available } => FailureView::ApplicationNotFound {
                name: name@,
                available: views_of(available@),
            },
            Failure::ToolchainMissing => FailureView::ToolchainMissing,
            Failure::DependenciesMissing => FailureView::DependenciesMissing,
            Failure::AlreadyInProject => FailureView::AlreadyInProject,
            Failure::AppDirMissing(dir) => FailureView::AppDirMissing(dir@),
            Failure::SubprocessFailed(what) => FailureView::SubprocessFailed(what@),
            Failure::Io(text) => FailureView::Io(text@),
        }
    }
}

impl FailureView {
    /// The text shown for the failure.
    pub open spec fn message(self) -> Seq<char> {
        match self {
            FailureView::ConfigNotFound =>
                "Error: klave.json file not found. Make sure you are in a Klave project directory. Run 'klave create' to start a new project."@,
            FailureView::ConfigInvalid(ConfigFault::NotJson) => "Invalid JSON in klave.json"@,
            FailureView::ConfigInvalid(ConfigFault::NoApplicationsArray) =>
                "Error: Invalid klave.json file structure. 'applications' array not found."@,
            FailureView::ConfigInvalid(ConfigFault::NoApplications) =>
                "Error: No applications found in klave.json"@,
            FailureView::ApplicationNotFound { name, available } =>
                "Error: No application found with name \""@ + name
                    + "\". Available applications: "@ + joined(available, ", "@),
            FailureView::ToolchainMissing => "Build aborted due to missing tools"@,
            FailureView::DependenciesMissing => "Build aborted: dependencies not installed"@,
            FailureView::AlreadyInProject => "Already in a Klave project"@,
            FailureView::AppDirMissing(dir) => "App directory not found: "@ + dir,
            FailureView::SubprocessFailed(SubprocessView::InstallFailed) =>
                "Build aborted: failed to install dependencies"@,
            FailureView::SubprocessFailed(SubprocessView::InstallNotStarted(manager)) =>
                "Failed to run "@ + manager + " install"@,
            FailureView::SubprocessFailed(SubprocessView::GitInit(stderr)) =>
                "Failed to initialize Git repository: "@ + stderr,
            FailureView::Io(text) => text,
        }
    }
}

/// `before`, then `middle`, then `after`.
pub(crate) fn framed(before: &str, middle: &str, after: &str) -> (out: String)
    ensures
        out@ == before@ + middle@ + after@,
{
    let mut acc = chars_of(before);
    let m = chars_of(middle);
    let a = chars_of(after);
    append_chars(&mut acc, &m);
    append_chars(&mut acc, &a);
    string_of(&acc)
}

impl Failure {
    /// The text shown for the failure.
    pub fn message(&self) -> (out: String)
        ensures
            out@ == self@.message(),
    {
        match self {
            Failure::ConfigNotFound =>
                "Error: klave.json file not found. Make sure you are in a Klave project directory. Run 'klave create' to start a new project.".to_owned(),
            Failure::ConfigInvalid(ConfigFault::NotJson) => "Invalid JSON in klave.json".to_owned(),
            Failure::ConfigInvalid(ConfigFault::NoApplicationsArray) =>
                "Error: Invalid klave.json file structure. 'applications' array not found.".to_owned(),
            Failure::ConfigInvalid(ConfigFault::NoApplications) =>
                "Error: No applications found in klave.json".to_owned(),
            Failure::ApplicationNotFound { name, available } => {
                let list = join(available, ", ");
                let head = framed(
                    "Error: No application found with name \"",
                    name.as_str(),
                    "\". Available applications: ",
                );
                appended(head.as_str(), list.as_str())
            },
            Failure::ToolchainMissing => "Build aborted due to missing tools".to_owned(),
            Failure::DependenciesMissing => "Build aborted: dependencies not installed".to_owned(),
            Failure::AlreadyInProject => "Already in a Klave project".to_owned(),
            Failure::AppDirMissing(dir) => appended("App directory not found: ", dir.as_str()),
            Failure::SubprocessFailed(Subprocess::InstallFailed) =>
                "Build aborted: failed to install dependencies".to_owned(),
            Failure::SubprocessFailed(Subprocess::InstallNotStarted(manager)) => framed(
                "Failed to run ",
                manager.as_str(),
                " install",
            ),
            Failure::SubprocessFailed(Subprocess::GitInit(stderr)) => appended(
                "Failed to initialize Git repository: ",
                stderr.as_str(),
            ),
            Failure::Io(text) => text.clone(),
        }
    }
}

} // verus!
