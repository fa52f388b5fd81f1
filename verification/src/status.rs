//! How far a component is installed, and why a check or an installation
//! gave up.

use vstd::prelude::*;
use vstd::std_specs::convert::FromSpecImpl;
use vstd::string::StringExecFns;
use crate::command::{output_text, CommandError, Output};

verus! {

/// How far a component is installed on the machine.
#[derive(Debug, Clone, Copy, PartialEq, Eq, Structural)]
pub enum InstallationStatus {
    FullyInstalled,
    PartialInstall,
    NotInstalled,
}

/// What was found of a configuration file.
#[derive(Debug, Clone, Copy, PartialEq, Eq, Structural)]
pub enum ConfigStatus {
    NotPresent,
    PresentIncorrect,
    PresentCorrect,
}

impl Default for ConfigStatus {
    fn default() -> (status: Self)
        ensures
            status == ConfigStatus::NotPresent,
    {
        ConfigStatus::NotPresent
    }
}

impl ConfigStatus {
    /// The status of a file that is there or not, and holds what it should
    /// or not. Of a file that is not there, what it holds does not count.
    pub fn of(is_present: bool, is_correct: bool) -> (status: Self)
        ensures
            status == (if !is_present {
                ConfigStatus::NotPresent
            } else if is_correct {
                ConfigStatus::PresentCorrect
            } else {
                ConfigStatus::PresentIncorrect
            }),
    {
        match (is_present, is_correct) {
            (false, _) => ConfigStatus::NotPresent,
            (true, false) => ConfigStatus::PresentIncorrect,
            (true, true) => ConfigStatus::PresentCorrect,
        }
    }

    /// Whether the file is there and holds what it should.
    pub fn is_correct(self) -> (correct: bool)
        ensures
            correct == (self is PresentCorrect),
    {
        matches!(self, ConfigStatus::PresentCorrect)
    }
}

/// Whether a component can be installed on the machine.
#[derive(Debug)]
pub enum Installable {
    AlreadyInstalled,
    MissingDependency,
    InvalidOS,
    Other(String),
    Unknown,
}

/// Why a check or an installation gave up.
#[derive(Debug)]
pub enum DependencyError {
    Unknown,
    NotInstalled,
    UnsupportedOperatingSystem,
    /// A file or a command could not be reached; the text says why.
    IoError(String),
    /// What is required is missing or could not be installed.
    DependencyFailed(String),
    /// A text was no UTF-8; the text says where.
    Utf8Error(String),
    CommandError(Output),
}

/// An error as one text.
pub open spec fn error_text(e: DependencyError) -> Seq<char> {
    match e {
        DependencyError::Unknown => "Unknown error"@,
        DependencyError::NotInstalled => "Dependency not installed"@,
        DependencyError::UnsupportedOperatingSystem => "Unsupported operating system"@,
        DependencyError::IoError(why) => "IO error: "@ + why@,
        DependencyError::DependencyFailed(what) => {
            "Missing or unable to install required dependency: "@ + what@
        },
        DependencyError::Utf8Error(why) => "UTF-8 error: "@ + why@,
        DependencyError::CommandError(output) => "Command error: "@ + output_text(
            output.success,
            output.stdout@,
            output.stderr@,
        ),
    }
}

impl Clone for DependencyError {
    fn clone(&self) -> (copy: Self)
        ensures
            copy == *self,
    {
        match self {
            DependencyError::Unknown => DependencyError::Unknown,
            DependencyError::NotInstalled => DependencyError::NotInstalled,
            DependencyError::UnsupportedOperatingSystem => {
                DependencyError::UnsupportedOperatingSystem
            },
            DependencyError::IoError(why) => DependencyError::IoError(why.clone()),
            DependencyError::DependencyFailed(what) => DependencyError::DependencyFailed(
                what.clone(),
            ),
            DependencyError::Utf8Error(why) => DependencyError::Utf8Error(why.clone()),
            DependencyError::CommandError(output) => DependencyError::CommandError(
                output.clone(),
            ),
        }
    }
}

impl DependencyError {
    /// The error as one text.
    pub fn message(&self) -> (text: String)
        ensures
            text@ == error_text(*self),
    {
        match self {
            DependencyError::Unknown => String::from_str("Unknown error"),
            DependencyError::NotInstalled => String::from_str("Dependency not installed"),
            DependencyError::UnsupportedOperatingSystem => String::from_str(
                "Unsupported operating system",
            ),
            DependencyError::IoError(why) => {
                let mut text = String::from_str("IO error: ");
                text.append(why.as_str());
                text
            },
            DependencyError::DependencyFailed(what) => {
                let mut text = String::from_str(
                    "Missing or unable to install required dependency: ",
                );
                text.append(what.as_str());
                text
            },
            DependencyError::Utf8Error(why) => {
                let mut text = String::from_str("UTF-8 error: ");
                text.append(why.as_str());
                text
            },
            DependencyError::CommandError(output) => {
                let mut text = String::from_str("Command error: ");
                text.append(output.message().as_str());
                text
            },
        }
    }
}

/// The error of a check or an installation that a command's error makes.
pub open spec fn of_command_error(e: CommandError) -> DependencyError {
    match e {
        CommandError::IoError(why) => DependencyError::IoError(why),
        CommandError::Utf8Error(why) => DependencyError::Utf8Error(why),
        CommandError::CommandFailed(output) => DependencyError::CommandError(output),
    }
}

impl DependencyError {
    /// The error of a check or an installation that a command's error
    /// makes: the same kind, with what the command's error held.
    pub fn of(e: CommandError) -> (r: Self)
        ensures
            r == of_command_error(e),
    {
        match e {
            CommandError::IoError(why) => DependencyError::IoError(why),
            CommandError::Utf8Error(why) => DependencyError::Utf8Error(why),
            CommandError::CommandFailed(output) => DependencyError::CommandError(output),
        }
    }
}

impl From<CommandError> for DependencyError {
    fn from(e: CommandError) -> (r: Self) {
        DependencyError::of(e)
    }
}

impl FromSpecImpl<CommandError> for DependencyError {
    open spec fn obeys_from_spec() -> bool {
        true
    }

    open spec fn from_spec(e: CommandError) -> Self {
        of_command_error(e)
    }
}

/// What came of a command, with the error that it ended in, if it did.
#[derive(Debug)]
pub struct CommandResult {
    pub success: bool,
    pub error: Option<DependencyError>,
    pub stdout: String,
    pub stderr: String,
}

} // verus!
