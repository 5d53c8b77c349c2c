//! The ways in which a run can fail.

use crate::text::{signed_decimal, signed_decimal_text};
use vstd::prelude::*;
use vstd::std_specs::convert::FromSpecImpl;

verus! {

/// The standard library's I/O error. It is carried through untouched: the
/// library never looks inside one.
#[verifier::external_type_specification]
#[verifier::external_body]
pub struct ExIoError(std::io::Error);

/// The error of the `config` crate's loader. It is carried through untouched.
#[verifier::external_type_specification]
#[verifier::external_body]
pub struct ExConfigError(config::ConfigError);

/// Why a step of the build itself failed.
#[derive(Debug)]
pub enum Cause {
    /// The operating system refused: a tool could not be started, its output
    /// could not be read, it could not be awaited, or a file could not be
    /// copied.
    Io(std::io::Error),
    /// The tool ran and reported failure. `code` is its exit code, where it
    /// left one.
    Status { code: Option<i32> },
}

/// A fatal error of a run.
#[derive(Debug)]
pub enum BuilderErr {
    /// The process lacks the rights to change system paths.
    NoPrivileges,
    /// The canonical kernel configuration is absent or not a regular file.
    KernelConfigMissing,
    /// A stage was asked for whose option the configuration does not set.
    KernelConfigMissingOption(String),
    /// Resolving new configuration symbols to their defaults failed.
    KernelConfigUpdateError,
    /// Building, installing or rotating an artifact failed.
    KernelBuildFail(Cause),
    /// Reading, removing or creating a link failed, or backing up or
    /// promoting the configuration.
    LinkingFileError(std::io::Error),
    /// The interactive configuration tool did not start or did not end well.
    MenuconfigError,
    /// The builder's own settings could not be loaded.
    ConfigError(config::ConfigError),
    /// A prompt could not be shown or read.
    PromptError(std::io::Error),
}

/// A [`BuilderErr`] as contracts see it: the same cases, with text as a
/// sequence of characters.
pub enum Failure {
    NoPrivileges,
    KernelConfigMissing,
    KernelConfigMissingOption(Seq<char>),
    KernelConfigUpdateError,
    KernelBuildFail(Cause),
    LinkingFileError(std::io::Error),
    MenuconfigError,
    ConfigError(config::ConfigError),
    PromptError(std::io::Error),
}

impl View for BuilderErr {
    type V = Failure;

    open spec fn view(&self) -> Failure {
        match *self {
            BuilderErr::NoPrivileges => Failure::NoPrivileges,
            BuilderErr::KernelConfigMissing => Failure::KernelConfigMissing,
            BuilderErr::KernelConfigMissingOption(name) => Failure::KernelConfigMissingOption(
                name@,
            ),
            BuilderErr::KernelConfigUpdateError => Failure::KernelConfigUpdateError,
            BuilderErr::KernelBuildFail(cause) => Failure::KernelBuildFail(cause),
            BuilderErr::LinkingFileError(e) => Failure::LinkingFileError(e),
            BuilderErr::MenuconfigError => Failure::MenuconfigError,
            BuilderErr::ConfigError(e) => Failure::ConfigError(e),
            BuilderErr::PromptError(e) => Failure::PromptError(e),
        }
    }
}

/// What an I/O error says of itself, by its `Display` in the standard
/// library. Nothing is claimed of the text.
#[verifier::external_body]
fn io_text(e: &std::io::Error) -> (text: String) {
    e.to_string()
}

/// What an error of the `config` crate says of itself, by its `Display`.
/// Nothing is claimed of the text.
#[verifier::external_body]
fn config_text(e: &config::ConfigError) -> (text: String) {
    e.to_string()
}

impl Cause {
    /// What the cause reads as, where that is known: the exit code of a
    /// tool. What an I/O error says is up to the operating system.
    pub open spec fn text(&self) -> Option<Seq<char>> {
        match *self {
            Cause::Io(_) => None,
            Cause::Status { code: Some(code) } => Some("exit code "@ + signed_decimal(code as int)),
            Cause::Status { code: None } => Some("ended by a signal"@),
        }
    }

    /// What the cause reads as.
    pub fn describe(&self) -> (words: String)
        ensures
            self.text() matches Some(text) ==> words@ == text,
    {
        match self {
            Cause::Io(e) => io_text(e),
            Cause::Status { code: Some(code) } => String::from_str("exit code ").concat(
                signed_decimal_text(*code).as_str(),
            ),
            Cause::Status { code: None } => String::from_str("ended by a signal"),
        }
    }
}

impl BuilderErr {
    /// What the message of the error begins with: all of the message for
    /// an error without a cause, and what precedes the cause for the
    /// others.
    pub open spec fn headline(&self) -> Seq<char> {
        match *self {
            BuilderErr::NoPrivileges => "Error retrieving root privileges"@,
            BuilderErr::KernelConfigMissing => "Missing kernel configuration file"@,
            BuilderErr::KernelConfigMissingOption(_) =>
                "Missing option in kernel configuration file: "@,
            BuilderErr::KernelConfigUpdateError => "Updating the kernel configuration failed"@,
            BuilderErr::KernelBuildFail(_) => "Error building kernel: "@,
            BuilderErr::LinkingFileError(_) => "Symlinking file failed: "@,
            BuilderErr::MenuconfigError => "Configuring the kernel failed"@,
            BuilderErr::ConfigError(_) => "Could not parse config file: "@,
            BuilderErr::PromptError(_) => "Could not create prompt: "@,
        }
    }

    /// What follows the headline in the message, where that is known.
    pub open spec fn detail(&self) -> Option<Seq<char>> {
        match *self {
            BuilderErr::NoPrivileges => Some(Seq::empty()),
            BuilderErr::KernelConfigMissing => Some(Seq::empty()),
            BuilderErr::KernelConfigMissingOption(name) => Some(name@),
            BuilderErr::KernelConfigUpdateError => Some(Seq::empty()),
            BuilderErr::KernelBuildFail(cause) => cause.text(),
            BuilderErr::LinkingFileError(_) => None,
            BuilderErr::MenuconfigError => Some(Seq::empty()),
            BuilderErr::ConfigError(_) => None,
            BuilderErr::PromptError(_) => None,
        }
    }

    /// The message of the error: its headline, then its cause.
    pub fn message(&self) -> (words: String)
        ensures
            self.headline().is_prefix_of(words@),
            self.detail() matches Some(detail) ==> words@ == self.headline() + detail,
    {
        let words = match self {
            BuilderErr::NoPrivileges => String::from_str("Error retrieving root privileges"),
            BuilderErr::KernelConfigMissing => String::from_str(
                "Missing kernel configuration file",
            ),
            BuilderErr::KernelConfigMissingOption(name) => String::from_str(
                "Missing option in kernel configuration file: ",
            ).concat(name.as_str()),
            BuilderErr::KernelConfigUpdateError => String::from_str(
                "Updating the kernel configuration failed",
            ),
            BuilderErr::KernelBuildFail(cause) => String::from_str(
                "Error building kernel: ",
            ).concat(cause.describe().as_str()),
            BuilderErr::LinkingFileError(e) => String::from_str(
                "Symlinking file failed: ",
            ).concat(io_text(e).as_str()),
            BuilderErr::MenuconfigError => String::from_str("Configuring the kernel failed"),
            BuilderErr::ConfigError(e) => String::from_str(
                "Could not parse config file: ",
            ).concat(config_text(e).as_str()),
            BuilderErr::PromptError(e) => String::from_str("Could not create prompt: ").concat(
                io_text(e).as_str(),
            ),
        };
        assert(self.headline().is_prefix_of(words@)) by {
            assert(words@.subrange(0, self.headline().len() as int) =~= self.headline());
        }
        assert(self.detail() matches Some(detail) ==> words@ =~= self.headline() + detail);
        words
    }
}

impl From<config::ConfigError> for BuilderErr {
    fn from(e: config::ConfigError) -> (err: BuilderErr) {
        BuilderErr::ConfigError(e)
    }
}

impl FromSpecImpl<config::ConfigError> for BuilderErr {
    open spec fn obeys_from_spec() -> bool {
        true
    }

    open spec fn from_spec(e: config::ConfigError) -> BuilderErr {
        BuilderErr::ConfigError(e)
    }
}

} // verus!
