use vstd::prelude::*;

use crate::path::PathSpec;
use crate::wix::Tool;

verus! {

#[verifier::external_type_specification]
#[verifier::external_body]
pub struct ExTomlError(toml::de::Error);

#[verifier::external_type_specification]
#[verifier::external_body]
pub struct ExSemverError(semver::Error);

/// Why an installer build stopped.
#[derive(Debug)]
pub enum BuildError {
    /// An application exited unsuccessfully: its name and its exit code
    /// (100 where it gave none).
    Command(&'static str, i32),
    /// The package manifest lacks the named field of its `package` section.
    Manifest(&'static str),
    /// The package manifest is no TOML document.
    Toml(toml::de::Error),
    /// A version is not in the "Major.Minor.Patch" notation.
    Version(semver::Error),
    /// The application could not be started because the system does not find it.
    ToolNotInstalled(Tool),
    /// The application does not exist in the folder given as the WiX Toolset's
    /// `bin` folder; the folder is attached.
    ToolMissingFromBinPath(Tool, PathSpec),
    /// The application does not exist in the `bin` folder under the folder that
    /// the WiX Toolset's environment variable names; that `bin` folder is attached.
    ToolMissingFromEnvironment(Tool, PathSpec),
    /// The WiX localization file does not exist.
    LocaleMissing(PathSpec),
    /// The WiX Source path given is a folder, not a file.
    SourceIsFolder(PathSpec),
    /// The WiX Source file given does not exist.
    SourceMissing(PathSpec),
    /// The default WiX Source file, `wix/main.rs`, does not exist.
    DefaultSourceMissing(PathSpec),
}

/// What a `BuildError` says, with the parsers' own errors left out.
pub enum Failure {
    Command(Seq<char>, i32),
    Manifest(Seq<char>),
    Toml,
    Version,
    ToolNotInstalled(Tool),
    ToolMissingFromBinPath(Tool, Seq<Seq<char>>),
    ToolMissingFromEnvironment(Tool, Seq<Seq<char>>),
    LocaleMissing(Seq<Seq<char>>),
    SourceIsFolder(Seq<Seq<char>>),
    SourceMissing(Seq<Seq<char>>),
    DefaultSourceMissing(Seq<Seq<char>>),
}

impl View for BuildError {
    type V = Failure;

    open spec fn view(&self) -> Failure {
        match self {
            BuildError::Command(app, code) => Failure::Command(app@, *code),
            BuildError::Manifest(field) => Failure::Manifest(field@),
            BuildError::Toml(_) => Failure::Toml,
            BuildError::Version(_) => Failure::Version,
            BuildError::ToolNotInstalled(t) => Failure::ToolNotInstalled(*t),
            BuildError::ToolMissingFromBinPath(t, p) => Failure::ToolMissingFromBinPath(*t, p@),
            BuildError::ToolMissingFromEnvironment(t, p) => Failure::ToolMissingFromEnvironment(
                *t,
                p@,
            ),
            BuildError::LocaleMissing(p) => Failure::LocaleMissing(p@),
            BuildError::SourceIsFolder(p) => Failure::SourceIsFolder(p@),
            BuildError::SourceMissing(p) => Failure::SourceMissing(p@),
            BuildError::DefaultSourceMissing(p) => Failure::DefaultSourceMissing(p@),
        }
    }
}

} // verus!
