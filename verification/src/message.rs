use vstd::prelude::*;

use crate::error::{BuildError, Failure};
use crate::path::PathSpec;
use crate::wix::{spec_tool_name, Tool, BINARY_FOLDER_NAME, WIX_PATH_KEY};

verus! {

/// The opening of a message about the compiler that cannot be started or found.
pub const COMPILER_OPEN: &'static str = "The compiler application (";
/// The opening of a message about the linker that cannot be started or found.
pub const LINKER_OPEN: &'static str = "The linker application (";
/// Between the application and its folder, where the system does not find it.
pub const NOT_FOUND_MIDDLE: &'static str =
    ") could not be found in the PATH environment variable. Please check the WiX Toolset (http://wixtoolset.org/) is installed and check the WiX Toolset's '";
/// After the folder, where the system does not find the compiler.
pub const COMPILER_NOT_FOUND_FOLDER: &'static str =
    "' folder has been added to the PATH system environment variable, the ";
/// After the folder, where the system does not find the linker.
pub const LINKER_NOT_FOUND_FOLDER: &'static str =
    "' folder has been added to the PATH environment variable, the ";
/// The end of a message about an application that the system does not find.
pub const NOT_FOUND_END: &'static str =
    " system environment variable exists, or use the '-B,--bin-path' command line argument.";
/// Between the application and the folder, where its file does not exist.
pub const MISSING_MIDDLE: &'static str = "') does not exist at the '";
/// The end of a message about the compiler missing from the `bin` folder set.
pub const COMPILER_MISSING_FROM_BIN_PATH: &'static str =
    "' path specified via the '-B, --bin-path' command line argument. Please check the path is correct and the compiler application exists at the path.";
/// The end of a message about the linker missing from the `bin` folder set.
pub const LINKER_MISSING_FROM_BIN_PATH: &'static str =
    "' path specified via the '-B,--bin-path' command line argument. Please check the path is correct and the linker application exists at the path.";
/// Between the folder and the variable, where the application's file does not exist.
pub const MISSING_FROM_ENVIRONMENT: &'static str = "' path specified via the ";
/// The end of a message about the compiler missing from the environment's folder.
pub const COMPILER_MISSING_END: &'static str =
    " environment variable. Please check the path is correct and the compiler application exists at the path.";
/// The end of a message about the linker missing from the environment's folder.
pub const LINKER_MISSING_END: &'static str =
    " environment variable. Please check the path is correct and the linker application exists at the path.";
/// The opening of a message that quotes a name or a path.
pub const QUOTE_OPEN: &'static str = "The '";
/// After the localization file that does not exist.
pub const LOCALE_MISSING: &'static str =
    "' WiX localization file could not be found, or it does not exist. Please check the path is correct and the file exists.";
/// After a WiX Source path that is a folder.
pub const SOURCE_IS_FOLDER: &'static str =
    "' path is not a file. Please check the path and ensure it is to a WiX Source (wxs) file.";
/// After a WiX Source file set that does not exist, before it is named again.
pub const SOURCE_MISSING: &'static str =
    "' file does not exist. Consider using the 'cargo wix --print-template WXS > ";
/// The end of a message about a WiX Source file set that does not exist.
pub const SOURCE_MISSING_END: &'static str = "' command to create it.";
/// After the default WiX Source file that does not exist.
pub const DEFAULT_SOURCE_MISSING: &'static str =
    "' file does not exist. Consider using the 'cargo wix --init' command to create it.";
/// After an application that failed, before its exit code.
pub const COMMAND_FAILED: &'static str = "' application failed with exit code = ";
/// The end of a message about an application that failed.
pub const COMMAND_FAILED_END: &'static str =
    ". Consider using the '--nocapture' flag to obtain more information.";
/// The opening of a message about a field missing from the manifest.
pub const MANIFEST_OPEN: &'static str = "No '";
/// The end of a message about a field missing from the manifest.
pub const MANIFEST_END: &'static str = "' field found in the package's manifest (Cargo.toml)";

/// One piece of an error's message.
#[derive(Debug)]
pub enum MessagePart {
    /// Text as it stands.
    Text(String),
    /// A path, in the platform's display form.
    Path(PathSpec),
    /// A number, in decimal.
    Number(i32),
    /// The TOML or semver parser's own description of the error.
    Cause,
}

pub enum PartView {
    Text(Seq<char>),
    Path(Seq<Seq<char>>),
    Number(i32),
    Cause,
}

impl View for MessagePart {
    type V = PartView;

    open spec fn view(&self) -> PartView {
        match self {
            MessagePart::Text(s) => PartView::Text(s@),
            MessagePart::Path(p) => PartView::Path(p@),
            MessagePart::Number(n) => PartView::Number(*n),
            MessagePart::Cause => PartView::Cause,
        }
    }
}

pub open spec fn tool_open(t: Tool) -> Seq<char> {
    match t {
        Tool::Compiler => COMPILER_OPEN@,
        Tool::Linker => LINKER_OPEN@,
    }
}

pub open spec fn not_found_folder(t: Tool) -> Seq<char> {
    match t {
        Tool::Compiler => COMPILER_NOT_FOUND_FOLDER@,
        Tool::Linker => LINKER_NOT_FOUND_FOLDER@,
    }
}

pub open spec fn missing_from_bin_path(t: Tool) -> Seq<char> {
    match t {
        Tool::Compiler => COMPILER_MISSING_FROM_BIN_PATH@,
        Tool::Linker => LINKER_MISSING_FROM_BIN_PATH@,
    }
}

pub open spec fn missing_end(t: Tool) -> Seq<char> {
    match t {
        Tool::Compiler => COMPILER_MISSING_END@,
        Tool::Linker => LINKER_MISSING_END@,
    }
}

/// The message that tells a user why a build stopped, piece by piece.
pub open spec fn spec_message(f: Failure) -> Seq<PartView> {
    match f {
        Failure::Command(app, code) => seq![
            PartView::Text(QUOTE_OPEN@),
            PartView::Text(app),
            PartView::Text(COMMAND_FAILED@),
            PartView::Number(code),
            PartView::Text(COMMAND_FAILED_END@),
        ],
        Failure::Manifest(field) => seq![
            PartView::Text(MANIFEST_OPEN@),
            PartView::Text(field),
            PartView::Text(MANIFEST_END@),
        ],
        Failure::Toml => seq![PartView::Cause],
        Failure::Version => seq![PartView::Cause],
        Failure::ToolNotInstalled(t) => seq![
            PartView::Text(tool_open(t)),
            PartView::Text(spec_tool_name(t)),
            PartView::Text(NOT_FOUND_MIDDLE@),
            PartView::Text(BINARY_FOLDER_NAME@),
            PartView::Text(not_found_folder(t)),
            PartView::Text(WIX_PATH_KEY@),
            PartView::Text(NOT_FOUND_END@),
        ],
        Failure::ToolMissingFromBinPath(t, p) => seq![
            PartView::Text(tool_open(t) + "'"@),
            PartView::Text(spec_tool_name(t)),
            PartView::Text(MISSING_MIDDLE@),
            PartView::Path(p),
            PartView::Text(missing_from_bin_path(t)),
        ],
        Failure::ToolMissingFromEnvironment(t, p) => seq![
            PartView::Text(tool_open(t) + "'"@),
            PartView::Text(spec_tool_name(t)),
            PartView::Text(MISSING_MIDDLE@),
            PartView::Path(p),
            PartView::Text(MISSING_FROM_ENVIRONMENT@),
            PartView::Text(WIX_PATH_KEY@),
            PartView::Text(missing_end(t)),
        ],
        Failure::LocaleMissing(p) => seq![
            PartView::Text(QUOTE_OPEN@),
            PartView::Path(p),
            PartView::Text(LOCALE_MISSING@),
        ],
        Failure::SourceIsFolder(p) => seq![
            PartView::Text(QUOTE_OPEN@),
            PartView::Path(p),
            PartView::Text(SOURCE_IS_FOLDER@),
        ],
        Failure::SourceMissing(p) => seq![
            PartView::Text(QUOTE_OPEN@),
            PartView::Path(p),
            PartView::Text(SOURCE_MISSING@),
            PartView::Path(p),
            PartView::Text(SOURCE_MISSING_END@),
        ],
        Failure::DefaultSourceMissing(p) => seq![
            PartView::Text(QUOTE_OPEN@),
            PartView::Path(p),
            PartView::Text(DEFAULT_SOURCE_MISSING@),
        ],
    }
}

fn text(s: &str) -> (r: MessagePart)
    ensures
        r@ == PartView::Text(s@),
{
    MessagePart::Text(s.to_owned())
}

fn tool_open_text(t: Tool, quoted: bool) -> (r: MessagePart)
    ensures
        r@ == PartView::Text(
            if quoted {
                tool_open(t) + "'"@
            } else {
                tool_open(t)
            },
        ),
{
    let mut s = match t {
        Tool::Compiler => COMPILER_OPEN.to_owned(),
        Tool::Linker => LINKER_OPEN.to_owned(),
    };
    if quoted {
        s.append("'");
    }
    MessagePart::Text(s)
}

fn pick(t: Tool, compiler: &'static str, linker: &'static str) -> (r: &'static str)
    ensures
        r == (match t {
            Tool::Compiler => compiler,
            Tool::Linker => linker,
        }),
{
    match t {
        Tool::Compiler => compiler,
        Tool::Linker => linker,
    }
}

impl BuildError {
    /// The message that tells a user why the build stopped, piece by piece.
    pub fn message(&self) -> (r: Vec<MessagePart>)
        ensures
            r@.map_values(|p: MessagePart| p@) == spec_message(self@),
    {
        let mut parts: Vec<MessagePart> = Vec::new();
        match self {
            BuildError::Command(app, code) => {
                parts.push(text(QUOTE_OPEN));
                parts.push(text(app));
                parts.push(text(COMMAND_FAILED));
                parts.push(MessagePart::Number(*code));
                parts.push(text(COMMAND_FAILED_END));
            },
            BuildError::Manifest(field) => {
                parts.push(text(MANIFEST_OPEN));
                parts.push(text(field));
                parts.push(text(MANIFEST_END));
            },
            BuildError::Toml(_) => {
                parts.push(MessagePart::Cause);
            },
            BuildError::Version(_) => {
                parts.push(MessagePart::Cause);
            },
            BuildError::ToolNotInstalled(t) => {
                parts.push(tool_open_text(*t, false));
                parts.push(text(t.name()));
                parts.push(text(NOT_FOUND_MIDDLE));
                parts.push(text(BINARY_FOLDER_NAME));
                parts.push(text(pick(*t, COMPILER_NOT_FOUND_FOLDER, LINKER_NOT_FOUND_FOLDER)));
                parts.push(text(WIX_PATH_KEY));
                parts.push(text(NOT_FOUND_END));
            },
            BuildError::ToolMissingFromBinPath(t, p) => {
                parts.push(tool_open_text(*t, true));
                parts.push(text(t.name()));
                parts.push(text(MISSING_MIDDLE));
                parts.push(MessagePart::Path(p.duplicate()));
                parts.push(
                    text(pick(*t, COMPILER_MISSING_FROM_BIN_PATH, LINKER_MISSING_FROM_BIN_PATH)),
                );
            },
            BuildError::ToolMissingFromEnvironment(t, p) => {
                parts.push(tool_open_text(*t, true));
                parts.push(text(t.name()));
                parts.push(text(MISSING_MIDDLE));
                parts.push(MessagePart::Path(p.duplicate()));
                parts.push(text(MISSING_FROM_ENVIRONMENT));
                parts.push(text(WIX_PATH_KEY));
                parts.push(text(pick(*t, COMPILER_MISSING_END, LINKER_MISSING_END)));
            },
            BuildError::LocaleMissing(p) => {
                parts.push(text(QUOTE_OPEN));
                parts.push(MessagePart::Path(p.duplicate()));
                parts.push(text(LOCALE_MISSING));
            },
            BuildError::SourceIsFolder(p) => {
                parts.push(text(QUOTE_OPEN));
                parts.push(MessagePart::Path(p.duplicate()));
                parts.push(text(SOURCE_IS_FOLDER));
            },
            BuildError::SourceMissing(p) => {
                parts.push(text(QUOTE_OPEN));
                parts.push(MessagePart::Path(p.duplicate()));
                parts.push(text(SOURCE_MISSING));
                parts.push(MessagePart::Path(p.duplicate()));
                parts.push(text(SOURCE_MISSING_END));
            },
            BuildError::DefaultSourceMissing(p) => {
                parts.push(text(QUOTE_OPEN));
                parts.push(MessagePart::Path(p.duplicate()));
                parts.push(text(DEFAULT_SOURCE_MISSING));
            },
        }
        assert(parts@.map_values(|p: MessagePart| p@) =~= spec_message(self@));
        parts
    }
}

} // verus!
