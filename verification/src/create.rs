use vstd::prelude::*;

use crate::error::{BuildError, Failure};
use crate::manifest::{string_opt, Manifest};
use crate::path::PathSpec;
use crate::version::{display_semver, semver_display};
use crate::wix::{
    spec_arch, spec_tool_name, Cultures, Platform, Tool, BINARY_FOLDER_NAME, EXE_FILE_EXTENSION,
    WIX, DEFAULT_SOURCE_FILE_EXTENSION, WIX_SOURCE_FILE_NAME,
};

verus! {

/// The settings of one installer build, as the builder collects them and the
/// execution keeps them.
pub struct Settings {
    /// The WiX Toolset's `bin` folder, in place of the one found through the environment.
    pub bin_path: Option<Seq<char>>,
    /// Whether the output of the applications that the build runs is captured (hidden).
    pub capture_output: bool,
    /// The culture the installer is linked for.
    pub culture: Cultures,
    /// The WiX Source file to use in place of `wix/main.rs`.
    pub input: Option<Seq<char>>,
    /// The WiX localization file for the linker.
    pub locale: Option<Seq<char>>,
    /// The name to use in place of the package's name.
    pub name: Option<Seq<char>>,
    /// Whether the release build of the package is skipped.
    pub no_build: bool,
    /// The installer file to write in place of `target/wix/<name>-<version>-<arch>.msi`.
    pub output: Option<Seq<char>>,
    /// The version to use in place of the package's version.
    pub version: Option<Seq<char>>,
}

/// The settings of a new builder: output captured, the package built, the
/// installer in US English, and nothing else given.
pub open spec fn default_settings() -> Settings {
    Settings {
        bin_path: None,
        capture_output: true,
        culture: Cultures::EnUs,
        input: None,
        locale: None,
        name: None,
        no_build: false,
        output: None,
        version: None,
    }
}

/// The view of an optional borrowed string.
pub open spec fn str_opt(o: Option<&str>) -> Option<Seq<char>> {
    match o {
        Some(s) => Some(s@),
        None => None,
    }
}

/// A builder for running the subcommand.
#[derive(Debug, Clone)]
pub struct Builder<'a> {
    bin_path: Option<&'a str>,
    capture_output: bool,
    culture: Cultures,
    input: Option<&'a str>,
    locale: Option<&'a str>,
    name: Option<&'a str>,
    no_build: bool,
    output: Option<&'a str>,
    version: Option<&'a str>,
}

impl<'a> View for Builder<'a> {
    type V = Settings;

    closed spec fn view(&self) -> Settings {
        Settings {
            bin_path: str_opt(self.bin_path),
            capture_output: self.capture_output,
            culture: self.culture,
            input: str_opt(self.input),
            locale: str_opt(self.locale),
            name: str_opt(self.name),
            no_build: self.no_build,
            output: str_opt(self.output),
            version: str_opt(self.version),
        }
    }
}

impl<'a> Builder<'a> {
    /// Creates a new builder with the default settings.
    pub fn new() -> (r: Self)
        ensures
            r@ == default_settings(),
    {
        Builder {
            bin_path: None,
            capture_output: true,
            culture: Cultures::EnUs,
            input: None,
            locale: None,
            name: None,
            no_build: false,
            output: None,
            version: None,
        }
    }

    /// Sets the path to the WiX Toolset's `bin` folder.
    ///
    /// The WiX Toolset's `bin` folder should contain the needed `candle.exe` and `light.exe`
    /// applications. The default is to use the PATH system environment variable. This will
    /// override any value obtained from the environment.
    pub fn bin_path(&mut self, b: Option<&'a str>) -> (r: &mut Self)
        ensures
            r@ == (Settings { bin_path: str_opt(b), ..old(self)@ }),
            *final(self) == *final(r),
    {
        self.bin_path = b;
        self
    }

    /// Enables or disables capturing of the output from the builder (`cargo`), compiler
    /// (`candle`), linker (`light`), and signer (`signtool`).
    ///
    /// The default is to capture all output, i.e. display nothing in the console but the log
    /// statements.
    pub fn capture_output(&mut self, c: bool) -> (r: &mut Self)
        ensures
            r@ == (Settings { capture_output: c, ..old(self)@ }),
            *final(self) == *final(r),
    {
        self.capture_output = c;
        self
    }

    /// Sets the culture to use with the linker (light.exe) for building a localized installer.
    pub fn culture(&mut self, c: Cultures) -> (r: &mut Self)
        ensures
            r@ == (Settings { culture: c, ..old(self)@ }),
            *final(self) == *final(r),
    {
        self.culture = c;
        self
    }

    /// Sets the path to a file to be used as the WiX Source (wxs) file instead of `wix\main.rs`.
    pub fn input(&mut self, i: Option<&'a str>) -> (r: &mut Self)
        ensures
            r@ == (Settings { input: str_opt(i), ..old(self)@ }),
            *final(self) == *final(r),
    {
        self.input = i;
        self
    }

    /// Sets the path to a WiX localization file, `.wxl`, for the linker (light.exe).
    ///
    /// The WiX localization file is an XML file that contains localization strings.
    pub fn locale(self, l: Option<&'a str>) -> (r: Self)
        ensures
            r@ == (Settings { locale: str_opt(l), ..self@ }),
    {
        let mut builder = self;
        builder.locale = l;
        builder
    }

    /// Sets the name.
    ///
    /// The default is to use the `name` field under the `package` section of the package's
    /// manifest (Cargo.toml). This overrides that value. An error occurs if the `name` field is
    /// not found in the manifest.
    ///
    /// The installer (msi) that is created will be named as "name-major.minor.patch-platform.msi"
    /// format, where name is the value specified with this method or the value from the `name`
    /// field under the `package` section, the major.minor.patch is the version number from the
    /// package's manifest `version` field or the value specified at the command line, and the
    /// _platform_ is either "i686" or "x86_64" depending on the build environment.
    ///
    /// This does __not__ change the name of the executable that is installed. The name of the
    /// executable can be changed by modifying the WiX Source (wxs) file with a text editor.
    pub fn name(&mut self, p: Option<&'a str>) -> (r: &mut Self)
        ensures
            r@ == (Settings { name: str_opt(p), ..old(self)@ }),
            *final(self) == *final(r),
    {
        self.name = p;
        self
    }

    /// Skips the building of the project with the release profile.
    ///
    /// If `true`, the project will _not_ be built using the release profile, i.e. the `cargo
    /// build --release` command will not be executed. The default is to build the project
    /// before each creation. This is useful if building the project is more involved or is
    /// handled in a separate process.
    pub fn no_build(&mut self, n: bool) -> (r: &mut Self)
        ensures
            r@ == (Settings { no_build: n, ..old(self)@ }),
            *final(self) == *final(r),
    {
        self.no_build = n;
        self
    }

    /// Sets the output file.
    ///
    /// The default is to create a MSI file with the `<product-name>-<version>-<arch>.msi` file
    /// name and extension in the `target\wix` folder. Use this method to override the
    /// destination and file name of the Windows installer.
    pub fn output(&mut self, o: Option<&'a str>) -> (r: &mut Self)
        ensures
            r@ == (Settings { output: str_opt(o), ..old(self)@ }),
            *final(self) == *final(r),
    {
        self.output = o;
        self
    }

    /// Sets the version.
    ///
    /// This overrides the default where the version is obtained from the `version` field of the
    /// package's manifest (Cargo.toml). The version should be in the "Major.Minor.Patch"
    /// notation.
    pub fn version(&mut self, v: Option<&'a str>) -> (r: &mut Self)
        ensures
            r@ == (Settings { version: str_opt(v), ..old(self)@ }),
            *final(self) == *final(r),
    {
        self.version = v;
        self
    }

    /// The execution that holds this builder's settings, ready to be run; the
    /// builder itself is left as it is.
    pub fn build(&mut self) -> (r: Execution)
        ensures
            r@ == old(self)@,
            *final(self) == *old(self),
    {
        Execution {
            bin_path: owned(self.bin_path),
            capture_output: self.capture_output,
            culture: self.culture,
            input: owned(self.input),
            locale: owned(self.locale),
            name: owned(self.name),
            no_build: self.no_build,
            output: owned(self.output),
            version: owned(self.version),
        }
    }
}

impl<'a> Default for Builder<'a> {
    fn default() -> (r: Self)
        ensures
            r@ == default_settings(),
    {
        Builder::new()
    }
}

/// An owned copy of an optional string.
fn owned(o: Option<&str>) -> (r: Option<String>)
    ensures
        string_opt(r) == str_opt(o),
{
    match o {
        Some(s) => Some(s.to_owned()),
        None => None,
    }
}

/// The settings of one installer build, ready to run.
#[derive(Debug)]
pub struct Execution {
    bin_path: Option<String>,
    capture_output: bool,
    culture: Cultures,
    input: Option<String>,
    locale: Option<String>,
    name: Option<String>,
    no_build: bool,
    output: Option<String>,
    version: Option<String>,
}

impl View for Execution {
    type V = Settings;

    closed spec fn view(&self) -> Settings {
        Settings {
            bin_path: string_opt(self.bin_path),
            capture_output: self.capture_output,
            culture: self.culture,
            input: string_opt(self.input),
            locale: string_opt(self.locale),
            name: string_opt(self.name),
            no_build: self.no_build,
            output: string_opt(self.output),
            version: string_opt(self.version),
        }
    }
}

impl Default for Execution {
    fn default() -> (r: Self)
        ensures
            r@ == default_settings(),
    {
        Builder::new().build()
    }
}

/// The file name `stem.ext`.
pub open spec fn file_name(stem: Seq<char>, ext: Seq<char>) -> Seq<char> {
    stem + "."@ + ext
}

/// The view of a result that holds a viewable value or a build error.
pub open spec fn result_view<T: View>(r: Result<T, BuildError>) -> Result<T::V, Failure> {
    match r {
        Ok(t) => Ok(t@),
        Err(e) => Err(e@),
    }
}

/// The view of an optional path.
pub open spec fn path_opt(o: Option<PathSpec>) -> Option<Seq<Seq<char>>> {
    match o {
        Some(p) => Some(p@),
        None => None,
    }
}

/// The name of the installed product: the name set, else the package's name
/// from its manifest; an error where there is neither.
pub open spec fn spec_package_name(s: Settings, from_manifest: Option<Seq<char>>) -> Result<
    Seq<char>,
    Failure,
> {
    match s.name {
        Some(n) => Ok(n),
        None => match from_manifest {
            Some(n) => Ok(n),
            None => Err(Failure::Manifest("name"@)),
        },
    }
}

/// The version of the installed product: the version set, else the package's
/// version from its manifest, read as a semantic version and written in its
/// display form; an error where there is neither or where it is no version.
pub open spec fn spec_package_version(s: Settings, from_manifest: Option<Seq<char>>) -> Result<
    Seq<char>,
    Failure,
> {
    let text = match s.version {
        Some(v) => Some(v),
        None => from_manifest,
    };
    match text {
        None => Err(Failure::Manifest("version"@)),
        Some(t) => match semver_display(t) {
            Some(d) => Ok(d),
            None => Err(Failure::Version),
        },
    }
}

/// The localization file, where one is set and exists.
pub open spec fn spec_locale(s: Settings, exists: bool) -> Result<Option<Seq<Seq<char>>>, Failure> {
    match s.locale {
        None => Ok(None),
        Some(l) => if exists {
            Ok(Some(seq![l]))
        } else {
            Err(Failure::LocaleMissing(seq![l]))
        },
    }
}

/// The WiX Source file looked for: the one set, else `wix/main.rs`.
pub open spec fn spec_source_candidate(s: Settings) -> Seq<Seq<char>> {
    match s.input {
        Some(i) => seq![i],
        None => seq![WIX@, file_name(WIX_SOURCE_FILE_NAME@, DEFAULT_SOURCE_FILE_EXTENSION@)],
    }
}

/// The WiX Source file, given whether the file looked for exists and is a folder:
/// a file set must exist and not be a folder; the default file must exist.
pub open spec fn spec_source(s: Settings, exists: bool, is_dir: bool) -> Result<
    Seq<Seq<char>>,
    Failure,
> {
    let candidate = spec_source_candidate(s);
    match s.input {
        Some(_) => if !exists {
            Err(Failure::SourceMissing(candidate))
        } else if is_dir {
            Err(Failure::SourceIsFolder(candidate))
        } else {
            Ok(candidate)
        },
        None => if exists {
            Ok(candidate)
        } else {
            Err(Failure::DefaultSourceMissing(candidate))
        },
    }
}

/// The object file that the compiler writes and the linker reads: `target/wix/main.wixobj`.
pub open spec fn spec_object() -> Seq<Seq<char>> {
    seq!["target"@, WIX@, file_name(WIX_SOURCE_FILE_NAME@, "wixobj"@)]
}

/// The installer's file name: `<name>-<version>-<arch>.msi`.
pub open spec fn spec_installer_name(name: Seq<char>, version: Seq<char>, platform: Platform) -> Seq<
    char,
> {
    name + "-"@ + version + "-"@ + spec_arch(platform) + ".msi"@
}

/// The installer written: the output set, else `target/wix/<name>-<version>-<arch>.msi`.
pub open spec fn spec_installer(
    s: Settings,
    name: Seq<char>,
    version: Seq<char>,
    platform: Platform,
) -> Seq<Seq<char>> {
    match s.output {
        Some(o) => seq![o],
        None => seq!["target"@, WIX@, spec_installer_name(name, version, platform)],
    }
}

/// The executable's file name of a WiX application, such as `candle.exe`.
pub open spec fn spec_exe_name(t: Tool) -> Seq<char> {
    file_name(spec_tool_name(t), EXE_FILE_EXTENSION@)
}

/// Where a WiX application is looked for before it is run: in the `bin` folder
/// set, else in the `bin` folder under the folder that the environment names;
/// `None` where neither is known and the system's search path finds it.
pub open spec fn spec_tool_candidate(
    bin_path: Option<Seq<char>>,
    wix_env: Option<Seq<char>>,
    t: Tool,
) -> Option<Seq<Seq<char>>> {
    match bin_path {
        Some(b) => Some(seq![b, spec_exe_name(t)]),
        None => match wix_env {
            Some(e) => Some(seq![e, BINARY_FOLDER_NAME@, spec_exe_name(t)]),
            None => None,
        },
    }
}

/// The program to run for a WiX application, given whether the file looked for
/// exists: that file where it exists, the bare application name where nothing
/// is looked for, and an error naming the folder where the file is missing.
pub open spec fn spec_tool_program(
    bin_path: Option<Seq<char>>,
    wix_env: Option<Seq<char>>,
    t: Tool,
    exists: bool,
) -> Result<Seq<Seq<char>>, Failure> {
    match spec_tool_candidate(bin_path, wix_env, t) {
        None => Ok(seq![spec_tool_name(t)]),
        Some(c) => if exists {
            Ok(c)
        } else if bin_path is Some {
            Err(Failure::ToolMissingFromBinPath(t, c.drop_last()))
        } else {
            Err(Failure::ToolMissingFromEnvironment(t, c.drop_last()))
        },
    }
}

/// The file name `stem.ext`, built.
pub(crate) fn make_file_name(stem: &str, ext: &str) -> (r: String)
    ensures
        r@ == file_name(stem@, ext@),
{
    let mut s = stem.to_owned();
    s.append(".");
    s.append(ext);
    s
}

impl Execution {
    /// The product's name: the name set, else the package's name.
    pub fn name(&self, manifest: &Manifest) -> (r: Result<String, BuildError>)
        ensures
            result_view(r) == spec_package_name(self@, string_opt(manifest.package_name)),
    {
        match &self.name {
            Some(p) => Ok(p.clone()),
            None => match &manifest.package_name {
                Some(n) => Ok(n.clone()),
                None => Err(BuildError::Manifest("name")),
            },
        }
    }

    /// Gets the package version: the version set, else the package's version,
    /// in its display form as a semantic version.
    pub fn version(&self, manifest: &Manifest) -> (r: Result<String, BuildError>)
        ensures
            result_view(r) == spec_package_version(self@, string_opt(manifest.package_version)),
    {
        let text: &str = match &self.version {
            Some(v) => v.as_str(),
            None => match &manifest.package_version {
                Some(v) => v.as_str(),
                None => {
                    return Err(BuildError::Manifest("version"));
                },
            },
        };
        match display_semver(text) {
            Ok(s) => Ok(s),
            Err(e) => Err(BuildError::Version(e)),
        }
    }

    /// The WiX localization file that is set, to be checked for existence.
    pub fn locale_candidate(&self) -> (r: Option<PathSpec>)
        ensures
            path_opt(r) == single_opt(self@.locale),
    {
        match &self.locale {
            Some(l) => Some(PathSpec::from_str(l.as_str())),
            None => None,
        }
    }

    /// Gets the WiX localization file, given whether the file set exists.
    ///
    /// Returns `None` if no localization file is specified.
    pub fn locale(&self, exists: bool) -> (r: Result<Option<PathSpec>, BuildError>)
        ensures
            (match r {
                Ok(o) => Ok(path_opt(o)),
                Err(e) => Err(e@),
            }) == spec_locale(self@, exists),
    {
        match &self.locale {
            Some(l) => {
                let path = PathSpec::from_str(l.as_str());
                if exists {
                    Ok(Some(path))
                } else {
                    Err(BuildError::LocaleMissing(path))
                }
            },
            None => Ok(None),
        }
    }

    /// Gets the platform of a build target.
    pub fn platform(&self, target_is_x86_64: bool) -> (r: Platform)
        ensures
            r == (if target_is_x86_64 {
                Platform::X64
            } else {
                Platform::X86
            }),
    {
        Platform::for_target(target_is_x86_64)
    }

    /// The WiX Source file looked for, to be checked for existence.
    pub fn source_candidate(&self) -> (r: PathSpec)
        ensures
            r@ == spec_source_candidate(self@),
    {
        match &self.input {
            Some(i) => PathSpec::from_str(i.as_str()),
            None => {
                let mut p = PathSpec::from_str(WIX);
                let file = make_file_name(WIX_SOURCE_FILE_NAME, DEFAULT_SOURCE_FILE_EXTENSION);
                p.push(file.as_str());
                p
            },
        }
    }

    /// Gets the WiX Source (wxs) file, given whether the file looked for exists
    /// and whether it is a folder.
    pub fn wxs_source(&self, exists: bool, is_dir: bool) -> (r: Result<PathSpec, BuildError>)
        ensures
            result_view(r) == spec_source(self@, exists, is_dir),
    {
        let candidate = self.source_candidate();
        match &self.input {
            Some(_) => {
                if !exists {
                    Err(BuildError::SourceMissing(candidate))
                } else if is_dir {
                    Err(BuildError::SourceIsFolder(candidate))
                } else {
                    Ok(candidate)
                }
            },
            None => {
                if exists {
                    Ok(candidate)
                } else {
                    Err(BuildError::DefaultSourceMissing(candidate))
                }
            },
        }
    }

    /// Gets the destination for the compiler output/linker input.
    pub fn source_wixobj(&self) -> (r: PathSpec)
        ensures
            r@ == spec_object(),
    {
        let mut p = PathSpec::from_str("target");
        p.push(WIX);
        let file = make_file_name(WIX_SOURCE_FILE_NAME, "wixobj");
        p.push(file.as_str());
        p
    }

    /// Gets the destination for the linker.
    pub fn destination_msi(&self, name: &str, version: &str, platform: Platform) -> (r: PathSpec)
        ensures
            r@ == spec_installer(self@, name@, version@, platform),
    {
        match &self.output {
            Some(o) => PathSpec::from_str(o.as_str()),
            None => {
                let mut p = PathSpec::from_str("target");
                p.push(WIX);
                let mut file = name.to_owned();
                file.append("-");
                file.append(version);
                file.append("-");
                file.append(platform.arch());
                file.append(".msi");
                p.push(file.as_str());
                p
            },
        }
    }

    /// Where the WiX application `tool` is looked for, given the value of the
    /// WiX Toolset's environment variable.
    pub fn tool_candidate(&self, tool: Tool, wix_env: Option<&str>) -> (r: Option<PathSpec>)
        ensures
            path_opt(r) == spec_tool_candidate(self@.bin_path, str_opt(wix_env), tool),
    {
        let exe = make_file_name(tool.name(), EXE_FILE_EXTENSION);
        match &self.bin_path {
            Some(b) => {
                let mut p = PathSpec::from_str(b.as_str());
                p.push(exe.as_str());
                Some(p)
            },
            None => match wix_env {
                Some(e) => {
                    let mut p = PathSpec::from_str(e);
                    p.push(BINARY_FOLDER_NAME);
                    p.push(exe.as_str());
                    Some(p)
                },
                None => None,
            },
        }
    }

    /// The program to run for the WiX application `tool`, given the value of the
    /// WiX Toolset's environment variable and whether the file looked for exists.
    pub fn tool(&self, tool: Tool, wix_env: Option<&str>, exists: bool) -> (r: Result<
        PathSpec,
        BuildError,
    >)
        ensures
            result_view(r) == spec_tool_program(self@.bin_path, str_opt(wix_env), tool, exists),
    {
        match self.tool_candidate(tool, wix_env) {
            None => Ok(PathSpec::from_str(tool.name())),
            Some(path) => {
                if exists {
                    Ok(path)
                } else {
                    let mut folder = PathSpec { parts: path.parts };
                    folder.parts.pop();
                    assert(folder@ =~= path@.drop_last());
                    if self.bin_path.is_some() {
                        Err(BuildError::ToolMissingFromBinPath(tool, folder))
                    } else {
                        Err(BuildError::ToolMissingFromEnvironment(tool, folder))
                    }
                }
            },
        }
    }

    /// Gets the program for the compiler application (`candle.exe`).
    pub fn compiler(&self, wix_env: Option<&str>, exists: bool) -> (r: Result<PathSpec, BuildError>)
        ensures
            result_view(r) == spec_tool_program(
                self@.bin_path,
                str_opt(wix_env),
                Tool::Compiler,
                exists,
            ),
    {
        self.tool(Tool::Compiler, wix_env, exists)
    }

    /// Gets the program for the linker application (`light.exe`).
    pub fn linker(&self, wix_env: Option<&str>, exists: bool) -> (r: Result<PathSpec, BuildError>)
        ensures
            result_view(r) == spec_tool_program(
                self@.bin_path,
                str_opt(wix_env),
                Tool::Linker,
                exists,
            ),
    {
        self.tool(Tool::Linker, wix_env, exists)
    }
}

/// A path of one piece, where there is one.
pub open spec fn single_opt(o: Option<Seq<char>>) -> Option<Seq<Seq<char>>> {
    match o {
        Some(p) => Some(seq![p]),
        None => None,
    }
}

impl Execution {
    /// Whether the output of the applications run is captured.
    pub fn captures_output(&self) -> (r: bool)
        ensures
            r == self@.capture_output,
    {
        self.capture_output
    }

    /// Whether the release build of the package is skipped.
    pub fn skips_build(&self) -> (r: bool)
        ensures
            r == self@.no_build,
    {
        self.no_build
    }

    /// The culture the installer is linked for.
    pub fn culture(&self) -> (r: Cultures)
        ensures
            r == self@.culture,
    {
        self.culture
    }

    /// Whether the WiX Toolset's `bin` folder is set.
    pub fn has_bin_path(&self) -> (r: bool)
        ensures
            r == self@.bin_path is Some,
    {
        self.bin_path.is_some()
    }

    /// The path set as input, which is also read as the package's manifest.
    pub fn input_path(&self) -> (r: Option<PathSpec>)
        ensures
            path_opt(r) == single_opt(self@.input),
    {
        match &self.input {
            Some(i) => Some(PathSpec::from_str(i.as_str())),
            None => None,
        }
    }
}

} // verus!
