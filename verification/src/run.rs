use vstd::prelude::*;

use crate::create::{
    path_opt, single_opt, spec_exe_name, spec_installer, spec_locale, spec_object,
    spec_package_name, spec_package_version, spec_source, spec_source_candidate,
    spec_tool_candidate, spec_tool_program, make_file_name, Execution, Settings,
};
use crate::error::{BuildError, Failure};
use crate::manifest::{manifest_name, manifest_version, Manifest};
use crate::path::PathSpec;
use crate::wix::{
    spec_culture_code, spec_platform_name, spec_tool_name, Platform, Tool, BINARY_FOLDER_NAME, CARGO, EXE_FILE_EXTENSION, WIX_PATH_KEY,
};

verus! {

/// One argument on an application's command line.
#[derive(Debug)]
pub enum Arg {
    /// Plain text.
    Text(String),
    /// A path, joined by the platform's path type.
    Path(PathSpec),
}

pub enum ArgView {
    Text(Seq<char>),
    Path(Seq<Seq<char>>),
}

impl View for Arg {
    type V = ArgView;

    open spec fn view(&self) -> ArgView {
        match self {
            Arg::Text(s) => ArgView::Text(s@),
            Arg::Path(p) => ArgView::Path(p@),
        }
    }
}

/// An application to run, with its arguments, and whether its output is
/// captured (hidden) or shown.
#[derive(Debug)]
pub struct Invocation {
    pub program: PathSpec,
    pub args: Vec<Arg>,
    pub capture_output: bool,
}

#[verifier::ext_equal]
pub struct InvocationView {
    pub program: Seq<Seq<char>>,
    pub args: Seq<ArgView>,
    pub capture_output: bool,
}

impl View for Invocation {
    type V = InvocationView;

    open spec fn view(&self) -> InvocationView {
        InvocationView {
            program: self.program@,
            args: self.args@.map_values(|a: Arg| a@),
            capture_output: self.capture_output,
        }
    }
}

/// Where an installer build stands.
#[derive(Clone, Copy, Debug, PartialEq, Eq, Structural)]
pub enum Stage {
    /// Nothing is done yet.
    Start,
    /// The package's manifest is being read.
    ReadingManifest,
    /// The WiX localization file is being looked for.
    CheckingLocale,
    /// The WiX Source file is being looked for.
    CheckingSource,
    /// The package is being built with the release profile.
    Building,
    /// The WiX Toolset's environment variable is being read, to find the application.
    ReadingEnvironment(Tool),
    /// The application's executable is being looked for.
    CheckingTool(Tool),
    /// The application is running.
    Running(Tool),
    /// The installer is built.
    Finished,
    /// The build stopped with an error.
    Failed,
}

/// What the world answers to the last action of an installer build.
#[derive(Debug)]
pub enum Event {
    /// Start the build.
    Begin,
    /// The text of the package's manifest.
    ManifestRead(String),
    /// Whether the WiX localization file exists.
    LocaleChecked(bool),
    /// Whether the WiX Source path exists, and whether it is a folder.
    SourceChecked { exists: bool, is_dir: bool },
    /// The release build ended: whether it succeeded, and its exit code, if any.
    BuildExited { success: bool, code: Option<i32> },
    /// The value of the WiX Toolset's environment variable, if it is set.
    EnvironmentRead(Option<String>),
    /// Whether the application's executable exists.
    ToolChecked(bool),
    /// The application ended: whether it succeeded, and its exit code, if any.
    ToolExited { success: bool, code: Option<i32> },
    /// The application could not be started because the system does not find it.
    ToolNotFound,
}

pub enum EventView {
    Begin,
    ManifestRead(Seq<char>),
    LocaleChecked(bool),
    SourceChecked { exists: bool, is_dir: bool },
    BuildExited { success: bool, code: Option<i32> },
    EnvironmentRead(Option<Seq<char>>),
    ToolChecked(bool),
    ToolExited { success: bool, code: Option<i32> },
    ToolNotFound,
}

impl View for Event {
    type V = EventView;

    open spec fn view(&self) -> EventView {
        match self {
            Event::Begin => EventView::Begin,
            Event::ManifestRead(t) => EventView::ManifestRead(t@),
            Event::LocaleChecked(b) => EventView::LocaleChecked(*b),
            Event::SourceChecked { exists, is_dir } => EventView::SourceChecked {
                exists: *exists,
                is_dir: *is_dir,
            },
            Event::BuildExited { success, code } => EventView::BuildExited {
                success: *success,
                code: *code,
            },
            Event::EnvironmentRead(v) => EventView::EnvironmentRead(
                match v {
                    Some(s) => Some(s@),
                    None => None,
                },
            ),
            Event::ToolChecked(b) => EventView::ToolChecked(*b),
            Event::ToolExited { success, code } => EventView::ToolExited {
                success: *success,
                code: *code,
            },
            Event::ToolNotFound => EventView::ToolNotFound,
        }
    }
}

/// What an installer build asks of the world next.
#[derive(Debug)]
pub enum Action {
    /// Read the package's manifest from this file, or from `Cargo.toml` in the
    /// current folder where there is none.
    ReadManifest(Option<PathSpec>),
    /// Check whether this WiX localization file exists.
    CheckLocale(PathSpec),
    /// Check whether this WiX Source path exists, and whether it is a folder.
    CheckSource(PathSpec),
    /// Build the package with the release profile.
    Build(Invocation),
    /// Read this environment variable.
    ReadEnvironment(&'static str),
    /// Check whether this application's executable exists.
    CheckTool(PathSpec),
    /// Run this WiX application.
    RunTool(Tool, Invocation),
    /// The installer is built.
    Finish,
    /// The build stops with this error.
    Fail(BuildError),
}

pub enum ActionView {
    ReadManifest(Option<Seq<Seq<char>>>),
    CheckLocale(Seq<Seq<char>>),
    CheckSource(Seq<Seq<char>>),
    Build(InvocationView),
    ReadEnvironment(Seq<char>),
    CheckTool(Seq<Seq<char>>),
    RunTool(Tool, InvocationView),
    Finish,
    Fail(Failure),
}

impl View for Action {
    type V = ActionView;

    open spec fn view(&self) -> ActionView {
        match self {
            Action::ReadManifest(p) => ActionView::ReadManifest(path_opt(*p)),
            Action::CheckLocale(p) => ActionView::CheckLocale(p@),
            Action::CheckSource(p) => ActionView::CheckSource(p@),
            Action::Build(i) => ActionView::Build(i@),
            Action::ReadEnvironment(k) => ActionView::ReadEnvironment(k@),
            Action::CheckTool(p) => ActionView::CheckTool(p@),
            Action::RunTool(t, i) => ActionView::RunTool(*t, i@),
            Action::Finish => ActionView::Finish,
            Action::Fail(e) => ActionView::Fail(e@),
        }
    }
}

/// What an installer build knows: its settings, the target platform, where it
/// stands, and what it has found so far.
#[verifier::ext_equal]
pub struct RunView {
    pub settings: Settings,
    pub platform: Platform,
    pub stage: Stage,
    /// The product's name, once the manifest is read.
    pub name: Seq<char>,
    /// The product's version, once the manifest is read.
    pub version: Seq<char>,
    /// The localization file, once it is found.
    pub locale: Option<Seq<Seq<char>>>,
    /// The WiX Source file, once it is found.
    pub source: Seq<Seq<char>>,
    /// The object file, once the WiX Source file is found.
    pub object: Seq<Seq<char>>,
    /// The installer, once the WiX Source file is found.
    pub installer: Seq<Seq<char>>,
    /// The value of the WiX Toolset's environment variable last read.
    pub wix_env: Option<Seq<char>>,
}

/// The exit code reported for an application that gave none.
pub open spec fn spec_exit_code(code: Option<i32>) -> i32 {
    match code {
        Some(c) => c,
        None => 100,
    }
}

/// `cargo build --release`.
pub open spec fn spec_build_invocation(capture_output: bool) -> InvocationView {
    InvocationView {
        program: seq![CARGO@],
        args: seq![ArgView::Text("build"@), ArgView::Text("--release"@)],
        capture_output,
    }
}

/// The compiler's arguments: the version and platform as preprocessor
/// variables, the object file to write, and the WiX Source file.
pub open spec fn spec_compile_args(v: RunView) -> Seq<ArgView> {
    seq![
        ArgView::Text("-dVersion="@ + v.version),
        ArgView::Text("-dPlatform="@ + spec_platform_name(v.platform)),
        ArgView::Text("-o"@),
        ArgView::Path(v.object),
        ArgView::Path(v.source),
    ]
}

/// The linker's arguments: the localization file where there is one, the WiX
/// UI extension, the culture, the object file, and the installer to write.
pub open spec fn spec_link_args(v: RunView) -> Seq<ArgView> {
    let loc = match v.locale {
        Some(l) => seq![ArgView::Text("-loc"@), ArgView::Path(l)],
        None => Seq::empty(),
    };
    loc + seq![
        ArgView::Text("-ext"@),
        ArgView::Text("WixUIExtension"@),
        ArgView::Text("-cultures:"@ + spec_culture_code(v.settings.culture)),
        ArgView::Path(v.object),
        ArgView::Text("-out"@),
        ArgView::Path(v.installer),
    ]
}

/// How the WiX application `t` is run from `program`.
pub open spec fn spec_tool_invocation(v: RunView, t: Tool, program: Seq<Seq<char>>) -> InvocationView {
    InvocationView {
        program,
        args: match t {
            Tool::Compiler => spec_compile_args(v),
            Tool::Linker => spec_link_args(v),
        },
        capture_output: v.settings.capture_output,
    }
}

/// Stop with `f`.
pub open spec fn spec_fail(v: RunView, f: Failure) -> (RunView, ActionView) {
    (RunView { stage: Stage::Failed, ..v }, ActionView::Fail(f))
}

/// Run `t` from `program`.
pub open spec fn spec_run_tool(v: RunView, t: Tool, program: Seq<Seq<char>>) -> (RunView, ActionView) {
    (RunView { stage: Stage::Running(t), ..v }, ActionView::RunTool(t, spec_tool_invocation(v, t, program)))
}

/// Find `t`: in the `bin` folder set, else through the environment.
pub open spec fn spec_locate(v: RunView, t: Tool) -> (RunView, ActionView) {
    match v.settings.bin_path {
        Some(b) => (
            RunView { stage: Stage::CheckingTool(t), ..v },
            ActionView::CheckTool(seq![b, spec_exe_name(t)]),
        ),
        None => (
            RunView { stage: Stage::ReadingEnvironment(t), ..v },
            ActionView::ReadEnvironment(WIX_PATH_KEY@),
        ),
    }
}

/// Look for the WiX Source file.
pub open spec fn spec_check_source(v: RunView) -> (RunView, ActionView) {
    (
        RunView { stage: Stage::CheckingSource, ..v },
        ActionView::CheckSource(spec_source_candidate(v.settings)),
    )
}

/// After the manifest `text` is read: the product's name and version, then the
/// localization file where one is set, else the WiX Source file.
pub open spec fn spec_after_manifest(v: RunView, text: Seq<char>) -> (RunView, ActionView) {
    if manifest_name(text) is None || manifest_version(text) is None {
        spec_fail(v, Failure::Toml)
    } else {
        match spec_package_name(v.settings, manifest_name(text)->0) {
            Err(f) => spec_fail(v, f),
            Ok(n) => match spec_package_version(v.settings, manifest_version(text)->0) {
                Err(f) => spec_fail(v, f),
                Ok(ver) => match v.settings.locale {
                    Some(l) => (
                        RunView { stage: Stage::CheckingLocale, name: n, version: ver, ..v },
                        ActionView::CheckLocale(seq![l]),
                    ),
                    None => spec_check_source(RunView { name: n, version: ver, locale: None, ..v }),
                },
            },
        }
    }
}

/// After the WiX Source path is checked: the object file and the installer,
/// then the release build unless it is skipped, else the compiler.
pub open spec fn spec_after_source(v: RunView, exists: bool, is_dir: bool) -> (RunView, ActionView) {
    match spec_source(v.settings, exists, is_dir) {
        Err(f) => spec_fail(v, f),
        Ok(source) => {
            let found = RunView {
                source,
                object: spec_object(),
                installer: spec_installer(v.settings, v.name, v.version, v.platform),
                ..v
            };
            if v.settings.no_build {
                spec_locate(found, Tool::Compiler)
            } else {
                (
                    RunView { stage: Stage::Building, ..found },
                    ActionView::Build(spec_build_invocation(v.settings.capture_output)),
                )
            }
        },
    }
}

/// Whether `e` answers the action that led to stage `s`.
pub open spec fn spec_accepts(s: Stage, e: EventView) -> bool {
    match s {
        Stage::Start => e is Begin,
        Stage::ReadingManifest => e is ManifestRead,
        Stage::CheckingLocale => e is LocaleChecked,
        Stage::CheckingSource => e is SourceChecked,
        Stage::Building => e is BuildExited,
        Stage::ReadingEnvironment(_) => e is EnvironmentRead,
        Stage::CheckingTool(_) => e is ToolChecked,
        Stage::Running(_) => e is ToolExited || e is ToolNotFound,
        Stage::Finished => false,
        Stage::Failed => false,
    }
}

/// One step of an installer build: where it goes and what it asks next when
/// the event `e` answers it in the state `v`.
pub open spec fn spec_advance(v: RunView, e: EventView) -> (RunView, ActionView) {
    match e {
        EventView::Begin => (
            RunView { stage: Stage::ReadingManifest, ..v },
            ActionView::ReadManifest(single_opt(v.settings.input)),
        ),
        EventView::ManifestRead(text) => spec_after_manifest(v, text),
        EventView::LocaleChecked(exists) => match spec_locale(v.settings, exists) {
            Err(f) => spec_fail(v, f),
            Ok(locale) => spec_check_source(RunView { locale, ..v }),
        },
        EventView::SourceChecked { exists, is_dir } => spec_after_source(v, exists, is_dir),
        EventView::BuildExited { success, code } => if success {
            spec_locate(v, Tool::Compiler)
        } else {
            spec_fail(v, Failure::Command(CARGO@, spec_exit_code(code)))
        },
        EventView::EnvironmentRead(env) => {
            let read = RunView { wix_env: env, ..v };
            let t = v.stage->ReadingEnvironment_0;
            match spec_tool_candidate(None, env, t) {
                Some(c) => (RunView { stage: Stage::CheckingTool(t), ..read }, ActionView::CheckTool(c)),
                None => spec_run_tool(read, t, seq![spec_tool_name(t)]),
            }
        },
        EventView::ToolChecked(exists) => {
            let t = v.stage->CheckingTool_0;
            match spec_tool_program(v.settings.bin_path, v.wix_env, t, exists) {
                Ok(program) => spec_run_tool(v, t, program),
                Err(f) => spec_fail(v, f),
            }
        },
        EventView::ToolExited { success, code } => {
            let t = v.stage->Running_0;
            if !success {
                spec_fail(v, Failure::Command(spec_tool_name(t), spec_exit_code(code)))
            } else if t == Tool::Compiler {
                spec_locate(v, Tool::Linker)
            } else {
                (RunView { stage: Stage::Finished, ..v }, ActionView::Finish)
            }
        },
        EventView::ToolNotFound => spec_fail(v, Failure::ToolNotInstalled(v.stage->Running_0)),
    }
}

/// The state of one installer build. The build's decisions are made here; the
/// reading of files, the environment and the running of applications are left
/// to the caller, which performs each action returned and answers with the
/// matching event.
pub struct Run {
    execution: Execution,
    platform: Platform,
    stage: Stage,
    name: String,
    version: String,
    locale: Option<PathSpec>,
    source: PathSpec,
    object: PathSpec,
    installer: PathSpec,
    wix_env: Option<String>,
}

impl View for Run {
    type V = RunView;

    closed spec fn view(&self) -> RunView {
        RunView {
            settings: self.execution@,
            platform: self.platform,
            stage: self.stage,
            name: self.name@,
            version: self.version@,
            locale: path_opt(self.locale),
            source: self.source@,
            object: self.object@,
            installer: self.installer@,
            wix_env: match self.wix_env {
                Some(s) => Some(s@),
                None => None,
            },
        }
    }
}

/// A build that has done nothing yet.
pub open spec fn spec_start(settings: Settings, platform: Platform) -> RunView {
    RunView {
        settings,
        platform,
        stage: Stage::Start,
        name: Seq::empty(),
        version: Seq::empty(),
        locale: None,
        source: Seq::empty(),
        object: Seq::empty(),
        installer: Seq::empty(),
        wix_env: None,
    }
}

/// `text` followed by `value`, as one argument.
fn text_arg(text: &str, value: &str) -> (r: Arg)
    ensures
        r@ == ArgView::Text(text@ + value@),
{
    let mut s = text.to_owned();
    s.append(value);
    Arg::Text(s)
}

/// `text` as one argument.
fn plain_arg(text: &str) -> (r: Arg)
    ensures
        r@ == ArgView::Text(text@),
{
    Arg::Text(text.to_owned())
}

/// `cargo build --release`.
fn build_invocation(capture_output: bool) -> (r: Invocation)
    ensures
        r@ == spec_build_invocation(capture_output),
{
    let mut args: Vec<Arg> = Vec::new();
    args.push(plain_arg("build"));
    args.push(plain_arg("--release"));
    let r = Invocation { program: PathSpec::from_str(CARGO), args, capture_output };
    assert(r@.args =~= spec_build_invocation(capture_output).args);
    r
}

/// Where the WiX application `t` is under the folder `env` that the
/// environment names.
fn environment_candidate(t: Tool, env: &str) -> (r: PathSpec)
    ensures
        Some(r@) == spec_tool_candidate(None, Some(env@), t),
{
    let exe = make_file_name(t.name(), EXE_FILE_EXTENSION);
    let mut p = PathSpec::from_str(env);
    p.push(BINARY_FOLDER_NAME);
    p.push(exe.as_str());
    p
}

impl Execution {
    /// Builds the project using the release profile and creates the installer
    /// (msi), for a target that is x86_64 or not: the build, ready for its
    /// first event, `Event::Begin`.
    pub fn run(self, target_is_x86_64: bool) -> (r: Run)
        ensures
            r@ == spec_start(
                self@,
                if target_is_x86_64 {
                    Platform::X64
                } else {
                    Platform::X86
                },
            ),
    {
        let platform = self.platform(target_is_x86_64);
        Run {
            execution: self,
            platform,
            stage: Stage::Start,
            name: String::new(),
            version: String::new(),
            locale: None,
            source: PathSpec::new(),
            object: PathSpec::new(),
            installer: PathSpec::new(),
            wix_env: None,
        }
    }
}

impl Run {
    /// Where the build stands.
    pub fn stage(&self) -> (r: Stage)
        ensures
            r == self@.stage,
    {
        self.stage
    }

    /// Whether `e` answers the build's last action.
    pub fn accepts(&self, e: &Event) -> (r: bool)
        ensures
            r == spec_accepts(self@.stage, e@),
    {
        match self.stage {
            Stage::Start => matches!(e, Event::Begin),
            Stage::ReadingManifest => matches!(e, Event::ManifestRead(_)),
            Stage::CheckingLocale => matches!(e, Event::LocaleChecked(_)),
            Stage::CheckingSource => matches!(e, Event::SourceChecked { .. }),
            Stage::Building => matches!(e, Event::BuildExited { .. }),
            Stage::ReadingEnvironment(_) => matches!(e, Event::EnvironmentRead(_)),
            Stage::CheckingTool(_) => matches!(e, Event::ToolChecked(_)),
            Stage::Running(_) => matches!(e, Event::ToolExited { .. }) || matches!(e, Event::ToolNotFound),
            Stage::Finished => false,
            Stage::Failed => false,
        }
    }

    fn fail(&mut self, e: BuildError) -> (r: Action)
        ensures
            (final(self)@, r@) == spec_fail(old(self)@, e@),
    {
        self.stage = Stage::Failed;
        Action::Fail(e)
    }

    fn locate(&mut self, t: Tool) -> (r: Action)
        ensures
            (final(self)@, r@) == spec_locate(old(self)@, t),
    {
        match self.execution.tool_candidate(t, None) {
            Some(c) => {
                self.stage = Stage::CheckingTool(t);
                Action::CheckTool(c)
            },
            None => {
                self.stage = Stage::ReadingEnvironment(t);
                Action::ReadEnvironment(WIX_PATH_KEY)
            },
        }
    }

    fn check_source(&mut self) -> (r: Action)
        ensures
            (final(self)@, r@) == spec_check_source(old(self)@),
    {
        self.stage = Stage::CheckingSource;
        Action::CheckSource(self.execution.source_candidate())
    }

    fn compile_args(&self) -> (r: Vec<Arg>)
        ensures
            r@.map_values(|a: Arg| a@) == spec_compile_args(self@),
    {
        let mut args: Vec<Arg> = Vec::new();
        args.push(text_arg("-dVersion=", self.version.as_str()));
        args.push(text_arg("-dPlatform=", self.platform.name()));
        args.push(plain_arg("-o"));
        args.push(Arg::Path(self.object.duplicate()));
        args.push(Arg::Path(self.source.duplicate()));
        assert(args@.map_values(|a: Arg| a@) =~= spec_compile_args(self@));
        args
    }

    fn link_args(&self) -> (r: Vec<Arg>)
        ensures
            r@.map_values(|a: Arg| a@) == spec_link_args(self@),
    {
        let mut args: Vec<Arg> = Vec::new();
        match &self.locale {
            Some(l) => {
                args.push(plain_arg("-loc"));
                args.push(Arg::Path(l.duplicate()));
            },
            None => {},
        }
        args.push(plain_arg("-ext"));
        args.push(plain_arg("WixUIExtension"));
        args.push(text_arg("-cultures:", self.execution.culture().code()));
        args.push(Arg::Path(self.object.duplicate()));
        args.push(plain_arg("-out"));
        args.push(Arg::Path(self.installer.duplicate()));
        assert(args@.map_values(|a: Arg| a@) =~= spec_link_args(self@));
        args
    }

    fn run_tool(&mut self, t: Tool, program: PathSpec) -> (r: Action)
        ensures
            (final(self)@, r@) == spec_run_tool(old(self)@, t, program@),
    {
        let args = match t {
            Tool::Compiler => self.compile_args(),
            Tool::Linker => self.link_args(),
        };
        let invocation = Invocation {
            program,
            args,
            capture_output: self.execution.captures_output(),
        };
        self.stage = Stage::Running(t);
        Action::RunTool(t, invocation)
    }

    fn after_manifest(&mut self, text: &str) -> (r: Action)
        ensures
            (final(self)@, r@) == spec_after_manifest(old(self)@, text@),
    {
        let manifest = match Manifest::parse(text) {
            Ok(m) => m,
            Err(e) => {
                return self.fail(e);
            },
        };
        let name = match self.execution.name(&manifest) {
            Ok(n) => n,
            Err(e) => {
                return self.fail(e);
            },
        };
        let version = match self.execution.version(&manifest) {
            Ok(v) => v,
            Err(e) => {
                return self.fail(e);
            },
        };
        self.name = name;
        self.version = version;
        match self.execution.locale_candidate() {
            Some(l) => {
                self.stage = Stage::CheckingLocale;
                Action::CheckLocale(l)
            },
            None => {
                self.locale = None;
                self.check_source()
            },
        }
    }

    fn after_source(&mut self, exists: bool, is_dir: bool) -> (r: Action)
        ensures
            (final(self)@, r@) == spec_after_source(old(self)@, exists, is_dir),
    {
        let source = match self.execution.wxs_source(exists, is_dir) {
            Ok(s) => s,
            Err(e) => {
                return self.fail(e);
            },
        };
        let object = self.execution.source_wixobj();
        let installer = self.execution.destination_msi(
            self.name.as_str(),
            self.version.as_str(),
            self.platform,
        );
        self.source = source;
        self.object = object;
        self.installer = installer;
        if self.execution.skips_build() {
            self.locate(Tool::Compiler)
        } else {
            self.stage = Stage::Building;
            Action::Build(build_invocation(self.execution.captures_output()))
        }
    }

    /// Answers the build's last action with `e`: the build moves on and gives
    /// its next action.
    pub fn advance(&mut self, e: Event) -> (r: Action)
        requires
            spec_accepts(old(self)@.stage, e@),
        ensures
            (final(self)@, r@) == spec_advance(old(self)@, e@),
    {
        match e {
            Event::Begin => {
                self.stage = Stage::ReadingManifest;
                Action::ReadManifest(self.execution.input_path())
            },
            Event::ManifestRead(text) => self.after_manifest(text.as_str()),
            Event::LocaleChecked(exists) => match self.execution.locale(exists) {
                Err(err) => self.fail(err),
                Ok(locale) => {
                    self.locale = locale;
                    self.check_source()
                },
            },
            Event::SourceChecked { exists, is_dir } => self.after_source(exists, is_dir),
            Event::BuildExited { success, code } => {
                if success {
                    self.locate(Tool::Compiler)
                } else {
                    let exit = match code {
                        Some(c) => c,
                        None => 100,
                    };
                    self.fail(BuildError::Command(CARGO, exit))
                }
            },
            Event::EnvironmentRead(env) => {
                let t = match self.stage {
                    Stage::ReadingEnvironment(t) => t,
                    _ => Tool::Compiler,
                };
                let candidate = match &env {
                    Some(value) => Some(environment_candidate(t, value.as_str())),
                    None => None,
                };
                self.wix_env = env;
                match candidate {
                    Some(c) => {
                        self.stage = Stage::CheckingTool(t);
                        Action::CheckTool(c)
                    },
                    None => self.run_tool(t, PathSpec::from_str(t.name())),
                }
            },
            Event::ToolChecked(exists) => {
                let t = match self.stage {
                    Stage::CheckingTool(t) => t,
                    _ => Tool::Compiler,
                };
                let found = match &self.wix_env {
                    Some(s) => self.execution.tool(t, Some(s.as_str()), exists),
                    None => self.execution.tool(t, None, exists),
                };
                match found {
                    Ok(program) => self.run_tool(t, program),
                    Err(err) => self.fail(err),
                }
            },
            Event::ToolExited { success, code } => {
                let t = match self.stage {
                    Stage::Running(t) => t,
                    _ => Tool::Compiler,
                };
                if !success {
                    let exit = match code {
                        Some(c) => c,
                        None => 100,
                    };
                    self.fail(BuildError::Command(t.name(), exit))
                } else {
                    match t {
                        Tool::Compiler => self.locate(Tool::Linker),
                        Tool::Linker => {
                            self.stage = Stage::Finished;
                            Action::Finish
                        },
                    }
                }
            },
            Event::ToolNotFound => {
                let t = match self.stage {
                    Stage::Running(t) => t,
                    _ => Tool::Compiler,
                };
                self.fail(BuildError::ToolNotInstalled(t))
            },
        }
    }
}

} // verus!
