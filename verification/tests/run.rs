use cargo_wix::create::{Builder, Execution};
use cargo_wix::error::BuildError;
use cargo_wix::path::PathSpec;
use cargo_wix::run::{Action, Arg, Event, Invocation, Run, Stage};
use cargo_wix::wix::{Cultures, Tool};

const MANIFEST: &str = "[package]\nname = \"Example\"\nversion = \"1.2.3\"\n";

fn parts(p: &PathSpec) -> Vec<String> {
    p.parts.clone()
}

fn args(i: &Invocation) -> Vec<String> {
    i.args
        .iter()
        .map(|a| match a {
            Arg::Text(t) => t.clone(),
            Arg::Path(p) => format!("<{}>", p.parts.join("|")),
        })
        .collect()
}

fn step(run: &mut Run, e: Event) -> Action {
    assert!(run.accepts(&e));
    run.advance(e)
}

fn success() -> Event {
    Event::ToolExited { success: true, code: Some(0) }
}

/// Runs a build until it runs the compiler, answering every check with "found".
fn run_to_compiler(e: Execution, env: Option<&str>) -> (Run, Invocation) {
    let mut run = e.run(true);
    let mut action = step(&mut run, Event::Begin);
    loop {
        action = match action {
            Action::ReadManifest(_) => step(&mut run, Event::ManifestRead(MANIFEST.to_string())),
            Action::CheckLocale(_) => step(&mut run, Event::LocaleChecked(true)),
            Action::CheckSource(_) => {
                step(&mut run, Event::SourceChecked { exists: true, is_dir: false })
            }
            Action::Build(_) => step(&mut run, Event::BuildExited { success: true, code: Some(0) }),
            Action::ReadEnvironment(_) => {
                step(&mut run, Event::EnvironmentRead(env.map(|s| s.to_string())))
            }
            Action::CheckTool(_) => step(&mut run, Event::ToolChecked(true)),
            Action::RunTool(Tool::Compiler, i) => return (run, i),
            other => panic!("unexpected {:?}", other),
        }
    }
}

#[test]
fn full_build_runs_cargo_then_candle_then_light() {
    let mut run = Builder::new().build().run(true);
    match step(&mut run, Event::Begin) {
        Action::ReadManifest(None) => {}
        other => panic!("unexpected {:?}", other),
    }
    match step(&mut run, Event::ManifestRead(MANIFEST.to_string())) {
        Action::CheckSource(p) => assert_eq!(parts(&p), vec!["wix", "main.rs"]),
        other => panic!("unexpected {:?}", other),
    }
    match step(&mut run, Event::SourceChecked { exists: true, is_dir: false }) {
        Action::Build(i) => {
            assert_eq!(parts(&i.program), vec!["cargo"]);
            assert_eq!(args(&i), vec!["build", "--release"]);
            assert!(i.capture_output);
        }
        other => panic!("unexpected {:?}", other),
    }
    match step(&mut run, Event::BuildExited { success: true, code: Some(0) }) {
        Action::ReadEnvironment(key) => assert_eq!(key, "WIX"),
        other => panic!("unexpected {:?}", other),
    }
    match step(&mut run, Event::EnvironmentRead(None)) {
        Action::RunTool(Tool::Compiler, i) => {
            assert_eq!(parts(&i.program), vec!["candle"]);
            assert_eq!(
                args(&i),
                vec![
                    "-dVersion=1.2.3",
                    "-dPlatform=x64",
                    "-o",
                    "<target|wix|main.wixobj>",
                    "<wix|main.rs>"
                ]
            );
        }
        other => panic!("unexpected {:?}", other),
    }
    match step(&mut run, success()) {
        Action::ReadEnvironment(_) => {}
        other => panic!("unexpected {:?}", other),
    }
    match step(&mut run, Event::EnvironmentRead(Some("C:\\WiX".to_string()))) {
        Action::CheckTool(p) => assert_eq!(parts(&p), vec!["C:\\WiX", "bin", "light.exe"]),
        other => panic!("unexpected {:?}", other),
    }
    match step(&mut run, Event::ToolChecked(true)) {
        Action::RunTool(Tool::Linker, i) => {
            assert_eq!(parts(&i.program), vec!["C:\\WiX", "bin", "light.exe"]);
            assert_eq!(
                args(&i),
                vec![
                    "-ext",
                    "WixUIExtension",
                    "-cultures:en-US",
                    "<target|wix|main.wixobj>",
                    "-out",
                    "<target|wix|Example-1.2.3-x86_64.msi>"
                ]
            );
        }
        other => panic!("unexpected {:?}", other),
    }
    assert!(matches!(step(&mut run, success()), Action::Finish));
    assert_eq!(run.stage(), Stage::Finished);
    assert!(!run.accepts(&Event::Begin));
    assert!(!run.accepts(&success()));
}

#[test]
fn skipped_build_goes_straight_to_the_compiler() {
    let mut b = Builder::new();
    b.no_build(true).capture_output(false);
    let mut run = b.build().run(false);
    step(&mut run, Event::Begin);
    step(&mut run, Event::ManifestRead(MANIFEST.to_string()));
    match step(&mut run, Event::SourceChecked { exists: true, is_dir: false }) {
        Action::ReadEnvironment(_) => {}
        other => panic!("unexpected {:?}", other),
    }
    match step(&mut run, Event::EnvironmentRead(None)) {
        Action::RunTool(Tool::Compiler, i) => {
            assert!(!i.capture_output);
            assert_eq!(args(&i)[1], "-dPlatform=x86");
        }
        other => panic!("unexpected {:?}", other),
    }
}

#[test]
fn locale_name_output_and_culture_reach_the_linker() {
    let mut b = Builder::new();
    b.bin_path(Some("D:\\wix"))
        .culture(Cultures::DeDe)
        .name(Some("Product"))
        .version(Some("0.3.0"))
        .input(Some("Cargo.toml"));
    let b = b.locale(Some("de.wxl"));
    let mut b = b;
    let mut run = b.build().run(true);
    match step(&mut run, Event::Begin) {
        Action::ReadManifest(Some(p)) => assert_eq!(parts(&p), vec!["Cargo.toml"]),
        other => panic!("unexpected {:?}", other),
    }
    match step(&mut run, Event::ManifestRead(MANIFEST.to_string())) {
        Action::CheckLocale(p) => assert_eq!(parts(&p), vec!["de.wxl"]),
        other => panic!("unexpected {:?}", other),
    }
    match step(&mut run, Event::LocaleChecked(true)) {
        Action::CheckSource(p) => assert_eq!(parts(&p), vec!["Cargo.toml"]),
        other => panic!("unexpected {:?}", other),
    }
    step(&mut run, Event::SourceChecked { exists: true, is_dir: false });
    match step(&mut run, Event::BuildExited { success: true, code: Some(0) }) {
        Action::CheckTool(p) => assert_eq!(parts(&p), vec!["D:\\wix", "candle.exe"]),
        other => panic!("unexpected {:?}", other),
    }
    match step(&mut run, Event::ToolChecked(true)) {
        Action::RunTool(Tool::Compiler, i) => assert_eq!(args(&i)[0], "-dVersion=0.3.0"),
        other => panic!("unexpected {:?}", other),
    }
    match step(&mut run, success()) {
        Action::CheckTool(p) => assert_eq!(parts(&p), vec!["D:\\wix", "light.exe"]),
        other => panic!("unexpected {:?}", other),
    }
    match step(&mut run, Event::ToolChecked(true)) {
        Action::RunTool(Tool::Linker, i) => assert_eq!(
            args(&i),
            vec![
                "-loc",
                "<de.wxl>",
                "-ext",
                "WixUIExtension",
                "-cultures:de-DE",
                "<target|wix|main.wixobj>",
                "-out",
                "<target|wix|Product-0.3.0-x86_64.msi>"
            ]
        ),
        other => panic!("unexpected {:?}", other),
    }
}

#[test]
fn failed_release_build_stops_with_its_exit_code() {
    let mut run = Builder::new().build().run(true);
    step(&mut run, Event::Begin);
    step(&mut run, Event::ManifestRead(MANIFEST.to_string()));
    step(&mut run, Event::SourceChecked { exists: true, is_dir: false });
    assert!(matches!(
        step(&mut run, Event::BuildExited { success: false, code: None }),
        Action::Fail(BuildError::Command("cargo", 100))
    ));
    assert_eq!(run.stage(), Stage::Failed);
}

#[test]
fn failed_compiler_stops_with_its_exit_code() {
    let (mut run, _) = run_to_compiler(Builder::new().build(), None);
    assert!(matches!(
        step(&mut run, Event::ToolExited { success: false, code: Some(2) }),
        Action::Fail(BuildError::Command("candle", 2))
    ));
}

#[test]
fn compiler_not_installed() {
    let (mut run, _) = run_to_compiler(Builder::new().build(), None);
    assert!(matches!(
        step(&mut run, Event::ToolNotFound),
        Action::Fail(BuildError::ToolNotInstalled(Tool::Compiler))
    ));
}

#[test]
fn missing_compiler_under_the_environment_folder() {
    let mut run = Builder::new().build().run(true);
    step(&mut run, Event::Begin);
    step(&mut run, Event::ManifestRead(MANIFEST.to_string()));
    step(&mut run, Event::SourceChecked { exists: true, is_dir: false });
    step(&mut run, Event::BuildExited { success: true, code: Some(0) });
    step(&mut run, Event::EnvironmentRead(Some("C:\\WiX".to_string())));
    match step(&mut run, Event::ToolChecked(false)) {
        Action::Fail(BuildError::ToolMissingFromEnvironment(Tool::Compiler, p)) => {
            assert_eq!(parts(&p), vec!["C:\\WiX", "bin"])
        }
        other => panic!("unexpected {:?}", other),
    }
}

#[test]
fn missing_manifest_fields_stop_the_build() {
    let mut run = Builder::new().build().run(true);
    step(&mut run, Event::Begin);
    assert!(matches!(
        step(&mut run, Event::ManifestRead("[package]\nversion = \"1.0.0\"\n".to_string())),
        Action::Fail(BuildError::Manifest("name"))
    ));
    let mut run = Builder::new().build().run(true);
    step(&mut run, Event::Begin);
    assert!(matches!(
        step(&mut run, Event::ManifestRead("not toml [".to_string())),
        Action::Fail(BuildError::Toml(_))
    ));
}

#[test]
fn missing_locale_and_source_stop_the_build() {
    let mut run = Builder::new().locale(Some("x.wxl")).build().run(true);
    step(&mut run, Event::Begin);
    step(&mut run, Event::ManifestRead(MANIFEST.to_string()));
    assert!(matches!(
        step(&mut run, Event::LocaleChecked(false)),
        Action::Fail(BuildError::LocaleMissing(_))
    ));
    let mut run = Builder::new().build().run(true);
    step(&mut run, Event::Begin);
    step(&mut run, Event::ManifestRead(MANIFEST.to_string()));
    assert!(matches!(
        step(&mut run, Event::SourceChecked { exists: false, is_dir: false }),
        Action::Fail(BuildError::DefaultSourceMissing(_))
    ));
}

#[test]
fn wrong_event_is_not_accepted() {
    let run = Builder::new().build().run(true);
    assert!(run.accepts(&Event::Begin));
    assert!(!run.accepts(&Event::ToolNotFound));
    assert_eq!(run.stage(), Stage::Start);
}

#[test]
fn first_failing_check_wins_and_nothing_runs() {
    let mut run = Builder::new().locale(Some("missing.wxl")).build().run(true);
    let mut actions = vec![step(&mut run, Event::Begin)];
    actions.push(step(&mut run, Event::ManifestRead("[package]\n".to_string())));
    assert!(matches!(actions.last(), Some(Action::Fail(BuildError::Manifest("name")))));
    assert!(!run.accepts(&Event::LocaleChecked(false)));
    assert!(!run.accepts(&Event::SourceChecked { exists: false, is_dir: false }));
    assert!(actions
        .iter()
        .all(|a| !matches!(a, Action::Build(_)) && !matches!(a, Action::RunTool(_, _))));
}
