use cargo_wix::create::{Builder, Execution};
use cargo_wix::error::BuildError;
use cargo_wix::manifest::Manifest;
use cargo_wix::path::PathSpec;
use cargo_wix::wix::{Cultures, Platform, Tool};

const MANIFEST: &str = "[package]\nname = \"Example\"\nversion = \"1.2.3\"\nauthors = [\"someone\"]\n";

fn parts(p: &PathSpec) -> Vec<&str> {
    p.parts.iter().map(|s| s.as_str()).collect()
}

fn manifest() -> Manifest {
    Manifest::parse(MANIFEST).unwrap()
}

#[test]
fn new_builder_has_the_defaults() {
    let e = Builder::new().build();
    assert!(e.captures_output());
    assert!(!e.skips_build());
    assert_eq!(e.culture(), Cultures::EnUs);
    assert!(!e.has_bin_path());
    assert!(e.input_path().is_none());
    assert!(e.locale_candidate().is_none());
}

#[test]
fn default_execution_is_a_new_builders_build() {
    let e = Execution::default();
    assert!(e.captures_output());
    assert!(!e.skips_build());
    assert_eq!(e.culture(), Cultures::EnUs);
    assert!(!e.has_bin_path());
    let b: Builder = Default::default();
    let mut b = b;
    let from_default = b.build();
    assert_eq!(from_default.captures_output(), e.captures_output());
}

#[test]
fn setters_reach_the_execution() {
    let mut b = Builder::new();
    b.bin_path(Some("C:\\WiX\\bin"))
        .capture_output(false)
        .culture(Cultures::FrFr)
        .input(Some("installer.wxs"))
        .name(Some("Renamed"))
        .no_build(true)
        .output(Some("out.msi"))
        .version(Some("2.0.0"));
    let b = b.locale(Some("fr.wxl"));
    let mut b = b;
    let e = b.build();
    assert!(!e.captures_output());
    assert!(e.skips_build());
    assert_eq!(e.culture(), Cultures::FrFr);
    assert!(e.has_bin_path());
    assert_eq!(parts(&e.input_path().unwrap()), vec!["installer.wxs"]);
    assert_eq!(parts(&e.locale_candidate().unwrap()), vec!["fr.wxl"]);
    assert_eq!(e.name(&manifest()).unwrap(), "Renamed");
    assert_eq!(e.version(&manifest()).unwrap(), "2.0.0");
    assert_eq!(parts(&e.destination_msi("Renamed", "2.0.0", Platform::X64)), vec!["out.msi"]);
    assert_eq!(
        parts(&e.compiler(Some("C:\\Other"), true).unwrap()),
        vec!["C:\\WiX\\bin", "candle.exe"]
    );
}

#[test]
fn a_setter_leaves_the_other_settings() {
    let mut b = Builder::new();
    b.no_build(true);
    let e = b.build();
    assert!(e.skips_build());
    assert!(e.captures_output());
    assert_eq!(e.culture(), Cultures::EnUs);
}

#[test]
fn manifest_gives_name_and_version() {
    let m = manifest();
    assert_eq!(m.package_name.as_deref(), Some("Example"));
    assert_eq!(m.package_version.as_deref(), Some("1.2.3"));
}

#[test]
fn manifest_without_package_fields() {
    let m = Manifest::parse("[dependencies]\nserde = \"1\"\n").unwrap();
    assert!(m.package_name.is_none());
    assert!(m.package_version.is_none());
    let m = Manifest::parse("[package]\nname = 3\n").unwrap();
    assert!(m.package_name.is_none());
}

#[test]
fn malformed_manifest_is_a_toml_error() {
    assert!(matches!(Manifest::parse("[package\nname ="), Err(BuildError::Toml(_))));
}

#[test]
fn name_comes_from_the_manifest() {
    let e = Builder::new().build();
    assert_eq!(e.name(&manifest()).unwrap(), "Example");
}

#[test]
fn missing_name_is_a_manifest_error() {
    let e = Builder::new().build();
    let m = Manifest::parse("[package]\nversion = \"1.0.0\"\n").unwrap();
    assert!(matches!(e.name(&m), Err(BuildError::Manifest("name"))));
}

#[test]
fn version_comes_from_the_manifest_in_display_form() {
    let e = Builder::new().build();
    assert_eq!(e.version(&manifest()).unwrap(), "1.2.3");
    let m = Manifest::parse("[package]\nversion = \"1.0.0-beta.2+build.5\"\n").unwrap();
    assert_eq!(e.version(&m).unwrap(), "1.0.0-beta.2+build.5");
}

#[test]
fn version_that_is_no_semver_is_a_version_error() {
    let mut b = Builder::new();
    b.version(Some("1.2"));
    let e = b.build();
    assert!(matches!(e.version(&manifest()), Err(BuildError::Version(_))));
}

#[test]
fn missing_version_is_a_manifest_error() {
    let e = Builder::new().build();
    let m = Manifest::parse("[package]\nname = \"x\"\n").unwrap();
    assert!(matches!(e.version(&m), Err(BuildError::Manifest("version"))));
}

#[test]
fn destination_follows_name_version_arch() {
    let e = Builder::new().build();
    assert_eq!(
        parts(&e.destination_msi("Example", "1.2.3", Platform::X64)),
        vec!["target", "wix", "Example-1.2.3-x86_64.msi"]
    );
    assert_eq!(
        parts(&e.destination_msi("Example", "1.2.3", Platform::X86)),
        vec!["target", "wix", "Example-1.2.3-i686.msi"]
    );
}

#[test]
fn object_file_is_in_target_wix() {
    let e = Builder::new().build();
    assert_eq!(parts(&e.source_wixobj()), vec!["target", "wix", "main.wixobj"]);
}

#[test]
fn default_source_is_wix_main_rs() {
    let e = Builder::new().build();
    assert_eq!(parts(&e.source_candidate()), vec!["wix", "main.rs"]);
    assert_eq!(parts(&e.wxs_source(true, false).unwrap()), vec!["wix", "main.rs"]);
    match e.wxs_source(false, false) {
        Err(BuildError::DefaultSourceMissing(p)) => assert_eq!(parts(&p), vec!["wix", "main.rs"]),
        other => panic!("unexpected {:?}", other),
    }
}

#[test]
fn given_source_must_be_an_existing_file() {
    let mut b = Builder::new();
    b.input(Some("my.wxs"));
    let e = b.build();
    assert_eq!(parts(&e.wxs_source(true, false).unwrap()), vec!["my.wxs"]);
    assert!(matches!(e.wxs_source(false, false), Err(BuildError::SourceMissing(_))));
    assert!(matches!(e.wxs_source(true, true), Err(BuildError::SourceIsFolder(_))));
}

#[test]
fn locale_must_exist_when_set() {
    let e = Builder::new().build();
    assert!(e.locale(false).unwrap().is_none());
    let e = Builder::new().locale(Some("es.wxl")).build();
    assert_eq!(parts(&e.locale(true).unwrap().unwrap()), vec!["es.wxl"]);
    match e.locale(false) {
        Err(BuildError::LocaleMissing(p)) => assert_eq!(parts(&p), vec!["es.wxl"]),
        other => panic!("unexpected {:?}", other),
    }
}

#[test]
fn tools_are_found_through_the_environment() {
    let e = Builder::new().build();
    assert_eq!(
        parts(&e.compiler(Some("C:\\WiX"), true).unwrap()),
        vec!["C:\\WiX", "bin", "candle.exe"]
    );
    assert_eq!(
        parts(&e.linker(Some("C:\\WiX"), true).unwrap()),
        vec!["C:\\WiX", "bin", "light.exe"]
    );
    match e.linker(Some("C:\\WiX"), false) {
        Err(BuildError::ToolMissingFromEnvironment(Tool::Linker, p)) => {
            assert_eq!(parts(&p), vec!["C:\\WiX", "bin"])
        }
        other => panic!("unexpected {:?}", other),
    }
    assert_eq!(parts(&e.compiler(None, false).unwrap()), vec!["candle"]);
    assert_eq!(parts(&e.linker(None, false).unwrap()), vec!["light"]);
}

#[test]
fn bin_path_overrides_the_environment() {
    let mut b = Builder::new();
    b.bin_path(Some("D:\\tools"));
    let e = b.build();
    assert_eq!(parts(&e.linker(Some("C:\\WiX"), true).unwrap()), vec!["D:\\tools", "light.exe"]);
    match e.compiler(Some("C:\\WiX"), false) {
        Err(BuildError::ToolMissingFromBinPath(Tool::Compiler, p)) => {
            assert_eq!(parts(&p), vec!["D:\\tools"])
        }
        other => panic!("unexpected {:?}", other),
    }
    assert!(e.tool_candidate(Tool::Compiler, None).is_some());
}

#[test]
fn platform_follows_the_target() {
    let e = Builder::new().build();
    assert_eq!(e.platform(true), Platform::X64);
    assert_eq!(e.platform(false), Platform::X86);
    assert_eq!(Platform::X64.arch(), "x86_64");
    assert_eq!(Platform::X86.arch(), "i686");
    assert_eq!(Platform::X64.name(), "x64");
    assert_eq!(Platform::X86.name(), "x86");
}

#[test]
fn culture_codes() {
    assert_eq!(Cultures::EnUs.code(), "en-US");
    assert_eq!(Cultures::SrLatnCs.code(), "sr-Latn-CS");
    assert_eq!(Cultures::ZhTw.code(), "zh-TW");
    assert_eq!(Cultures::PtBr.code(), "pt-BR");
}

#[test]
fn tool_names() {
    assert_eq!(Tool::Compiler.name(), "candle");
    assert_eq!(Tool::Linker.name(), "light");
}
