use cargo_wix::error::BuildError;
use cargo_wix::message::MessagePart;
use cargo_wix::path::PathSpec;
use cargo_wix::wix::Tool;

fn render(err: &BuildError) -> String {
    let mut text = String::new();
    for part in err.message() {
        match part {
            MessagePart::Text(t) => text.push_str(&t),
            MessagePart::Path(p) => text.push_str(&p.parts.join("/")),
            MessagePart::Number(n) => text.push_str(&n.to_string()),
            MessagePart::Cause => text.push_str("<cause>"),
        }
    }
    text
}

fn path(parts: &[&str]) -> PathSpec {
    PathSpec { parts: parts.iter().map(|s| s.to_string()).collect() }
}

#[test]
fn compiler_not_installed_message() {
    assert_eq!(
        render(&BuildError::ToolNotInstalled(Tool::Compiler)),
        "The compiler application (candle) could not be found in the PATH environment \
         variable. Please check the WiX Toolset (http://wixtoolset.org/) is \
         installed and check the WiX Toolset's 'bin' folder has been added to the PATH \
         system environment variable, the WIX system environment variable exists, or use \
         the '-B,--bin-path' command line argument."
    );
}

#[test]
fn linker_not_installed_message() {
    assert_eq!(
        render(&BuildError::ToolNotInstalled(Tool::Linker)),
        "The linker application (light) could not be found in the PATH environment \
         variable. Please check the WiX Toolset (http://wixtoolset.org/) is \
         installed and check the WiX Toolset's 'bin' folder has been added to the PATH \
         environment variable, the WIX system environment variable exists, or use the \
         '-B,--bin-path' command line argument."
    );
}

#[test]
fn tool_missing_messages() {
    assert_eq!(
        render(&BuildError::ToolMissingFromBinPath(Tool::Compiler, path(&["D:", "wix"]))),
        "The compiler application ('candle') does not exist at the 'D:/wix' path specified via \
         the '-B, --bin-path' command line argument. Please check the path is correct and \
         the compiler application exists at the path."
    );
    assert_eq!(
        render(&BuildError::ToolMissingFromBinPath(Tool::Linker, path(&["D:"]))),
        "The linker application ('light') does not exist at the 'D:' path specified via \
         the '-B,--bin-path' command line argument. Please check the path is correct \
         and the linker application exists at the path."
    );
    assert_eq!(
        render(&BuildError::ToolMissingFromEnvironment(Tool::Linker, path(&["C:", "bin"]))),
        "The linker application ('light') does not exist at the 'C:/bin' path specified \
         via the WIX environment variable. Please check the path is correct and the \
         linker application exists at the path."
    );
}

#[test]
fn file_messages() {
    assert_eq!(
        render(&BuildError::LocaleMissing(path(&["x.wxl"]))),
        "The 'x.wxl' WiX localization file could not be found, or it does not exist. \
         Please check the path is correct and the file exists."
    );
    assert_eq!(
        render(&BuildError::SourceIsFolder(path(&["src"]))),
        "The 'src' path is not a file. Please check the path and ensure it is to \
         a WiX Source (wxs) file."
    );
    assert_eq!(
        render(&BuildError::SourceMissing(path(&["a.wxs"]))),
        "The 'a.wxs' file does not exist. Consider using the 'cargo wix --print-template \
         WXS > a.wxs' command to create it."
    );
    assert_eq!(
        render(&BuildError::DefaultSourceMissing(path(&["wix", "main.rs"]))),
        "The 'wix/main.rs' file does not exist. Consider using the 'cargo wix --init' command to \
         create it."
    );
}

#[test]
fn command_and_manifest_messages() {
    assert_eq!(
        render(&BuildError::Command("candle", 2)),
        "The 'candle' application failed with exit code = 2. Consider using the '--nocapture' \
         flag to obtain more information."
    );
    assert_eq!(
        render(&BuildError::Manifest("name")),
        "No 'name' field found in the package's manifest (Cargo.toml)"
    );
}
