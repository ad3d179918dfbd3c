use vstd::prelude::*;

use crate::create::{
    default_settings,
    spec_exe_name, spec_installer, spec_installer_name, spec_locale, spec_object,
    spec_package_name, spec_package_version, spec_source, spec_tool_program, Settings,
};
use crate::error::Failure;
use crate::laws::{given_source, lemma_default_source, reachable_shape};
use crate::run::{
    spec_accepts, spec_advance, spec_build_invocation, spec_exit_code, ActionView, ArgView,
    EventView, RunView, Stage,
};
use crate::message::{spec_message, PartView};
use crate::version::semver_display;
use crate::manifest::{manifest_name, manifest_version, toml_table_string};
use crate::wix::{spec_arch, spec_culture_code, spec_platform_name, spec_tool_name, Cultures, Platform, Tool};

verus! {

/// Each culture is linked under its own language-region tag: the table of
/// the tags.
pub proof fn culture_codes_are_their_tags()
    ensures
        spec_culture_code(Cultures::ArSa) == "ar-SA"@,
        spec_culture_code(Cultures::BgBg) == "bg-BG"@,
        spec_culture_code(Cultures::CaEs) == "ca-ES"@,
        spec_culture_code(Cultures::HrHr) == "hr-HR"@,
        spec_culture_code(Cultures::CsCz) == "cs-CZ"@,
        spec_culture_code(Cultures::DaDk) == "da-DK"@,
        spec_culture_code(Cultures::NlNl) == "nl-NL"@,
        spec_culture_code(Cultures::EnUs) == "en-US"@,
        spec_culture_code(Cultures::EtEe) == "et-EE"@,
        spec_culture_code(Cultures::FiFi) == "fi-FI"@,
        spec_culture_code(Cultures::FrFr) == "fr-FR"@,
        spec_culture_code(Cultures::DeDe) == "de-DE"@,
        spec_culture_code(Cultures::ElGr) == "el-GR"@,
        spec_culture_code(Cultures::HeIl) == "he-IL"@,
        spec_culture_code(Cultures::HiIn) == "hi-IN"@,
        spec_culture_code(Cultures::HuHu) == "hu-HU"@,
        spec_culture_code(Cultures::ItIt) == "it-IT"@,
        spec_culture_code(Cultures::JaJp) == "ja-JP"@,
        spec_culture_code(Cultures::KkKz) == "kk-KZ"@,
        spec_culture_code(Cultures::KoKr) == "ko-KR"@,
        spec_culture_code(Cultures::LvLv) == "lv-LV"@,
        spec_culture_code(Cultures::LtLt) == "lt-LT"@,
        spec_culture_code(Cultures::NbNo) == "nb-NO"@,
        spec_culture_code(Cultures::PlPl) == "pl-PL"@,
        spec_culture_code(Cultures::PtBr) == "pt-BR"@,
        spec_culture_code(Cultures::PtPt) == "pt-PT"@,
        spec_culture_code(Cultures::RoRo) == "ro-RO"@,
        spec_culture_code(Cultures::RuRu) == "ru-RU"@,
        spec_culture_code(Cultures::SrLatnCs) == "sr-Latn-CS"@,
        spec_culture_code(Cultures::ZhCn) == "zh-CN"@,
        spec_culture_code(Cultures::SkSk) == "sk-SK"@,
        spec_culture_code(Cultures::SlSi) == "sl-SI"@,
        spec_culture_code(Cultures::EsEs) == "es-ES"@,
        spec_culture_code(Cultures::SvSe) == "sv-SE"@,
        spec_culture_code(Cultures::ThTh) == "th-TH"@,
        spec_culture_code(Cultures::ZhHk) == "zh-HK"@,
        spec_culture_code(Cultures::ZhTw) == "zh-TW"@,
        spec_culture_code(Cultures::TrTr) == "tr-TR"@,
        spec_culture_code(Cultures::UkUa) == "uk-UA"@,
{
    reveal_strlit("ar-SA");
    reveal_strlit("bg-BG");
    reveal_strlit("ca-ES");
    reveal_strlit("hr-HR");
    reveal_strlit("cs-CZ");
    reveal_strlit("da-DK");
    reveal_strlit("nl-NL");
    reveal_strlit("en-US");
    reveal_strlit("et-EE");
    reveal_strlit("fi-FI");
    reveal_strlit("fr-FR");
    reveal_strlit("de-DE");
    reveal_strlit("el-GR");
    reveal_strlit("he-IL");
    reveal_strlit("hi-IN");
    reveal_strlit("hu-HU");
    reveal_strlit("it-IT");
    reveal_strlit("ja-JP");
    reveal_strlit("kk-KZ");
    reveal_strlit("ko-KR");
    reveal_strlit("lv-LV");
    reveal_strlit("lt-LT");
    reveal_strlit("nb-NO");
    reveal_strlit("pl-PL");
    reveal_strlit("pt-BR");
    reveal_strlit("pt-PT");
    reveal_strlit("ro-RO");
    reveal_strlit("ru-RU");
    reveal_strlit("sr-Latn-CS");
    reveal_strlit("zh-CN");
    reveal_strlit("sk-SK");
    reveal_strlit("sl-SI");
    reveal_strlit("es-ES");
    reveal_strlit("sv-SE");
    reveal_strlit("th-TH");
    reveal_strlit("zh-HK");
    reveal_strlit("zh-TW");
    reveal_strlit("tr-TR");
    reveal_strlit("uk-UA");
}

/// Five marks of a code (its length and the characters around its first
/// dash) that tell every culture's code apart.
pub open spec fn code_key(s: Seq<char>) -> int {
    s.len() * 268435456 + (s[0] as int) * 2097152 + (s[1] as int) * 16384 + (s[3] as int) * 128 + (
    s[4] as int)
}

/// The key of each culture's code.
pub open spec fn culture_key(c: Cultures) -> int {
    match c {
        Cultures::ArSa => 1547479489,
        Cultures::BgBg => 1549394247,
        Cultures::CaEs => 1551393491,
        Cultures::HrHr => 1562158162,
        Cultures::CsCz => 1551688154,
        Cultures::DaDk => 1553490507,
        Cultures::NlNl => 1574643532,
        Cultures::EnUs => 1555802835,
        Cultures::EtEe => 1555899077,
        Cultures::FiFi => 1557816137,
        Cultures::FrFr => 1557963602,
        Cultures::DeDe => 1553556037,
        Cultures::ElGr => 1555768274,
        Cultures::HeIl => 1561945292,
        Cultures::HiIn => 1562010830,
        Cultures::HuHu => 1562207317,
        Cultures::ItIt => 1564288212,
        Cultures::JaJp => 1566074192,
        Cultures::KkKz => 1568335322,
        Cultures::KoKr => 1568400850,
        Cultures::LvLv => 1570612822,
        Cultures::LtLt => 1570580052,
        Cultures::NbNo => 1574479695,
        Cultures::PlPl => 1578838092,
        Cultures::PtBr => 1578967378,
        Cultures::PtPt => 1578969172,
        Cultures::RoRo => 1583081807,
        Cultures::RuRu => 1583180117,
        Cultures::SrLatnCs => 2927404641,
        Cultures::ZhCn => 1599742414,
        Cultures::SkSk => 1585113547,
        Cultures::SlSi => 1585129929,
        Cultures::EsEs => 1555882707,
        Cultures::SvSe => 1585293765,
        Cultures::ThTh => 1587161672,
        Cultures::ZhHk => 1599743051,
        Cultures::ZhTw => 1599744599,
        Cultures::TrTr => 1587325522,
        Cultures::UkUa => 1589308097,
    }
}

proof fn lemma_code_key(c: Cultures)
    ensures
        code_key(spec_culture_code(c)) == culture_key(c),
{
    match c {
        Cultures::ArSa => {
            reveal_strlit("ar-SA");
        },
        Cultures::BgBg => {
            reveal_strlit("bg-BG");
        },
        Cultures::CaEs => {
            reveal_strlit("ca-ES");
        },
        Cultures::HrHr => {
            reveal_strlit("hr-HR");
        },
        Cultures::CsCz => {
            reveal_strlit("cs-CZ");
        },
        Cultures::DaDk => {
            reveal_strlit("da-DK");
        },
        Cultures::NlNl => {
            reveal_strlit("nl-NL");
        },
        Cultures::EnUs => {
            reveal_strlit("en-US");
        },
        Cultures::EtEe => {
            reveal_strlit("et-EE");
        },
        Cultures::FiFi => {
            reveal_strlit("fi-FI");
        },
        Cultures::FrFr => {
            reveal_strlit("fr-FR");
        },
        Cultures::DeDe => {
            reveal_strlit("de-DE");
        },
        Cultures::ElGr => {
            reveal_strlit("el-GR");
        },
        Cultures::HeIl => {
            reveal_strlit("he-IL");
        },
        Cultures::HiIn => {
            reveal_strlit("hi-IN");
        },
        Cultures::HuHu => {
            reveal_strlit("hu-HU");
        },
        Cultures::ItIt => {
            reveal_strlit("it-IT");
        },
        Cultures::JaJp => {
            reveal_strlit("ja-JP");
        },
        Cultures::KkKz => {
            reveal_strlit("kk-KZ");
        },
        Cultures::KoKr => {
            reveal_strlit("ko-KR");
        },
        Cultures::LvLv => {
            reveal_strlit("lv-LV");
        },
        Cultures::LtLt => {
            reveal_strlit("lt-LT");
        },
        Cultures::NbNo => {
            reveal_strlit("nb-NO");
        },
        Cultures::PlPl => {
            reveal_strlit("pl-PL");
        },
        Cultures::PtBr => {
            reveal_strlit("pt-BR");
        },
        Cultures::PtPt => {
            reveal_strlit("pt-PT");
        },
        Cultures::RoRo => {
            reveal_strlit("ro-RO");
        },
        Cultures::RuRu => {
            reveal_strlit("ru-RU");
        },
        Cultures::SrLatnCs => {
            reveal_strlit("sr-Latn-CS");
        },
        Cultures::ZhCn => {
            reveal_strlit("zh-CN");
        },
        Cultures::SkSk => {
            reveal_strlit("sk-SK");
        },
        Cultures::SlSi => {
            reveal_strlit("sl-SI");
        },
        Cultures::EsEs => {
            reveal_strlit("es-ES");
        },
        Cultures::SvSe => {
            reveal_strlit("sv-SE");
        },
        Cultures::ThTh => {
            reveal_strlit("th-TH");
        },
        Cultures::ZhHk => {
            reveal_strlit("zh-HK");
        },
        Cultures::ZhTw => {
            reveal_strlit("zh-TW");
        },
        Cultures::TrTr => {
            reveal_strlit("tr-TR");
        },
        Cultures::UkUa => {
            reveal_strlit("uk-UA");
        },
    }
}

/// No two cultures are linked under the same code.
pub proof fn culture_codes_distinct(a: Cultures, b: Cultures)
    requires
        spec_culture_code(a) == spec_culture_code(b),
    ensures
        a == b,
{
    lemma_code_key(a);
    lemma_code_key(b);
}

/// The product is named by the name set; else by the manifest's
/// `package.name`, whole and unchanged; else the build fails for want of a name.
pub proof fn product_name_law(s: Settings, from_manifest: Option<Seq<char>>)
    ensures
        s.name matches Some(n) ==> spec_package_name(s, from_manifest) == Ok::<Seq<char>, Failure>(n),
        s.name is None && from_manifest is Some ==> spec_package_name(s, from_manifest) == Ok::<
            Seq<char>,
            Failure,
        >(from_manifest->0),
        s.name is None && from_manifest is None ==> spec_package_name(s, from_manifest) == Err::<
            Seq<char>,
            Failure,
        >(Failure::Manifest("name"@)),
{
}

/// The product's version is the version set, else the manifest's
/// `package.version`, in the display form that `semver` gives it; the build
/// fails where there is none or it is no semantic version.
pub proof fn product_version_law(s: Settings, from_manifest: Option<Seq<char>>)
    ensures
        s.version matches Some(v) ==> spec_package_version(s, from_manifest) == (match semver_display(v) {
            Some(d) => Ok::<Seq<char>, Failure>(d),
            None => Err(Failure::Version),
        }),
        s.version is None && from_manifest is Some ==> spec_package_version(s, from_manifest) == (
        match semver_display(from_manifest->0) {
            Some(d) => Ok::<Seq<char>, Failure>(d),
            None => Err(Failure::Version),
        }),
        s.version is None && from_manifest is None ==> spec_package_version(s, from_manifest)
            == Err::<Seq<char>, Failure>(Failure::Manifest("version"@)),
{
}

/// The architecture named in an installer's file name.
pub open spec fn arch_text(p: Platform) -> Seq<char> {
    if p == Platform::X64 {
        "x86_64"@
    } else {
        "i686"@
    }
}

/// The platform named to the compiler.
pub open spec fn platform_text(p: Platform) -> Seq<char> {
    if p == Platform::X64 {
        "x64"@
    } else {
        "x86"@
    }
}

/// The platforms' names.
pub proof fn platform_names()
    ensures
        spec_arch(Platform::X64) == "x86_64"@,
        spec_arch(Platform::X86) == "i686"@,
        spec_platform_name(Platform::X64) == "x64"@,
        spec_platform_name(Platform::X86) == "x86"@,
        forall|p: Platform| spec_arch(p) == arch_text(p) && spec_platform_name(p) == platform_text(p),
{
}

/// The installer is the output set, else `target/wix/<name>-<version>-<arch>.msi`,
/// whose file name starts with the whole product name and a dash.
pub proof fn installer_law(s: Settings, name: Seq<char>, version: Seq<char>, p: Platform)
    ensures
        s.output matches Some(o) ==> spec_installer(s, name, version, p) == seq![o],
        s.output is None ==> spec_installer(s, name, version, p) == seq![
            "target"@,
            "wix"@,
            name + "-"@ + version + "-"@ + arch_text(p) + ".msi"@,
        ],
        spec_installer_name(name, version, p).len() > name.len(),
        spec_installer_name(name, version, p).subrange(0, name.len() as int) == name,
        spec_installer_name(name, version, p)[name.len() as int] == '-',
{
    reveal_strlit("-");
    let f = spec_installer_name(name, version, p);
    assert(f == name + ("-"@ + version + "-"@ + arch_text(p) + ".msi"@));
    assert(f.subrange(0, name.len() as int) =~= name);
}

/// The object file is `target/wix/main.wixobj`.
pub proof fn object_law()
    ensures
        spec_object() == seq!["target"@, "wix"@, "main.wixobj"@],
{
    reveal_strlit("main.wixobj");
    reveal_strlit("main");
    reveal_strlit(".");
    reveal_strlit("wixobj");
    assert(spec_object()[2] =~= "main.wixobj"@);
    assert(spec_object() =~= seq!["target"@, "wix"@, "main.wixobj"@]);
}

/// The WiX applications and their executables.
pub open spec fn tool_text(t: Tool) -> Seq<char> {
    if t == Tool::Compiler {
        "candle"@
    } else {
        "light"@
    }
}

/// The file name of a WiX application's executable.
pub open spec fn exe_text(t: Tool) -> Seq<char> {
    if t == Tool::Compiler {
        "candle.exe"@
    } else {
        "light.exe"@
    }
}

/// The compiler is `candle` (`candle.exe`), the linker `light` (`light.exe`).
pub proof fn tool_names(t: Tool)
    ensures
        spec_tool_name(t) == tool_text(t),
        spec_exe_name(t) == exe_text(t),
{
    reveal_strlit("candle");
    reveal_strlit("light");
    reveal_strlit("candle.exe");
    reveal_strlit("light.exe");
    reveal_strlit(".");
    reveal_strlit("exe");
    assert(spec_exe_name(t) =~= exe_text(t));
}

/// Where a WiX application is run from: `<bin>/<exe>` with a `bin` folder set,
/// else `<WIX>/bin/<exe>` with the environment's folder, else its bare name;
/// where the file looked for is missing, the build fails naming its folder.
pub proof fn tool_program_law(
    bin_path: Option<Seq<char>>,
    wix_env: Option<Seq<char>>,
    t: Tool,
    exists: bool,
)
    ensures
        bin_path matches Some(b) ==> spec_tool_program(bin_path, wix_env, t, exists) == (if exists {
            Ok::<Seq<Seq<char>>, Failure>(seq![b, exe_text(t)])
        } else {
            Err(Failure::ToolMissingFromBinPath(t, seq![b]))
        }),
        bin_path is None && wix_env is Some ==> spec_tool_program(bin_path, wix_env, t, exists) == (
        if exists {
            Ok::<Seq<Seq<char>>, Failure>(seq![wix_env->0, "bin"@, exe_text(t)])
        } else {
            Err(Failure::ToolMissingFromEnvironment(t, seq![wix_env->0, "bin"@]))
        }),
        bin_path is None && wix_env is None ==> spec_tool_program(bin_path, wix_env, t, exists) == Ok::<
            Seq<Seq<char>>,
            Failure,
        >(seq![tool_text(t)]),
{
    tool_names(t);
    if let Some(b) = bin_path {
        assert(seq![b, exe_text(t)].drop_last() =~= seq![b]);
    } else if let Some(e) = wix_env {
        assert(seq![e, "bin"@, exe_text(t)].drop_last() =~= seq![e, "bin"@]);
    }
}

/// Found through the environment's folder `e` (no `bin` folder set), a WiX
/// application is looked for at `e/bin/<exe>` and, once found there, run from
/// there; where it is missing there, the build fails naming `e/bin`; with no
/// environment folder it is run by its bare name.
pub proof fn environment_tool_law(v: RunView, t: Tool, exists: bool, env: Option<Seq<char>>)
    requires
        v.settings.bin_path is None,
    ensures
        v.stage == Stage::ReadingEnvironment(t) && env is Some ==> spec_advance(
            v,
            EventView::EnvironmentRead(env),
        ).1 == ActionView::CheckTool(seq![env->0, "bin"@, exe_text(t)]),
        v.stage == Stage::ReadingEnvironment(t) && env is None ==> (spec_advance(
            v,
            EventView::EnvironmentRead(env),
        ).1 matches ActionView::RunTool(u, i) && u == t && i.program == seq![tool_text(t)]),
        v.stage == Stage::CheckingTool(t) && v.wix_env is Some && exists ==> (spec_advance(
            v,
            EventView::ToolChecked(exists),
        ).1 matches ActionView::RunTool(u, i) && u == t && i.program == seq![
            v.wix_env->0,
            "bin"@,
            exe_text(t),
        ]),
        v.stage == Stage::CheckingTool(t) && v.wix_env is Some && !exists ==> spec_advance(
            v,
            EventView::ToolChecked(exists),
        ).1 == ActionView::Fail(Failure::ToolMissingFromEnvironment(t, seq![v.wix_env->0, "bin"@])),
{
    tool_names(t);
    tool_program_law(None, env, t, exists);
    tool_program_law(None, v.wix_env, t, exists);
}

/// The release build is `cargo build --release`, its output captured as set.
pub proof fn build_invocation_law(capture: bool)
    ensures
        spec_build_invocation(capture).program == seq!["cargo"@],
        spec_build_invocation(capture).args == seq![
            ArgView::Text("build"@),
            ArgView::Text("--release"@),
        ],
        spec_build_invocation(capture).capture_output == capture,
{
}

/// An application that fails is reported with its exit code, or 100 where it
/// gave none.
pub proof fn exit_code_law(code: Option<i32>)
    ensures
        code matches Some(c) ==> spec_exit_code(code) == c,
        code is None ==> spec_exit_code(code) == 100,
{
}

/// In every reachable build, the compiler is told the version and platform,
/// to write `target/wix/main.wixobj`, and to compile the WiX Source set, else
/// `wix/main.rs`; the linker is given the localization file set, the WiX UI
/// extension, `-cultures:` with the culture's code, that object file, and the
/// installer to write.
pub proof fn application_arguments_law(v: RunView, e: EventView)
    requires
        reachable_shape(v),
        spec_accepts(v.stage, e),
    ensures
        spec_advance(v, e).1 matches ActionView::RunTool(t, i) ==> (t == Tool::Compiler ==> i.args
            == seq![
            ArgView::Text("-dVersion="@ + v.version),
            ArgView::Text("-dPlatform="@ + platform_text(v.platform)),
            ArgView::Text("-o"@),
            ArgView::Path(seq!["target"@, "wix"@, "main.wixobj"@]),
            ArgView::Path(given_source(v.settings)),
        ]),
        spec_advance(v, e).1 matches ActionView::RunTool(t, i) ==> (t == Tool::Linker ==> i.args
            == (match v.settings.locale {
            Some(l) => seq![ArgView::Text("-loc"@), ArgView::Path(seq![l])],
            None => Seq::empty(),
        }) + seq![
            ArgView::Text("-ext"@),
            ArgView::Text("WixUIExtension"@),
            ArgView::Text("-cultures:"@ + spec_culture_code(v.settings.culture)),
            ArgView::Path(seq!["target"@, "wix"@, "main.wixobj"@]),
            ArgView::Text("-out"@),
            ArgView::Path(spec_installer(v.settings, v.name, v.version, v.platform)),
        ]),
        spec_advance(v, e).1 matches ActionView::RunTool(_, i) ==> i.capture_output
            == v.settings.capture_output,
{
    object_law();
    platform_names();
}

/// The messages that tell a user why a build stopped: each failure's message,
/// piece by piece, with the texts spelt out.
pub proof fn message_law(app: Seq<char>, code: i32, field: Seq<char>, p: Seq<Seq<char>>)
    ensures
        spec_message(Failure::Command(app, code)) == seq![
            PartView::Text("The '"@),
            PartView::Text(app),
            PartView::Text("' application failed with exit code = "@),
            PartView::Number(code),
            PartView::Text(". Consider using the '--nocapture' flag to obtain more information."@),
        ],
        spec_message(Failure::Manifest(field)) == seq![
            PartView::Text("No '"@),
            PartView::Text(field),
            PartView::Text("' field found in the package's manifest (Cargo.toml)"@),
        ],
        spec_message(Failure::Toml) == seq![
            PartView::Cause,
        ],
        spec_message(Failure::Version) == seq![
            PartView::Cause,
        ],
        spec_message(Failure::ToolNotInstalled(Tool::Compiler)) == seq![
            PartView::Text("The compiler application ("@),
            PartView::Text("candle"@),
            PartView::Text(") could not be found in the PATH environment variable. Please check the WiX Toolset (http://wixtoolset.org/) is installed and check the WiX Toolset's '"@),
            PartView::Text("bin"@),
            PartView::Text("' folder has been added to the PATH system environment variable, the "@),
            PartView::Text("WIX"@),
            PartView::Text(" system environment variable exists, or use the '-B,--bin-path' command line argument."@),
        ],
        spec_message(Failure::ToolMissingFromBinPath(Tool::Compiler, p)) == seq![
            PartView::Text("The compiler application ("@ + "'"@),
            PartView::Text("candle"@),
            PartView::Text("') does not exist at the '"@),
            PartView::Path(p),
            PartView::Text("' path specified via the '-B, --bin-path' command line argument. Please check the path is correct and the compiler application exists at the path."@),
        ],
        spec_message(Failure::ToolMissingFromEnvironment(Tool::Compiler, p)) == seq![
            PartView::Text("The compiler application ("@ + "'"@),
            PartView::Text("candle"@),
            PartView::Text("') does not exist at the '"@),
            PartView::Path(p),
            PartView::Text("' path specified via the "@),
            PartView::Text("WIX"@),
            PartView::Text(" environment variable. Please check the path is correct and the compiler application exists at the path."@),
        ],
        spec_message(Failure::ToolNotInstalled(Tool::Linker)) == seq![
            PartView::Text("The linker application ("@),
            PartView::Text("light"@),
            PartView::Text(") could not be found in the PATH environment variable. Please check the WiX Toolset (http://wixtoolset.org/) is installed and check the WiX Toolset's '"@),
            PartView::Text("bin"@),
            PartView::Text("' folder has been added to the PATH environment variable, the "@),
            PartView::Text("WIX"@),
            PartView::Text(" system environment variable exists, or use the '-B,--bin-path' command line argument."@),
        ],
        spec_message(Failure::ToolMissingFromBinPath(Tool::Linker, p)) == seq![
            PartView::Text("The linker application ("@ + "'"@),
            PartView::Text("light"@),
            PartView::Text("') does not exist at the '"@),
            PartView::Path(p),
            PartView::Text("' path specified via the '-B,--bin-path' command line argument. Please check the path is correct and the linker application exists at the path."@),
        ],
        spec_message(Failure::ToolMissingFromEnvironment(Tool::Linker, p)) == seq![
            PartView::Text("The linker application ("@ + "'"@),
            PartView::Text("light"@),
            PartView::Text("') does not exist at the '"@),
            PartView::Path(p),
            PartView::Text("' path specified via the "@),
            PartView::Text("WIX"@),
            PartView::Text(" environment variable. Please check the path is correct and the linker application exists at the path."@),
        ],
        spec_message(Failure::LocaleMissing(p)) == seq![
            PartView::Text("The '"@),
            PartView::Path(p),
            PartView::Text("' WiX localization file could not be found, or it does not exist. Please check the path is correct and the file exists."@),
        ],
        spec_message(Failure::SourceIsFolder(p)) == seq![
            PartView::Text("The '"@),
            PartView::Path(p),
            PartView::Text("' path is not a file. Please check the path and ensure it is to a WiX Source (wxs) file."@),
        ],
        spec_message(Failure::SourceMissing(p)) == seq![
            PartView::Text("The '"@),
            PartView::Path(p),
            PartView::Text("' file does not exist. Consider using the 'cargo wix --print-template WXS > "@),
            PartView::Path(p),
            PartView::Text("' command to create it."@),
        ],
        spec_message(Failure::DefaultSourceMissing(p)) == seq![
            PartView::Text("The '"@),
            PartView::Path(p),
            PartView::Text("' file does not exist. Consider using the 'cargo wix --init' command to create it."@),
        ],
{
    tool_names(Tool::Compiler);
    tool_names(Tool::Linker);
}

/// A new builder captures output, builds the package, links for US English,
/// and has nothing else set.
pub proof fn defaults_law()
    ensures
        default_settings().capture_output == true,
        default_settings().no_build == false,
        default_settings().culture == Cultures::EnUs,
        default_settings().bin_path is None,
        default_settings().input is None,
        default_settings().locale is None,
        default_settings().name is None,
        default_settings().output is None,
        default_settings().version is None,
{
}

/// A localization file set must exist, and is then used; with none set the
/// build goes on without one.
pub proof fn locale_law(s: Settings, exists: bool)
    ensures
        s.locale is None ==> spec_locale(s, exists) == Ok::<Option<Seq<Seq<char>>>, Failure>(None),
        s.locale is Some && exists ==> spec_locale(s, exists) == Ok::<
            Option<Seq<Seq<char>>>,
            Failure,
        >(Some(seq![s.locale->0])),
        s.locale is Some && !exists ==> spec_locale(s, exists) == Err::<
            Option<Seq<Seq<char>>>,
            Failure,
        >(Failure::LocaleMissing(seq![s.locale->0])),
{
}

/// The WiX Source file set must exist and be no folder, and is then compiled;
/// with none set, `wix/main.rs` must exist.
pub proof fn source_law(s: Settings, exists: bool, is_dir: bool)
    ensures
        s.input is Some && exists && !is_dir ==> spec_source(s, exists, is_dir) == Ok::<
            Seq<Seq<char>>,
            Failure,
        >(seq![s.input->0]),
        s.input is Some && !exists ==> spec_source(s, exists, is_dir) == Err::<
            Seq<Seq<char>>,
            Failure,
        >(Failure::SourceMissing(seq![s.input->0])),
        s.input is Some && exists && is_dir ==> spec_source(s, exists, is_dir) == Err::<
            Seq<Seq<char>>,
            Failure,
        >(Failure::SourceIsFolder(seq![s.input->0])),
        s.input is None && exists ==> spec_source(s, exists, is_dir) == Ok::<
            Seq<Seq<char>>,
            Failure,
        >(seq!["wix"@, "main.rs"@]),
        s.input is None && !exists ==> spec_source(s, exists, is_dir) == Err::<
            Seq<Seq<char>>,
            Failure,
        >(Failure::DefaultSourceMissing(seq!["wix"@, "main.rs"@])),
{
    lemma_default_source();
}

/// The manifest's name and version are its `package.name` and
/// `package.version` entries.
pub proof fn manifest_fields_law(text: Seq<char>)
    ensures
        manifest_name(text) == toml_table_string(text, "package"@, "name"@),
        manifest_version(text) == toml_table_string(text, "package"@, "version"@),
{
}

/// A release build or WiX application that exits unsuccessfully stops the
/// build, reported by the application's name and exit code (100 where there
/// is none); one that cannot be started is reported as not installed.
pub proof fn failed_application_law(v: RunView, success: bool, code: Option<i32>)
    ensures
        v.stage == Stage::Building && !success ==> spec_advance(
            v,
            EventView::BuildExited { success, code },
        ) == (RunView { stage: Stage::Failed, ..v }, ActionView::Fail(
            Failure::Command("cargo"@, if code is Some { code->0 } else { 100 }),
        )),
        v.stage is Running && !success ==> spec_advance(v, EventView::ToolExited { success, code })
            == (RunView { stage: Stage::Failed, ..v }, ActionView::Fail(
            Failure::Command(
                tool_text(v.stage->Running_0),
                if code is Some {
                    code->0
                } else {
                    100
                },
            ),
        )),
        v.stage is Running ==> spec_advance(v, EventView::ToolNotFound) == (
            RunView { stage: Stage::Failed, ..v },
            ActionView::Fail(Failure::ToolNotInstalled(v.stage->Running_0)),
        ),
{
    if v.stage is Running {
        tool_names(v.stage->Running_0);
    }
}

/// Reading the manifest fixes the product's name and version used from then
/// on: where the manifest, name and version are all found, the build keeps the
/// name set or else the manifest's, and the version in its display form; no
/// later step changes them.
pub proof fn name_and_version_law(v: RunView, e: EventView)
    requires
        spec_accepts(v.stage, e),
    ensures
        ({
            let next = spec_advance(v, e).0;
            let text = e->ManifestRead_0;
            e is ManifestRead && !(next.stage is Failed) ==> {
                &&& manifest_name(text) is Some && manifest_version(text) is Some
                &&& spec_package_name(v.settings, manifest_name(text)->0) == Ok::<Seq<char>, Failure>(
                    next.name,
                )
                &&& spec_package_version(v.settings, manifest_version(text)->0) == Ok::<
                    Seq<char>,
                    Failure,
                >(next.version)
            }
        }),
        !(e is ManifestRead) ==> spec_advance(v, e).0.name == v.name && spec_advance(v, e).0.version
            == v.version,
{
}

} // verus!
