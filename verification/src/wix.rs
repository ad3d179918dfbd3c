use vstd::prelude::*;

verus! {

/// The WiX Toolset's folder that holds its applications.
pub const BINARY_FOLDER_NAME: &'static str = "bin";
/// The Cargo application.
pub const CARGO: &'static str = "cargo";
/// The name of a package's manifest.
pub const CARGO_MANIFEST_FILE: &'static str = "Cargo.toml";
/// The extension of an executable on Windows.
pub const EXE_FILE_EXTENSION: &'static str = "exe";
/// The folder, both in a package and under `target`, that holds the WiX files.
pub const WIX: &'static str = "wix";
/// The WiX compiler application.
pub const WIX_COMPILER: &'static str = "candle";
/// The WiX linker application.
pub const WIX_LINKER: &'static str = "light";
/// The environment variable that the WiX Toolset's installer sets to its folder.
pub const WIX_PATH_KEY: &'static str = "WIX";
/// The extension of a WiX Source file.
pub const WIX_SOURCE_FILE_EXTENSION: &'static str = "wxs";
/// The stem of the default WiX Source file.
pub const WIX_SOURCE_FILE_NAME: &'static str = "main";
/// The extension of the default WiX Source file, `wix/main.rs`.
pub const DEFAULT_SOURCE_FILE_EXTENSION: &'static str = "rs";

/// The platform an installer is built for.
#[derive(Clone, Copy, Debug, PartialEq, Eq, Structural)]
pub enum Platform {
    X86,
    X64,
}

pub open spec fn spec_arch(p: Platform) -> Seq<char> {
    match p {
        Platform::X86 => "i686"@,
        Platform::X64 => "x86_64"@,
    }
}

pub open spec fn spec_platform_name(p: Platform) -> Seq<char> {
    match p {
        Platform::X86 => "x86"@,
        Platform::X64 => "x64"@,
    }
}

impl Platform {
    /// The architecture part of a target triple for this platform.
    pub fn arch(&self) -> (r: &'static str)
        ensures
            r@ == spec_arch(*self),
    {
        match self {
            Platform::X86 => "i686",
            Platform::X64 => "x86_64",
        }
    }

    /// The platform's name as WiX knows it (its display form).
    pub fn name(&self) -> (r: &'static str)
        ensures
            r@ == spec_platform_name(*self),
    {
        match self {
            Platform::X86 => "x86",
            Platform::X64 => "x64",
        }
    }

    /// The platform of a build target: 64-bit for x86_64 targets, 32-bit otherwise.
    pub fn for_target(target_is_x86_64: bool) -> (r: Platform)
        ensures
            r == (if target_is_x86_64 { Platform::X64 } else { Platform::X86 }),
    {
        if target_is_x86_64 {
            Platform::X64
        } else {
            Platform::X86
        }
    }
}

/// The languages and regions an installer can be localized for.
#[derive(Clone, Copy, Debug, PartialEq, Eq, Structural)]
pub enum Cultures {
    /// ar-SA
    ArSa,
    /// bg-BG
    BgBg,
    /// ca-ES
    CaEs,
    /// hr-HR
    HrHr,
    /// cs-CZ
    CsCz,
    /// da-DK
    DaDk,
    /// nl-NL
    NlNl,
    /// en-US
    EnUs,
    /// et-EE
    EtEe,
    /// fi-FI
    FiFi,
    /// fr-FR
    FrFr,
    /// de-DE
    DeDe,
    /// el-GR
    ElGr,
    /// he-IL
    HeIl,
    /// hi-IN
    HiIn,
    /// hu-HU
    HuHu,
    /// it-IT
    ItIt,
    /// ja-JP
    JaJp,
    /// kk-KZ
    KkKz,
    /// ko-KR
    KoKr,
    /// lv-LV
    LvLv,
    /// lt-LT
    LtLt,
    /// nb-NO
    NbNo,
    /// pl-PL
    PlPl,
    /// pt-BR
    PtBr,
    /// pt-PT
    PtPt,
    /// ro-RO
    RoRo,
    /// ru-RU
    RuRu,
    /// sr-Latn-CS
    SrLatnCs,
    /// zh-CN
    ZhCn,
    /// sk-SK
    SkSk,
    /// sl-SI
    SlSi,
    /// es-ES
    EsEs,
    /// sv-SE
    SvSe,
    /// th-TH
    ThTh,
    /// zh-HK
    ZhHk,
    /// zh-TW
    ZhTw,
    /// tr-TR
    TrTr,
    /// uk-UA
    UkUa,
}

/// The culture's code, as the WiX linker takes it.
pub open spec fn spec_culture_code(c: Cultures) -> Seq<char> {
    match c {
        Cultures::ArSa => "ar-SA"@,
        Cultures::BgBg => "bg-BG"@,
        Cultures::CaEs => "ca-ES"@,
        Cultures::HrHr => "hr-HR"@,
        Cultures::CsCz => "cs-CZ"@,
        Cultures::DaDk => "da-DK"@,
        Cultures::NlNl => "nl-NL"@,
        Cultures::EnUs => "en-US"@,
        Cultures::EtEe => "et-EE"@,
        Cultures::FiFi => "fi-FI"@,
        Cultures::FrFr => "fr-FR"@,
        Cultures::DeDe => "de-DE"@,
        Cultures::ElGr => "el-GR"@,
        Cultures::HeIl => "he-IL"@,
        Cultures::HiIn => "hi-IN"@,
        Cultures::HuHu => "hu-HU"@,
        Cultures::ItIt => "it-IT"@,
        Cultures::JaJp => "ja-JP"@,
        Cultures::KkKz => "kk-KZ"@,
        Cultures::KoKr => "ko-KR"@,
        Cultures::LvLv => "lv-LV"@,
        Cultures::LtLt => "lt-LT"@,
        Cultures::NbNo => "nb-NO"@,
        Cultures::PlPl => "pl-PL"@,
        Cultures::PtBr => "pt-BR"@,
        Cultures::PtPt => "pt-PT"@,
        Cultures::RoRo => "ro-RO"@,
        Cultures::RuRu => "ru-RU"@,
        Cultures::SrLatnCs => "sr-Latn-CS"@,
        Cultures::ZhCn => "zh-CN"@,
        Cultures::SkSk => "sk-SK"@,
        Cultures::SlSi => "sl-SI"@,
        Cultures::EsEs => "es-ES"@,
        Cultures::SvSe => "sv-SE"@,
        Cultures::ThTh => "th-TH"@,
        Cultures::ZhHk => "zh-HK"@,
        Cultures::ZhTw => "zh-TW"@,
        Cultures::TrTr => "tr-TR"@,
        Cultures::UkUa => "uk-UA"@,
    }
}

impl Cultures {
    /// The culture's code (its display form), such as `en-US`.
    pub fn code(&self) -> (r: &'static str)
        ensures
            r@ == spec_culture_code(*self),
    {
        match self {
            Cultures::ArSa => "ar-SA",
            Cultures::BgBg => "bg-BG",
            Cultures::CaEs => "ca-ES",
            Cultures::HrHr => "hr-HR",
            Cultures::CsCz => "cs-CZ",
            Cultures::DaDk => "da-DK",
            Cultures::NlNl => "nl-NL",
            Cultures::EnUs => "en-US",
            Cultures::EtEe => "et-EE",
            Cultures::FiFi => "fi-FI",
            Cultures::FrFr => "fr-FR",
            Cultures::DeDe => "de-DE",
            Cultures::ElGr => "el-GR",
            Cultures::HeIl => "he-IL",
            Cultures::HiIn => "hi-IN",
            Cultures::HuHu => "hu-HU",
            Cultures::ItIt => "it-IT",
            Cultures::JaJp => "ja-JP",
            Cultures::KkKz => "kk-KZ",
            Cultures::KoKr => "ko-KR",
            Cultures::LvLv => "lv-LV",
            Cultures::LtLt => "lt-LT",
            Cultures::NbNo => "nb-NO",
            Cultures::PlPl => "pl-PL",
            Cultures::PtBr => "pt-BR",
            Cultures::PtPt => "pt-PT",
            Cultures::RoRo => "ro-RO",
            Cultures::RuRu => "ru-RU",
            Cultures::SrLatnCs => "sr-Latn-CS",
            Cultures::ZhCn => "zh-CN",
            Cultures::SkSk => "sk-SK",
            Cultures::SlSi => "sl-SI",
            Cultures::EsEs => "es-ES",
            Cultures::SvSe => "sv-SE",
            Cultures::ThTh => "th-TH",
            Cultures::ZhHk => "zh-HK",
            Cultures::ZhTw => "zh-TW",
            Cultures::TrTr => "tr-TR",
            Cultures::UkUa => "uk-UA",
        }
    }
}

/// The two WiX Toolset applications that an installer build runs.
#[derive(Clone, Copy, Debug, PartialEq, Eq, Structural)]
pub enum Tool {
    /// `candle`, which compiles a WiX Source file into an object file.
    Compiler,
    /// `light`, which links object files into an installer.
    Linker,
}

pub open spec fn spec_tool_name(t: Tool) -> Seq<char> {
    match t {
        Tool::Compiler => WIX_COMPILER@,
        Tool::Linker => WIX_LINKER@,
    }
}

impl Tool {
    /// The application's name, without extension.
    pub fn name(&self) -> (r: &'static str)
        ensures
            r@ == spec_tool_name(*self),
    {
        match self {
            Tool::Compiler => WIX_COMPILER,
            Tool::Linker => WIX_LINKER,
        }
    }
}

} // verus!
