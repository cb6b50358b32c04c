//! Packaging: the bundle targets, the names of the files each bundler
//! writes, and the text of the generated desktop entries, package control
//! files, property lists and installer scripts.

use crate::config::AppConfig;
use crate::platform::TargetOs;
use crate::text::{push_replaced, push_str, replace_char, str_eq, to_lowercase, unicode_lowercase};
use vstd::prelude::*;
use vstd::string::*;

verus! {

/// A package format.
#[derive(Debug, Clone, Copy, PartialEq, Eq, Structural)]
pub enum BundleTarget {
    /// Windows NSIS installer (.exe)
    WindowsNsis,
    /// Windows WiX MSI installer (.msi)
    WindowsWix,
    /// Windows portable executable (single .exe)
    WindowsPortable,
    /// macOS .app bundle in a DMG
    MacOsDmg,
    /// macOS .app bundle only
    MacOsApp,
    /// Linux AppImage
    LinuxAppImage,
    /// Linux .deb package
    LinuxDeb,
    /// Linux .rpm package
    LinuxRpm,
}

/// The default targets of a platform.
pub open spec fn platform_targets(os: TargetOs) -> Seq<BundleTarget> {
    match os {
        TargetOs::Windows => seq![BundleTarget::WindowsNsis, BundleTarget::WindowsPortable],
        TargetOs::MacOs => seq![BundleTarget::MacOsDmg],
        TargetOs::Linux => seq![BundleTarget::LinuxAppImage],
        TargetOs::Other => Seq::empty(),
    }
}

pub open spec fn extension_spec(t: BundleTarget) -> Seq<char> {
    match t {
        BundleTarget::WindowsNsis => "exe"@,
        BundleTarget::WindowsWix => "msi"@,
        BundleTarget::WindowsPortable => "exe"@,
        BundleTarget::MacOsDmg => "dmg"@,
        BundleTarget::MacOsApp => "app"@,
        BundleTarget::LinuxAppImage => "AppImage"@,
        BundleTarget::LinuxDeb => "deb"@,
        BundleTarget::LinuxRpm => "rpm"@,
    }
}

/// The `Debug` name of a target.
pub open spec fn target_name(t: BundleTarget) -> Seq<char> {
    match t {
        BundleTarget::WindowsNsis => "WindowsNsis"@,
        BundleTarget::WindowsWix => "WindowsWix"@,
        BundleTarget::WindowsPortable => "WindowsPortable"@,
        BundleTarget::MacOsDmg => "MacOsDmg"@,
        BundleTarget::MacOsApp => "MacOsApp"@,
        BundleTarget::LinuxAppImage => "LinuxAppImage"@,
        BundleTarget::LinuxDeb => "LinuxDeb"@,
        BundleTarget::LinuxRpm => "LinuxRpm"@,
    }
}

impl BundleTarget {
    /// The targets built by default on a platform.
    pub fn for_current_platform(os: TargetOs) -> (r: Vec<BundleTarget>)
        ensures
            r@ == platform_targets(os),
    {
        let mut v: Vec<BundleTarget> = Vec::new();
        match os {
            TargetOs::Windows => {
                v.push(BundleTarget::WindowsNsis);
                v.push(BundleTarget::WindowsPortable);
            },
            TargetOs::MacOs => {
                v.push(BundleTarget::MacOsDmg);
            },
            TargetOs::Linux => {
                v.push(BundleTarget::LinuxAppImage);
            },
            TargetOs::Other => {},
        }
        proof {
            assert(v@ =~= platform_targets(os));
        }
        v
    }

    /// The file extension of the target's package.
    pub fn extension(&self) -> (r: &'static str)
        ensures
            r@ == extension_spec(*self),
    {
        match self {
            BundleTarget::WindowsNsis => "exe",
            BundleTarget::WindowsWix => "msi",
            BundleTarget::WindowsPortable => "exe",
            BundleTarget::MacOsDmg => "dmg",
            BundleTarget::MacOsApp => "app",
            BundleTarget::LinuxAppImage => "AppImage",
            BundleTarget::LinuxDeb => "deb",
            BundleTarget::LinuxRpm => "rpm",
        }
    }

    /// The target's `Debug` name.
    pub fn name(&self) -> (r: &'static str)
        ensures
            r@ == target_name(*self),
    {
        match self {
            BundleTarget::WindowsNsis => "WindowsNsis",
            BundleTarget::WindowsWix => "WindowsWix",
            BundleTarget::WindowsPortable => "WindowsPortable",
            BundleTarget::MacOsDmg => "MacOsDmg",
            BundleTarget::MacOsApp => "MacOsApp",
            BundleTarget::LinuxAppImage => "LinuxAppImage",
            BundleTarget::LinuxDeb => "LinuxDeb",
            BundleTarget::LinuxRpm => "LinuxRpm",
        }
    }
}

/// The target a command-line name selects, ignoring case.
pub open spec fn target_of_name(lower: Seq<char>) -> Option<BundleTarget> {
    if lower == "nsis"@ {
        Some(BundleTarget::WindowsNsis)
    } else if lower == "wix"@ || lower == "msi"@ {
        Some(BundleTarget::WindowsWix)
    } else if lower == "portable"@ || lower == "exe"@ {
        Some(BundleTarget::WindowsPortable)
    } else if lower == "dmg"@ {
        Some(BundleTarget::MacOsDmg)
    } else if lower == "app"@ {
        Some(BundleTarget::MacOsApp)
    } else if lower == "appimage"@ {
        Some(BundleTarget::LinuxAppImage)
    } else if lower == "deb"@ {
        Some(BundleTarget::LinuxDeb)
    } else if lower == "rpm"@ {
        Some(BundleTarget::LinuxRpm)
    } else {
        None
    }
}

/// Read a target from its name in lower case; anything unknown is an error
/// that quotes the name as given.
pub fn parse_target_lowered(s: &str, lower: &str) -> (r: Result<BundleTarget, String>)
    ensures
        match target_of_name(lower@) {
            Some(t) => r == Ok::<BundleTarget, String>(t),
            None => r matches Err(e) && e@ == "Unknown bundle target: "@ + s@,
        },
{
    if str_eq(lower, "nsis") {
        Ok(BundleTarget::WindowsNsis)
    } else if str_eq(lower, "wix") || str_eq(lower, "msi") {
        Ok(BundleTarget::WindowsWix)
    } else if str_eq(lower, "portable") || str_eq(lower, "exe") {
        Ok(BundleTarget::WindowsPortable)
    } else if str_eq(lower, "dmg") {
        Ok(BundleTarget::MacOsDmg)
    } else if str_eq(lower, "app") {
        Ok(BundleTarget::MacOsApp)
    } else if str_eq(lower, "appimage") {
        Ok(BundleTarget::LinuxAppImage)
    } else if str_eq(lower, "deb") {
        Ok(BundleTarget::LinuxDeb)
    } else if str_eq(lower, "rpm") {
        Ok(BundleTarget::LinuxRpm)
    } else {
        let mut e = String::new();
        push_str(&mut e, "Unknown bundle target: ");
        push_str(&mut e, s);
        Err(e)
    }
}

/// Read a bundle target from the command line: `nsis`, `wix`/`msi`,
/// `portable`/`exe`, `dmg`, `app`, `appimage`, `deb` or `rpm`, in any case.
pub fn parse_target(s: &str) -> (r: Result<BundleTarget, String>)
    ensures
        match target_of_name(unicode_lowercase(s@)) {
            Some(t) => r == Ok::<BundleTarget, String>(t),
            None => r matches Err(e) && e@ == "Unknown bundle target: "@ + s@,
        },
{
    let lower = to_lowercase(s);
    parse_target_lowered(s, lower.as_str())
}

/// The targets a bundle command builds: every default target of the
/// platform with `all` or without a named target, else the named one.
pub fn select_targets(target: Option<&str>, all: bool, os: TargetOs) -> (r: Result<Vec<BundleTarget>, String>)
    ensures
        all || target is None ==> (r matches Ok(v) && v@ == platform_targets(os)),
        !all && target is Some ==> match target_of_name(unicode_lowercase(target->Some_0@)) {
            Some(t) => r matches Ok(v) && v@ == seq![t],
            None => r matches Err(e) && e@ == "Unknown bundle target: "@ + target->Some_0@,
        },
{
    if all {
        return Ok(BundleTarget::for_current_platform(os));
    }
    match target {
        Some(t) => match parse_target(t) {
            Ok(bt) => {
                let mut v: Vec<BundleTarget> = Vec::new();
                v.push(bt);
                proof {
                    assert(v@ =~= seq![bt]);
                }
                Ok(v)
            },
            Err(e) => Err(e),
        },
        None => Ok(BundleTarget::for_current_platform(os)),
    }
}

/// Which bundler packages for a platform.
#[derive(Debug, Clone, Copy, PartialEq, Eq, Structural)]
pub enum BundlerKind {
    Windows,
    MacOs,
    Linux,
}

/// Windows packages on Windows, macOS on macOS, Linux everywhere else.
pub fn bundler_for(os: TargetOs) -> (r: BundlerKind)
    ensures
        r == match os {
            TargetOs::Windows => BundlerKind::Windows,
            TargetOs::MacOs => BundlerKind::MacOs,
            _ => BundlerKind::Linux,
        },
{
    match os {
        TargetOs::Windows => BundlerKind::Windows,
        TargetOs::MacOs => BundlerKind::MacOs,
        _ => BundlerKind::Linux,
    }
}

/// The name of the renderer a new project uses.
pub fn renderer_name(chrome: bool) -> (r: &'static str)
    ensures
        r@ == if chrome {
            "chrome"@
        } else {
            "webview"@
        },
{
    if chrome {
        "chrome"
    } else {
        "webview"
    }
}

/// The result of a bundling run.
#[derive(Debug, Clone)]
pub struct BundleResult {
    /// The package written.
    pub path: String,
    pub target: BundleTarget,
    /// Its size in bytes.
    pub size: u64,
}

/// The message of a target handed to the wrong bundler.
pub open spec fn invalid_target_message(platform: Seq<char>, t: BundleTarget) -> Seq<char> {
    "Invalid target for "@ + platform + " bundler: "@ + target_name(t)
}

fn invalid_target(platform: &str, t: BundleTarget) -> (r: String)
    ensures
        r@ == invalid_target_message(platform@, t),
{
    let mut e = String::new();
    push_str(&mut e, "Invalid target for ");
    push_str(&mut e, platform);
    push_str(&mut e, " bundler: ");
    push_str(&mut e, t.name());
    e
}

// ---------------------------------------------------------------------------
// File names
// ---------------------------------------------------------------------------

/// A package name: the application name in lower case, spaces as dashes.
pub open spec fn package_name(name: Seq<char>) -> Seq<char> {
    replace_char(unicode_lowercase(name), ' ', "-"@)
}

/// An executable name: the application name with spaces as underscores.
pub open spec fn exe_stem(name: Seq<char>) -> Seq<char> {
    replace_char(name, ' ', "_"@)
}

fn package_name_of(name: &str) -> (r: String)
    ensures
        r@ == package_name(name@),
{
    let lower = to_lowercase(name);
    let mut s = String::new();
    push_replaced(&mut s, lower.as_str(), ' ', "-");
    s
}

fn exe_stem_of(name: &str) -> (r: String)
    ensures
        r@ == exe_stem(name@),
{
    let mut s = String::new();
    push_replaced(&mut s, name, ' ', "_");
    s
}

fn opt_str_or<'a>(o: &'a Option<String>, d: &'a str) -> (r: &'a str)
    ensures
        r@ == match o {
            Some(s) => s@,
            None => d@,
        },
{
    match o {
        Some(s) => s.as_str(),
        None => d,
    }
}

// ---------------------------------------------------------------------------
// Package and project templates
// ---------------------------------------------------------------------------

pub open spec fn desktop_file_text_spec(name: Seq<char>) -> Seq<char> {
    "[Desktop Entry]\nType=Application\nName="@
        + name
        + "\nExec="@
        + name
        + "\nIcon="@
        + name
        + "\nCategories=Utility;\nTerminal=false\n"@
}

/// The `.desktop` entry of an AppImage.
pub fn desktop_file_text(name: &str) -> (r: String)
    ensures
        r@ == desktop_file_text_spec(name@),
{
    let mut s = String::new();
    push_str(&mut s, "[Desktop Entry]\nType=Application\nName=");
    push_str(&mut s, name);
    push_str(&mut s, "\nExec=");
    push_str(&mut s, name);
    push_str(&mut s, "\nIcon=");
    push_str(&mut s, name);
    push_str(&mut s, "\nCategories=Utility;\nTerminal=false\n");
    s
}

pub open spec fn deb_control_text_spec(name: Seq<char>, version: Seq<char>, maintainer: Seq<char>, description: Seq<char>) -> Seq<char> {
    "Package: "@
        + name
        + "\nVersion: "@
        + version
        + "\nSection: utils\nPriority: optional\nArchitecture: amd64\nMaintainer: "@
        + maintainer
        + "\nDescription: "@
        + description
        + "\n"@
}

/// The `DEBIAN/control` file of a `.deb` package.
pub fn deb_control_text(name: &str, version: &str, maintainer: &str, description: &str) -> (r: String)
    ensures
        r@ == deb_control_text_spec(name@, version@, maintainer@, description@),
{
    let mut s = String::new();
    push_str(&mut s, "Package: ");
    push_str(&mut s, name);
    push_str(&mut s, "\nVersion: ");
    push_str(&mut s, version);
    push_str(&mut s, "\nSection: utils\nPriority: optional\nArchitecture: amd64\nMaintainer: ");
    push_str(&mut s, maintainer);
    push_str(&mut s, "\nDescription: ");
    push_str(&mut s, description);
    push_str(&mut s, "\n");
    s
}

pub open spec fn info_plist_text_spec(name: Seq<char>, identifier: Seq<char>, version: Seq<char>, icon_entry: Seq<char>, copyright_entry: Seq<char>) -> Seq<char> {
    "<?xml version=\"1.0\" encoding=\"UTF-8\"?>\n<!DOCTYPE plist PUBLIC \"-//Apple//DTD PLIST 1.0//EN\" \"http://www.apple.com/DTDs/PropertyList-1.0.dtd\">\n<plist version=\"1.0\">\n<dict>\n    <key>CFBundleDevelopmentRegion</key>\n    <string>en</string>\n    <key>CFBundleExecutable</key>\n    <string>"@
        + name
        + "</string>\n    <key>CFBundleIdentifier</key>\n    <string>"@
        + identifier
        + "</string>\n    <key>CFBundleInfoDictionaryVersion</key>\n    <string>6.0</string>\n    <key>CFBundleName</key>\n    <string>"@
        + name
        + "</string>\n    <key>CFBundlePackageType</key>\n    <string>APPL</string>\n    <key>CFBundleShortVersionString</key>\n    <string>"@
        + version
        + "</string>\n    <key>CFBundleVersion</key>\n    <string>"@
        + version
        + "</string>\n    <key>LSMinimumSystemVersion</key>\n    <string>10.15</string>\n    <key>NSHighResolutionCapable</key>\n    <true/>\n    <key>NSRequiresAquaSystemAppearance</key>\n    <false/>\n    "@
        + icon_entry
        + "\n    "@
        + copyright_entry
        + "\n</dict>\n</plist>"@
}

/// The `Info.plist` of a macOS application bundle.
pub fn info_plist_text(name: &str, identifier: &str, version: &str, icon_entry: &str, copyright_entry: &str) -> (r: String)
    ensures
        r@ == info_plist_text_spec(name@, identifier@, version@, icon_entry@, copyright_entry@),
{
    let mut s = String::new();
    push_str(&mut s, "<?xml version=\"1.0\" encoding=\"UTF-8\"?>\n<!DOCTYPE plist PUBLIC \"-//Apple//DTD PLIST 1.0//EN\" \"http://www.apple.com/DTDs/PropertyList-1.0.dtd\">\n<plist version=\"1.0\">\n<dict>\n    <key>CFBundleDevelopmentRegion</key>\n    <string>en</string>\n    <key>CFBundleExecutable</key>\n    <string>");
    push_str(&mut s, name);
    push_str(&mut s, "</string>\n    <key>CFBundleIdentifier</key>\n    <string>");
    push_str(&mut s, identifier);
    push_str(&mut s, "</string>\n    <key>CFBundleInfoDictionaryVersion</key>\n    <string>6.0</string>\n    <key>CFBundleName</key>\n    <string>");
    push_str(&mut s, name);
    push_str(&mut s, "</string>\n    <key>CFBundlePackageType</key>\n    <string>APPL</string>\n    <key>CFBundleShortVersionString</key>\n    <string>");
    push_str(&mut s, version);
    push_str(&mut s, "</string>\n    <key>CFBundleVersion</key>\n    <string>");
    push_str(&mut s, version);
    push_str(&mut s, "</string>\n    <key>LSMinimumSystemVersion</key>\n    <string>10.15</string>\n    <key>NSHighResolutionCapable</key>\n    <true/>\n    <key>NSRequiresAquaSystemAppearance</key>\n    <false/>\n    ");
    push_str(&mut s, icon_entry);
    push_str(&mut s, "\n    ");
    push_str(&mut s, copyright_entry);
    push_str(&mut s, "\n</dict>\n</plist>");
    s
}

pub open spec fn nsis_script_text_spec(name: Seq<char>, version: Seq<char>, icon: Seq<char>, copyright_reg: Seq<char>) -> Seq<char> {
    "\n!include \"MUI2.nsh\"\n\nName \""@
        + name
        + "\"\nOutFile \"target\\release\\bundle\\nsis\\"@
        + name
        + "-"@
        + version
        + "-setup.exe\"\nInstallDir \"$PROGRAMFILES\\"@
        + name
        + "\"\nRequestExecutionUI admin\n\n"@
        + icon
        + "\n\n!insertmacro MUI_PAGE_DIRECTORY\n!insertmacro MUI_PAGE_INSTFILES\n!insertmacro MUI_PAGE_FINISH\n\n!insertmacro MUI_UNPAGE_CONFIRM\n!insertmacro MUI_UNPAGE_INSTFILES\n\nSection \"Install\"\n    SetOutPath \"$INSTDIR\"\n    File \"target\\release\\"@
        + name
        + ".exe\"\n\n    ; Create uninstaller\n    WriteUninstaller \"$INSTDIR\\uninstall.exe\"\n\n    ; Start menu shortcuts\n    CreateDirectory \"$SMPROGRAMS\\"@
        + name
        + "\"\n    CreateShortCut \"$SMPROGRAMS\\"@
        + name
        + "\\"@
        + name
        + ".lnk\" \"$INSTDIR\\"@
        + name
        + ".exe\"\n    CreateShortCut \"$SMPROGRAMS\\"@
        + name
        + "\\Uninstall.lnk\" \"$INSTDIR\\uninstall.exe\"\n\n    ; Registry for Add/Remove Programs\n    WriteRegStr HKLM \"Software\\Microsoft\\Windows\\CurrentVersion\\Uninstall\\"@
        + name
        + "\" \"DisplayName\" \""@
        + name
        + "\"\n    WriteRegStr HKLM \"Software\\Microsoft\\Windows\\CurrentVersion\\Uninstall\\"@
        + name
        + "\" \"UninstallString\" '\"$INSTDIR\\uninstall.exe\"'\n    WriteRegStr HKLM \"Software\\Microsoft\\Windows\\CurrentVersion\\Uninstall\\"@
        + name
        + "\" \"DisplayVersion\" \""@
        + version
        + "\"\n    "@
        + copyright_reg
        + "\nSectionEnd\n\nSection \"Uninstall\"\n    Delete \"$INSTDIR\\"@
        + name
        + ".exe\"\n    Delete \"$INSTDIR\\uninstall.exe\"\n    RMDir \"$INSTDIR\"\n\n    Delete \"$SMPROGRAMS\\"@
        + name
        + "\\"@
        + name
        + ".lnk\"\n    Delete \"$SMPROGRAMS\\"@
        + name
        + "\\Uninstall.lnk\"\n    RMDir \"$SMPROGRAMS\\"@
        + name
        + "\"\n\n    DeleteRegKey HKLM \"Software\\Microsoft\\Windows\\CurrentVersion\\Uninstall\\"@
        + name
        + "\"\nSectionEnd\n"@
}

/// The NSIS installer script.
pub fn nsis_script_text(name: &str, version: &str, icon: &str, copyright_reg: &str) -> (r: String)
    ensures
        r@ == nsis_script_text_spec(name@, version@, icon@, copyright_reg@),
{
    let mut s = String::new();
    push_str(&mut s, "\n!include \"MUI2.nsh\"\n\nName \"");
    push_str(&mut s, name);
    push_str(&mut s, "\"\nOutFile \"target\\release\\bundle\\nsis\\");
    push_str(&mut s, name);
    push_str(&mut s, "-");
    push_str(&mut s, version);
    push_str(&mut s, "-setup.exe\"\nInstallDir \"$PROGRAMFILES\\");
    push_str(&mut s, name);
    push_str(&mut s, "\"\nRequestExecutionUI admin\n\n");
    push_str(&mut s, icon);
    push_str(&mut s, "\n\n!insertmacro MUI_PAGE_DIRECTORY\n!insertmacro MUI_PAGE_INSTFILES\n!insertmacro MUI_PAGE_FINISH\n\n!insertmacro MUI_UNPAGE_CONFIRM\n!insertmacro MUI_UNPAGE_INSTFILES\n\nSection \"Install\"\n    SetOutPath \"$INSTDIR\"\n    File \"target\\release\\");
    push_str(&mut s, name);
    push_str(&mut s, ".exe\"\n\n    ; Create uninstaller\n    WriteUninstaller \"$INSTDIR\\uninstall.exe\"\n\n    ; Start menu shortcuts\n    CreateDirectory \"$SMPROGRAMS\\");
    push_str(&mut s, name);
    push_str(&mut s, "\"\n    CreateShortCut \"$SMPROGRAMS\\");
    push_str(&mut s, name);
    push_str(&mut s, "\\");
    push_str(&mut s, name);
    push_str(&mut s, ".lnk\" \"$INSTDIR\\");
    push_str(&mut s, name);
    push_str(&mut s, ".exe\"\n    CreateShortCut \"$SMPROGRAMS\\");
    push_str(&mut s, name);
    push_str(&mut s, "\\Uninstall.lnk\" \"$INSTDIR\\uninstall.exe\"\n\n    ; Registry for Add/Remove Programs\n    WriteRegStr HKLM \"Software\\Microsoft\\Windows\\CurrentVersion\\Uninstall\\");
    push_str(&mut s, name);
    push_str(&mut s, "\" \"DisplayName\" \"");
    push_str(&mut s, name);
    push_str(&mut s, "\"\n    WriteRegStr HKLM \"Software\\Microsoft\\Windows\\CurrentVersion\\Uninstall\\");
    push_str(&mut s, name);
    push_str(&mut s, "\" \"UninstallString\" '\"$INSTDIR\\uninstall.exe\"'\n    WriteRegStr HKLM \"Software\\Microsoft\\Windows\\CurrentVersion\\Uninstall\\");
    push_str(&mut s, name);
    push_str(&mut s, "\" \"DisplayVersion\" \"");
    push_str(&mut s, version);
    push_str(&mut s, "\"\n    ");
    push_str(&mut s, copyright_reg);
    push_str(&mut s, "\nSectionEnd\n\nSection \"Uninstall\"\n    Delete \"$INSTDIR\\");
    push_str(&mut s, name);
    push_str(&mut s, ".exe\"\n    Delete \"$INSTDIR\\uninstall.exe\"\n    RMDir \"$INSTDIR\"\n\n    Delete \"$SMPROGRAMS\\");
    push_str(&mut s, name);
    push_str(&mut s, "\\");
    push_str(&mut s, name);
    push_str(&mut s, ".lnk\"\n    Delete \"$SMPROGRAMS\\");
    push_str(&mut s, name);
    push_str(&mut s, "\\Uninstall.lnk\"\n    RMDir \"$SMPROGRAMS\\");
    push_str(&mut s, name);
    push_str(&mut s, "\"\n\n    DeleteRegKey HKLM \"Software\\Microsoft\\Windows\\CurrentVersion\\Uninstall\\");
    push_str(&mut s, name);
    push_str(&mut s, "\"\nSectionEnd\n");
    s
}

pub open spec fn wix_manifest_text_spec(name: Seq<char>, version: Seq<char>, manufacturer: Seq<char>, upgrade_code: Seq<char>) -> Seq<char> {
    "<?xml version=\"1.0\" encoding=\"UTF-8\"?>\n<Wix xmlns=\"http://schemas.microsoft.com/wix/2006/wi\">\n  <Product Id=\"*\" Name=\""@
        + name
        + "\" Language=\"1033\" Version=\""@
        + version
        + "\"\n           Manufacturer=\""@
        + manufacturer
        + "\" UpgradeCode=\""@
        + upgrade_code
        + "\">\n\n    <Package InstallerVersion=\"200\" Compressed=\"yes\" InstallScope=\"perMachine\" />\n\n    <MajorUpgrade DowngradeErrorMessage=\"A newer version is already installed.\" />\n    <MediaTemplate EmbedCab=\"yes\" />\n\n    <Feature Id=\"ProductFeature\" Title=\""@
        + name
        + "\" Level=\"1\">\n      <ComponentGroupRef Id=\"ProductComponents\" />\n    </Feature>\n  </Product>\n\n  <Fragment>\n    <Directory Id=\"TARGETDIR\" Name=\"SourceDir\">\n      <Directory Id=\"ProgramFilesFolder\">\n        <Directory Id=\"INSTALLFOLDER\" Name=\""@
        + name
        + "\" />\n      </Directory>\n    </Directory>\n  </Fragment>\n\n  <Fragment>\n    <ComponentGroup Id=\"ProductComponents\" Directory=\"INSTALLFOLDER\">\n      <Component Id=\"MainExecutable\" Guid=\"*\">\n        <File Id=\"EXE\" Source=\"target\\release\\"@
        + name
        + ".exe\" KeyPath=\"yes\" />\n      </Component>\n    </ComponentGroup>\n  </Fragment>\n</Wix>"@
}

/// The WiX installer manifest.
pub fn wix_manifest_text(name: &str, version: &str, manufacturer: &str, upgrade_code: &str) -> (r: String)
    ensures
        r@ == wix_manifest_text_spec(name@, version@, manufacturer@, upgrade_code@),
{
    let mut s = String::new();
    push_str(&mut s, "<?xml version=\"1.0\" encoding=\"UTF-8\"?>\n<Wix xmlns=\"http://schemas.microsoft.com/wix/2006/wi\">\n  <Product Id=\"*\" Name=\"");
    push_str(&mut s, name);
    push_str(&mut s, "\" Language=\"1033\" Version=\"");
    push_str(&mut s, version);
    push_str(&mut s, "\"\n           Manufacturer=\"");
    push_str(&mut s, manufacturer);
    push_str(&mut s, "\" UpgradeCode=\"");
    push_str(&mut s, upgrade_code);
    push_str(&mut s, "\">\n\n    <Package InstallerVersion=\"200\" Compressed=\"yes\" InstallScope=\"perMachine\" />\n\n    <MajorUpgrade DowngradeErrorMessage=\"A newer version is already installed.\" />\n    <MediaTemplate EmbedCab=\"yes\" />\n\n    <Feature Id=\"ProductFeature\" Title=\"");
    push_str(&mut s, name);
    push_str(&mut s, "\" Level=\"1\">\n      <ComponentGroupRef Id=\"ProductComponents\" />\n    </Feature>\n  </Product>\n\n  <Fragment>\n    <Directory Id=\"TARGETDIR\" Name=\"SourceDir\">\n      <Directory Id=\"ProgramFilesFolder\">\n        <Directory Id=\"INSTALLFOLDER\" Name=\"");
    push_str(&mut s, name);
    push_str(&mut s, "\" />\n      </Directory>\n    </Directory>\n  </Fragment>\n\n  <Fragment>\n    <ComponentGroup Id=\"ProductComponents\" Directory=\"INSTALLFOLDER\">\n      <Component Id=\"MainExecutable\" Guid=\"*\">\n        <File Id=\"EXE\" Source=\"target\\release\\");
    push_str(&mut s, name);
    push_str(&mut s, ".exe\" KeyPath=\"yes\" />\n      </Component>\n    </ComponentGroup>\n  </Fragment>\n</Wix>");
    s
}

pub open spec fn init_config_text_spec(name: Seq<char>, renderer: Seq<char>) -> Seq<char> {
    "[app]\nidentifier = \"com.example."@
        + name
        + "\"\nname = \""@
        + name
        + "\"\nversion = \"0.1.0\"\n\n[renderer]\nkind = \""@
        + renderer
        + "\"\n\n[window]\ntitle = \""@
        + name
        + "\"\nwidth = 1280\nheight = 720\nresizable = true\n\n[bundle]\nwindows_installer = \"nsis\"\nlinux_packages = [\"appimage\"]\n"@
}

/// The `rdesktop.toml` of a new project.
pub fn init_config_text(name: &str, renderer: &str) -> (r: String)
    ensures
        r@ == init_config_text_spec(name@, renderer@),
{
    let mut s = String::new();
    push_str(&mut s, "[app]\nidentifier = \"com.example.");
    push_str(&mut s, name);
    push_str(&mut s, "\"\nname = \"");
    push_str(&mut s, name);
    push_str(&mut s, "\"\nversion = \"0.1.0\"\n\n[renderer]\nkind = \"");
    push_str(&mut s, renderer);
    push_str(&mut s, "\"\n\n[window]\ntitle = \"");
    push_str(&mut s, name);
    push_str(&mut s, "\"\nwidth = 1280\nheight = 720\nresizable = true\n\n[bundle]\nwindows_installer = \"nsis\"\nlinux_packages = [\"appimage\"]\n");
    s
}

// ---------------------------------------------------------------------------
// Bundlers
// ---------------------------------------------------------------------------

/// Builds AppImage, `.deb` and `.rpm` packages.
#[derive(Debug, Clone, Copy)]
pub struct LinuxBundler;

/// Builds macOS application bundles and disk images.
#[derive(Debug, Clone, Copy)]
pub struct MacOsBundler;

/// Builds portable executables and NSIS and WiX installers.
#[derive(Debug, Clone, Copy)]
pub struct WindowsBundler;

pub open spec fn or_else(o: Option<String>, d: Seq<char>) -> Seq<char> {
    match o {
        Some(s) => s@,
        None => d,
    }
}

impl LinuxBundler {
    pub fn new() -> (r: Self) {
        LinuxBundler
    }

    /// The target, when this bundler builds it.
    pub fn check_target(&self, target: BundleTarget) -> (r: Result<BundleTarget, String>)
        ensures
            match target {
                BundleTarget::LinuxAppImage | BundleTarget::LinuxDeb | BundleTarget::LinuxRpm => r
                    == Ok::<BundleTarget, String>(target),
                _ => r matches Err(e) && e@ == invalid_target_message("Linux"@, target),
            },
    {
        match target {
            BundleTarget::LinuxAppImage | BundleTarget::LinuxDeb | BundleTarget::LinuxRpm => Ok(
                target,
            ),
            _ => Err(invalid_target("Linux", target)),
        }
    }

    /// `{name}-{version}.AppImage`
    pub fn appimage_name(&self, config: &AppConfig) -> (r: String)
        ensures
            r@ == config.name@ + "-"@ + config.version@ + ".AppImage"@,
    {
        let mut s = String::new();
        push_str(&mut s, config.name.as_str());
        push_str(&mut s, "-");
        push_str(&mut s, config.version.as_str());
        push_str(&mut s, ".AppImage");
        s
    }

    /// `{package}_{version}_amd64.deb`
    pub fn deb_name(&self, config: &AppConfig) -> (r: String)
        ensures
            r@ == package_name(config.name@) + "_"@ + config.version@ + "_amd64.deb"@,
    {
        let mut s = package_name_of(config.name.as_str());
        push_str(&mut s, "_");
        push_str(&mut s, config.version.as_str());
        push_str(&mut s, "_amd64.deb");
        s
    }

    /// `{package}-{version}-1.x86_64.rpm`
    pub fn rpm_name(&self, config: &AppConfig) -> (r: String)
        ensures
            r@ == package_name(config.name@) + "-"@ + config.version@ + "-1.x86_64.rpm"@,
    {
        let mut s = package_name_of(config.name.as_str());
        push_str(&mut s, "-");
        push_str(&mut s, config.version.as_str());
        push_str(&mut s, "-1.x86_64.rpm");
        s
    }

    /// The desktop entry of the AppImage.
    pub fn generate_desktop_file(&self, config: &AppConfig) -> (r: String)
        ensures
            r@ == desktop_file_text_spec(config.name@),
    {
        desktop_file_text(config.name.as_str())
    }

    /// The control file of the `.deb` package; the maintainer is the
    /// copyright holder, or "Unknown".
    pub fn generate_deb_control(&self, config: &AppConfig) -> (r: String)
        ensures
            r@ == deb_control_text_spec(
                package_name(config.name@),
                config.version@,
                or_else(config.bundle.copyright, "Unknown"@),
                config.name@ + " desktop application"@,
            ),
    {
        let package = package_name_of(config.name.as_str());
        let maintainer = opt_str_or(&config.bundle.copyright, "Unknown");
        let mut description = String::new();
        push_str(&mut description, config.name.as_str());
        push_str(&mut description, " desktop application");
        deb_control_text(package.as_str(), config.version.as_str(), maintainer, description.as_str())
    }
}

impl MacOsBundler {
    pub fn new() -> (r: Self) {
        MacOsBundler
    }

    /// The target, when this bundler builds it.
    pub fn check_target(&self, target: BundleTarget) -> (r: Result<BundleTarget, String>)
        ensures
            match target {
                BundleTarget::MacOsApp | BundleTarget::MacOsDmg => r == Ok::<BundleTarget, String>(
                    target,
                ),
                _ => r matches Err(e) && e@ == invalid_target_message("macOS"@, target),
            },
    {
        match target {
            BundleTarget::MacOsApp | BundleTarget::MacOsDmg => Ok(target),
            _ => Err(invalid_target("macOS", target)),
        }
    }

    /// `{name}.app`
    pub fn app_name(&self, config: &AppConfig) -> (r: String)
        ensures
            r@ == config.name@ + ".app"@,
    {
        let mut s = String::new();
        push_str(&mut s, config.name.as_str());
        push_str(&mut s, ".app");
        s
    }

    /// `{name}-{version}.dmg`
    pub fn dmg_name(&self, config: &AppConfig) -> (r: String)
        ensures
            r@ == config.name@ + "-"@ + config.version@ + ".dmg"@,
    {
        let mut s = String::new();
        push_str(&mut s, config.name.as_str());
        push_str(&mut s, "-");
        push_str(&mut s, config.version.as_str());
        push_str(&mut s, ".dmg");
        s
    }

    /// The property list of the application bundle: the bundle id defaults
    /// to the application identifier; icon and copyright entries appear
    /// only when configured.
    pub fn generate_info_plist(&self, config: &AppConfig) -> (r: String)
        ensures
            r@ == info_plist_text_spec(
                config.name@,
                or_else(config.bundle.macos_bundle_id, config.identifier@),
                config.version@,
                match config.bundle.icon {
                    Some(_) => "<key>CFBundleIconFile</key>\n    <string>"@ + config.name@
                        + "</string>"@,
                    None => Seq::empty(),
                },
                match config.bundle.copyright {
                    Some(c) => "<key>NSHumanReadableCopyright</key>\n    <string>"@ + c@
                        + "</string>"@,
                    None => Seq::empty(),
                },
            ),
    {
        let identifier = opt_str_or(&config.bundle.macos_bundle_id, config.identifier.as_str());
        let mut icon = String::new();
        match &config.bundle.icon {
            Some(_) => {
                push_str(&mut icon, "<key>CFBundleIconFile</key>\n    <string>");
                push_str(&mut icon, config.name.as_str());
                push_str(&mut icon, "</string>");
            },
            None => {},
        }
        let mut copyright = String::new();
        match &config.bundle.copyright {
            Some(c) => {
                push_str(&mut copyright, "<key>NSHumanReadableCopyright</key>\n    <string>");
                push_str(&mut copyright, c.as_str());
                push_str(&mut copyright, "</string>");
            },
            None => {},
        }
        info_plist_text(
            config.name.as_str(),
            identifier,
            config.version.as_str(),
            icon.as_str(),
            copyright.as_str(),
        )
    }
}

impl WindowsBundler {
    pub fn new() -> (r: Self) {
        WindowsBundler
    }

    /// The target, when this bundler builds it.
    pub fn check_target(&self, target: BundleTarget) -> (r: Result<BundleTarget, String>)
        ensures
            match target {
                BundleTarget::WindowsPortable | BundleTarget::WindowsNsis
                | BundleTarget::WindowsWix => r == Ok::<BundleTarget, String>(target),
                _ => r matches Err(e) && e@ == invalid_target_message("Windows"@, target),
            },
    {
        match target {
            BundleTarget::WindowsPortable | BundleTarget::WindowsNsis
            | BundleTarget::WindowsWix => Ok(target),
            _ => Err(invalid_target("Windows", target)),
        }
    }

    /// `{name}.exe` with spaces as underscores.
    pub fn portable_name(&self, config: &AppConfig) -> (r: String)
        ensures
            r@ == exe_stem(config.name@) + ".exe"@,
    {
        let mut s = exe_stem_of(config.name.as_str());
        push_str(&mut s, ".exe");
        s
    }

    /// `{name}-{version}-setup.exe` with spaces as underscores.
    pub fn nsis_name(&self, config: &AppConfig) -> (r: String)
        ensures
            r@ == exe_stem(config.name@) + "-"@ + config.version@ + "-setup.exe"@,
    {
        let mut s = exe_stem_of(config.name.as_str());
        push_str(&mut s, "-");
        push_str(&mut s, config.version.as_str());
        push_str(&mut s, "-setup.exe");
        s
    }

    /// `{name}-{version}.msi` with spaces as underscores.
    pub fn wix_name(&self, config: &AppConfig) -> (r: String)
        ensures
            r@ == exe_stem(config.name@) + "-"@ + config.version@ + ".msi"@,
    {
        let mut s = exe_stem_of(config.name.as_str());
        push_str(&mut s, "-");
        push_str(&mut s, config.version.as_str());
        push_str(&mut s, ".msi");
        s
    }

    /// The NSIS script: an `Icon` line when an icon is configured and a
    /// publisher registry entry when a copyright is.
    pub fn generate_nsis_script(&self, config: &AppConfig) -> (r: String)
        ensures
            r@ == nsis_script_text_spec(
                config.name@,
                config.version@,
                match config.bundle.icon {
                    Some(i) => "Icon \""@ + i@ + "\""@,
                    None => Seq::empty(),
                },
                match config.bundle.copyright {
                    Some(c) => "WriteRegStr HKLM \"Software\\Microsoft\\Windows\\CurrentVersion\\Uninstall\\"@
                        + config.name@ + "\" \"Publisher\" \""@ + c@ + "\""@,
                    None => Seq::empty(),
                },
            ),
    {
        let mut icon = String::new();
        match &config.bundle.icon {
            Some(i) => {
                push_str(&mut icon, "Icon \"");
                push_str(&mut icon, i.as_str());
                push_str(&mut icon, "\"");
            },
            None => {},
        }
        let mut reg = String::new();
        match &config.bundle.copyright {
            Some(c) => {
                push_str(&mut reg, "WriteRegStr HKLM \"Software\\Microsoft\\Windows\\CurrentVersion\\Uninstall\\");
                push_str(&mut reg, config.name.as_str());
                push_str(&mut reg, "\" \"Publisher\" \"");
                push_str(&mut reg, c.as_str());
                push_str(&mut reg, "\"");
            },
            None => {},
        }
        nsis_script_text(config.name.as_str(), config.version.as_str(), icon.as_str(), reg.as_str())
    }

    /// The WiX manifest; the manufacturer is the copyright holder, or the
    /// application name.
    pub fn generate_wix_manifest(&self, config: &AppConfig) -> (r: String)
        ensures
            r@ == wix_manifest_text_spec(
                config.name@,
                config.version@,
                or_else(config.bundle.copyright, config.name@),
                "{00000000-0000-0000-0000-000000000000}"@,
            ),
    {
        let manufacturer = opt_str_or(&config.bundle.copyright, config.name.as_str());
        wix_manifest_text(
            config.name.as_str(),
            config.version.as_str(),
            manufacturer,
            "{00000000-0000-0000-0000-000000000000}",
        )
    }
}

} // verus!
