use rdesktop::bundler::{
    bundler_for, desktop_file_text, init_config_text, parse_target, renderer_name, select_targets,
    BundleTarget, BundlerKind, LinuxBundler, MacOsBundler, WindowsBundler,
};
use rdesktop::config::AppConfig;
use rdesktop::platform::TargetOs;

fn config() -> AppConfig {
    let mut c = AppConfig::default();
    c.name = "My App".to_string();
    c.version = "1.2.3".to_string();
    c.identifier = "com.example.my".to_string();
    c
}

#[test]
fn targets_per_platform() {
    assert_eq!(
        BundleTarget::for_current_platform(TargetOs::Windows),
        vec![BundleTarget::WindowsNsis, BundleTarget::WindowsPortable]
    );
    assert_eq!(BundleTarget::for_current_platform(TargetOs::MacOs), vec![BundleTarget::MacOsDmg]);
    assert_eq!(BundleTarget::for_current_platform(TargetOs::Linux), vec![BundleTarget::LinuxAppImage]);
    assert!(BundleTarget::for_current_platform(TargetOs::Other).is_empty());
}

#[test]
fn target_extensions() {
    assert_eq!(BundleTarget::WindowsWix.extension(), "msi");
    assert_eq!(BundleTarget::WindowsPortable.extension(), "exe");
    assert_eq!(BundleTarget::LinuxAppImage.extension(), "AppImage");
    assert_eq!(BundleTarget::MacOsApp.extension(), "app");
}

#[test]
fn target_names_parse() {
    assert_eq!(parse_target("NSIS").unwrap(), BundleTarget::WindowsNsis);
    assert_eq!(parse_target("msi").unwrap(), BundleTarget::WindowsWix);
    assert_eq!(parse_target("Exe").unwrap(), BundleTarget::WindowsPortable);
    assert_eq!(parse_target("AppImage").unwrap(), BundleTarget::LinuxAppImage);
    assert_eq!(parse_target("zip").unwrap_err(), "Unknown bundle target: zip");
}

#[test]
fn target_selection() {
    assert_eq!(select_targets(Some("deb"), false, TargetOs::Linux).unwrap(), vec![BundleTarget::LinuxDeb]);
    assert_eq!(
        select_targets(Some("deb"), true, TargetOs::Linux).unwrap(),
        vec![BundleTarget::LinuxAppImage]
    );
    assert_eq!(select_targets(None, false, TargetOs::MacOs).unwrap(), vec![BundleTarget::MacOsDmg]);
    assert!(select_targets(Some("what"), false, TargetOs::Linux).is_err());
    assert_eq!(bundler_for(TargetOs::Other), BundlerKind::Linux);
    assert_eq!(bundler_for(TargetOs::Windows), BundlerKind::Windows);
    assert_eq!(renderer_name(true), "chrome");
}

#[test]
fn linux_package_names_and_files() {
    let c = config();
    let b = LinuxBundler::new();
    assert_eq!(b.appimage_name(&c), "My App-1.2.3.AppImage");
    assert_eq!(b.deb_name(&c), "my-app_1.2.3_amd64.deb");
    assert_eq!(b.rpm_name(&c), "my-app-1.2.3-1.x86_64.rpm");
    assert_eq!(
        b.generate_desktop_file(&c),
        "[Desktop Entry]\nType=Application\nName=My App\nExec=My App\nIcon=My App\nCategories=Utility;\nTerminal=false\n"
    );
    assert_eq!(
        b.generate_deb_control(&c),
        "Package: my-app\nVersion: 1.2.3\nSection: utils\nPriority: optional\nArchitecture: amd64\nMaintainer: Unknown\nDescription: My App desktop application\n"
    );
    assert_eq!(desktop_file_text("x"), b.generate_desktop_file(&AppConfig { name: "x".to_string(), ..AppConfig::default() }));
    assert_eq!(
        b.check_target(BundleTarget::MacOsDmg).unwrap_err(),
        "Invalid target for Linux bundler: MacOsDmg"
    );
    assert_eq!(b.check_target(BundleTarget::LinuxRpm).unwrap(), BundleTarget::LinuxRpm);
}

#[test]
fn macos_bundle_files() {
    let mut c = config();
    let b = MacOsBundler::new();
    assert_eq!(b.app_name(&c), "My App.app");
    assert_eq!(b.dmg_name(&c), "My App-1.2.3.dmg");
    let plain = b.generate_info_plist(&c);
    assert!(plain.contains("<key>CFBundleIdentifier</key>\n    <string>com.example.my</string>"));
    assert!(plain.contains("<key>CFBundleVersion</key>\n    <string>1.2.3</string>"));
    assert!(!plain.contains("CFBundleIconFile"));
    assert!(plain.ends_with("<false/>\n    \n    \n</dict>\n</plist>"));
    c.bundle.macos_bundle_id = Some("org.example.bundle".to_string());
    c.bundle.icon = Some("icon.icns".to_string());
    c.bundle.copyright = Some("ACME".to_string());
    let full = b.generate_info_plist(&c);
    assert!(full.contains("<string>org.example.bundle</string>"));
    assert!(full.contains("<key>CFBundleIconFile</key>\n    <string>My App</string>"));
    assert!(full.contains("<key>NSHumanReadableCopyright</key>\n    <string>ACME</string>"));
    assert_eq!(
        b.check_target(BundleTarget::WindowsWix).unwrap_err(),
        "Invalid target for macOS bundler: WindowsWix"
    );
}

#[test]
fn windows_installer_files() {
    let mut c = config();
    let b = WindowsBundler::new();
    assert_eq!(b.portable_name(&c), "My_App.exe");
    assert_eq!(b.nsis_name(&c), "My_App-1.2.3-setup.exe");
    assert_eq!(b.wix_name(&c), "My_App-1.2.3.msi");
    let nsis = b.generate_nsis_script(&c);
    assert!(nsis.starts_with("\n!include \"MUI2.nsh\"\n\nName \"My App\"\n"));
    assert!(nsis.contains("OutFile \"target\\release\\bundle\\nsis\\My App-1.2.3-setup.exe\""));
    assert!(!nsis.contains("Publisher"));
    c.bundle.copyright = Some("ACME".to_string());
    c.bundle.icon = Some("app.ico".to_string());
    let nsis = b.generate_nsis_script(&c);
    assert!(nsis.contains("\nIcon \"app.ico\"\n"));
    assert!(nsis.contains(
        "WriteRegStr HKLM \"Software\\Microsoft\\Windows\\CurrentVersion\\Uninstall\\My App\" \"Publisher\" \"ACME\""
    ));
    let wix = b.generate_wix_manifest(&c);
    assert!(wix.contains("Manufacturer=\"ACME\" UpgradeCode=\"{00000000-0000-0000-0000-000000000000}\""));
    assert!(wix.contains("<File Id=\"EXE\" Source=\"target\\release\\My App.exe\" KeyPath=\"yes\" />"));
    c.bundle.copyright = None;
    assert!(b.generate_wix_manifest(&c).contains("Manufacturer=\"My App\""));
    assert_eq!(
        b.check_target(BundleTarget::LinuxDeb).unwrap_err(),
        "Invalid target for Windows bundler: LinuxDeb"
    );
}

#[test]
fn init_config_template() {
    let text = init_config_text("demo", renderer_name(false));
    assert!(text.starts_with("[app]\nidentifier = \"com.example.demo\"\nname = \"demo\"\n"));
    assert!(text.contains("[renderer]\nkind = \"webview\"\n"));
    assert!(text.ends_with("linux_packages = [\"appimage\"]\n"));
}
