//! Application configuration: the values read from `rdesktop.toml` or built
//! in code, and the defaults that apply where a field is left out.

use std::collections::HashMap;
use vstd::prelude::*;
use vstd::string::*;

verus! {

/// Configuration for the entire application.
#[derive(Debug, Clone)]
pub struct AppConfig {
    /// Application identifier in reverse domain notation.
    pub identifier: String,
    /// Name shown to users.
    pub name: String,
    /// Application version.
    pub version: String,
    pub renderer: RendererConfig,
    pub window: WindowConfig,
    pub dev: DevConfig,
    pub bundle: BundleConfig,
    /// Custom IPC command handlers, by name.
    pub commands: HashMap<String, CommandConfig>,
    /// Global hotkeys registered with the operating system.
    pub hotkeys: Vec<HotkeyConfig>,
    /// System-wide keyboard and mouse capture.
    pub global_input: GlobalInputConfig,
}

/// Renderer backend selection.
#[derive(Debug, Clone, Copy, PartialEq, Eq, Structural)]
pub enum RendererKind {
    /// The system WebView (WebView2, WKWebView, WebKitGTK).
    WebView,
    /// A Chromium browser driven through the DevTools protocol.
    Chrome,
}

/// The `[renderer]` section.
#[derive(Debug, Clone)]
pub struct RendererConfig {
    pub kind: RendererKind,
    /// Enable WebGPU in the web context.
    pub webgpu: bool,
    /// Origins allowed to navigate and invoke native IPC; empty means unrestricted.
    pub trusted_origins: Vec<String>,
    /// Largest UTF-8 byte length accepted from one IPC message.
    pub max_ipc_message_bytes: usize,
    /// Largest number of IPC handlers running at once.
    pub max_ipc_in_flight: usize,
}

/// The `[dev]` section: the browser development server.
#[derive(Debug, Clone)]
pub struct DevConfig {
    pub port: u16,
    pub host: String,
    pub open_browser: bool,
    pub hot_reload: bool,
    pub agent_mode: bool,
    pub devtools: bool,
}

/// Window layer.
#[derive(Debug, Clone, Copy, PartialEq, Eq, Structural)]
pub enum WindowKind {
    /// A standard application window.
    Normal,
    /// An always-on-top overlay.
    Overlay,
    /// The desktop wallpaper layer; clicks pass through.
    Wallpaper,
}

/// RGBA window icon.
#[derive(Debug, Clone)]
pub struct WindowIcon {
    /// Pixels in row-major RGBA order.
    pub rgba: Vec<u8>,
    pub width: u32,
    pub height: u32,
}

/// The `[window]` section.
#[derive(Debug, Clone)]
pub struct WindowConfig {
    pub title: String,
    pub width: u32,
    pub height: u32,
    pub resizable: bool,
    pub decorations: bool,
    pub transparent: bool,
    pub always_on_top: bool,
    pub visible_on_all_workspaces: bool,
    pub icon: Option<WindowIcon>,
    pub kind: WindowKind,
    /// Pointer events fall through to what is behind the window.
    pub click_through: bool,
    pub min_size: Option<(u32, u32)>,
    pub max_size: Option<(u32, u32)>,
}

/// The `[bundle]` section.
#[derive(Debug, Clone)]
pub struct BundleConfig {
    /// Windows installer format: "nsis", "wix" or "both".
    pub windows_installer: String,
    pub macos_bundle_id: Option<String>,
    /// Linux package formats.
    pub linux_packages: Vec<String>,
    pub icon: Option<String>,
    pub macos_sign: bool,
    pub macos_dmg: bool,
    pub copyright: Option<String>,
}

/// An IPC command handler run as an external command.
#[derive(Debug, Clone)]
pub struct CommandConfig {
    pub command: String,
    pub working_dir: Option<String>,
    pub env: HashMap<String, String>,
}

/// A global hotkey declared in configuration.
#[derive(Debug, Clone)]
pub struct HotkeyConfig {
    /// Stable identifier echoed to the handler.
    pub id: Option<String>,
    /// Key combination such as "Ctrl+Shift+K".
    pub combo: String,
    pub title: Option<String>,
}

/// The `[global_input]` section.
#[derive(Debug, Clone)]
pub struct GlobalInputConfig {
    pub enabled: bool,
    pub keyboard: bool,
    pub mouse: bool,
    /// Also forward mouse-move events.
    pub mouse_move: bool,
}

pub fn default_title() -> (r: String)
    ensures
        r@ == "rdesktop App"@,
{
    String::from_str("rdesktop App")
}

pub fn default_width() -> (r: u32)
    ensures
        r == 1280,
{
    1280
}

pub fn default_height() -> (r: u32)
    ensures
        r == 720,
{
    720
}

pub fn default_true() -> (r: bool)
    ensures
        r,
{
    true
}

pub fn default_max_ipc_message_bytes() -> (r: usize)
    ensures
        r == 1024 * 1024,
{
    1024 * 1024
}

pub fn default_max_ipc_in_flight() -> (r: usize)
    ensures
        r == 32,
{
    32
}

pub fn default_dev_port() -> (r: u16)
    ensures
        r == 1420,
{
    1420
}

pub fn default_dev_host() -> (r: String)
    ensures
        r@ == "localhost"@,
{
    String::from_str("localhost")
}

pub fn default_windows_installer() -> (r: String)
    ensures
        r@ == "nsis"@,
{
    String::from_str("nsis")
}

pub fn default_linux_packages() -> (r: Vec<String>)
    ensures
        r@.len() == 1,
        r@[0]@ == "appimage"@,
{
    let mut v: Vec<String> = Vec::new();
    v.push(String::from_str("appimage"));
    v
}

impl Default for RendererKind {
    fn default() -> (r: Self)
        ensures
            r == RendererKind::WebView,
    {
        RendererKind::WebView
    }
}

impl Default for WindowKind {
    fn default() -> (r: Self)
        ensures
            r == WindowKind::Normal,
    {
        WindowKind::Normal
    }
}

impl RendererConfig {
    pub open spec fn is_default(self) -> bool {
        &&& self.kind == RendererKind::WebView
        &&& self.webgpu
        &&& self.trusted_origins@.len() == 0
        &&& self.max_ipc_message_bytes == 1024 * 1024
        &&& self.max_ipc_in_flight == 32
    }
}

impl Default for RendererConfig {
    fn default() -> (r: Self)
        ensures
            r.is_default(),
    {
        RendererConfig {
            kind: RendererKind::WebView,
            webgpu: true,
            trusted_origins: Vec::new(),
            max_ipc_message_bytes: default_max_ipc_message_bytes(),
            max_ipc_in_flight: default_max_ipc_in_flight(),
        }
    }
}

impl DevConfig {
    pub open spec fn is_default(self) -> bool {
        &&& self.port == 1420
        &&& self.host@ == "localhost"@
        &&& self.open_browser
        &&& self.hot_reload
        &&& self.agent_mode
        &&& self.devtools
    }
}

impl Default for DevConfig {
    fn default() -> (r: Self)
        ensures
            r.is_default(),
    {
        DevConfig {
            port: default_dev_port(),
            host: default_dev_host(),
            open_browser: true,
            hot_reload: true,
            agent_mode: true,
            devtools: true,
        }
    }
}

impl WindowConfig {
    pub open spec fn is_default(self) -> bool {
        &&& self.title@ == "rdesktop App"@
        &&& self.width == 1280
        &&& self.height == 720
        &&& self.resizable
        &&& self.decorations
        &&& !self.transparent
        &&& !self.always_on_top
        &&& self.visible_on_all_workspaces
        &&& self.icon is None
        &&& self.kind == WindowKind::Normal
        &&& !self.click_through
        &&& self.min_size is None
        &&& self.max_size is None
    }
}

impl Default for WindowConfig {
    fn default() -> (r: Self)
        ensures
            r.is_default(),
    {
        WindowConfig {
            title: default_title(),
            width: default_width(),
            height: default_height(),
            resizable: default_true(),
            decorations: default_true(),
            transparent: false,
            always_on_top: false,
            visible_on_all_workspaces: true,
            icon: None,
            kind: WindowKind::Normal,
            click_through: false,
            min_size: None,
            max_size: None,
        }
    }
}

impl BundleConfig {
    pub open spec fn is_default(self) -> bool {
        &&& self.windows_installer@ == "nsis"@
        &&& self.macos_bundle_id is None
        &&& self.linux_packages@.len() == 1
        &&& self.linux_packages@[0]@ == "appimage"@
        &&& self.icon is None
        &&& !self.macos_sign
        &&& self.macos_dmg
        &&& self.copyright is None
    }
}

impl Default for BundleConfig {
    fn default() -> (r: Self)
        ensures
            r.is_default(),
    {
        BundleConfig {
            windows_installer: default_windows_installer(),
            macos_bundle_id: None,
            linux_packages: default_linux_packages(),
            icon: None,
            macos_sign: false,
            macos_dmg: true,
            copyright: None,
        }
    }
}

impl GlobalInputConfig {
    pub open spec fn is_default(self) -> bool {
        &&& !self.enabled
        &&& self.keyboard
        &&& self.mouse
        &&& !self.mouse_move
    }
}

impl Default for GlobalInputConfig {
    fn default() -> (r: Self)
        ensures
            r.is_default(),
    {
        GlobalInputConfig { enabled: false, keyboard: true, mouse: true, mouse_move: false }
    }
}

impl AppConfig {
    pub open spec fn is_default(self) -> bool {
        &&& self.identifier@ == "com.example.app"@
        &&& self.name@ == "rdesktop App"@
        &&& self.version@ == "0.1.0"@
        &&& self.renderer.is_default()
        &&& self.window.is_default()
        &&& self.dev.is_default()
        &&& self.bundle.is_default()
        &&& self.commands@.len() == 0
        &&& self.hotkeys@.len() == 0
        &&& self.global_input.is_default()
    }
}

impl Default for AppConfig {
    fn default() -> (r: Self)
        ensures
            r.is_default(),
    {
        AppConfig {
            identifier: String::from_str("com.example.app"),
            name: String::from_str("rdesktop App"),
            version: String::from_str("0.1.0"),
            renderer: RendererConfig::default(),
            window: WindowConfig::default(),
            dev: DevConfig::default(),
            bundle: BundleConfig::default(),
            commands: HashMap::new(),
            hotkeys: Vec::new(),
            global_input: GlobalInputConfig::default(),
        }
    }
}

} // verus!
