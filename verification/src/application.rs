//! Starting an application: what the main window is created with and what
//! it loads first.

use crate::config::{AppConfig, WindowConfig, WindowIcon};
use crate::error::RdesktopError;
use vstd::prelude::*;
use vstd::string::*;

verus! {

/// Content to load in the main window.
#[derive(Debug, Clone)]
pub enum WindowContent {
    /// Load a URL.
    Url(String),
    /// Load HTML directly.
    Html(String),
}

/// An icon's pixels and size.
pub open spec fn icon_view(o: Option<WindowIcon>) -> Option<(Seq<u8>, u32, u32)> {
    match o {
        Some(i) => Some((i.rgba@, i.width, i.height)),
        None => None,
    }
}

fn clone_icon(o: &Option<WindowIcon>) -> (r: Option<WindowIcon>)
    ensures
        icon_view(r) == icon_view(*o),
{
    match o {
        Some(i) => {
            let mut rgba: Vec<u8> = Vec::new();
            let mut k: usize = 0;
            while k < i.rgba.len()
                invariant
                    k <= i.rgba@.len(),
                    rgba@ == i.rgba@.take(k as int),
                decreases i.rgba@.len() - k,
            {
                rgba.push(i.rgba[k]);
                proof {
                    assert(i.rgba@.take(k + 1) =~= i.rgba@.take(k as int).push(i.rgba@[k as int]));
                }
                k = k + 1;
            }
            proof {
                assert(i.rgba@.take(i.rgba@.len() as int) =~= i.rgba@);
            }
            Some(WindowIcon { rgba, width: i.width, height: i.height })
        },
        None => None,
    }
}

/// The main window takes the application's name as its title and every
/// other setting from the window configuration.
pub fn main_window_config(config: &AppConfig) -> (r: WindowConfig)
    ensures
        r.title@ == config.name@,
        r.width == config.window.width,
        r.height == config.window.height,
        r.resizable == config.window.resizable,
        r.decorations == config.window.decorations,
        r.transparent == config.window.transparent,
        r.always_on_top == config.window.always_on_top,
        r.visible_on_all_workspaces == config.window.visible_on_all_workspaces,
        r.kind == config.window.kind,
        r.click_through == config.window.click_through,
        r.min_size == config.window.min_size,
        r.max_size == config.window.max_size,
        icon_view(r.icon) == icon_view(config.window.icon),
{
    WindowConfig {
        title: config.name.clone(),
        width: config.window.width,
        height: config.window.height,
        resizable: config.window.resizable,
        decorations: config.window.decorations,
        transparent: config.window.transparent,
        always_on_top: config.window.always_on_top,
        visible_on_all_workspaces: config.window.visible_on_all_workspaces,
        icon: clone_icon(&config.window.icon),
        kind: config.window.kind,
        click_through: config.window.click_through,
        min_size: config.window.min_size,
        max_size: config.window.max_size,
    }
}

/// What the main window loads first: the configured content, or a blank page.
pub fn initial_content(content: Option<WindowContent>) -> (r: WindowContent)
    ensures
        match content {
            Some(WindowContent::Url(u)) => r matches WindowContent::Url(v) && v@ == u@,
            Some(WindowContent::Html(h)) => r matches WindowContent::Html(v) && v@ == h@,
            None => r matches WindowContent::Url(v) && v@ == "about:blank"@,
        },
{
    match content {
        Some(c) => c,
        None => WindowContent::Url(String::from_str("about:blank")),
    }
}

/// Building an application without a renderer is refused with this error.
pub fn missing_renderer_error() -> (r: RdesktopError)
    ensures
        r matches RdesktopError::RendererInit(m) && m@ == "No renderer provided. Use with_renderer()."@,
{
    RdesktopError::RendererInit(String::from_str("No renderer provided. Use with_renderer()."))
}

} // verus!
