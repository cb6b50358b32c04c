//! The library's error type.

use crate::text::push_str;
use vstd::prelude::*;
use vstd::string::*;

verus! {

/// Errors of the framework, each with its message.
#[derive(Debug, Clone, PartialEq, Eq)]
pub enum RdesktopError {
    WindowCreation(String),
    RendererInit(String),
    Ipc(String),
    Config(String),
    Bundler(String),
    Cef(String),
    WebView(String),
    UnsupportedPlatform(String),
    GlobalInput(String),
    /// An error from elsewhere, with its own message.
    Other(String),
}

/// The text the error displays.
pub open spec fn error_text(e: RdesktopError) -> Seq<char> {
    match e {
        RdesktopError::WindowCreation(m) => "Window creation failed: "@ + m@,
        RdesktopError::RendererInit(m) => "Renderer initialization failed: "@ + m@,
        RdesktopError::Ipc(m) => "IPC error: "@ + m@,
        RdesktopError::Config(m) => "Configuration error: "@ + m@,
        RdesktopError::Bundler(m) => "Bundler error: "@ + m@,
        RdesktopError::Cef(m) => "CEF error: "@ + m@,
        RdesktopError::WebView(m) => "WebView error: "@ + m@,
        RdesktopError::UnsupportedPlatform(m) => "Unsupported platform: "@ + m@,
        RdesktopError::GlobalInput(m) => "Global input error: "@ + m@,
        RdesktopError::Other(m) => m@,
    }
}

impl RdesktopError {
    /// The error's message.
    pub fn to_string(&self) -> (r: String)
        ensures
            r@ == error_text(*self),
    {
        let mut s = String::new();
        match self {
            RdesktopError::WindowCreation(m) => {
                push_str(&mut s, "Window creation failed: ");
                push_str(&mut s, m.as_str());
            },
            RdesktopError::RendererInit(m) => {
                push_str(&mut s, "Renderer initialization failed: ");
                push_str(&mut s, m.as_str());
            },
            RdesktopError::Ipc(m) => {
                push_str(&mut s, "IPC error: ");
                push_str(&mut s, m.as_str());
            },
            RdesktopError::Config(m) => {
                push_str(&mut s, "Configuration error: ");
                push_str(&mut s, m.as_str());
            },
            RdesktopError::Bundler(m) => {
                push_str(&mut s, "Bundler error: ");
                push_str(&mut s, m.as_str());
            },
            RdesktopError::Cef(m) => {
                push_str(&mut s, "CEF error: ");
                push_str(&mut s, m.as_str());
            },
            RdesktopError::WebView(m) => {
                push_str(&mut s, "WebView error: ");
                push_str(&mut s, m.as_str());
            },
            RdesktopError::UnsupportedPlatform(m) => {
                push_str(&mut s, "Unsupported platform: ");
                push_str(&mut s, m.as_str());
            },
            RdesktopError::GlobalInput(m) => {
                push_str(&mut s, "Global input error: ");
                push_str(&mut s, m.as_str());
            },
            RdesktopError::Other(m) => {
                push_str(&mut s, m.as_str());
            },
        }
        s
    }
}

} // verus!
