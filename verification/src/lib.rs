//! rdesktop: the logic of a dual-engine desktop application framework
//! (system WebView or Chromium), with its contracts proved by Verus.
//!
//! The library holds configuration and its defaults, IPC and window-command
//! routing, the development server's recording and screenshot state, the
//! agent API's decisions, asset and bundle generation, global hotkeys and
//! input mapping, and input simulation plans. Windows, event loops, threads,
//! sockets and files belong to the program around it.


pub mod text;
pub mod platform;
pub mod error;
pub mod config;
pub mod renderer;
pub mod recording;
pub mod agent;
pub mod devserver;
pub mod webview;
pub mod assets;
pub mod bundler;
pub mod hotkeys;
pub mod hotkeys_win;
pub mod input;
pub mod simulate;
pub mod window;
pub mod cef;
pub mod native_capture;
pub mod application;
