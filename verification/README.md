# rdesktop

The logic of a dual-engine desktop application framework (system WebView or
an installed Chromium driven over the DevTools protocol), written in Verus
with its contracts proved.

## Layout

- `src/` — the verified library:
  - `config`, `error`, `platform`: configuration types, defaults, errors.
  - `renderer`, `webview`, `cef`, `window`, `application`: base-URL
    injection, window commands and IPC routing, asset requests, the queue of
    operations made before the event loop runs, window fitting and
    attributes, Chrome discovery.
  - `recording`, `agent`, `devserver`, `native_capture`: the development
    server's single recording session, the agent API's decisions, frontend
    serving, screenshots, and the native recorder's arithmetic.
  - `assets`, `bundler`: icon names, PNG and ICO encoding, bundle targets
    and package templates.
  - `hotkeys`, `hotkeys_win`, `input`, `simulate`: hotkey grammar and its
    round trip, virtual-key codes, hook messages to input events, and the
    event batches of synthetic input.
  - `text`: string helpers and the few trusted calls into std.
- `tests/` — tests of the library on concrete values.
- `app/` — the `rdesktop` command line and the platform code around the
  library: windows and event loops (tao, wry, chromiumoxide), the axum dev
  server, file I/O, and the Windows threads, hooks and Win32 calls.
