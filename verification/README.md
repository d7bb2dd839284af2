# imbdmlive

A Direct3D 9 overlay that shows the danmaku (bullet chat), gifts, Super Chats
and guard purchases of a Bilibili live room on top of a game.

- `src/` is the verified library: settings parsing (`config`), the overlay's
  line buffer and its line limit (`state`), how live-room events change it
  (`danmaku`, `json`), the decisions of the connection worker
  (`danmaku::DanmakuWorker`), the log line format and redaction (`logger`),
  UTF-16 strings for the Windows API (`wide`), and small text utilities
  (`text`). Every function there carries a contract proved by Verus; the laws
  of the worker, of a reset overlay and of the UTF-16 encoding are stated as
  proof functions.
- `app/` is the DLL around it: `DllMain`, the settings file, the network client
  and its threads, the imgui windows, the clipboard and the Direct3D hooks.
- `tests/` runs the library on concrete inputs.

## The Direct3D 9 hooks

The overlay is installed with hudhook's Direct3D 9 hooks (`ImguiDx9Hooks`),
through the `Dx9Backend` of `app/backend.rs`. The DLL does not carry a
Direct3D 9 hook pipeline of its own (resolving the swapchain's `Present` and
the device's `Reset` through a throwaway device, detouring them with MinHook
and driving its own imgui renderer). Two consequences follow: a second
install is refused by hudhook's own rules rather than with an "overlay already
installed" error, and device resets are handled the way hudhook handles them.

## The line limit

The settings window has a line limit (最大行数, 10 to 1000; 200 by default).
Saving the settings trims the list to the limit at once, and the connection
worker trims it after every change, keeping the newest lines in order.

## Outside crates

The live-room client (`blivedm`) is called from `app/danmaku.rs` but is not
listed in `Cargo.toml`: with it, the dependency tree exceeds the size this
build environment accepts.
