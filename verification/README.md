# pkap — verified recording logic

The decision-making core of the pkap screen recorder (Tauri desktop app that
pipes captured frames into ffmpeg), written in Verus and proved against its
contracts.

- `src/` — the verified library
  - `state.rs`: session state (`AppState`), capture region, quality and format
    with their names
  - `settings_store.rs`: the settings file, profiles, the settings file path
  - `profiles.rs`: lookup, replace-or-append and removal of named profiles,
    and the lemmas relating them
  - `commands.rs`: what each frontend command decides (monitors, regions,
    settings, persistence, profiles, preview, recording start/stop, tray and
    shortcut)
  - `capture.rs`: crop computation, the ffmpeg command line, and the per-frame
    step of the capture loop
  - `text.rs`: decimal rendering and string comparison
- `app/` — the desktop shell: Tauri commands, windows, tray, global shortcut,
  the settings file on disk (serde), the capture thread (scap + ffmpeg).
- `tests/` — runtime tests of the library.
