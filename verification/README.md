# peekaboo

The verified core of Peekaboo, a macOS stealth browser overlay: a transparent,
always-on-top web window that reveals on hover and hides on a panic hotkey.

- `src/` — the library, verified with Verus: the Ghost/Revealed hover state
  machine (`hover`), the panic-hotkey toggle (`overlay`), display hit-testing
  for restoring the window position (`monitor`), the settings the core owns
  (`settings`) and the rules that keep a working panic hotkey through saves and
  launches (`shortcut`).
- `app/` — the Tauri program around it: windows, cursor polling, the global
  shortcut plugin, the settings file, and the floating-point window geometry.
- `tests/` — tests of the library.
