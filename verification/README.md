# caps_layout_switch

A tray program for Windows that switches the keyboard layout with CapsLock,
either cycling through the system's layouts (Win+Space) or going back and
forth between the current and the previously used layout.

- `src/` is the verified library: the settings (`state`), the decisions of the
  low-level keyboard hook (`switch`), the tray menu's texts, ids, commands and
  click handlers (`tray`), text helpers (`text`) and the icon decoding (`icon`,
  which calls the `image` crate).
- `app/` is the program around it: the Win32 hook and message loops, the
  synthesized input, the registry entry for start-up, the shared lock around
  the settings and the tray icon itself.
- `tests/` runs the library on concrete values.
