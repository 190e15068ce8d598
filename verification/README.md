# Effect

A Windows dynamic wallpaper manager: it shows a local HTML page in a web view
placed behind the desktop icons, and puts the static wallpaper back when it
stops.

- `src/` is the verified library (Verus): the manager window's state machine
  (`controller`), the wallpaper's assets and the requests its web view may be
  answered (`assets`), the backup and restore of the static wallpaper
  (`desktop`), the window styles and geometry that place the wallpaper
  (`shell`), the wallpaper host's event loop (`host`), file locations
  (`paths`), the configuration (`config`) and text helpers (`text`).
- `app/` is the Windows program around it: widgets, file and COM access, the
  web view and its thread, and the JSON forms of the stored files.
- `tests/` exercise the library on concrete values.
