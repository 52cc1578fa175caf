# Game Time Manager

Tracks how long games are played on Windows and shows the play time in a
small overlay from time to time, so that time does not fly unnoticed.

- `src/` is the verified library (Verus): the record of games and sessions
  (`watcher`), the ignore list (`ignore`, on the `regex` crate), the overlay
  schedule (`overlay`), the tray menu (`tray`) and text rendering (`text`).
- `app/` is the Windows program around it: the watch loop, the overlay window,
  the tray, the settings file and the system queries.
- `tests/` runs the library on concrete cases.
